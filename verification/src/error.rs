//! The ways in which bringing a tunnel up can fail.

use vstd::prelude::*;

verus! {

/// Why a handshake left the caller without a URL.
#[derive(Clone, Copy, PartialEq, Eq, Structural, Debug)]
pub enum UrlFault {
    /// The handshake ended without reporting anything: the agent's
    /// diagnostic stream closed, or could not be read, before a line matched.
    Absent,
    /// A line matched, but the text taken from it is empty or is no
    /// `http://` or `https://` URL.
    Unusable,
}

/// A failure that ends one attempt to bring a tunnel up.
#[derive(PartialEq, Eq, Debug)]
pub enum TunnelError {
    /// No release of the agent is known for this platform.
    UnsupportedPlatform,
    /// The agent could not be fetched, stored or unpacked.
    Download,
    /// The operating system refused to start the agent; the text is its reason.
    Spawn(String),
    /// The agent never reported a usable URL.
    NoUrl(UrlFault),
}

/// The mathematical value of a [`TunnelError`].
pub enum TunnelErrorView {
    UnsupportedPlatform,
    Download,
    Spawn(Seq<char>),
    NoUrl(UrlFault),
}

impl View for TunnelError {
    type V = TunnelErrorView;

    open spec fn view(&self) -> TunnelErrorView {
        match self {
            TunnelError::UnsupportedPlatform => TunnelErrorView::UnsupportedPlatform,
            TunnelError::Download => TunnelErrorView::Download,
            TunnelError::Spawn(reason) => TunnelErrorView::Spawn(reason@),
            TunnelError::NoUrl(fault) => TunnelErrorView::NoUrl(*fault),
        }
    }
}

impl TunnelErrorView {
    /// The text shown to the caller for this failure.
    pub open spec fn message(self) -> Seq<char> {
        match self {
            TunnelErrorView::UnsupportedPlatform => "Failed to download cloudflared"@,
            TunnelErrorView::Download => "Failed to download cloudflared"@,
            TunnelErrorView::Spawn(reason) => reason,
            TunnelErrorView::NoUrl(UrlFault::Unusable) => "Failed to get URL"@,
            TunnelErrorView::NoUrl(UrlFault::Absent) => "Failed to receive URL from channel"@,
        }
    }
}

impl TunnelError {
    /// Renders the failure as the single line of text reported to the caller.
    pub fn message(&self) -> (text: String)
        ensures
            text@ == self@.message(),
    {
        match self {
            TunnelError::UnsupportedPlatform => "Failed to download cloudflared".to_owned(),
            TunnelError::Download => "Failed to download cloudflared".to_owned(),
            TunnelError::Spawn(reason) => reason.clone(),
            TunnelError::NoUrl(UrlFault::Unusable) => "Failed to get URL".to_owned(),
            TunnelError::NoUrl(UrlFault::Absent) => "Failed to receive URL from channel".to_owned(),
        }
    }
}

} // verus!
