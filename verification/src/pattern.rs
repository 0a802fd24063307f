//! Picking the tunnel's public URL out of one line of the agent's diagnostics.
//!
//! The agent announces its URL on a line of the form `... |  https://host  |`.
//! The search for that shape is done by the `regex` engine; this module hands
//! the engine its pattern, names what the engine answers, and decides on its
//! own whether a piece of text is a URL that a tunnel may carry.

use crate::text::starts_with;
use vstd::prelude::*;
use vstd::string::*;

verus! {

/// A pipe, white space, then a token that starts with `http://` or
/// `https://` and runs up to the next white space.
pub const URL_PATTERN: &'static str = r"\|\s+(https?:\/\/[^\s]+)";

/// The number of the group in [`URL_PATTERN`] that holds the token.
pub const URL_GROUP: usize = 1;

#[verifier::external_type_specification]
#[verifier::external_body]
pub struct ExPatternError(regex::Error);

/// Whether the `regex` engine, with the limits it is built with, accepts
/// `pattern` as a regular expression.
pub uninterp spec fn accepted(pattern: Seq<char>) -> bool;

/// The text that capture group number `group` of `pattern` takes in the
/// leftmost match of `pattern` in `line`, as the `regex` engine defines
/// both; `None` where the pattern has no match there, has no such group, or
/// the group takes no part in the match. Nothing is said of it for a pattern
/// that the engine does not accept.
pub uninterp spec fn captured(pattern: Seq<char>, group: usize, line: Seq<char>) -> Option<Seq<char>>;

/// The characters of an optional piece of text.
pub open spec fn text_of(found: Option<String>) -> Option<Seq<char>> {
    match found {
        Some(text) => Some(text@),
        None => None,
    }
}

/// Compiles `pattern` with `regex::Regex::new`, searches `haystack` with
/// `Regex::captures` and copies the group's text out with `Captures::get`
/// and `Match::as_str`.
///
/// Trusted: the call fails exactly when the engine does not accept the
/// pattern, which [`accepted`] names and which rests on the pattern alone;
/// and when it is accepted, the answer is the one that [`captured`] names,
/// so the same pattern, group and haystack always give the same text.
#[verifier::external_body]
fn search(pattern: &str, group: usize, haystack: &str) -> (r: Result<Option<String>, regex::Error>)
    ensures
        r is Ok <==> accepted(pattern@),
        r matches Ok(found) ==> text_of(found) == captured(pattern@, group, haystack@),
{
    let compiled = regex::Regex::new(pattern)?;
    let found = compiled.captures(haystack).and_then(|groups| groups.get(group));
    Ok(found.map(|part| part.as_str().to_string()))
}

/// What the search of one line gave.
#[derive(PartialEq, Eq, Debug)]
pub enum Scan {
    /// The line announces this text as the tunnel's URL.
    Url(String),
    /// The line announces nothing.
    Nothing,
    /// The engine did not accept the pattern, so the line was not searched.
    Refused,
}

/// The mathematical value of a [`Scan`].
pub enum ScanView {
    Url(Seq<char>),
    Nothing,
    Refused,
}

impl View for Scan {
    type V = ScanView;

    open spec fn view(&self) -> ScanView {
        match self {
            Scan::Url(text) => ScanView::Url(text@),
            Scan::Nothing => ScanView::Nothing,
            Scan::Refused => ScanView::Refused,
        }
    }
}

/// The text that a line announces as the tunnel's URL, if it announces one.
pub open spec fn url_capture(line: Seq<char>) -> Option<Seq<char>> {
    captured(URL_PATTERN@, URL_GROUP, line)
}

/// The scan that a line gives: `Refused` for every line if the engine does
/// not accept [`URL_PATTERN`], else the text that the line announces, or
/// `Nothing`.
pub open spec fn scan_of(line: Seq<char>) -> ScanView {
    if !accepted(URL_PATTERN@) {
        ScanView::Refused
    } else {
        match url_capture(line) {
            Some(text) => ScanView::Url(text),
            None => ScanView::Nothing,
        }
    }
}

/// Searches one line of diagnostics for the tunnel's URL, handing the
/// engine [`URL_PATTERN`], [`URL_GROUP`] and the line.
pub fn scan_line(line: &str) -> (scan: Scan)
    ensures
        scan@ == scan_of(line@),
{
    match search(URL_PATTERN, URL_GROUP, line) {
        Ok(Some(text)) => Scan::Url(text),
        Ok(None) => Scan::Nothing,
        Err(_) => Scan::Refused,
    }
}

/// `text` is `scheme://host...` with scheme `http` or `https` and a host that
/// is not empty.
pub open spec fn spec_is_http_url(text: Seq<char>) -> bool {
    ||| "http://"@.is_prefix_of(text) && text.len() > "http://"@.len()
    ||| "https://"@.is_prefix_of(text) && text.len() > "https://"@.len()
}

/// Decides whether `text` is a URL that a tunnel may carry: `http://` or
/// `https://`, followed by at least one more character.
pub fn is_http_url(text: &str) -> (yes: bool)
    ensures
        yes == spec_is_http_url(text@),
{
    let length: usize = text.unicode_len();
    (starts_with(text, "http://") && length > "http://".unicode_len())
        || (starts_with(text, "https://") && length > "https://".unicode_len())
}

/// A usable URL is never empty.
pub proof fn lemma_http_url_not_empty(text: Seq<char>)
    requires
        spec_is_http_url(text),
    ensures
        text.len() > 0,
{
}

} // verus!
