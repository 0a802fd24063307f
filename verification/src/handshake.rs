//! The startup handshake: following the agent's diagnostic stream until it
//! names the tunnel's URL or falls silent.
//!
//! The handshake never reads the stream itself. Whoever does tells it what
//! each read gave, and stops reading as soon as the handshake is over.

use crate::pattern::{scan_line, scan_of, text_of, url_capture, Scan, ScanView};
use vstd::prelude::*;

verus! {

/// What one attempt to read a line from the diagnostic stream gave.
#[derive(PartialEq, Eq, Debug)]
pub enum StreamEvent {
    /// A line was read; this is its text.
    Line(String),
    /// The stream is at its end.
    End,
    /// The read failed.
    Failed,
}

/// The mathematical value of a [`StreamEvent`].
pub enum StreamEventView {
    Line(Seq<char>),
    End,
    Failed,
}

impl View for StreamEvent {
    type V = StreamEventView;

    open spec fn view(&self) -> StreamEventView {
        match self {
            StreamEvent::Line(text) => StreamEventView::Line(text@),
            StreamEvent::End => StreamEventView::End,
            StreamEvent::Failed => StreamEventView::Failed,
        }
    }
}

impl StreamEventView {
    /// The event that a read stands for: `read` is the number of bytes it
    /// took, or `None` where it failed, and `text` is what it took.
    pub open spec fn of_read(read: Option<usize>, text: Seq<char>) -> StreamEventView {
        match read {
            None => StreamEventView::Failed,
            Some(bytes) => if bytes == 0 {
                StreamEventView::End
            } else {
                StreamEventView::Line(text)
            },
        }
    }

    /// A line that announces no URL: the only event that leaves a handshake
    /// reading.
    pub open spec fn is_silent(self) -> bool {
        self matches StreamEventView::Line(text) && scan_of(text) is Nothing
    }
}

impl StreamEvent {
    /// Classifies a read of the stream: a failed read, a read of no bytes
    /// (the end of the stream), or a line.
    pub fn from_read(read: Option<usize>, text: String) -> (event: StreamEvent)
        ensures
            event@ == StreamEventView::of_read(read, text@),
    {
        match read {
            None => StreamEvent::Failed,
            Some(bytes) => if bytes == 0 {
                StreamEvent::End
            } else {
                StreamEvent::Line(text)
            },
        }
    }
}

/// Where a handshake stands.
#[derive(PartialEq, Eq, Debug)]
pub enum Handshake {
    /// No line has matched yet and the stream is still open.
    Reading,
    /// A line matched; this is the text taken from it.
    Found(String),
    /// The stream ended before any line matched.
    StreamEnded,
    /// The stream could not be read, or a line could not be searched.
    ReadError,
}

/// The mathematical value of a [`Handshake`].
pub enum HandshakeView {
    Reading,
    Found(Seq<char>),
    StreamEnded,
    ReadError,
}

impl View for Handshake {
    type V = HandshakeView;

    open spec fn view(&self) -> HandshakeView {
        match self {
            Handshake::Reading => HandshakeView::Reading,
            Handshake::Found(url) => HandshakeView::Found(url@),
            Handshake::StreamEnded => HandshakeView::StreamEnded,
            Handshake::ReadError => HandshakeView::ReadError,
        }
    }
}

impl HandshakeView {
    /// The handshake is over: nothing that happens later changes it.
    pub open spec fn is_terminal(self) -> bool {
        !(self is Reading)
    }

    /// The state after the search of one more line gave `scan`.
    pub open spec fn observe(self, scan: ScanView) -> HandshakeView {
        match self {
            HandshakeView::Reading => match scan {
                ScanView::Url(text) => HandshakeView::Found(text),
                ScanView::Nothing => HandshakeView::Reading,
                ScanView::Refused => HandshakeView::ReadError,
            },
            _ => self,
        }
    }

    /// The state after one more read of the stream: a line is searched, the
    /// end of the stream and a failed read end the handshake.
    pub open spec fn step(self, event: StreamEventView) -> HandshakeView {
        match self {
            HandshakeView::Reading => match event {
                StreamEventView::Line(text) => self.observe(scan_of(text)),
                StreamEventView::End => HandshakeView::StreamEnded,
                StreamEventView::Failed => HandshakeView::ReadError,
            },
            _ => self,
        }
    }

    /// The state after a whole run of reads, first to last.
    pub open spec fn run(self, events: Seq<StreamEventView>) -> HandshakeView
        decreases events.len(),
    {
        if events.len() == 0 {
            self
        } else {
            self.step(events[0]).run(events.drop_first())
        }
    }

    /// What the handshake hands to the builder that waits for it: the text
    /// it found, or nothing.
    pub open spec fn report(self) -> Option<Seq<char>> {
        match self {
            HandshakeView::Found(text) => Some(text),
            _ => None,
        }
    }
}

impl Handshake {
    /// A handshake that has read nothing yet.
    pub fn new() -> (fresh: Handshake)
        ensures
            fresh@ == HandshakeView::Reading,
    {
        Handshake::Reading
    }

    /// Whether the handshake is over, so that the stream need not be read
    /// any further.
    pub fn is_terminal(&self) -> (over: bool)
        ensures
            over == self@.is_terminal(),
    {
        match self {
            Handshake::Reading => false,
            _ => true,
        }
    }

    /// Takes in what the search of one line gave. The first line that yields
    /// a text ends the handshake with it, whatever the text is; a search that
    /// could not be made ends it in `ReadError`; a handshake that is over
    /// stays as it is.
    pub fn observe(self, scan: Scan) -> (next: Handshake)
        ensures
            next@ == self@.observe(scan@),
    {
        match self {
            Handshake::Reading => match scan {
                Scan::Url(text) => Handshake::Found(text),
                Scan::Nothing => Handshake::Reading,
                Scan::Refused => Handshake::ReadError,
            },
            other => other,
        }
    }

    /// Takes in what one read of the stream gave, searching the line if
    /// there is one: the first line that announces a text ends the handshake
    /// with it, a line that the engine refuses to search ends it in
    /// `ReadError`. A handshake that is over stays as it is.
    pub fn step(self, event: StreamEvent) -> (next: Handshake)
        ensures
            next@ == self@.step(event@),
    {
        match self {
            Handshake::Reading => match event {
                StreamEvent::Line(text) => {
                    let scan = scan_line(text.as_str());
                    self.observe(scan)
                },
                StreamEvent::End => Handshake::StreamEnded,
                StreamEvent::Failed => Handshake::ReadError,
            },
            other => other,
        }
    }

    /// Ends the handshake and gives what it has to report: the text of the
    /// first line that matched, or nothing.
    pub fn report(self) -> (text: Option<String>)
        ensures
            text_of(text) == self@.report(),
    {
        match self {
            Handshake::Found(url) => Some(url),
            _ => None,
        }
    }
}

/// Once a handshake is over, no further event changes it: a URL is reported
/// at most once, and it is the first one.
pub proof fn lemma_terminal_absorbs(state: HandshakeView, events: Seq<StreamEventView>)
    requires
        state.is_terminal(),
    ensures
        state.run(events) == state,
    decreases events.len(),
{
    if events.len() > 0 {
        lemma_terminal_absorbs(state, events.drop_first());
    }
}

/// Lines that announce nothing are passed over: a fresh handshake is decided
/// by the first event that is not such a line, and by nothing after it.
pub proof fn lemma_first_loud_event_decides(events: Seq<StreamEventView>, at: int)
    requires
        0 <= at < events.len(),
        forall|k: int| 0 <= k < at ==> (#[trigger] events[k]).is_silent(),
        !events[at].is_silent(),
    ensures
        HandshakeView::Reading.run(events) == HandshakeView::Reading.step(events[at]),
        HandshakeView::Reading.run(events).is_terminal(),
    decreases at,
{
    let rest = events.drop_first();
    if at == 0 {
        lemma_terminal_absorbs(HandshakeView::Reading.step(events[0]), rest);
    } else {
        assert(events[0].is_silent());
        assert forall|k: int| 0 <= k < at - 1 implies (#[trigger] rest[k]).is_silent() by {
            assert(rest[k] == events[k + 1]);
        }
        assert(rest[at - 1] == events[at]);
        lemma_first_loud_event_decides(rest, at - 1);
    }
}

/// While every line read so far announces nothing, the handshake goes on
/// reading.
pub proof fn lemma_silent_lines_keep_reading(events: Seq<StreamEventView>)
    requires
        forall|k: int| 0 <= k < events.len() ==> (#[trigger] events[k]).is_silent(),
    ensures
        HandshakeView::Reading.run(events) == HandshakeView::Reading,
    decreases events.len(),
{
    if events.len() > 0 {
        let rest = events.drop_first();
        assert(events[0].is_silent());
        assert forall|k: int| 0 <= k < rest.len() implies (#[trigger] rest[k]).is_silent() by {
            assert(rest[k] == events[k + 1]);
        }
        lemma_silent_lines_keep_reading(rest);
    }
}

/// A URL is never made up: where a fresh handshake ends with a text, some
/// line announced exactly that text, and every line before it announced
/// nothing. The position of that line is returned.
pub proof fn lemma_found_was_announced(events: Seq<StreamEventView>, text: Seq<char>) -> (at: int)
    requires
        HandshakeView::Reading.run(events) == HandshakeView::Found(text),
    ensures
        0 <= at < events.len(),
        forall|k: int| 0 <= k < at ==> (#[trigger] events[k]).is_silent(),
        events[at] matches StreamEventView::Line(line) && scan_of(line) == ScanView::Url(text)
            && url_capture(line) == Some(text),
    decreases events.len(),
{
    let rest = events.drop_first();
    if events[0].is_silent() {
        let later = lemma_found_was_announced(rest, text);
        assert forall|k: int| 0 <= k < later + 1 implies (#[trigger] events[k]).is_silent() by {
            if k > 0 {
                assert(events[k] == rest[k - 1]);
            }
        }
        assert(events[later + 1] == rest[later]);
        later + 1
    } else {
        lemma_terminal_absorbs(HandshakeView::Reading.step(events[0]), rest);
        0
    }
}

} // verus!
