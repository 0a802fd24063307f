//! The builder that collects the agent's arguments, and the handle to a
//! tunnel that is up.

use crate::error::{TunnelError, TunnelErrorView, UrlFault};
use crate::handshake::{HandshakeView, StreamEventView};
use crate::handshake::lemma_first_loud_event_decides;
use crate::invocation::{Invocation, InvocationView};
use crate::pattern::{is_http_url, scan_of, spec_is_http_url, text_of, ScanView};
use vstd::prelude::*;
use vstd::string::*;

verus! {

/// The option by which the agent is told which address to expose.
pub const URL_OPTION: &'static str = "--url=";

/// The argument that tells the agent to expose `url`.
pub open spec fn url_argument(url: Seq<char>) -> Seq<char> {
    URL_OPTION@ + url
}

/// Whether an argument is one that names the address to expose.
pub open spec fn is_url_argument(arg: Seq<char>) -> bool {
    URL_OPTION@.is_prefix_of(arg)
}

/// The arguments held once `more` have been given after `held`.
pub open spec fn with_args(held: Seq<Seq<char>>, more: Seq<Seq<char>>) -> Seq<Seq<char>> {
    held + more
}

/// The arguments held once the address to expose has been set after `held`.
pub open spec fn with_url(held: Seq<Seq<char>>, url: Seq<char>) -> Seq<Seq<char>> {
    held.push(url_argument(url))
}

/// The arguments that a tunnel's agent is to be started with, in the order
/// in which the caller gave them.
#[derive(Debug)]
pub struct TunnelBuilder {
    args: Vec<String>,
}

impl View for TunnelBuilder {
    type V = Seq<Seq<char>>;

    closed spec fn view(&self) -> Seq<Seq<char>> {
        self.args.deep_view()
    }
}

impl Default for TunnelBuilder {
    /// A builder that holds no argument.
    fn default() -> (empty: TunnelBuilder)
        ensures
            empty@ == Seq::<Seq<char>>::empty(),
    {
        let empty = TunnelBuilder { args: Vec::new() };
        assert(empty@ =~= Seq::<Seq<char>>::empty());
        empty
    }
}

/// The mathematical value of a [`Tunnel`].
pub struct TunnelView {
    /// The name under which the agent was started.
    pub executable: Seq<char>,
    /// The public URL that the agent reported.
    pub url: Seq<char>,
    /// Whether the handle still stands for a running agent.
    pub running: bool,
}

impl TunnelView {
    /// The tunnel once it has been closed: nothing changes but that it no
    /// longer runs.
    pub open spec fn closed(self) -> TunnelView {
        TunnelView { running: false, ..self }
    }
}

/// What a handshake's report makes of a build: a tunnel in the running
/// state that carries the reported URL, or the reason why there is none.
pub open spec fn build_outcome(executable: Seq<char>, report: Option<Seq<char>>) -> Result<
    TunnelView,
    TunnelErrorView,
> {
    match report {
        None => Err(TunnelErrorView::NoUrl(UrlFault::Absent)),
        Some(url) => if spec_is_http_url(url) {
            Ok(TunnelView { executable, url, running: true })
        } else {
            Err(TunnelErrorView::NoUrl(UrlFault::Unusable))
        },
    }
}

impl TunnelBuilder {
    /// Appends `args` to the arguments, keeping their order.
    pub fn args(self, args: Vec<String>) -> (extended: TunnelBuilder)
        ensures
            extended@ == with_args(self@, args.deep_view()),
    {
        let mut own = self.args;
        let mut more = args;
        own.append(&mut more);
        let extended = TunnelBuilder { args: own };
        assert(extended@ =~= with_args(self@, args.deep_view()));
        extended
    }

    /// Appends the one argument that tells the agent to expose `url`.
    pub fn url(self, url: &str) -> (extended: TunnelBuilder)
        ensures
            extended@ == with_url(self@, url@),
    {
        let mut arg = URL_OPTION.to_owned();
        arg.append(url);
        let mut own = self.args;
        own.push(arg);
        let extended = TunnelBuilder { args: own };
        assert(extended@ =~= with_url(self@, url@));
        extended
    }

    /// The command line that starts the agent: `executable`, followed by
    /// exactly the arguments collected so far, in their order, with no
    /// input, standard output discarded and standard error piped.
    pub fn command_line(&self, executable: &str) -> (command: Invocation)
        ensures
            command@ == InvocationView::supervised(executable@, self@),
    {
        let mut args: Vec<String> = Vec::new();
        let mut at: usize = 0;
        while at < self.args.len()
            invariant
                at <= self.args.len(),
                args@.len() == at,
                forall|k: int| 0 <= k < at ==> args@[k]@ == self.args@[k]@,
            decreases self.args.len() - at,
        {
            args.push(self.args[at].clone());
            at += 1;
        }
        assert(args.deep_view() =~= self.args.deep_view());
        Invocation::supervised(executable.to_owned(), args)
    }

    /// Concludes the build once the agent runs under `executable` and its
    /// handshake has ended with `report`.
    ///
    /// A handle is made exactly when the handshake reported a text and the
    /// text is an `http://` or `https://` URL with a host. An empty or
    /// otherwise unusable text fails as `NoUrl(Unusable)`, no report at all as
    /// `NoUrl(Absent)`. The caller then has to stop the agent it started.
    pub fn build(self, executable: String, report: Option<String>) -> (built: Result<
        Tunnel,
        TunnelError,
    >)
        ensures
            match build_outcome(executable@, text_of(report)) {
                Ok(tunnel) => built matches Ok(made) && made@ == tunnel,
                Err(fault) => built matches Err(error) && error@ == fault,
            },
    {
        match report {
            None => Err(TunnelError::NoUrl(UrlFault::Absent)),
            Some(url) => if is_http_url(url.as_str()) {
                Ok(Tunnel { executable, url, running: true })
            } else {
                Err(TunnelError::NoUrl(UrlFault::Unusable))
            },
        }
    }
}

/// A tunnel that is up: the agent runs and has reported its public URL.
#[derive(Debug)]
pub struct Tunnel {
    executable: String,
    url: String,
    running: bool,
}

impl View for Tunnel {
    type V = TunnelView;

    closed spec fn view(&self) -> TunnelView {
        TunnelView { executable: self.executable@, url: self.url@, running: self.running }
    }
}

impl Tunnel {
    #[verifier::type_invariant]
    spec fn inv(self) -> bool {
        spec_is_http_url(self.url@)
    }

    /// A builder that holds no argument yet.
    pub fn builder() -> (empty: TunnelBuilder)
        ensures
            empty@ == Seq::<Seq<char>>::empty(),
    {
        TunnelBuilder::default()
    }

    /// The public URL of the tunnel. It is the one that the handshake
    /// reported, for as long as the handle lives, and it is always of the
    /// form `http://host...` or `https://host...`.
    pub fn url(&self) -> (url: &str)
        ensures
            url@ == self@.url,
            spec_is_http_url(url@),
            url@.len() > 0,
    {
        proof {
            use_type_invariant(self);
        }
        self.url.as_str()
    }

    /// The name under which the agent was started.
    pub fn executable(&self) -> (executable: &str)
        ensures
            executable@ == self@.executable,
    {
        self.executable.as_str()
    }

    /// Whether the handle still stands for a running agent: true from the
    /// build until the first `close`.
    pub fn is_running(&self) -> (running: bool)
        ensures
            running == self@.running,
    {
        self.running
    }

    /// Marks the tunnel as closed. Whoever owns the agent's process stops it
    /// on every call; closing again changes nothing.
    pub fn close(&mut self)
        ensures
            final(self)@ == old(self)@.closed(),
    {
        proof {
            use_type_invariant(&*self);
        }
        self.running = false;
    }
}

/// The agent is started with exactly the arguments that were given, in the
/// order in which they were given, however they were split over calls.
/// Where the URL was set once, at whatever point between them, its argument
/// stands at that point and the others are as if it had never been set; and
/// where none of the others names an address, exactly one argument does.
pub proof fn lemma_arguments_in_order(before: Seq<Seq<char>>, url: Seq<char>, after: Seq<Seq<char>>)
    ensures
        with_args(with_args(Seq::empty(), before), after) == before + after,
        with_args(with_url(with_args(Seq::empty(), before), url), after) == (before + after).insert(
            before.len() as int,
            url_argument(url),
        ),
        with_args(with_url(with_args(Seq::empty(), before), url), after).remove(
            before.len() as int,
        ) == before + after,
        is_url_argument(url_argument(url)),
        (forall|k: int| 0 <= k < before.len() ==> !is_url_argument(#[trigger] before[k])) && (
        forall|k: int| 0 <= k < after.len() ==> !is_url_argument(#[trigger] after[k]))
            ==> forall|k: int|
            0 <= k < before.len() + after.len() + 1 ==> (is_url_argument(
                #[trigger] with_args(with_url(with_args(Seq::empty(), before), url), after)[k],
            ) <==> k == before.len()),
{
    let all = with_args(with_url(with_args(Seq::empty(), before), url), after);
    assert(with_args(with_args(Seq::empty(), before), after) =~= before + after);
    assert(all =~= (before + after).insert(before.len() as int, url_argument(url)));
    assert(all.remove(before.len() as int) =~= before + after);
    assert(url_argument(url).subrange(0, URL_OPTION@.len() as int) =~= URL_OPTION@);
    if (forall|k: int| 0 <= k < before.len() ==> !is_url_argument(#[trigger] before[k])) && (
    forall|k: int| 0 <= k < after.len() ==> !is_url_argument(#[trigger] after[k])) {
        assert forall|k: int| 0 <= k < before.len() + after.len() + 1 implies (is_url_argument(
            #[trigger] all[k],
        ) <==> k == before.len()) by {
            if k < before.len() {
                assert(all[k] == before[k]);
            } else if k > before.len() {
                assert(all[k] == after[k - before.len() - 1]);
            }
        }
    }
}

/// Giving arguments in two calls is giving them in one.
pub proof fn lemma_args_calls_join(
    held: Seq<Seq<char>>,
    first: Seq<Seq<char>>,
    second: Seq<Seq<char>>,
)
    ensures
        with_args(with_args(held, first), second) == with_args(held, first + second),
{
    assert(with_args(with_args(held, first), second) =~= with_args(held, first + second));
}

/// Closing is idempotent: a tunnel that has been closed does not run, a
/// second close leaves it exactly as the first did, and its URL is never
/// touched.
pub proof fn lemma_close_is_idempotent(tunnel: TunnelView)
    ensures
        !tunnel.closed().running,
        tunnel.closed().closed() == tunnel.closed(),
        tunnel.closed().url == tunnel.url,
{
}

/// A stream that falls silent gives no tunnel: where every line before the
/// end of the stream, or before the read that fails, announces nothing, the
/// build fails for want of a URL.
pub proof fn lemma_silent_stream_gives_no_tunnel(
    executable: Seq<char>,
    events: Seq<StreamEventView>,
    at: int,
)
    requires
        0 <= at < events.len(),
        forall|k: int| 0 <= k < at ==> (#[trigger] events[k]).is_silent(),
        events[at] is End || events[at] is Failed,
    ensures
        build_outcome(executable, HandshakeView::Reading.run(events).report()) matches Err(fault)
            && fault == TunnelErrorView::NoUrl(UrlFault::Absent),
{
    lemma_first_loud_event_decides(events, at);
}

/// The first line that announces a text decides the build, whatever follows
/// it: a usable URL becomes the running tunnel's URL, letter for letter, and
/// an empty or otherwise unusable text fails the build.
pub proof fn lemma_first_announcement_decides(
    executable: Seq<char>,
    events: Seq<StreamEventView>,
    at: int,
    line: Seq<char>,
    text: Seq<char>,
)
    requires
        0 <= at < events.len(),
        forall|k: int| 0 <= k < at ==> (#[trigger] events[k]).is_silent(),
        events[at] == StreamEventView::Line(line),
        scan_of(line) == ScanView::Url(text),
    ensures
        HandshakeView::Reading.run(events) == HandshakeView::Found(text),
        spec_is_http_url(text) ==> (build_outcome(
            executable,
            HandshakeView::Reading.run(events).report(),
        ) matches Ok(tunnel) && tunnel == (TunnelView { executable, url: text, running: true })),
        !spec_is_http_url(text) ==> (build_outcome(
            executable,
            HandshakeView::Reading.run(events).report(),
        ) matches Err(fault) && fault == TunnelErrorView::NoUrl(UrlFault::Unusable)),
        text.len() == 0 ==> !spec_is_http_url(text),
{
    lemma_first_loud_event_decides(events, at);
}

} // verus!
