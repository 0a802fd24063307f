//! Finding a runnable agent: the one on the search path, the one installed
//! earlier, or a fresh download.
//!
//! The locator touches neither processes, files nor the network. It names
//! the next thing to do; the caller does it and replies with what came of it.
//!
//! | stage    | action                       | if it counts | if not   |
//! |----------|------------------------------|-------------|------------|
//! | `Probe`  | run `cloudflared -v`         | `System`    | `Lookup`   |
//! | `Lookup` | look at the install path     | `Installed` | `Fetch`    |
//! | `Fetch`  | request the release asset    | `Save`      | `Failed`   |
//! | `Save`   | write the response to disk   | `Installed` | `Failed`   |
//! | `Unpack` | run `tar` on what was saved  | `Installed` | `Failed`   |
//!
//! Two rows have a second way on: a platform without a release asset goes
//! from `Lookup` to `Unsupported` instead of `Fetch`, and an asset that is an
//! archive goes from `Save` to `Unpack` first.
//!
//! What counts is decided here as well. The probe counts as soon as the
//! command ran, whatever it reported; the unpacking only if `tar` reported
//! success; a fetch only if the response's status is from 200 to 299.

use crate::error::{TunnelError, TunnelErrorView};
use crate::invocation::{Invocation, InvocationView};
use crate::platform::Platform;
use vstd::prelude::*;
use vstd::string::*;

verus! {

/// The name under which an agent on the search path is started.
pub const SYSTEM_AGENT: &'static str = "cloudflared";

/// The flag that makes the agent print its version and exit.
pub const VERSION_FLAG: &'static str = "-v";

/// The program that unpacks an archived release.
pub const UNPACKER: &'static str = "tar";

/// Where the latest release of the agent is published; an asset's name
/// follows.
pub const RELEASES: &'static str =
    "https://github.com/cloudflare/cloudflared/releases/latest/download/";

/// How far the search for an agent has come.
#[derive(Clone, Copy, PartialEq, Eq, Structural, Debug)]
pub enum Stage {
    /// Try the agent on the search path.
    Probe,
    /// Look for an agent installed earlier.
    Lookup,
    /// Request the platform's release asset.
    Fetch,
    /// Write the fetched asset to disk.
    Save,
    /// Unpack the archive that was written.
    Unpack,
    /// Done: the agent on the search path is used.
    System,
    /// Done: the agent at the install path is used.
    Installed,
    /// Given up: the platform has no release asset.
    Unsupported,
    /// Given up: fetching, writing or unpacking went wrong.
    Failed,
}

/// What the caller reports after doing what it was asked to.
#[derive(Clone, Copy, PartialEq, Eq, Structural, Debug)]
pub enum Reply {
    /// It was done, or the answer is yes.
    Yes,
    /// It could not be done, or the answer is no.
    No,
    /// A response arrived with this HTTP status code.
    Status(u16),
    /// The command was started and ran to its end; `success` tells whether
    /// it reported success when it ended.
    Exited { success: bool },
}

impl Reply {
    /// Whether the reply counts as success: `Yes`, a status from 200 to 299,
    /// or a command that reported success.
    pub open spec fn spec_is_success(self) -> bool {
        match self {
            Reply::Yes => true,
            Reply::No => false,
            Reply::Status(code) => 200 <= code < 300,
            Reply::Exited { success } => success,
        }
    }

    /// Whether the reply tells of something that ran: any success, or a
    /// command that ran to its end, whatever it reported.
    pub open spec fn spec_ran(self) -> bool {
        self.spec_is_success() || self is Exited
    }

    /// Whether the reply counts as success: `Yes`, a status from 200 to 299,
    /// or a command that reported success.
    pub fn is_success(&self) -> (yes: bool)
        ensures
            yes == self.spec_is_success(),
    {
        match self {
            Reply::Yes => true,
            Reply::No => false,
            Reply::Status(code) => 200 <= *code && *code < 300,
            Reply::Exited { success } => *success,
        }
    }

    /// Whether the reply tells of something that ran: any success, or a
    /// command that ran to its end, whatever it reported.
    pub fn ran(&self) -> (yes: bool)
        ensures
            yes == self.spec_ran(),
    {
        match self {
            Reply::Exited { .. } => true,
            other => other.is_success(),
        }
    }
}

/// What the caller is asked to do next.
#[derive(PartialEq, Eq, Debug)]
pub enum Action {
    /// Run this command and wait for it. Reply `Exited` with what it
    /// reported, or `No` if it could not be run. The probe is lenient: a
    /// command that ran counts, whatever it printed or reported.
    Probe(Invocation),
    /// Reply `Yes` if a file exists at `path`.
    Lookup { path: String },
    /// Send a GET request to `url`. Reply with the status of the response,
    /// or `No` if none arrived.
    Fetch { url: String },
    /// Write the body of the response to a new file at `path`. Reply `Yes`
    /// if all of it was written.
    Save { path: String },
    /// Run this command and wait for it. Reply `Exited` with what it
    /// reported, or `No` if it could not be run. Only a command that
    /// reported success counts.
    Unpack(Invocation),
    /// The search is over: start the agent under this name.
    Use { executable: String },
    /// The search is over: there is no agent to start.
    Fail(TunnelError),
}

/// The mathematical value of an [`Action`].
pub enum ActionView {
    Probe(InvocationView),
    Lookup { path: Seq<char> },
    Fetch { url: Seq<char> },
    Save { path: Seq<char> },
    Unpack(InvocationView),
    Use { executable: Seq<char> },
    Fail(TunnelErrorView),
}

impl View for Action {
    type V = ActionView;

    open spec fn view(&self) -> ActionView {
        match self {
            Action::Probe(command) => ActionView::Probe(command@),
            Action::Lookup { path } => ActionView::Lookup { path: path@ },
            Action::Fetch { url } => ActionView::Fetch { url: url@ },
            Action::Save { path } => ActionView::Save { path: path@ },
            Action::Unpack(command) => ActionView::Unpack(command@),
            Action::Use { executable } => ActionView::Use { executable: executable@ },
            Action::Fail(error) => ActionView::Fail(error@),
        }
    }
}

/// The command that probes for an agent on the search path.
pub open spec fn probe_command() -> InvocationView {
    InvocationView::collected(SYSTEM_AGENT@, seq![VERSION_FLAG@])
}

/// The command that unpacks the fetched archive next to the install path.
pub open spec fn unpack_command(platform: Platform) -> InvocationView {
    InvocationView::collected(
        UNPACKER@,
        seq!["-xvf"@, platform.spec_download_path(), "-C"@, platform.spec_install_dir()],
    )
}

/// The address of the platform's release asset, if it has one.
pub open spec fn download_url(platform: Platform) -> Option<Seq<char>> {
    match platform.spec_asset_name() {
        Some(asset) => Some(RELEASES@ + asset),
        None => None,
    }
}

/// The mathematical value of a [`Locator`]: the platform it searches for and
/// the stage it has reached.
pub struct LocatorView {
    pub platform: Platform,
    pub stage: Stage,
}

impl LocatorView {
    /// A search that has not begun.
    pub open spec fn start(platform: Platform) -> LocatorView {
        LocatorView { platform, stage: Stage::Probe }
    }

    /// Only a platform with a release asset is ever fetched for, only an
    /// archived asset is ever unpacked, and only a platform without an asset
    /// is ever given up as unsupported.
    pub open spec fn wf(self) -> bool {
        &&& (self.stage == Stage::Fetch || self.stage == Stage::Save || self.stage == Stage::Unpack)
            ==> self.platform.spec_asset_name() is Some
        &&& self.stage == Stage::Unpack ==> self.platform.spec_needs_extraction()
        &&& self.stage == Stage::Unsupported ==> self.platform.spec_asset_name() is None
    }

    /// The search is over, with an agent or without.
    pub open spec fn is_settled(self) -> bool {
        match self.stage {
            Stage::System | Stage::Installed | Stage::Unsupported | Stage::Failed => true,
            _ => false,
        }
    }

    /// The number of replies that the search can still take in at most.
    pub open spec fn steps_left(self) -> nat {
        match self.stage {
            Stage::Probe => 5,
            Stage::Lookup => 4,
            Stage::Fetch => 3,
            Stage::Save => 2,
            Stage::Unpack => 1,
            _ => 0,
        }
    }

    /// What the caller is asked to do at this stage. A fetch for a platform
    /// without an asset, which `wf` rules out, is answered as unsupported.
    pub open spec fn action(self) -> ActionView {
        match self.stage {
            Stage::Probe => ActionView::Probe(probe_command()),
            Stage::Lookup => ActionView::Lookup { path: self.platform.spec_install_path() },
            Stage::Fetch => match download_url(self.platform) {
                Some(url) => ActionView::Fetch { url },
                None => ActionView::Fail(TunnelErrorView::UnsupportedPlatform),
            },
            Stage::Save => ActionView::Save { path: self.platform.spec_download_path() },
            Stage::Unpack => ActionView::Unpack(unpack_command(self.platform)),
            Stage::System => ActionView::Use { executable: SYSTEM_AGENT@ },
            Stage::Installed => ActionView::Use { executable: self.platform.spec_install_path() },
            Stage::Unsupported => ActionView::Fail(TunnelErrorView::UnsupportedPlatform),
            Stage::Failed => ActionView::Fail(TunnelErrorView::Download),
        }
    }

    /// The stage that follows once the caller has replied.
    pub open spec fn next_stage(self, reply: Reply) -> Stage {
        let ok = reply.spec_is_success();
        match self.stage {
            Stage::Probe => if reply.spec_ran() {
                Stage::System
            } else {
                Stage::Lookup
            },
            Stage::Lookup => if ok {
                Stage::Installed
            } else if self.platform.spec_asset_name() is Some {
                Stage::Fetch
            } else {
                Stage::Unsupported
            },
            Stage::Fetch => if ok {
                Stage::Save
            } else {
                Stage::Failed
            },
            Stage::Save => if !ok {
                Stage::Failed
            } else if self.platform.spec_needs_extraction() {
                Stage::Unpack
            } else {
                Stage::Installed
            },
            Stage::Unpack => if ok {
                Stage::Installed
            } else {
                Stage::Failed
            },
            settled => settled,
        }
    }

    /// The search after the caller has replied.
    pub open spec fn advance(self, reply: Reply) -> LocatorView {
        LocatorView { platform: self.platform, stage: self.next_stage(reply) }
    }

    /// The search after a whole run of replies, first to last.
    pub open spec fn run(self, replies: Seq<Reply>) -> LocatorView
        decreases replies.len(),
    {
        if replies.len() == 0 {
            self
        } else {
            self.advance(replies[0]).run(replies.drop_first())
        }
    }
}

/// The search for a runnable agent on one platform.
#[derive(Clone, Copy, PartialEq, Eq, Debug)]
pub struct Locator {
    platform: Platform,
    stage: Stage,
}

impl View for Locator {
    type V = LocatorView;

    closed spec fn view(&self) -> LocatorView {
        LocatorView { platform: self.platform, stage: self.stage }
    }
}

impl Locator {
    #[verifier::type_invariant]
    spec fn inv(self) -> bool {
        self@.wf()
    }

    /// Begins a search on `platform`. Every search begins anew: nothing is
    /// remembered from an earlier one.
    pub fn new(platform: Platform) -> (fresh: Locator)
        ensures
            fresh@ == LocatorView::start(platform),
            fresh@.wf(),
    {
        Locator { platform, stage: Stage::Probe }
    }

    /// The platform that is searched for.
    pub fn platform(&self) -> (platform: Platform)
        ensures
            platform == self@.platform,
    {
        self.platform
    }

    /// The stage that the search has reached.
    pub fn stage(&self) -> (stage: Stage)
        ensures
            stage == self@.stage,
            self@.wf(),
    {
        proof {
            use_type_invariant(self);
        }
        self.stage
    }

    /// Whether the search is over.
    pub fn is_settled(&self) -> (over: bool)
        ensures
            over == self@.is_settled(),
    {
        match self.stage {
            Stage::System | Stage::Installed | Stage::Unsupported | Stage::Failed => true,
            _ => false,
        }
    }

    /// What the caller has to do now. Once the search is over this is `Use`
    /// or `Fail`, and stays so.
    pub fn action(&self) -> (action: Action)
        ensures
            action@ == self@.action(),
    {
        match self.stage {
            Stage::Probe => {
                let mut args: Vec<String> = Vec::new();
                args.push(VERSION_FLAG.to_owned());
                proof {
                    assert(args.deep_view() =~= probe_command().args);
                }
                Action::Probe(Invocation::collected(SYSTEM_AGENT.to_owned(), args))
            },
            Stage::Lookup => Action::Lookup { path: self.platform.install_path().to_owned() },
            Stage::Fetch => match self.platform.asset_name() {
                Some(asset) => {
                    let mut url = RELEASES.to_owned();
                    url.append(asset);
                    Action::Fetch { url }
                },
                None => Action::Fail(TunnelError::UnsupportedPlatform),
            },
            Stage::Save => Action::Save { path: self.platform.download_path().to_owned() },
            Stage::Unpack => {
                let mut args: Vec<String> = Vec::new();
                args.push("-xvf".to_owned());
                args.push(self.platform.download_path().to_owned());
                args.push("-C".to_owned());
                args.push(self.platform.install_dir().to_owned());
                proof {
                    assert(args.deep_view() =~= unpack_command(self.platform).args);
                }
                Action::Unpack(Invocation::collected(UNPACKER.to_owned(), args))
            },
            Stage::System => Action::Use { executable: SYSTEM_AGENT.to_owned() },
            Stage::Installed => Action::Use { executable: self.platform.install_path().to_owned() },
            Stage::Unsupported => Action::Fail(TunnelError::UnsupportedPlatform),
            Stage::Failed => Action::Fail(TunnelError::Download),
        }
    }

    /// Takes in the caller's reply to the pending action and moves on. A
    /// search that is over stays as it is.
    pub fn advance(self, reply: Reply) -> (next: Locator)
        ensures
            next@ == self@.advance(reply),
            next@.wf(),
    {
        proof {
            use_type_invariant(&self);
        }
        let ok = reply.is_success();
        let stage = match self.stage {
            Stage::Probe => if reply.ran() {
                Stage::System
            } else {
                Stage::Lookup
            },
            Stage::Lookup => if ok {
                Stage::Installed
            } else if self.platform.asset_name().is_some() {
                Stage::Fetch
            } else {
                Stage::Unsupported
            },
            Stage::Fetch => if ok {
                Stage::Save
            } else {
                Stage::Failed
            },
            Stage::Save => if !ok {
                Stage::Failed
            } else if self.platform.needs_extraction() {
                Stage::Unpack
            } else {
                Stage::Installed
            },
            Stage::Unpack => if ok {
                Stage::Installed
            } else {
                Stage::Failed
            },
            settled => settled,
        };
        Locator { platform: self.platform, stage }
    }
}

/// Every search begins well formed and stays so, whatever the replies.
pub proof fn lemma_run_keeps_wf(search: LocatorView, replies: Seq<Reply>)
    requires
        search.wf(),
    ensures
        LocatorView::start(search.platform).wf(),
        search.run(replies).wf(),
        search.run(replies).platform == search.platform,
    decreases replies.len(),
{
    if replies.len() > 0 {
        lemma_run_keeps_wf(search.advance(replies[0]), replies.drop_first());
    }
}

/// A search that is over stays as it is, whatever is replied to it.
pub proof fn lemma_settled_absorbs(search: LocatorView, replies: Seq<Reply>)
    requires
        search.is_settled(),
    ensures
        search.run(replies) == search,
    decreases replies.len(),
{
    if replies.len() > 0 {
        lemma_settled_absorbs(search, replies.drop_first());
    }
}

/// Each reply to a search that is not over brings it closer to its end, and
/// no search takes in more than five.
pub proof fn lemma_search_ends(search: LocatorView, replies: Seq<Reply>)
    requires
        replies.len() >= search.steps_left(),
    ensures
        search.run(replies).is_settled(),
        replies.len() > 0 && !search.is_settled() ==> search.advance(replies[0]).steps_left()
            < search.steps_left(),
        search.steps_left() <= 5,
    decreases replies.len(),
{
    if replies.len() > 0 {
        lemma_search_ends(search.advance(replies[0]), replies.drop_first());
    }
}

/// When the probe ran, the agent on the search path is used and nothing
/// is ever fetched: at no point of the search, however it is replied to
/// afterwards, is the caller asked for a download.
pub proof fn lemma_probe_success_skips_download(platform: Platform, replies: Seq<Reply>, upto: int)
    requires
        replies.len() > 0,
        replies[0].spec_ran(),
        0 <= upto <= replies.len(),
    ensures
        !(LocatorView::start(platform).run(replies.take(upto)).action() is Fetch),
        upto > 0 ==> LocatorView::start(platform).run(replies.take(upto)).action()
            == (ActionView::Use { executable: SYSTEM_AGENT@ }),
{
    let start = LocatorView::start(platform);
    let taken = replies.take(upto);
    if upto > 0 {
        assert(taken[0] == replies[0]);
        lemma_settled_absorbs(start.advance(replies[0]), taken.drop_first());
    }
}

/// A search gives up as unsupported exactly when the probe fails, nothing is
/// installed and the platform has no release asset. With an asset it goes on
/// to fetch it.
pub proof fn lemma_unsupported_platform(platform: Platform, replies: Seq<Reply>)
    ensures
        LocatorView::start(platform).run(replies).stage == Stage::Unsupported <==> (
        platform.spec_asset_name() is None && replies.len() >= 2 && !replies[0].spec_ran()
            && !replies[1].spec_is_success()),
        replies.len() == 2 && !replies[0].spec_ran() && !replies[1].spec_is_success()
            && platform.spec_asset_name() is Some ==> LocatorView::start(platform).run(
            replies,
        ).stage == Stage::Fetch,
{
    let start = LocatorView::start(platform);
    if replies.len() >= 1 {
        let probed = start.advance(replies[0]);
        let rest = replies.drop_first();
        assert(start.run(replies) == probed.run(rest));
        if replies.len() >= 2 {
            let looked = probed.advance(rest[0]);
            let others = rest.drop_first();
            assert(rest[0] == replies[1]);
            assert(probed.run(rest) == looked.run(others));
            if looked.is_settled() {
                lemma_settled_absorbs(looked, others);
            } else {
                lemma_run_keeps_wf(looked, others);
            }
        } else {
            assert(probed.run(rest) == probed);
        }
    }
}

} // verus!
