//! One run of a deployment, as a dialogue.
//!
//! The deployer looks at nothing and changes nothing itself. It hands out a [`Request`],
//! the caller carries it out and hands back a [`Reply`], and the deployer decides on the
//! next request, until it hands out [`Request::Finish`]. A run first checks every item,
//! then installs every item, then writes the profile and patches the startup file.

use crate::deploy::deployer::{Deployer, DeployerView, PROFILE_FILE};
use crate::deploy::profile::profile_text;
use crate::deploy::startup::patched;
use crate::deploy::{Effect, EffectView, Installed, InstalledView, Seen};
use crate::error::{CheckError, CheckErrorView, DeployError, DeployErrorView};
use crate::op::apt::{listed_names, AptOp, AptOpView};
use crate::op::file::PathKind;
use crate::path::{join_path, joined};
use crate::program::{CommandLine, CommandLineView};
use vstd::prelude::*;

verus! {

/// What the deployer asks of its caller.
#[derive(Debug, PartialEq, Eq)]
pub enum Request {
    /// Say what stands at `path`. Answered by [`Reply::Kind`].
    Probe { path: String },
    /// Find the program named `program`. Answered by [`Reply::Text`] with its path.
    Locate { program: String },
    /// Run a command that asks the package manager what it knows, under the retry rule.
    /// Answered by [`Reply::Text`] with what the command wrote.
    Query(CommandLine),
    /// Carry out an effect. Answered by [`Reply::Text`] with the text that it gave, empty
    /// where it gives none.
    Perform(Effect),
    /// The run is over, with this outcome.
    Finish(Result<(), DeployError>),
}

/// The model of a [`Request`].
pub ghost enum RequestView {
    Probe { path: Seq<char> },
    Locate { program: Seq<char> },
    Query(CommandLineView),
    Perform(EffectView),
    Finish(Result<(), DeployErrorView>),
}

impl RequestView {
    /// Whether carrying out the request changes the machine.
    pub open spec fn mutates(self) -> bool {
        match self {
            RequestView::Perform(effect) => effect.mutates(),
            _ => false,
        }
    }

    /// Whether the request ends the run by turning the deployment down.
    pub open spec fn rejects(self) -> bool {
        match self {
            RequestView::Finish(Err(error)) => error.rejects(),
            _ => false,
        }
    }
}

impl DeepView for Request {
    type V = RequestView;

    open spec fn deep_view(&self) -> RequestView {
        match *self {
            Request::Probe { path } => RequestView::Probe { path: path@ },
            Request::Locate { program } => RequestView::Locate { program: program@ },
            Request::Query(command) => RequestView::Query(command@),
            Request::Perform(effect) => RequestView::Perform(effect@),
            Request::Finish(outcome) => RequestView::Finish(
                match outcome {
                    Ok(_) => Ok(()),
                    Err(error) => Err(error@),
                },
            ),
        }
    }
}

impl View for Request {
    type V = RequestView;

    open spec fn view(&self) -> RequestView {
        self.deep_view()
    }
}

/// What the caller answers.
#[derive(Debug, PartialEq, Eq)]
pub enum Reply {
    /// What stands at the path that was asked about.
    Kind(PathKind),
    /// The request was carried out, and gave this text.
    Text(String),
    /// The request could not be carried out; the text says why.
    Failed(String),
}

/// The model of a [`Reply`].
pub ghost enum ReplyView {
    Kind(PathKind),
    Text(Seq<char>),
    Failed(Seq<char>),
}

impl DeepView for Reply {
    type V = ReplyView;

    open spec fn deep_view(&self) -> ReplyView {
        match *self {
            Reply::Kind(kind) => ReplyView::Kind(kind),
            Reply::Text(text) => ReplyView::Text(text@),
            Reply::Failed(reason) => ReplyView::Failed(reason@),
        }
    }
}

impl View for Reply {
    type V = ReplyView;

    open spec fn view(&self) -> ReplyView {
        self.deep_view()
    }
}

/// Where a run stands: which reply it waits for.
#[derive(Clone, Copy, Debug, PartialEq, Eq, Structural)]
pub enum Stage {
    /// Checking: the path of the package manager.
    Locating,
    /// Checking: the end of the command that refreshes the package manager.
    Updating,
    /// Checking: the listing of the packages.
    Listing,
    /// Checking: what stands at the source of the item.
    ProbingSource,
    /// Checking: what stands at the target of the item.
    ProbingTarget,
    /// Checking: what stands at the deploy root.
    ProbingRoot,
    /// Installing: the end of the effect of the item.
    Applying,
    /// Installing: the profile is being written.
    WritingProfile,
    /// Installing: the startup file is being read.
    ReadingStartup,
    /// Installing: the startup file is being written.
    WritingStartup,
    /// The run ended with success.
    Done,
    /// The run ended while checking. Nothing was changed.
    Rejected,
    /// The run ended while installing. What was done stays.
    Broken,
}

impl Stage {
    /// Whether the run has not got past its checks.
    pub open spec fn checking(self) -> bool {
        self is Locating || self is Updating || self is Listing || self is ProbingSource
            || self is ProbingTarget || self is ProbingRoot
    }

    /// Whether every check has passed.
    pub open spec fn installing(self) -> bool {
        self is Applying || self is WritingProfile || self is ReadingStartup
            || self is WritingStartup || self is Done || self is Broken
    }
}

/// What was seen of an item before any of its paths was asked about.
pub open spec fn unseen() -> Seen {
    Seen { source: PathKind::Missing, target: PathKind::Missing }
}

/// What an item was checked against: the packages that were known, and what was seen at
/// its source and at its target.
pub ghost struct Witness {
    pub packages: Set<Seq<char>>,
    pub seen: Seen,
}

/// The state of a run.
pub struct Progress {
    pub(crate) stage: Stage,
    pub(crate) index: usize,
    pub(crate) apt: AptOp,
    pub(crate) indexed: bool,
    pub(crate) seen: Seen,
    pub(crate) installed: Vec<Installed>,
    pub(crate) checked: Ghost<Seq<Witness>>,
}

/// The model of a [`Progress`].
pub ghost struct ProgressView {
    /// Which reply the run waits for.
    pub stage: Stage,
    /// The place of the item that is being checked or installed.
    pub index: nat,
    /// The package manager, as far as it is known.
    pub apt: AptOpView,
    /// Whether the package index has been loaded.
    pub indexed: bool,
    /// What was seen of the item that is being checked.
    pub seen: Seen,
    /// What the items installed so far left behind.
    pub installed: Seq<InstalledView>,
    /// What each item that has passed its check was checked against, in the order of the
    /// items.
    pub checked: Seq<Witness>,
}

impl DeepView for Progress {
    type V = ProgressView;

    closed spec fn deep_view(&self) -> ProgressView {
        ProgressView {
            stage: self.stage,
            index: self.index as nat,
            apt: self.apt@,
            indexed: self.indexed,
            seen: self.seen,
            installed: self.installed.deep_view(),
            checked: self.checked@,
        }
    }
}

impl View for Progress {
    type V = ProgressView;

    open spec fn view(&self) -> ProgressView {
        self.deep_view()
    }
}

impl Progress {
    /// The stage of the run.
    pub fn stage(&self) -> (r: Stage)
        ensures
            r == self@.stage,
    {
        self.stage
    }
}

impl DeployerView {
    /// The path of the generated profile.
    pub open spec fn profile_file(self) -> Seq<char> {
        joined(self.install_dir, PROFILE_FILE@)
    }

    /// The run is turned down: nothing was changed.
    pub open spec fn reject(self, p: ProgressView, error: DeployErrorView) -> (
        ProgressView,
        RequestView,
    ) {
        (ProgressView { stage: Stage::Rejected, ..p }, RequestView::Finish(Err(error)))
    }

    /// The item under check is turned down for `reason`.
    pub open spec fn reject_item(self, p: ProgressView, reason: CheckErrorView) -> (
        ProgressView,
        RequestView,
    ) {
        if p.index < self.installers.len() {
            let info = self.installers[p.index as int];
            self.reject(
                p,
                DeployErrorView::Validation {
                    config_file: info.config_file,
                    item: info.item.label(),
                    reason,
                },
            )
        } else {
            self.reject(p, DeployErrorView::Protocol)
        }
    }

    /// The run breaks off while installing.
    pub open spec fn break_off(self, p: ProgressView, error: DeployErrorView) -> (
        ProgressView,
        RequestView,
    ) {
        (ProgressView { stage: Stage::Broken, ..p }, RequestView::Finish(Err(error)))
    }

    /// The first request of a run.
    pub open spec fn start(self) -> (ProgressView, RequestView) {
        self.examine(
            ProgressView {
                stage: Stage::ProbingRoot,
                index: 0,
                apt: AptOpView { apt_path: Seq::empty(), packages: Set::empty() },
                indexed: false,
                seen: unseen(),
                installed: Seq::empty(),
                checked: Seq::empty(),
            },
        )
    }

    /// Checking, at the start of the item at `p.index`: asks for the first thing that the
    /// check of the item needs and that is not known yet. Past the last item, asks what
    /// stands at the deploy root.
    pub open spec fn examine(self, p: ProgressView) -> (ProgressView, RequestView)
        decreases self.installers.len() - p.index, 2int,
    {
        if p.index >= self.installers.len() {
            (
                ProgressView { stage: Stage::ProbingRoot, ..p },
                RequestView::Probe { path: self.install_dir },
            )
        } else {
            let item = self.installers[p.index as int].item;
            if item.uses_packages() && !p.indexed {
                (
                    ProgressView { stage: Stage::Locating, ..p },
                    RequestView::Locate { program: "apt"@ },
                )
            } else {
                match item.source_path() {
                    Some(path) => (
                        ProgressView { stage: Stage::ProbingSource, ..p },
                        RequestView::Probe { path },
                    ),
                    None => self.after_source(p),
                }
            }
        }
    }

    /// Checking, once the source of the item is seen: asks what stands at its target, if
    /// it has one.
    pub open spec fn after_source(self, p: ProgressView) -> (ProgressView, RequestView)
        decreases self.installers.len() - p.index, 1int,
    {
        if p.index >= self.installers.len() {
            self.reject(p, DeployErrorView::Protocol)
        } else {
            match self.installers[p.index as int].item.target_path() {
                Some(path) => (
                    ProgressView { stage: Stage::ProbingTarget, ..p },
                    RequestView::Probe { path },
                ),
                None => self.judge(p),
            }
        }
    }

    /// Checking, once all is seen that the item needs: the run is turned down where the
    /// item does not pass its check, and goes on to the next item where it does.
    pub open spec fn judge(self, p: ProgressView) -> (ProgressView, RequestView)
        decreases self.installers.len() - p.index, 0int,
    {
        if p.index >= self.installers.len() {
            self.reject(p, DeployErrorView::Protocol)
        } else {
            match self.installers[p.index as int].item.check(p.apt.packages, p.seen) {
                Ok(_) => self.examine(
                    ProgressView {
                        index: p.index + 1,
                        seen: unseen(),
                        checked: p.checked.push(
                            Witness { packages: p.apt.packages, seen: p.seen },
                        ),
                        ..p
                    },
                ),
                Err(reason) => self.reject_item(p, reason),
            }
        }
    }

    /// Installing, at the start of the item at `p.index`: an item without an effect is
    /// recorded and passed, the effect of any other is asked for. Past the last item, the
    /// profile is written.
    pub open spec fn advance(self, p: ProgressView) -> (ProgressView, RequestView)
        decreases self.installers.len() - p.index,
    {
        if p.index >= self.installers.len() {
            (
                ProgressView { stage: Stage::WritingProfile, ..p },
                RequestView::Perform(
                    EffectView::Write {
                        path: self.profile_file(),
                        content: profile_text(p.installed, self.install_dir),
                        mode: None,
                    },
                ),
            )
        } else {
            let info = self.installers[p.index as int];
            match info.item.effect(p.apt) {
                Err(reason) => self.break_off(
                    p,
                    DeployErrorView::Apply {
                        config_file: info.config_file,
                        item: info.item.label(),
                        cause: reason.message(),
                    },
                ),
                Ok(EffectView::Nothing) => self.advance(
                    ProgressView {
                        index: p.index + 1,
                        installed: p.installed.push(info.item.installed(Seq::empty())),
                        ..p
                    },
                ),
                Ok(effect) => (
                    ProgressView { stage: Stage::Applying, ..p },
                    RequestView::Perform(effect),
                ),
            }
        }
    }

    /// One step of the checks: what follows `reply` in a stage of checking.
    pub open spec fn check_step(self, p: ProgressView, reply: ReplyView) -> (
        ProgressView,
        RequestView,
    ) {
        match p.stage {
            Stage::Locating => match reply {
                ReplyView::Text(path) => {
                    let apt = AptOpView { apt_path: path, packages: Set::empty() };
                    (
                        ProgressView { stage: Stage::Updating, apt, ..p },
                        RequestView::Query(apt.update()),
                    )
                },
                ReplyView::Failed(reason) => self.reject_item(
                    p,
                    CheckErrorView::PackageIndex(reason),
                ),
                ReplyView::Kind(_) => self.reject(p, DeployErrorView::Protocol),
            },
            Stage::Updating => match reply {
                ReplyView::Text(_) => (
                    ProgressView { stage: Stage::Listing, ..p },
                    RequestView::Query(p.apt.list()),
                ),
                ReplyView::Failed(reason) => self.reject_item(
                    p,
                    CheckErrorView::PackageIndex(reason),
                ),
                ReplyView::Kind(_) => self.reject(p, DeployErrorView::Protocol),
            },
            Stage::Listing => match reply {
                ReplyView::Text(listing) => self.examine(
                    ProgressView {
                        indexed: true,
                        apt: AptOpView {
                            apt_path: p.apt.apt_path,
                            packages: listed_names(listing).to_set(),
                        },
                        ..p
                    },
                ),
                ReplyView::Failed(reason) => self.reject_item(
                    p,
                    CheckErrorView::PackageIndex(reason),
                ),
                ReplyView::Kind(_) => self.reject(p, DeployErrorView::Protocol),
            },
            Stage::ProbingSource => match reply {
                ReplyView::Kind(kind) => self.after_source(
                    ProgressView { seen: Seen { source: kind, target: p.seen.target }, ..p },
                ),
                _ => self.reject(p, DeployErrorView::Protocol),
            },
            Stage::ProbingTarget => match reply {
                ReplyView::Kind(kind) => self.judge(
                    ProgressView { seen: Seen { source: p.seen.source, target: kind }, ..p },
                ),
                _ => self.reject(p, DeployErrorView::Protocol),
            },
            Stage::ProbingRoot => match reply {
                ReplyView::Kind(kind) => if kind == PathKind::Directory || kind
                    == PathKind::Missing {
                    self.advance(ProgressView { stage: Stage::Applying, index: 0, ..p })
                } else {
                    self.reject(p, DeployErrorView::Root(self.install_dir))
                },
                _ => self.reject(p, DeployErrorView::Protocol),
            },
            _ => (p, RequestView::Finish(Err(DeployErrorView::Protocol))),
        }
    }

    /// One step of the installation: what follows `reply` once every check has passed.
    pub open spec fn apply_step(self, p: ProgressView, reply: ReplyView) -> (
        ProgressView,
        RequestView,
    ) {
        match p.stage {
            Stage::Applying => if p.index < self.installers.len() {
                let info = self.installers[p.index as int];
                match reply {
                    ReplyView::Text(output) => self.advance(
                        ProgressView {
                            index: p.index + 1,
                            installed: p.installed.push(info.item.installed(output)),
                            ..p
                        },
                    ),
                    ReplyView::Failed(reason) => self.break_off(
                        p,
                        DeployErrorView::Apply {
                            config_file: info.config_file,
                            item: info.item.label(),
                            cause: reason,
                        },
                    ),
                    ReplyView::Kind(_) => self.break_off(p, DeployErrorView::Protocol),
                }
            } else {
                self.break_off(p, DeployErrorView::Protocol)
            },
            Stage::WritingProfile => match reply {
                ReplyView::Text(_) => (
                    ProgressView { stage: Stage::ReadingStartup, ..p },
                    RequestView::Perform(EffectView::Read { path: self.startup_file }),
                ),
                ReplyView::Failed(reason) => self.break_off(p, DeployErrorView::Profile(reason)),
                ReplyView::Kind(_) => self.break_off(p, DeployErrorView::Protocol),
            },
            Stage::ReadingStartup => match reply {
                ReplyView::Text(text) => (
                    ProgressView { stage: Stage::WritingStartup, ..p },
                    RequestView::Perform(
                        EffectView::Write {
                            path: self.startup_file,
                            content: patched(text, self.profile_file()),
                            mode: None,
                        },
                    ),
                ),
                ReplyView::Failed(reason) => self.break_off(p, DeployErrorView::Startup(reason)),
                ReplyView::Kind(_) => self.break_off(p, DeployErrorView::Protocol),
            },
            Stage::WritingStartup => match reply {
                ReplyView::Text(_) => (
                    ProgressView { stage: Stage::Done, ..p },
                    RequestView::Finish(Ok(())),
                ),
                ReplyView::Failed(reason) => self.break_off(p, DeployErrorView::Startup(reason)),
                ReplyView::Kind(_) => self.break_off(p, DeployErrorView::Protocol),
            },
            _ => (p, RequestView::Finish(Err(DeployErrorView::Protocol))),
        }
    }

    /// One step of a run: what follows `reply`.
    pub open spec fn step(self, p: ProgressView, reply: ReplyView) -> (ProgressView, RequestView) {
        if p.stage.checking() {
            self.check_step(p, reply)
        } else {
            self.apply_step(p, reply)
        }
    }
}

/// The state of a run after the replies `replies`.
pub open spec fn run_state(d: DeployerView, replies: Seq<ReplyView>) -> ProgressView
    decreases replies.len(),
{
    if replies.len() == 0 {
        d.start().0
    } else {
        d.step(run_state(d, replies.drop_last()), replies.last()).0
    }
}

/// The requests of a run up to the one that follows the replies `replies`: the first
/// request, and after it the request that follows each reply.
pub open spec fn run_requests(d: DeployerView, replies: Seq<ReplyView>) -> Seq<RequestView>
    decreases replies.len(),
{
    if replies.len() == 0 {
        seq![d.start().1]
    } else {
        run_requests(d, replies.drop_last()).push(
            d.step(run_state(d, replies.drop_last()), replies.last()).1,
        )
    }
}

/// Whether no request of `requests` changes the machine.
pub open spec fn changes_nothing(requests: Seq<RequestView>) -> bool {
    forall|j: int| 0 <= j < requests.len() ==> !(#[trigger] requests[j]).mutates()
}

/// Whether no request of `requests` turns the deployment down.
pub open spec fn rejects_nothing(requests: Seq<RequestView>) -> bool {
    forall|i: int| 0 <= i < requests.len() ==> !(#[trigger] requests[i]).rejects()
}

/// Whether the first `n` items have passed their checks, each against what is recorded
/// for it in `checked`.
pub open spec fn all_checked(d: DeployerView, checked: Seq<Witness>, n: int) -> bool {
    &&& checked.len() == n
    &&& n <= d.installers.len()
    &&& forall|k: int|
        0 <= k < n ==> (#[trigger] d.installers[k]).item.check(
            checked[k].packages,
            checked[k].seen,
        ) is Ok
}

/// What holds of the state of a run at every moment: while it checks, the items before
/// the one under check have passed; once it installs, all have.
spec fn state_sound(d: DeployerView, p: ProgressView) -> bool {
    &&& p.stage.checking() ==> all_checked(d, p.checked, p.index as int)
    &&& p.stage is ProbingRoot ==> p.index == d.installers.len()
    &&& p.stage.checking() && !(p.stage is ProbingRoot) ==> p.index < d.installers.len()
    &&& p.stage.installing() ==> all_checked(d, p.checked, d.installers.len() as int)
}

/// What holds of the requests of a run at every moment: while it checks, it has changed
/// nothing and turned nothing down; once turned down, it has changed nothing; and once it
/// installs, it has turned nothing down.
spec fn sound(d: DeployerView, p: ProgressView, requests: Seq<RequestView>) -> bool {
    &&& state_sound(d, p)
    &&& p.stage is Rejected ==> changes_nothing(requests)
    &&& p.stage.checking() ==> changes_nothing(requests) && rejects_nothing(requests)
    &&& p.stage.installing() ==> rejects_nothing(requests)
}

/// What one step does to the stage, and which requests it can give.
spec fn step_sound(before: Stage, after: Stage, request: RequestView) -> bool {
    &&& before is Rejected ==> after is Rejected && !request.mutates()
    &&& before.checking() ==> {
        ||| after.checking() && !request.mutates() && !request.rejects()
        ||| after is Rejected && !request.mutates()
        ||| after.installing() && !request.rejects()
    }
    &&& before.installing() ==> after.installing() && !request.rejects()
}

/// The state after the item at `p.index` has passed its check.
spec fn passed(p: ProgressView) -> ProgressView {
    ProgressView {
        index: p.index + 1,
        seen: unseen(),
        checked: p.checked.push(Witness { packages: p.apt.packages, seen: p.seen }),
        ..p
    }
}

/// A step of checking stays within the checks and asks for no change, unless it turns the
/// deployment down; and it goes past an item only when the item has passed its check.
proof fn lemma_examine(d: DeployerView, p: ProgressView, which: int)
    requires
        0 <= which <= 2,
        all_checked(d, p.checked, p.index as int),
    ensures
        ({
            let next = if which == 2 {
                d.examine(p)
            } else if which == 1 {
                d.after_source(p)
            } else {
                d.judge(p)
            };
            &&& !next.1.mutates()
            &&& next.0.stage.checking() || next.0.stage is Rejected
            &&& next.0.stage.checking() ==> !next.1.rejects()
            &&& state_sound(d, next.0)
        }),
    decreases d.installers.len() - p.index, which,
{
    if p.index < d.installers.len() {
        let item = d.installers[p.index as int].item;
        if which == 2 {
            if item.uses_packages() && !p.indexed {
            } else if item.source_path() is None {
                lemma_examine(d, p, 1);
            }
        } else if which == 1 {
            if item.target_path() is None {
                lemma_examine(d, p, 0);
            }
        } else {
            if item.check(p.apt.packages, p.seen) is Ok {
                let q = passed(p);
                assert forall|k: int| 0 <= k < q.index implies (#[trigger] d.installers[k]).item.check(
                    q.checked[k].packages,
                    q.checked[k].seen,
                ) is Ok by {
                    if k < p.index {
                        assert(q.checked[k] == p.checked[k]);
                    }
                }
                lemma_examine(d, q, 2);
            }
        }
    }
}

/// A step of the installation stays within the installation and turns nothing down.
proof fn lemma_advance(d: DeployerView, p: ProgressView)
    ensures
        d.advance(p).0.stage.installing(),
        d.advance(p).0.checked == p.checked,
        !d.advance(p).1.rejects(),
    decreases d.installers.len() - p.index,
{
    if p.index < d.installers.len() {
        let info = d.installers[p.index as int];
        match info.item.effect(p.apt) {
            Ok(EffectView::Nothing) => {
                lemma_advance(
                    d,
                    ProgressView {
                        index: p.index + 1,
                        installed: p.installed.push(info.item.installed(Seq::empty())),
                        ..p
                    },
                );
            },
            _ => {},
        }
    }
}

proof fn lemma_step(d: DeployerView, p: ProgressView, reply: ReplyView)
    requires
        state_sound(d, p),
    ensures
        step_sound(p.stage, d.step(p, reply).0.stage, d.step(p, reply).1),
        state_sound(d, d.step(p, reply).0),
{
    match p.stage {
        Stage::Listing => {
            if let ReplyView::Text(listing) = reply {
                lemma_examine(
                    d,
                    ProgressView {
                        indexed: true,
                        apt: AptOpView {
                            apt_path: p.apt.apt_path,
                            packages: listed_names(listing).to_set(),
                        },
                        ..p
                    },
                    2,
                );
            }
        },
        Stage::ProbingSource => {
            if let ReplyView::Kind(kind) = reply {
                lemma_examine(
                    d,
                    ProgressView { seen: Seen { source: kind, target: p.seen.target }, ..p },
                    1,
                );
            }
        },
        Stage::ProbingTarget => {
            if let ReplyView::Kind(kind) = reply {
                lemma_examine(
                    d,
                    ProgressView { seen: Seen { source: p.seen.source, target: kind }, ..p },
                    0,
                );
            }
        },
        Stage::ProbingRoot => {
            if let ReplyView::Kind(kind) = reply {
                lemma_advance(d, ProgressView { stage: Stage::Applying, index: 0, ..p });
            }
        },
        Stage::Applying => {
            if p.index < d.installers.len() {
                if let ReplyView::Text(output) = reply {
                    lemma_advance(
                        d,
                        ProgressView {
                            index: p.index + 1,
                            installed: p.installed.push(
                                d.installers[p.index as int].item.installed(output),
                            ),
                            ..p
                        },
                    );
                }
            }
        },
        _ => {},
    }
}

proof fn lemma_run_sound(d: DeployerView, replies: Seq<ReplyView>)
    ensures
        sound(d, run_state(d, replies), run_requests(d, replies)),
    decreases replies.len(),
{
    if replies.len() == 0 {
        lemma_examine(
            d,
            ProgressView {
                stage: Stage::ProbingRoot,
                index: 0,
                apt: AptOpView { apt_path: Seq::empty(), packages: Set::empty() },
                indexed: false,
                seen: unseen(),
                installed: Seq::empty(),
                checked: Seq::empty(),
            },
            2,
        );
    } else {
        let earlier = replies.drop_last();
        lemma_run_sound(d, earlier);
        lemma_step(d, run_state(d, earlier), replies.last());
    }
}

/// No change before all is valid. In a run that turns the deployment down, because an item
/// did not pass its check or the deploy root is no directory, no request changes the
/// machine: none before the one that turns it down, and none after. This holds whatever
/// the items are and whatever the caller replies.
pub proof fn lemma_no_change_unless_all_valid(d: DeployerView, replies: Seq<ReplyView>)
    ensures
        changes_nothing(run_requests(d, replies)) || rejects_nothing(run_requests(d, replies)),
{
    lemma_run_sound(d, replies);
}

/// Every change follows the checks. A run that has asked for a change has checked every
/// item before, and every item has passed its check against what the caller saw for it
/// and against the packages that were known then.
pub proof fn lemma_changes_follow_checks(d: DeployerView, replies: Seq<ReplyView>)
    requires
        !changes_nothing(run_requests(d, replies)),
    ensures
        all_checked(d, run_state(d, replies).checked, d.installers.len() as int),
{
    lemma_run_sound(d, replies);
}

impl Deployer {
    fn reject(&self, progress: &mut Progress, error: DeployError) -> (r: Request)
        ensures
            (final(progress)@, r@) == self@.reject(old(progress)@, error@),
    {
        progress.stage = Stage::Rejected;
        Request::Finish(Err(error))
    }

    fn reject_item(&self, progress: &mut Progress, reason: CheckError) -> (r: Request)
        ensures
            (final(progress)@, r@) == self@.reject_item(old(progress)@, reason@),
    {
        proof {
            self.lemma_view();
        }
        if progress.index < self.installers.len() {
            let info = &self.installers[progress.index];
            let error = DeployError::Validation {
                config_file: info.config_file.clone(),
                item: info.install_items.label(),
                reason,
            };
            self.reject(progress, error)
        } else {
            self.reject(progress, DeployError::Protocol)
        }
    }

    fn break_off(&self, progress: &mut Progress, error: DeployError) -> (r: Request)
        ensures
            (final(progress)@, r@) == self@.break_off(old(progress)@, error@),
    {
        progress.stage = Stage::Broken;
        Request::Finish(Err(error))
    }

    fn examine(&self, progress: &mut Progress) -> (r: Request)
        ensures
            (final(progress)@, r@) == self@.examine(old(progress)@),
    {
        proof {
            self.lemma_view();
        }
        loop
            invariant
                self@.installers == self.installers.deep_view(),
                self@.install_dir == self.install_dir@,
                self@.examine(progress@) == self@.examine(old(progress)@),
            decreases self.installers.len() - progress.index,
        {
            if progress.index >= self.installers.len() {
                progress.stage = Stage::ProbingRoot;
                return Request::Probe { path: self.install_dir.clone() };
            }
            let info = &self.installers[progress.index];
            if info.install_items.uses_packages() && !progress.indexed {
                progress.stage = Stage::Locating;
                return Request::Locate { program: "apt".to_owned() };
            }
            match info.install_items.source_path() {
                Some(path) => {
                    progress.stage = Stage::ProbingSource;
                    return Request::Probe { path };
                },
                None => {},
            }
            match info.install_items.target_path() {
                Some(path) => {
                    progress.stage = Stage::ProbingTarget;
                    return Request::Probe { path };
                },
                None => {},
            }
            match info.install_items.check(&progress.apt, progress.seen) {
                Ok(_) => {
                    progress.checked = Ghost(
                        progress.checked@.push(
                            Witness { packages: progress.apt@.packages, seen: progress.seen },
                        ),
                    );
                    progress.index = progress.index + 1;
                    progress.seen = Seen { source: PathKind::Missing, target: PathKind::Missing };
                },
                Err(reason) => {
                    return self.reject_item(progress, reason);
                },
            }
        }
    }

    fn judge(&self, progress: &mut Progress) -> (r: Request)
        ensures
            (final(progress)@, r@) == self@.judge(old(progress)@),
    {
        proof {
            self.lemma_view();
        }
        if progress.index >= self.installers.len() {
            return self.reject(progress, DeployError::Protocol);
        }
        let info = &self.installers[progress.index];
        match info.install_items.check(&progress.apt, progress.seen) {
            Ok(_) => {
                progress.checked = Ghost(
                    progress.checked@.push(
                        Witness { packages: progress.apt@.packages, seen: progress.seen },
                    ),
                );
                progress.index = progress.index + 1;
                progress.seen = Seen { source: PathKind::Missing, target: PathKind::Missing };
                self.examine(progress)
            },
            Err(reason) => self.reject_item(progress, reason),
        }
    }

    fn after_source(&self, progress: &mut Progress) -> (r: Request)
        ensures
            (final(progress)@, r@) == self@.after_source(old(progress)@),
    {
        proof {
            self.lemma_view();
        }
        if progress.index >= self.installers.len() {
            return self.reject(progress, DeployError::Protocol);
        }
        match self.installers[progress.index].install_items.target_path() {
            Some(path) => {
                progress.stage = Stage::ProbingTarget;
                Request::Probe { path }
            },
            None => self.judge(progress),
        }
    }

    fn advance(&self, progress: &mut Progress) -> (r: Request)
        ensures
            (final(progress)@, r@) == self@.advance(old(progress)@),
    {
        proof {
            self.lemma_view();
        }
        loop
            invariant
                self@.installers == self.installers.deep_view(),
                self@.install_dir == self.install_dir@,
                self@.advance(progress@) == self@.advance(old(progress)@),
            decreases self.installers.len() - progress.index,
        {
            if progress.index >= self.installers.len() {
                let profile_file = join_path(self.install_dir.as_str(), PROFILE_FILE);
                let content = Deployer::profile(&progress.installed, self.install_dir.as_str());
                progress.stage = Stage::WritingProfile;
                return Request::Perform(Effect::Write { path: profile_file, content, mode: None });
            }
            let info = &self.installers[progress.index];
            match info.install_items.install(&progress.apt) {
                Err(reason) => {
                    let error = DeployError::Apply {
                        config_file: info.config_file.clone(),
                        item: info.install_items.label(),
                        cause: reason.message(),
                    };
                    return self.break_off(progress, error);
                },
                Ok(Effect::Nothing) => {
                    let ghost before = progress.installed.deep_view();
                    let left = info.install_items.installed("");
                    progress.installed.push(left);
                    progress.index = progress.index + 1;
                    proof {
                        reveal_strlit("");
                        assert(""@ =~= Seq::<char>::empty());
                        assert(progress.installed.deep_view() =~= before.push(
                            info@.item.installed(Seq::empty()),
                        ));
                    }
                },
                Ok(effect) => {
                    progress.stage = Stage::Applying;
                    return Request::Perform(effect);
                },
            }
        }
    }

    /// Starts a run: the state of the run and its first request.
    pub fn start(&self) -> (r: (Progress, Request))
        ensures
            (r.0@, r.1@) == self@.start(),
    {
        let mut progress = Progress {
            stage: Stage::ProbingRoot,
            index: 0,
            apt: AptOp::new(String::new()),
            indexed: false,
            seen: Seen { source: PathKind::Missing, target: PathKind::Missing },
            installed: Vec::new(),
            checked: Ghost(Seq::empty()),
        };
        assert(progress.installed.deep_view() =~= Seq::<InstalledView>::empty());
        let request = self.examine(&mut progress);
        (progress, request)
    }

    /// One step of the checks. Every item is checked, in order, on what the caller saw for
    /// it; the first that does not pass ends the run, and no request before that changes
    /// anything. When all have passed and the deploy root is a directory or missing, the
    /// installation starts.
    pub fn check_all(&self, progress: &mut Progress, reply: Reply) -> (r: Request)
        ensures
            (final(progress)@, r@) == self@.check_step(old(progress)@, reply@),
    {
        proof {
            self.lemma_view();
        }
        match progress.stage {
            Stage::Locating => match reply {
                Reply::Text(path) => {
                    progress.apt = AptOp::new(path);
                    progress.stage = Stage::Updating;
                    Request::Query(progress.apt.update())
                },
                Reply::Failed(reason) => self.reject_item(
                    progress,
                    CheckError::PackageIndex(reason),
                ),
                Reply::Kind(_) => self.reject(progress, DeployError::Protocol),
            },
            Stage::Updating => match reply {
                Reply::Text(_) => {
                    progress.stage = Stage::Listing;
                    Request::Query(progress.apt.list())
                },
                Reply::Failed(reason) => self.reject_item(
                    progress,
                    CheckError::PackageIndex(reason),
                ),
                Reply::Kind(_) => self.reject(progress, DeployError::Protocol),
            },
            Stage::Listing => match reply {
                Reply::Text(listing) => {
                    progress.apt.get_list(listing.as_str());
                    progress.indexed = true;
                    self.examine(progress)
                },
                Reply::Failed(reason) => self.reject_item(
                    progress,
                    CheckError::PackageIndex(reason),
                ),
                Reply::Kind(_) => self.reject(progress, DeployError::Protocol),
            },
            Stage::ProbingSource => match reply {
                Reply::Kind(kind) => {
                    progress.seen = Seen { source: kind, target: progress.seen.target };
                    self.after_source(progress)
                },
                _ => self.reject(progress, DeployError::Protocol),
            },
            Stage::ProbingTarget => match reply {
                Reply::Kind(kind) => {
                    progress.seen = Seen { source: progress.seen.source, target: kind };
                    self.judge(progress)
                },
                _ => self.reject(progress, DeployError::Protocol),
            },
            Stage::ProbingRoot => match reply {
                Reply::Kind(kind) => match kind {
                    PathKind::Directory | PathKind::Missing => {
                        progress.stage = Stage::Applying;
                        progress.index = 0;
                        self.advance(progress)
                    },
                    _ => self.reject(progress, DeployError::Root(self.install_dir.clone())),
                },
                _ => self.reject(progress, DeployError::Protocol),
            },
            _ => Request::Finish(Err(DeployError::Protocol)),
        }
    }

    /// One step of the installation. Every item is installed, in order; the first whose
    /// effect fails ends the run, and what was installed before it stays. After the last
    /// item the profile is written, and the managed block of the startup file is replaced
    /// by one that sources the profile.
    pub fn deploy_all(&self, progress: &mut Progress, reply: Reply) -> (r: Request)
        ensures
            (final(progress)@, r@) == self@.apply_step(old(progress)@, reply@),
    {
        proof {
            self.lemma_view();
        }
        match progress.stage {
            Stage::Applying => {
                if progress.index < self.installers.len() {
                    let info = &self.installers[progress.index];
                    match reply {
                        Reply::Text(output) => {
                            let ghost before = progress.installed.deep_view();
                            let left = info.install_items.installed(output.as_str());
                            progress.installed.push(left);
                            progress.index = progress.index + 1;
                            assert(progress.installed.deep_view() =~= before.push(
                                info@.item.installed(output@),
                            ));
                            self.advance(progress)
                        },
                        Reply::Failed(reason) => {
                            let error = DeployError::Apply {
                                config_file: info.config_file.clone(),
                                item: info.install_items.label(),
                                cause: reason,
                            };
                            self.break_off(progress, error)
                        },
                        Reply::Kind(_) => self.break_off(progress, DeployError::Protocol),
                    }
                } else {
                    self.break_off(progress, DeployError::Protocol)
                }
            },
            Stage::WritingProfile => match reply {
                Reply::Text(_) => {
                    progress.stage = Stage::ReadingStartup;
                    Request::Perform(Effect::Read { path: self.startup_file.clone() })
                },
                Reply::Failed(reason) => self.break_off(progress, DeployError::Profile(reason)),
                Reply::Kind(_) => self.break_off(progress, DeployError::Protocol),
            },
            Stage::ReadingStartup => match reply {
                Reply::Text(text) => {
                    let profile_file = join_path(self.install_dir.as_str(), PROFILE_FILE);
                    let cleared = Deployer::unset_bashrc(text.as_str());
                    let content = Deployer::setup_bash(cleared.as_str(), profile_file.as_str());
                    progress.stage = Stage::WritingStartup;
                    Request::Perform(
                        Effect::Write { path: self.startup_file.clone(), content, mode: None },
                    )
                },
                Reply::Failed(reason) => self.break_off(progress, DeployError::Startup(reason)),
                Reply::Kind(_) => self.break_off(progress, DeployError::Protocol),
            },
            Stage::WritingStartup => match reply {
                Reply::Text(_) => {
                    progress.stage = Stage::Done;
                    Request::Finish(Ok(()))
                },
                Reply::Failed(reason) => self.break_off(progress, DeployError::Startup(reason)),
                Reply::Kind(_) => self.break_off(progress, DeployError::Protocol),
            },
            _ => Request::Finish(Err(DeployError::Protocol)),
        }
    }

    /// One step of a run: takes the reply to the request before, and gives the next
    /// request. The checks come first, the installation after them.
    pub fn deploy(&self, progress: &mut Progress, reply: Reply) -> (r: Request)
        ensures
            (final(progress)@, r@) == self@.step(old(progress)@, reply@),
    {
        match progress.stage {
            Stage::Locating
            | Stage::Updating
            | Stage::Listing
            | Stage::ProbingSource
            | Stage::ProbingTarget
            | Stage::ProbingRoot => self.check_all(progress, reply),
            _ => self.deploy_all(progress, reply),
        }
    }
}

} // verus!
