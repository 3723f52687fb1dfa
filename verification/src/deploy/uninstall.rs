//! Taking a deployment away: the deploy root is removed, if there is one, and the managed
//! block is taken out of the startup file.

use crate::deploy::deployer::{DEPLOY_DIR, STARTUP_FILE};
use crate::deploy::deployer::Deployer;
use crate::deploy::run::{Reply, ReplyView, Request, RequestView};
use crate::deploy::startup::{begin_marker, lemma_no_marker_no_block, without_block};
use crate::deploy::{Effect, EffectView};
use crate::error::{DeployError, DeployErrorView};
use crate::op::file::PathKind;
use crate::path::{join_path, joined};
use crate::text::occurs_at;
use vstd::prelude::*;

verus! {

/// Where the removal stands: which reply it waits for.
#[derive(Clone, Copy, Debug, PartialEq, Eq, Structural)]
pub enum UninstallStage {
    /// What stands at the deploy root.
    ProbingRoot,
    /// The deploy root is being removed.
    Removing,
    /// The startup file is being read.
    ReadingStartup,
    /// The startup file is being written.
    WritingStartup,
    /// The removal ended with success.
    Done,
    /// The removal ended without success.
    Failed,
}

/// The removal of the deployment of one user.
#[derive(Debug, PartialEq, Eq)]
pub struct Uninstall {
    stage: UninstallStage,
    install_dir: String,
    startup_file: String,
}

/// The model of an [`Uninstall`].
pub ghost struct UninstallView {
    pub stage: UninstallStage,
    pub install_dir: Seq<char>,
    pub startup_file: Seq<char>,
}

impl DeepView for Uninstall {
    type V = UninstallView;

    closed spec fn deep_view(&self) -> UninstallView {
        UninstallView {
            stage: self.stage,
            install_dir: self.install_dir@,
            startup_file: self.startup_file@,
        }
    }
}

impl View for Uninstall {
    type V = UninstallView;

    open spec fn view(&self) -> UninstallView {
        self.deep_view()
    }
}

impl UninstallView {
    /// The removal of the deployment of the user whose home directory is `home`, and its
    /// first request: what stands at the deploy root?
    pub open spec fn start(home: Seq<char>) -> (UninstallView, RequestView) {
        (
            UninstallView {
                stage: UninstallStage::ProbingRoot,
                install_dir: joined(home, DEPLOY_DIR@),
                startup_file: joined(home, STARTUP_FILE@),
            },
            RequestView::Probe { path: joined(home, DEPLOY_DIR@) },
        )
    }

    /// The removal ends without success.
    pub open spec fn fail(self, error: DeployErrorView) -> (UninstallView, RequestView) {
        (UninstallView { stage: UninstallStage::Failed, ..self }, RequestView::Finish(Err(error)))
    }

    /// The startup file is asked for.
    pub open spec fn read_startup(self) -> (UninstallView, RequestView) {
        (
            UninstallView { stage: UninstallStage::ReadingStartup, ..self },
            RequestView::Perform(EffectView::Read { path: self.startup_file }),
        )
    }

    /// One step of the removal: what follows `reply`. A deploy root that is missing is
    /// not removed, and that is no failure.
    pub open spec fn step(self, reply: ReplyView) -> (UninstallView, RequestView) {
        match self.stage {
            UninstallStage::ProbingRoot => match reply {
                ReplyView::Kind(kind) => if kind == PathKind::Missing {
                    self.read_startup()
                } else {
                    (
                        UninstallView { stage: UninstallStage::Removing, ..self },
                        RequestView::Perform(EffectView::Remove { path: self.install_dir }),
                    )
                },
                _ => self.fail(DeployErrorView::Protocol),
            },
            UninstallStage::Removing => match reply {
                ReplyView::Text(_) => self.read_startup(),
                ReplyView::Failed(reason) => self.fail(DeployErrorView::Remove(reason)),
                ReplyView::Kind(_) => self.fail(DeployErrorView::Protocol),
            },
            UninstallStage::ReadingStartup => match reply {
                ReplyView::Text(text) => (
                    UninstallView { stage: UninstallStage::WritingStartup, ..self },
                    RequestView::Perform(
                        EffectView::Write {
                            path: self.startup_file,
                            content: without_block(text),
                            mode: None,
                        },
                    ),
                ),
                ReplyView::Failed(reason) => self.fail(DeployErrorView::Startup(reason)),
                ReplyView::Kind(_) => self.fail(DeployErrorView::Protocol),
            },
            UninstallStage::WritingStartup => match reply {
                ReplyView::Text(_) => (
                    UninstallView { stage: UninstallStage::Done, ..self },
                    RequestView::Finish(Ok(())),
                ),
                ReplyView::Failed(reason) => self.fail(DeployErrorView::Startup(reason)),
                ReplyView::Kind(_) => self.fail(DeployErrorView::Protocol),
            },
            _ => (self, RequestView::Finish(Err(DeployErrorView::Protocol))),
        }
    }
}

/// Uninstalling where nothing was ever installed succeeds, and leaves the startup file as
/// it was. With no deploy root and a startup file `text` that holds no opening marker, the
/// removal asks for nothing to be removed, writes `text` back, and ends with success,
/// provided that the startup file can be read and written.
pub proof fn lemma_uninstall_of_nothing(home: Seq<char>, text: Seq<char>, written: Seq<char>)
    requires
        forall|i: int| !occurs_at(text, begin_marker(), i),
    ensures
        ({
            let begun = UninstallView::start(home);
            let probed = begun.0.step(ReplyView::Kind(PathKind::Missing));
            let read = probed.0.step(ReplyView::Text(text));
            let wrote = read.0.step(ReplyView::Text(written));
            &&& probed.1 == RequestView::Perform(
                EffectView::Read { path: joined(home, STARTUP_FILE@) },
            )
            &&& read.1 == RequestView::Perform(
                EffectView::Write { path: joined(home, STARTUP_FILE@), content: text, mode: None },
            )
            &&& wrote.1 == RequestView::Finish(Ok(()))
        }),
{
    lemma_no_marker_no_block(text);
}

impl Uninstall {
    /// Starts the removal of the deployment of the user whose home directory is `home`.
    pub fn start(home: &str) -> (r: (Uninstall, Request))
        ensures
            (r.0@, r.1@) == UninstallView::start(home@),
    {
        let install_dir = Deployer::deploy_dir(home);
        let request = Request::Probe { path: install_dir.clone() };
        (
            Uninstall {
                stage: UninstallStage::ProbingRoot,
                install_dir,
                startup_file: join_path(home, STARTUP_FILE),
            },
            request,
        )
    }

    /// The stage of the removal.
    pub fn stage(&self) -> (r: UninstallStage)
        ensures
            r == self@.stage,
    {
        self.stage
    }

    fn fail(&mut self, error: DeployError) -> (r: Request)
        ensures
            (final(self)@, r@) == old(self)@.fail(error@),
    {
        self.stage = UninstallStage::Failed;
        Request::Finish(Err(error))
    }

    fn read_startup(&mut self) -> (r: Request)
        ensures
            (final(self)@, r@) == old(self)@.read_startup(),
    {
        self.stage = UninstallStage::ReadingStartup;
        Request::Perform(Effect::Read { path: self.startup_file.clone() })
    }

    /// One step of the removal: takes the reply to the request before, and gives the next
    /// request.
    pub fn step(&mut self, reply: Reply) -> (r: Request)
        ensures
            (final(self)@, r@) == old(self)@.step(reply@),
    {
        match self.stage {
            UninstallStage::ProbingRoot => match reply {
                Reply::Kind(kind) => match kind {
                    PathKind::Missing => self.read_startup(),
                    _ => {
                        self.stage = UninstallStage::Removing;
                        Request::Perform(Effect::Remove { path: self.install_dir.clone() })
                    },
                },
                _ => self.fail(DeployError::Protocol),
            },
            UninstallStage::Removing => match reply {
                Reply::Text(_) => self.read_startup(),
                Reply::Failed(reason) => self.fail(DeployError::Remove(reason)),
                Reply::Kind(_) => self.fail(DeployError::Protocol),
            },
            UninstallStage::ReadingStartup => match reply {
                Reply::Text(text) => {
                    let content = Deployer::unset_bashrc(text.as_str());
                    self.stage = UninstallStage::WritingStartup;
                    Request::Perform(
                        Effect::Write { path: self.startup_file.clone(), content, mode: None },
                    )
                },
                Reply::Failed(reason) => self.fail(DeployError::Startup(reason)),
                Reply::Kind(_) => self.fail(DeployError::Protocol),
            },
            UninstallStage::WritingStartup => match reply {
                Reply::Text(_) => {
                    self.stage = UninstallStage::Done;
                    Request::Finish(Ok(()))
                },
                Reply::Failed(reason) => self.fail(DeployError::Startup(reason)),
                Reply::Kind(_) => self.fail(DeployError::Protocol),
            },
            _ => Request::Finish(Err(DeployError::Protocol)),
        }
    }
}

} // verus!
