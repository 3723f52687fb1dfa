//! Commands to run, and the rule for running one again under privilege escalation.
//!
//! The library never starts a process. It says which command to run, is told how the
//! process ended, and decides what follows.

use crate::text::{clone_pairs, clone_strings, chain, join};
use vstd::prelude::*;
use vstd::string::StringExecFns;

verus! {

/// The exit status with which a command reports that it lacked permission.
pub const PERMISSION_DENIED: i32 = 100;

/// A command: the program, its arguments, and the environment variables set for it.
#[derive(Debug, PartialEq, Eq)]
pub struct CommandLine {
    pub program: String,
    pub args: Vec<String>,
    pub envs: Vec<(String, String)>,
}

/// The model of a [`CommandLine`].
pub ghost struct CommandLineView {
    pub program: Seq<char>,
    pub args: Seq<Seq<char>>,
    pub envs: Seq<(Seq<char>, Seq<char>)>,
}

impl DeepView for CommandLine {
    type V = CommandLineView;

    open spec fn deep_view(&self) -> CommandLineView {
        CommandLineView {
            program: self.program@,
            args: self.args.deep_view(),
            envs: self.envs.deep_view(),
        }
    }
}

impl View for CommandLine {
    type V = CommandLineView;

    open spec fn view(&self) -> CommandLineView {
        self.deep_view()
    }
}

impl Clone for CommandLine {
    fn clone(&self) -> (r: Self)
        ensures
            r@ == self@,
    {
        CommandLine {
            program: self.program.clone(),
            args: clone_strings(&self.args),
            envs: clone_pairs(&self.envs),
        }
    }
}

impl CommandLineView {
    /// The same command under the privilege-escalation wrapper: `sudo -- program args..`,
    /// with the same environment variables.
    pub open spec fn escalated(self) -> CommandLineView {
        CommandLineView {
            program: "sudo"@,
            args: seq!["--"@, self.program] + self.args,
            envs: self.envs,
        }
    }

    /// The command as one line of text: the program and the arguments, with spaces between.
    pub open spec fn rendered(self) -> Seq<char> {
        crate::text::join_with(seq![self.program] + self.args, " "@)
    }
}

impl CommandLine {
    /// The same command under the privilege-escalation wrapper.
    pub fn escalate(&self) -> (r: CommandLine)
        ensures
            r@ == self@.escalated(),
    {
        let mut args: Vec<String> = Vec::new();
        args.push("--".to_owned());
        args.push(self.program.clone());
        let mut i: usize = 0;
        while i < self.args.len()
            invariant
                i <= self.args.len(),
                args@.len() == 2 + i,
                args@[0]@ == "--"@,
                args@[1] == self.program,
                forall|k: int| 0 <= k < i ==> args@[2 + k] == self.args@[k],
            decreases self.args.len() - i,
        {
            args.push(self.args[i].clone());
            i += 1;
        }
        let r = CommandLine { program: "sudo".to_owned(), args, envs: clone_pairs(&self.envs) };
        assert(r@.args =~= self@.escalated().args);
        r
    }

    /// The command as one line of text.
    pub fn render(&self) -> (r: String)
        ensures
            r@ == self@.rendered(),
    {
        let mut words: Vec<String> = Vec::new();
        words.push(self.program.clone());
        let mut i: usize = 0;
        while i < self.args.len()
            invariant
                i <= self.args.len(),
                words@.len() == 1 + i,
                words@[0] == self.program,
                forall|k: int| 0 <= k < i ==> words@[1 + k] == self.args@[k],
            decreases self.args.len() - i,
        {
            words.push(self.args[i].clone());
            i += 1;
        }
        assert(words.deep_view() =~= seq![self.program@] + self.args.deep_view());
        join(&words, " ")
    }
}

/// How a process ended: its exit code, if it exited by itself, and what it wrote.
#[derive(Debug, PartialEq, Eq)]
pub struct Exit {
    pub code: Option<i32>,
    pub stdout: String,
    pub stderr: String,
}

/// The model of an [`Exit`].
pub ghost struct ExitView {
    pub code: Option<i32>,
    pub stdout: Seq<char>,
    pub stderr: Seq<char>,
}

impl ExitView {
    /// A process succeeded when it exited with code 0.
    pub open spec fn success(self) -> bool {
        self.code == Some(0i32)
    }
}

impl DeepView for Exit {
    type V = ExitView;

    open spec fn deep_view(&self) -> ExitView {
        ExitView { code: self.code, stdout: self.stdout@, stderr: self.stderr@ }
    }
}

impl View for Exit {
    type V = ExitView;

    open spec fn view(&self) -> ExitView {
        self.deep_view()
    }
}

/// A command that failed, with what it wrote.
#[derive(Debug, PartialEq, Eq)]
pub struct ToolError {
    /// The command, as one line.
    pub command: String,
    pub stdout: String,
    pub stderr: String,
}

/// The model of a [`ToolError`].
pub ghost struct ToolErrorView {
    pub command: Seq<char>,
    pub stdout: Seq<char>,
    pub stderr: Seq<char>,
}

impl ToolErrorView {
    /// The report of the failure: the command and both captured streams.
    pub open spec fn message(self) -> Seq<char> {
        "COMMAND:\n "@ + self.command + "\n Out: "@ + self.stdout + " \n Err: "@ + self.stderr
            + " \n"@
    }
}

impl DeepView for ToolError {
    type V = ToolErrorView;

    open spec fn deep_view(&self) -> ToolErrorView {
        ToolErrorView { command: self.command@, stdout: self.stdout@, stderr: self.stderr@ }
    }
}

impl View for ToolError {
    type V = ToolErrorView;

    open spec fn view(&self) -> ToolErrorView {
        self.deep_view()
    }
}

impl ToolError {
    /// The report of the failure.
    pub fn message(&self) -> (r: String)
        ensures
            r@ == self@.message(),
    {
        let mut r = chain("COMMAND:\n ", self.command.as_str());
        r.append("\n Out: ");
        r.append(self.stdout.as_str());
        r.append(" \n Err: ");
        r.append(self.stderr.as_str());
        r.append(" \n");
        r
    }
}

/// Which run of a command an exit belongs to.
#[derive(Clone, Copy, Debug, PartialEq, Eq, Structural)]
pub enum Attempt {
    /// The command as it was given.
    Direct,
    /// The command under the privilege-escalation wrapper.
    Escalated,
}

/// What follows the end of a process.
#[derive(Debug, PartialEq, Eq)]
pub enum Step {
    /// Run this command, and report its exit as that of the escalated attempt.
    Retry(CommandLine),
    /// The command succeeded; this is what it wrote to its standard output.
    Done(String),
    /// The command failed.
    Failed(ToolError),
}

/// The model of a [`Step`].
pub ghost enum StepView {
    Retry(CommandLineView),
    Done(Seq<char>),
    Failed(ToolErrorView),
}

impl DeepView for Step {
    type V = StepView;

    open spec fn deep_view(&self) -> StepView {
        match *self {
            Step::Retry(command) => StepView::Retry(command@),
            Step::Done(stdout) => StepView::Done(stdout@),
            Step::Failed(error) => StepView::Failed(error@),
        }
    }
}

impl View for Step {
    type V = StepView;

    open spec fn view(&self) -> StepView {
        self.deep_view()
    }
}

/// The failure of `command` that ended as `exit` says.
pub open spec fn failure_of(command: CommandLineView, exit: ExitView) -> ToolErrorView {
    ToolErrorView { command: command.rendered(), stdout: exit.stdout, stderr: exit.stderr }
}

/// The retry rule. A direct run that ends with [`PERMISSION_DENIED`] is followed by one run
/// under escalation; any other run is done when it succeeded and has failed when it did not.
pub open spec fn retry_rule(command: CommandLineView, attempt: Attempt, exit: ExitView) -> StepView {
    if attempt == Attempt::Direct && exit.code == Some(PERMISSION_DENIED) {
        StepView::Retry(command.escalated())
    } else if exit.success() {
        StepView::Done(exit.stdout)
    } else {
        StepView::Failed(failure_of(command, exit))
    }
}

/// Decides what follows the end of one run of `command`, the command as it was first given.
pub fn run_or_sudo(command: &CommandLine, attempt: Attempt, exit: Exit) -> (r: Step)
    ensures
        r@ == retry_rule(command@, attempt, exit@),
{
    let denied = match exit.code {
        Some(code) => code == PERMISSION_DENIED,
        None => false,
    };
    let succeeded = match exit.code {
        Some(code) => code == 0,
        None => false,
    };
    match attempt {
        Attempt::Direct => {
            if denied {
                return Step::Retry(command.escalate());
            }
        },
        Attempt::Escalated => {},
    }
    if succeeded {
        Step::Done(exit.stdout)
    } else {
        Step::Failed(
            ToolError { command: command.render(), stdout: exit.stdout, stderr: exit.stderr },
        )
    }
}

/// Decides how a command that is run once, without escalation, ended: its standard
/// output when it succeeded, the failure when it did not.
pub fn run_command(command: &CommandLine, exit: Exit) -> (r: Result<String, ToolError>)
    ensures
        match r {
            Ok(stdout) => exit@.success() && stdout@ == exit@.stdout,
            Err(error) => !exit@.success() && error@ == failure_of(command@, exit@),
        },
{
    let succeeded = match exit.code {
        Some(code) => code == 0,
        None => false,
    };
    if succeeded {
        Ok(exit.stdout)
    } else {
        Err(ToolError { command: command.render(), stdout: exit.stdout, stderr: exit.stderr })
    }
}

/// A program with the arguments that every command made from it starts with.
#[derive(Debug, PartialEq, Eq)]
pub struct Program {
    program_path: String,
    args: Vec<String>,
}

/// The model of a [`Program`].
pub ghost struct ProgramView {
    pub program_path: Seq<char>,
    pub args: Seq<Seq<char>>,
}

impl DeepView for Program {
    type V = ProgramView;

    closed spec fn deep_view(&self) -> ProgramView {
        ProgramView { program_path: self.program_path@, args: self.args.deep_view() }
    }
}

impl View for Program {
    type V = ProgramView;

    open spec fn view(&self) -> ProgramView {
        self.deep_view()
    }
}

impl ProgramView {
    /// The command that runs the program: its arguments, and the package manager told not
    /// to ask questions.
    pub open spec fn command(self) -> CommandLineView {
        CommandLineView {
            program: self.program_path,
            args: self.args,
            envs: seq![("DEBIAN_FRONTEND"@, "noninteractive"@)],
        }
    }
}

impl Program {
    /// The program at `program_path`, the path that its name was resolved to, with no
    /// arguments.
    pub fn from_name(program_path: String) -> (r: Self)
        ensures
            r@ == (ProgramView { program_path: program_path@, args: Seq::empty() }),
    {
        let r = Program { program_path, args: Vec::new() };
        assert(r.args.deep_view() =~= Seq::<Seq<char>>::empty());
        r
    }

    /// Puts the program under the escalation wrapper at `sudo_path`: the wrapper becomes
    /// the program, and the former program its last argument.
    pub fn sudo(&mut self, sudo_path: String)
        ensures
            final(self)@ == (ProgramView {
                program_path: sudo_path@,
                args: old(self)@.args.push(old(self)@.program_path),
            }),
    {
        let former = self.program_path.clone();
        self.program_path = sudo_path;
        self.args.push(former);
        assert(self.args.deep_view() =~= old(self).args.deep_view().push(old(self).program_path@));
    }

    /// The command that runs the program.
    pub fn new_command(&self) -> (r: CommandLine)
        ensures
            r@ == self@.command(),
    {
        let mut envs: Vec<(String, String)> = Vec::new();
        envs.push(("DEBIAN_FRONTEND".to_owned(), "noninteractive".to_owned()));
        let r = CommandLine { program: self.program_path.clone(), args: clone_strings(&self.args), envs };
        assert(r@.envs =~= self@.command().envs);
        assert(r@.args =~= self@.args);
        r
    }
}

} // verus!
