//! The three outside programs: which command line each one gets, and what its
//! ending means. The library starts no process; it says what to start
//! ([`Invocation`]) and judges what came back ([`ProcessOutcome`]).

use vstd::prelude::*;
use vstd::string::*;
use crate::text::{
    complaint,
    decimal,
    decode_lossy,
    enclosed,
    integer_to_decimal,
    prefixed,
    utf8_lossy,
};

verus! {

/// A process to start.
#[derive(Debug, Clone, PartialEq, Eq)]
pub struct Invocation {
    /// The program, looked up on the search path.
    pub program: String,
    /// Its arguments, in order.
    pub args: Vec<String>,
    /// The directory to start it in; `None` leaves it where the caller is.
    pub working_dir: Option<String>,
    /// Whether its output is collected instead of shown.
    pub captured: bool,
}

/// What an [`Invocation`] holds.
pub struct InvocationView {
    pub program: Seq<char>,
    pub args: Seq<Seq<char>>,
    pub working_dir: Option<Seq<char>>,
    pub captured: bool,
}

impl DeepView for Invocation {
    type V = InvocationView;

    open spec fn deep_view(&self) -> InvocationView {
        InvocationView {
            program: self.program@,
            args: self.args.deep_view(),
            working_dir: self.working_dir.deep_view(),
            captured: self.captured,
        }
    }
}

impl View for Invocation {
    type V = InvocationView;

    open spec fn view(&self) -> InvocationView {
        self.deep_view()
    }
}

/// How a process ended.
#[derive(Debug, Clone, PartialEq, Eq)]
pub enum ProcessOutcome {
    /// It could not be started; `reason` is what the system said.
    NotStarted { reason: String },
    /// It ran and ended. `code` is its exit code, `None` where a signal ended
    /// it; `stderr` is what it wrote to standard error, where that was
    /// collected.
    Ended { code: Option<i32>, stderr: Vec<u8> },
}

/// What a [`ProcessOutcome`] holds.
pub enum ProcessOutcomeView {
    NotStarted { reason: Seq<char> },
    Ended { code: Option<i32>, stderr: Seq<u8> },
}

impl DeepView for ProcessOutcome {
    type V = ProcessOutcomeView;

    open spec fn deep_view(&self) -> ProcessOutcomeView {
        match self {
            ProcessOutcome::NotStarted { reason } => ProcessOutcomeView::NotStarted {
                reason: reason@,
            },
            ProcessOutcome::Ended { code, stderr } => ProcessOutcomeView::Ended {
                code: *code,
                stderr: stderr@,
            },
        }
    }
}

impl View for ProcessOutcome {
    type V = ProcessOutcomeView;

    open spec fn view(&self) -> ProcessOutcomeView {
        self.deep_view()
    }
}

/// A process succeeded when it ran and left with exit code zero. One that a
/// signal ended did not succeed.
pub open spec fn succeeded(outcome: ProcessOutcomeView) -> bool {
    outcome matches ProcessOutcomeView::Ended { code: Some(c), .. } && c == 0
}

/// `git clone <url> <destination>`, output collected.
pub open spec fn git_clone_invocation(url: Seq<char>, destination: Seq<char>) -> InvocationView {
    InvocationView {
        program: "git"@,
        args: seq!["clone"@, url, destination],
        working_dir: None,
        captured: true,
    }
}

/// `chmod +x <file>`, output collected.
pub open spec fn chmod_invocation(file_path: Seq<char>) -> InvocationView {
    InvocationView {
        program: "chmod"@,
        args: seq!["+x"@, file_path],
        working_dir: None,
        captured: true,
    }
}

/// `bash <script>`, started in `working_dir`, output shown.
pub open spec fn bash_invocation(script_path: Seq<char>, working_dir: Seq<char>) -> InvocationView {
    InvocationView {
        program: "bash"@,
        args: seq![script_path],
        working_dir: Some(working_dir),
        captured: false,
    }
}

/// An exit code as the runner's complaint shows it: `Some(7)`, or `None`
/// where the process left no code.
pub open spec fn exit_code_text(code: Option<i32>) -> Seq<char> {
    match code {
        Some(c) => "Some("@ + decimal(c as int) + ")"@,
        None => "None"@,
    }
}

/// The complaint about a clone, if there is one.
pub open spec fn clone_complaint(outcome: ProcessOutcomeView) -> Option<Seq<char>> {
    match outcome {
        ProcessOutcomeView::NotStarted { reason } => Some(
            "Failed to execute git command: "@ + reason,
        ),
        ProcessOutcomeView::Ended { code, stderr } => if succeeded(outcome) {
            None
        } else {
            Some("Error cloning repository: "@ + utf8_lossy(stderr))
        },
    }
}

/// The complaint about setting the executable bit, if there is one. Where
/// `chmod` could not be started it carries the system's reason.
pub open spec fn permission_complaint(outcome: ProcessOutcomeView) -> Option<Seq<char>> {
    match outcome {
        ProcessOutcomeView::NotStarted { reason } => Some(
            "Failed to set permissions for the script: "@ + reason,
        ),
        ProcessOutcomeView::Ended { .. } => if succeeded(outcome) {
            None
        } else {
            Some("Error setting permissions"@)
        },
    }
}

/// The complaint about a script's run, if there is one. It carries the exit
/// code as the process left it.
pub open spec fn script_complaint(outcome: ProcessOutcomeView) -> Option<Seq<char>> {
    match outcome {
        ProcessOutcomeView::NotStarted { reason } => Some("Failed to execute script: "@ + reason),
        ProcessOutcomeView::Ended { code, .. } => if succeeded(outcome) {
            None
        } else {
            Some("Script failed with exit code: "@ + exit_code_text(code))
        },
    }
}

impl ProcessOutcome {
    /// Whether the process ran and left with exit code zero.
    pub fn success(&self) -> (yes: bool)
        ensures
            yes == succeeded(self@),
    {
        match self {
            ProcessOutcome::NotStarted { .. } => false,
            ProcessOutcome::Ended { code, .. } => match code {
                Some(c) => *c == 0,
                None => false,
            },
        }
    }
}

/// The command line that clones `url` into `destination`.
pub fn git_clone_command(url: &str, destination: &str) -> (command: Invocation)
    ensures
        command@ == git_clone_invocation(url@, destination@),
{
    let mut args: Vec<String> = Vec::new();
    args.push(String::from_str("clone"));
    args.push(String::from_str(url));
    args.push(String::from_str(destination));
    proof {
        assert(args.deep_view() =~= seq!["clone"@, url@, destination@]);
    }
    Invocation { program: String::from_str("git"), args, working_dir: None, captured: true }
}

/// The command line that makes `file_path` executable.
pub fn chmod_command(file_path: &str) -> (command: Invocation)
    ensures
        command@ == chmod_invocation(file_path@),
{
    let mut args: Vec<String> = Vec::new();
    args.push(String::from_str("+x"));
    args.push(String::from_str(file_path));
    proof {
        assert(args.deep_view() =~= seq!["+x"@, file_path@]);
    }
    Invocation { program: String::from_str("chmod"), args, working_dir: None, captured: true }
}

/// The command line that runs the script at `script_path` with `working_dir`
/// as its working directory.
pub fn bash_command(script_path: &str, working_dir: &str) -> (command: Invocation)
    ensures
        command@ == bash_invocation(script_path@, working_dir@),
{
    let mut args: Vec<String> = Vec::new();
    args.push(String::from_str(script_path));
    proof {
        assert(args.deep_view() =~= seq![script_path@]);
    }
    Invocation {
        program: String::from_str("bash"),
        args,
        working_dir: Some(String::from_str(working_dir)),
        captured: false,
    }
}

/// The text of an exit code: `Some(<code>)` or `None`.
pub fn render_exit_code(code: Option<i32>) -> (text: String)
    ensures
        text@ == exit_code_text(code),
{
    match code {
        Some(c) => {
            let digits = integer_to_decimal(c);
            enclosed("Some(", digits.as_str(), ")")
        },
        None => String::from_str("None"),
    }
}

/// The complaint about a clone that ended without success, given what it
/// wrote to standard error as text.
pub fn clone_failure(stderr_text: &str) -> (message: String)
    ensures
        message@ == "Error cloning repository: "@ + stderr_text@,
{
    prefixed("Error cloning repository: ", stderr_text)
}

/// Judges the ending of the clone. It succeeded when git ran and left with
/// exit code zero. Otherwise the complaint says whether git could not be
/// started, with the system's reason, or failed, with what it wrote to
/// standard error (decoded leniently).
pub fn run_git_clone(outcome: &ProcessOutcome) -> (result: Result<(), String>)
    ensures
        complaint(result) == clone_complaint(outcome@),
{
    match outcome {
        ProcessOutcome::NotStarted { reason } => Err(
            prefixed("Failed to execute git command: ", reason.as_str()),
        ),
        ProcessOutcome::Ended { code, stderr } => {
            if outcome.success() {
                Ok(())
            } else {
                let stderr_text = decode_lossy(stderr);
                Err(clone_failure(stderr_text.as_str()))
            }
        },
    }
}

/// Judges the ending of `chmod`. The script may be launched only when this
/// returns `Ok`. Where `chmod` could not be started, the complaint says so
/// with the system's reason; where it ran and failed, the complaint is fixed.
pub fn set_executable_permission(outcome: &ProcessOutcome) -> (result: Result<(), String>)
    ensures
        complaint(result) == permission_complaint(outcome@),
{
    match outcome {
        ProcessOutcome::NotStarted { reason } => Err(
            prefixed("Failed to set permissions for the script: ", reason.as_str()),
        ),
        ProcessOutcome::Ended { .. } => {
            if outcome.success() {
                Ok(())
            } else {
                Err(String::from_str("Error setting permissions"))
            }
        },
    }
}

/// Judges the ending of the script. It succeeded when the interpreter ran and
/// left with exit code zero; any other code, or an ending by a signal, is a
/// failure whose complaint shows the code.
pub fn run_bash_script(outcome: &ProcessOutcome) -> (result: Result<(), String>)
    ensures
        complaint(result) == script_complaint(outcome@),
{
    match outcome {
        ProcessOutcome::NotStarted { reason } => Err(
            prefixed("Failed to execute script: ", reason.as_str()),
        ),
        ProcessOutcome::Ended { code, .. } => {
            if outcome.success() {
                Ok(())
            } else {
                let shown = render_exit_code(*code);
                Err(prefixed("Script failed with exit code: ", shown.as_str()))
            }
        },
    }
}

} // verus!
