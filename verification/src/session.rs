//! The four commands, each as a state machine. [`begin`] names the first
//! thing to do for a command; [`advance`] takes what came of it and names the
//! next, until the action is [`Action::Exit`]. The program around the library
//! prints the lines of each step, does what its action says and reports back
//! with the matching event; it decides nothing.
//!
//! | command | actions, in order |
//! |---|---|
//! | `get` | `Execute` (git), `Exit`; an empty URL exits at once |
//! | `list` | `Walk`, `NextEntry` per item, `Exit` at the end of the walk |
//! | `clean` | `Probe`, `RemoveTree` if the cache is there, `Exit` |
//! | `run` | `Walk`, `NextEntry` until a script bears the name, `Confirm`, `Execute` (chmod), `Execute` (bash), `Exit` |

use vstd::prelude::*;
use vstd::string::*;
use crate::cache::{clean_cache, clean_complaint, Teardown, TeardownView};
use crate::command_executor::{
    bash_command,
    bash_invocation,
    chmod_command,
    chmod_invocation,
    clone_complaint,
    git_clone_command,
    git_clone_invocation,
    permission_complaint,
    run_bash_script,
    run_git_clone,
    script_complaint,
    set_executable_permission,
};
use crate::gate::{confirmation_request, consent, consents, gate_request};
use crate::index::{classified, classify, ScriptEntry, ScriptEntryView};
use crate::protocol::{
    complained,
    said,
    Action,
    ActionView,
    Command,
    CommandView,
    Event,
    EventView,
    Notice,
    NoticeView,
    Outcome,
    OutcomeView,
};
use crate::resolver::{matching, resolve_step};
use crate::text::{decimal, enclosed, natural_to_decimal, prefixed};

verus! {

/// Where a command stands.
#[derive(Debug, Clone, PartialEq, Eq)]
pub enum Stage {
    /// `get`: git is cloning.
    Cloning,
    /// `list`: the walk is under way; `found` are the scripts so far.
    Listing { found: Vec<ScriptEntry> },
    /// `clean`: waiting to hear whether the cache at `root` is there.
    Probing { root: String },
    /// `clean`: the cache is being removed.
    Removing,
    /// `run`: the walk is under way and no script has borne `name` yet.
    Resolving { name: String },
    /// `run`: `script` is the one; the user is being asked.
    AwaitingConsent { script: ScriptEntry },
    /// `run`: the user said yes; `script` is being made executable.
    SettingPermission { script: ScriptEntry },
    /// `run`: the script is running.
    Running,
    /// The command is over.
    Finished,
}

/// What a [`Stage`] holds.
pub enum StageView {
    Cloning,
    Listing { found: Seq<ScriptEntryView> },
    Probing { root: Seq<char> },
    Removing,
    Resolving { name: Seq<char> },
    AwaitingConsent { script: ScriptEntryView },
    SettingPermission { script: ScriptEntryView },
    Running,
    Finished,
}

impl DeepView for Stage {
    type V = StageView;

    open spec fn deep_view(&self) -> StageView {
        match self {
            Stage::Cloning => StageView::Cloning,
            Stage::Listing { found } => StageView::Listing { found: found.deep_view() },
            Stage::Probing { root } => StageView::Probing { root: root@ },
            Stage::Removing => StageView::Removing,
            Stage::Resolving { name } => StageView::Resolving { name: name@ },
            Stage::AwaitingConsent { script } => StageView::AwaitingConsent { script: script@ },
            Stage::SettingPermission { script } => StageView::SettingPermission {
                script: script@,
            },
            Stage::Running => StageView::Running,
            Stage::Finished => StageView::Finished,
        }
    }
}

impl View for Stage {
    type V = StageView;

    open spec fn view(&self) -> StageView {
        self.deep_view()
    }
}

/// One step of a command: where it stands now, what to print, what to do
/// next.
#[derive(Debug, Clone, PartialEq, Eq)]
pub struct Step {
    pub stage: Stage,
    /// The lines to print, in order, before the action is taken.
    pub notices: Vec<Notice>,
    pub action: Action,
}

/// What a [`Step`] holds.
pub struct StepView {
    pub stage: StageView,
    pub notices: Seq<NoticeView>,
    pub action: ActionView,
}

impl DeepView for Step {
    type V = StepView;

    open spec fn deep_view(&self) -> StepView {
        StepView {
            stage: self.stage@,
            notices: self.notices.deep_view(),
            action: self.action@,
        }
    }
}

impl View for Step {
    type V = StepView;

    open spec fn view(&self) -> StepView {
        self.deep_view()
    }
}

/// The line that announces a clone.
pub open spec fn cloning_line(url: Seq<char>, cache_dir: Seq<char>) -> Seq<char> {
    "Cloning repository from "@ + url + " into "@ + cache_dir
}

/// The line that shows the script with this number, counted from 1.
pub open spec fn script_line(number: int, path: Seq<char>) -> Seq<char> {
    "Script "@ + decimal(number) + ": "@ + path
}

/// The line that closes a listing of `count` scripts.
pub open spec fn total_line(count: int) -> Seq<char> {
    if count == 0 {
        "No Bash Scripts found."@
    } else {
        "Found "@ + decimal(count) + " script(s) total."@
    }
}

/// The line that says that no script bears `name`.
pub open spec fn not_found_line(name: Seq<char>) -> Seq<char> {
    "Script '"@ + name + "' not found in cache."@
}

/// The command goes on in `stage` with `action`, and nothing to print.
pub open spec fn goes_on(stage: StageView, action: ActionView) -> StepView {
    StepView { stage, notices: Seq::empty(), action }
}

/// The command ends with `outcome`, after `notices`.
pub open spec fn ends_with(notices: Seq<NoticeView>, outcome: OutcomeView) -> StepView {
    StepView { stage: StageView::Finished, notices, action: ActionView::Exit { outcome } }
}

/// The command ends because an event arrived that was not asked for.
pub open spec fn out_of_turn() -> StepView {
    ends_with(Seq::empty(), OutcomeView::OutOfTurn)
}

/// What became of the cache when the removal reported `failure`.
pub open spec fn teardown_of(failure: Option<Seq<char>>) -> TeardownView {
    match failure {
        None => TeardownView::Removed,
        Some(reason) => TeardownView::Failed { reason },
    }
}

/// How `clean` ends for a teardown.
pub open spec fn clean_ending(teardown: TeardownView) -> StepView {
    match clean_complaint(teardown) {
        Some(message) => ends_with(
            seq![complained("Error cleaning cache: "@ + message)],
            OutcomeView::CleanFailed { message },
        ),
        None => if teardown is Absent {
            ends_with(
                seq![
                    said("No cache directory found to clean."@),
                    said("Cache cleaned successfully."@),
                ],
                OutcomeView::NothingToClean,
            )
        } else {
            ends_with(
                seq![
                    said("Cache directory cleaned successfully."@),
                    said("Cache cleaned successfully."@),
                ],
                OutcomeView::Cleaned,
            )
        },
    }
}

/// The first step of a command, for the cache at `cache_dir`.
pub open spec fn begin_spec(command: CommandView, cache_dir: Seq<char>) -> StepView {
    match command {
        CommandView::Get { url } => if url.len() == 0 {
            ends_with(seq![said("Error: URL cannot be empty."@)], OutcomeView::EmptyUrl)
        } else {
            StepView {
                stage: StageView::Cloning,
                notices: seq![said(cloning_line(url, cache_dir))],
                action: ActionView::Execute { command: git_clone_invocation(url, cache_dir) },
            }
        },
        CommandView::List => goes_on(
            StageView::Listing { found: Seq::empty() },
            ActionView::Walk { root: cache_dir },
        ),
        CommandView::Clean => StepView {
            stage: StageView::Probing { root: cache_dir },
            notices: seq![said("Cleaning up scripts..."@)],
            action: ActionView::Probe { path: cache_dir },
        },
        CommandView::Run { name } => goes_on(
            StageView::Resolving { name },
            ActionView::Walk { root: cache_dir },
        ),
    }
}

/// The step that follows `stage` on `event`. An event that the stage does not
/// wait for ends the command with [`Outcome::OutOfTurn`].
///
/// A clone and a script that went well are each confirmed with two equal
/// lines, one for the process and one for the command. A complaint is
/// printed behind the name of the step that failed, which may repeat words of
/// the complaint itself.
pub open spec fn advance_spec(stage: StageView, event: EventView) -> StepView {
    match stage {
        StageView::Cloning => match event {
            EventView::Process { outcome } => match clone_complaint(outcome) {
                None => ends_with(
                    seq![
                        said("Repository cloned successfully."@),
                        said("Repository cloned successfully."@),
                    ],
                    OutcomeView::Cloned,
                ),
                Some(message) => ends_with(
                    seq![complained("Error cloning repository: "@ + message)],
                    OutcomeView::CloneFailed { message },
                ),
            },
            _ => out_of_turn(),
        },
        StageView::Listing { found } => match event {
            EventView::Entry { item } => match classified(item) {
                Some(script) => StepView {
                    stage: StageView::Listing { found: found.push(script) },
                    notices: seq![said(script_line(found.len() as int + 1, script.path))],
                    action: ActionView::NextEntry,
                },
                None => goes_on(StageView::Listing { found }, ActionView::NextEntry),
            },
            EventView::EndOfWalk => ends_with(
                seq![said(total_line(found.len() as int))],
                OutcomeView::Listed { scripts: found },
            ),
            _ => out_of_turn(),
        },
        StageView::Probing { root } => match event {
            EventView::Probed { exists } => if exists {
                goes_on(StageView::Removing, ActionView::RemoveTree { path: root })
            } else {
                clean_ending(TeardownView::Absent)
            },
            _ => out_of_turn(),
        },
        StageView::Removing => match event {
            EventView::Removed { failure } => clean_ending(teardown_of(failure)),
            _ => out_of_turn(),
        },
        StageView::Resolving { name } => match event {
            EventView::Entry { item } => match matching(item, name) {
                Some(script) => goes_on(
                    StageView::AwaitingConsent { script },
                    ActionView::Confirm { request: gate_request() },
                ),
                None => goes_on(StageView::Resolving { name }, ActionView::NextEntry),
            },
            EventView::EndOfWalk => ends_with(
                seq![complained(not_found_line(name))],
                OutcomeView::NotFound { name },
            ),
            _ => out_of_turn(),
        },
        StageView::AwaitingConsent { script } => match event {
            EventView::Answer { answer } => if consents(answer) {
                goes_on(
                    StageView::SettingPermission { script },
                    ActionView::Execute { command: chmod_invocation(script.path) },
                )
            } else {
                ends_with(seq![said("Script execution cancelled."@)], OutcomeView::Cancelled)
            },
            _ => out_of_turn(),
        },
        StageView::SettingPermission { script } => match event {
            EventView::Process { outcome } => match permission_complaint(outcome) {
                None => StepView {
                    stage: StageView::Running,
                    notices: seq![
                        said("Permissions set successfully."@),
                        said("Running script: "@ + script.path),
                    ],
                    action: ActionView::Execute {
                        command: bash_invocation(script.path, script.parent),
                    },
                },
                Some(message) => ends_with(
                    seq![complained("Error setting permissions: "@ + message)],
                    OutcomeView::PermissionFailed { message },
                ),
            },
            _ => out_of_turn(),
        },
        StageView::Running => match event {
            EventView::Process { outcome } => match script_complaint(outcome) {
                None => ends_with(
                    seq![
                        said("Script executed successfully."@),
                        said("Script executed successfully."@),
                    ],
                    OutcomeView::ScriptSucceeded,
                ),
                Some(message) => ends_with(
                    seq![complained("Error running script: "@ + message)],
                    OutcomeView::ScriptFailed { message },
                ),
            },
            _ => out_of_turn(),
        },
        StageView::Finished => out_of_turn(),
    }
}

/// No lines.
fn silence() -> (notices: Vec<Notice>)
    ensures
        notices.deep_view() == Seq::<NoticeView>::empty(),
{
    let notices: Vec<Notice> = Vec::new();
    proof {
        assert(notices.deep_view() =~= Seq::<NoticeView>::empty());
    }
    notices
}

/// One line.
fn one_line(line: Notice) -> (notices: Vec<Notice>)
    ensures
        notices.deep_view() == seq![line@],
{
    let mut notices: Vec<Notice> = Vec::new();
    let ghost shown = line@;
    notices.push(line);
    proof {
        assert(notices.deep_view() =~= seq![shown]);
    }
    notices
}

/// Two lines.
fn two_lines(first: Notice, second: Notice) -> (notices: Vec<Notice>)
    ensures
        notices.deep_view() == seq![first@, second@],
{
    let mut notices: Vec<Notice> = Vec::new();
    let ghost shown = seq![first@, second@];
    notices.push(first);
    notices.push(second);
    proof {
        assert(notices.deep_view() =~= shown);
    }
    notices
}

/// A line of fixed text for standard output.
fn say(text: &str) -> (notice: Notice)
    ensures
        notice@ == said(text@),
{
    Notice::out(String::from_str(text))
}

/// The command goes on, with nothing to print.
fn go_on(stage: Stage, action: Action) -> (step: Step)
    ensures
        step@ == goes_on(stage@, action@),
{
    Step { stage, notices: silence(), action }
}

/// The command is over.
fn finish(notices: Vec<Notice>, outcome: Outcome) -> (step: Step)
    ensures
        step@ == ends_with(notices.deep_view(), outcome@),
{
    Step { stage: Stage::Finished, notices, action: Action::Exit { outcome } }
}

/// The command is over because an event arrived that was not asked for.
fn refuse() -> (step: Step)
    ensures
        step@ == out_of_turn(),
{
    finish(silence(), Outcome::OutOfTurn)
}

/// How `clean` ends, given what became of the cache.
fn finish_clean(teardown: Teardown) -> (step: Step)
    ensures
        step@ == clean_ending(teardown@),
{
    match clean_cache(&teardown) {
        Err(message) => {
            let line = Notice::err(prefixed("Error cleaning cache: ", message.as_str()));
            finish(one_line(line), Outcome::CleanFailed { message })
        },
        Ok(()) => match teardown {
            Teardown::Absent => finish(
                two_lines(
                    say("No cache directory found to clean."),
                    say("Cache cleaned successfully."),
                ),
                Outcome::NothingToClean,
            ),
            _ => finish(
                two_lines(
                    say("Cache directory cleaned successfully."),
                    say("Cache cleaned successfully."),
                ),
                Outcome::Cleaned,
            ),
        },
    }
}

/// The line that closes a listing of `count` scripts.
fn closing_line(count: usize) -> (line: Notice)
    ensures
        line@ == said(total_line(count as int)),
{
    if count == 0 {
        say("No Bash Scripts found.")
    } else {
        let digits = natural_to_decimal(count as u64);
        Notice::out(enclosed("Found ", digits.as_str(), " script(s) total."))
    }
}

/// The line that shows the script with this number.
fn numbered_line(number: usize, path: &str) -> (line: Notice)
    ensures
        line@ == said(script_line(number as int, path@)),
{
    let digits = natural_to_decimal(number as u64);
    let mut text = enclosed("Script ", digits.as_str(), ": ");
    text.append(path);
    Notice::out(text)
}

/// Starts a command on the cache at `cache_dir`: the stage it is in, what to
/// print, and the first thing to do. `get` with an empty URL is over before
/// it starts, with nothing attempted.
pub fn begin(command: Command, cache_dir: &str) -> (first: Step)
    ensures
        first@ == begin_spec(command@, cache_dir@),
{
    match command {
        Command::Get { url } => {
            if url.as_str().is_empty() {
                finish(one_line(say("Error: URL cannot be empty.")), Outcome::EmptyUrl)
            } else {
                let mut text = enclosed("Cloning repository from ", url.as_str(), " into ");
                text.append(cache_dir);
                Step {
                    stage: Stage::Cloning,
                    notices: one_line(Notice::out(text)),
                    action: Action::Execute { command: git_clone_command(url.as_str(), cache_dir) },
                }
            }
        },
        Command::List => {
            let found: Vec<ScriptEntry> = Vec::new();
            proof {
                assert(found.deep_view() =~= Seq::empty());
            }
            go_on(Stage::Listing { found }, Action::Walk { root: String::from_str(cache_dir) })
        },
        Command::Clean => Step {
            stage: Stage::Probing { root: String::from_str(cache_dir) },
            notices: one_line(say("Cleaning up scripts...")),
            action: Action::Probe { path: String::from_str(cache_dir) },
        },
        Command::Run { name } => go_on(
            Stage::Resolving { name },
            Action::Walk { root: String::from_str(cache_dir) },
        ),
    }
}

/// Takes the command one step on: given what came of the last action, the
/// stage it is in now, what to print, and the next thing to do.
pub fn advance(stage: Stage, event: Event) -> (next: Step)
    ensures
        next@ == advance_spec(stage@, event@),
{
    match stage {
        Stage::Cloning => match event {
            Event::Process { outcome } => match run_git_clone(&outcome) {
                Ok(()) => finish(
                    two_lines(
                        say("Repository cloned successfully."),
                        say("Repository cloned successfully."),
                    ),
                    Outcome::Cloned,
                ),
                Err(message) => {
                    let line = Notice::err(
                        prefixed("Error cloning repository: ", message.as_str()),
                    );
                    finish(one_line(line), Outcome::CloneFailed { message })
                },
            },
            _ => refuse(),
        },
        Stage::Listing { found } => match event {
            Event::Entry { item } => {
                let mut found = found;
                let ghost before = found.deep_view();
                match classify(&item) {
                    Some(script) => {
                        let ghost seen = script@;
                        let path = script.path.clone();
                        found.push(script);
                        proof {
                            assert(found.deep_view() =~= before.push(seen));
                        }
                        let line = numbered_line(found.len(), path.as_str());
                        Step {
                            stage: Stage::Listing { found },
                            notices: one_line(line),
                            action: Action::NextEntry,
                        }
                    },
                    None => go_on(Stage::Listing { found }, Action::NextEntry),
                }
            },
            Event::EndOfWalk => {
                let line = closing_line(found.len());
                finish(one_line(line), Outcome::Listed { scripts: found })
            },
            _ => refuse(),
        },
        Stage::Probing { root } => match event {
            Event::Probed { exists } => {
                if exists {
                    go_on(Stage::Removing, Action::RemoveTree { path: root })
                } else {
                    finish_clean(Teardown::Absent)
                }
            },
            _ => refuse(),
        },
        Stage::Removing => match event {
            Event::Removed { failure } => match failure {
                None => finish_clean(Teardown::Removed),
                Some(reason) => finish_clean(Teardown::Failed { reason }),
            },
            _ => refuse(),
        },
        Stage::Resolving { name } => match event {
            Event::Entry { item } => match resolve_step(&item, name.as_str()) {
                Some(script) => go_on(
                    Stage::AwaitingConsent { script },
                    Action::Confirm { request: confirmation_request() },
                ),
                None => go_on(Stage::Resolving { name }, Action::NextEntry),
            },
            Event::EndOfWalk => {
                let line = Notice::err(enclosed("Script '", name.as_str(), "' not found in cache."));
                finish(one_line(line), Outcome::NotFound { name })
            },
            _ => refuse(),
        },
        Stage::AwaitingConsent { script } => match event {
            Event::Answer { answer } => {
                if consent(answer) {
                    let command = chmod_command(script.path.as_str());
                    go_on(Stage::SettingPermission { script }, Action::Execute { command })
                } else {
                    finish(one_line(say("Script execution cancelled.")), Outcome::Cancelled)
                }
            },
            _ => refuse(),
        },
        Stage::SettingPermission { script } => match event {
            Event::Process { outcome } => match set_executable_permission(&outcome) {
                Ok(()) => {
                    let running = Notice::out(prefixed("Running script: ", script.path.as_str()));
                    Step {
                        stage: Stage::Running,
                        notices: two_lines(say("Permissions set successfully."), running),
                        action: Action::Execute {
                            command: bash_command(script.path.as_str(), script.parent.as_str()),
                        },
                    }
                },
                Err(message) => {
                    let line = Notice::err(
                        prefixed("Error setting permissions: ", message.as_str()),
                    );
                    finish(one_line(line), Outcome::PermissionFailed { message })
                },
            },
            _ => refuse(),
        },
        Stage::Running => match event {
            Event::Process { outcome } => match run_bash_script(&outcome) {
                Ok(()) => finish(
                    two_lines(
                        say("Script executed successfully."),
                        say("Script executed successfully."),
                    ),
                    Outcome::ScriptSucceeded,
                ),
                Err(message) => {
                    let line = Notice::err(prefixed("Error running script: ", message.as_str()));
                    finish(one_line(line), Outcome::ScriptFailed { message })
                },
            },
            _ => refuse(),
        },
        Stage::Finished => refuse(),
    }
}

} // verus!
