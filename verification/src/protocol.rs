//! What the library and the program around it say to each other: the command
//! that the user gave, the actions that the library asks for, the events that
//! report what came of them, the lines to print, and how a command can end.

use vstd::prelude::*;
use vstd::string::*;
use crate::command_executor::{Invocation, InvocationView, ProcessOutcome, ProcessOutcomeView};
use crate::gate::{ConfirmRequest, ConfirmRequestView};
use crate::index::{ScriptEntry, ScriptEntryView, WalkItem, WalkItemView};

verus! {

/// Where a line goes.
#[derive(Debug, Clone, Copy, PartialEq, Eq)]
pub enum Stream {
    /// Standard output.
    Stdout,
    /// Standard error.
    Stderr,
}

/// A line to print.
#[derive(Debug, Clone, PartialEq, Eq)]
pub struct Notice {
    pub stream: Stream,
    pub text: String,
}

/// What a [`Notice`] holds.
pub struct NoticeView {
    pub stream: Stream,
    pub text: Seq<char>,
}

impl DeepView for Notice {
    type V = NoticeView;

    open spec fn deep_view(&self) -> NoticeView {
        NoticeView { stream: self.stream, text: self.text@ }
    }
}

impl View for Notice {
    type V = NoticeView;

    open spec fn view(&self) -> NoticeView {
        self.deep_view()
    }
}

/// A line for standard output.
pub open spec fn said(text: Seq<char>) -> NoticeView {
    NoticeView { stream: Stream::Stdout, text }
}

/// A line for standard error.
pub open spec fn complained(text: Seq<char>) -> NoticeView {
    NoticeView { stream: Stream::Stderr, text }
}

impl Notice {
    /// A line for standard output.
    pub fn out(text: String) -> (notice: Notice)
        ensures
            notice@ == said(text@),
    {
        Notice { stream: Stream::Stdout, text }
    }

    /// A line for standard error.
    pub fn err(text: String) -> (notice: Notice)
        ensures
            notice@ == complained(text@),
    {
        Notice { stream: Stream::Stderr, text }
    }
}

/// What the user asked for.
#[derive(Debug, Clone, PartialEq, Eq)]
pub enum Command {
    /// Clone the repository at `url` into the cache.
    Get { url: String },
    /// Show the scripts of the cache.
    List,
    /// Remove the cache.
    Clean,
    /// Run the script that `name` stands for.
    Run { name: String },
}

/// What a [`Command`] holds.
pub enum CommandView {
    Get { url: Seq<char> },
    List,
    Clean,
    Run { name: Seq<char> },
}

impl DeepView for Command {
    type V = CommandView;

    open spec fn deep_view(&self) -> CommandView {
        match self {
            Command::Get { url } => CommandView::Get { url: url@ },
            Command::List => CommandView::List,
            Command::Clean => CommandView::Clean,
            Command::Run { name } => CommandView::Run { name: name@ },
        }
    }
}

impl View for Command {
    type V = CommandView;

    open spec fn view(&self) -> CommandView {
        self.deep_view()
    }
}

/// How a command ended.
#[derive(Debug, Clone, PartialEq, Eq)]
pub enum Outcome {
    /// `get` was given an empty URL; nothing was attempted.
    EmptyUrl,
    /// The repository was cloned.
    Cloned,
    /// The clone could not be started or failed.
    CloneFailed { message: String },
    /// The scripts of the cache, in the order of the walk.
    Listed { scripts: Vec<ScriptEntry> },
    /// There was no cache to remove.
    NothingToClean,
    /// The cache was removed.
    Cleaned,
    /// The cache could not be removed.
    CleanFailed { message: String },
    /// No script of the cache bears the name.
    NotFound { name: String },
    /// The user did not consent; nothing was run.
    Cancelled,
    /// The script could not be made executable; it was not launched.
    PermissionFailed { message: String },
    /// The script could not be started, or ended without success.
    ScriptFailed { message: String },
    /// The script ran and left with exit code zero.
    ScriptSucceeded,
    /// An event arrived that the last action had not asked for.
    OutOfTurn,
}

/// What an [`Outcome`] holds.
pub enum OutcomeView {
    EmptyUrl,
    Cloned,
    CloneFailed { message: Seq<char> },
    Listed { scripts: Seq<ScriptEntryView> },
    NothingToClean,
    Cleaned,
    CleanFailed { message: Seq<char> },
    NotFound { name: Seq<char> },
    Cancelled,
    PermissionFailed { message: Seq<char> },
    ScriptFailed { message: Seq<char> },
    ScriptSucceeded,
    OutOfTurn,
}

impl DeepView for Outcome {
    type V = OutcomeView;

    open spec fn deep_view(&self) -> OutcomeView {
        match self {
            Outcome::EmptyUrl => OutcomeView::EmptyUrl,
            Outcome::Cloned => OutcomeView::Cloned,
            Outcome::CloneFailed { message } => OutcomeView::CloneFailed { message: message@ },
            Outcome::Listed { scripts } => OutcomeView::Listed { scripts: scripts.deep_view() },
            Outcome::NothingToClean => OutcomeView::NothingToClean,
            Outcome::Cleaned => OutcomeView::Cleaned,
            Outcome::CleanFailed { message } => OutcomeView::CleanFailed { message: message@ },
            Outcome::NotFound { name } => OutcomeView::NotFound { name: name@ },
            Outcome::Cancelled => OutcomeView::Cancelled,
            Outcome::PermissionFailed { message } => OutcomeView::PermissionFailed {
                message: message@,
            },
            Outcome::ScriptFailed { message } => OutcomeView::ScriptFailed { message: message@ },
            Outcome::ScriptSucceeded => OutcomeView::ScriptSucceeded,
            Outcome::OutOfTurn => OutcomeView::OutOfTurn,
        }
    }
}

impl View for Outcome {
    type V = OutcomeView;

    open spec fn view(&self) -> OutcomeView {
        self.deep_view()
    }
}

/// The next thing to do.
#[derive(Debug, Clone, PartialEq, Eq)]
pub enum Action {
    /// Start walking the tree below `root` and report its first item, or the
    /// end of the walk. A root that does not exist is a walk without scripts.
    Walk { root: String },
    /// Report the next item of the walk, or its end.
    NextEntry,
    /// Show the warning, ask the question, report the answer.
    Confirm { request: ConfirmRequest },
    /// Start the process, wait for it, report how it ended.
    Execute { command: Invocation },
    /// Report whether a directory is at `path`.
    Probe { path: String },
    /// Remove the directory at `path` with all that it holds, report how that
    /// went.
    RemoveTree { path: String },
    /// Leave: the command is over.
    Exit { outcome: Outcome },
}

/// What an [`Action`] holds.
pub enum ActionView {
    Walk { root: Seq<char> },
    NextEntry,
    Confirm { request: ConfirmRequestView },
    Execute { command: InvocationView },
    Probe { path: Seq<char> },
    RemoveTree { path: Seq<char> },
    Exit { outcome: OutcomeView },
}

impl DeepView for Action {
    type V = ActionView;

    open spec fn deep_view(&self) -> ActionView {
        match self {
            Action::Walk { root } => ActionView::Walk { root: root@ },
            Action::NextEntry => ActionView::NextEntry,
            Action::Confirm { request } => ActionView::Confirm { request: request@ },
            Action::Execute { command } => ActionView::Execute { command: command@ },
            Action::Probe { path } => ActionView::Probe { path: path@ },
            Action::RemoveTree { path } => ActionView::RemoveTree { path: path@ },
            Action::Exit { outcome } => ActionView::Exit { outcome: outcome@ },
        }
    }
}

impl View for Action {
    type V = ActionView;

    open spec fn view(&self) -> ActionView {
        self.deep_view()
    }
}

/// What came of the last action.
#[derive(Debug, Clone, PartialEq, Eq)]
pub enum Event {
    /// The walk found this item.
    Entry { item: WalkItem },
    /// The walk is over.
    EndOfWalk,
    /// The user's answer; `None` where none could be had.
    Answer { answer: Option<bool> },
    /// The process ended, or could not be started.
    Process { outcome: ProcessOutcome },
    /// Whether the directory is there.
    Probed { exists: bool },
    /// The removal is done; `failure` is what the system said if it failed.
    Removed { failure: Option<String> },
}

/// What an [`Event`] holds.
pub enum EventView {
    Entry { item: WalkItemView },
    EndOfWalk,
    Answer { answer: Option<bool> },
    Process { outcome: ProcessOutcomeView },
    Probed { exists: bool },
    Removed { failure: Option<Seq<char>> },
}

impl DeepView for Event {
    type V = EventView;

    open spec fn deep_view(&self) -> EventView {
        match self {
            Event::Entry { item } => EventView::Entry { item: item@ },
            Event::EndOfWalk => EventView::EndOfWalk,
            Event::Answer { answer } => EventView::Answer { answer: *answer },
            Event::Process { outcome } => EventView::Process { outcome: outcome@ },
            Event::Probed { exists } => EventView::Probed { exists: *exists },
            Event::Removed { failure } => EventView::Removed { failure: failure.deep_view() },
        }
    }
}

impl View for Event {
    type V = EventView;

    open spec fn view(&self) -> EventView {
        self.deep_view()
    }
}

/// The exit code of the process for each way a command can end: 0 where the
/// command did what it was asked to or the user called it off, 1 otherwise.
pub open spec fn exit_code_of(outcome: OutcomeView) -> int {
    match outcome {
        OutcomeView::Cloned => 0,
        OutcomeView::Listed { .. } => 0,
        OutcomeView::NothingToClean => 0,
        OutcomeView::Cleaned => 0,
        OutcomeView::Cancelled => 0,
        OutcomeView::ScriptSucceeded => 0,
        OutcomeView::EmptyUrl => 1,
        OutcomeView::CloneFailed { .. } => 1,
        OutcomeView::CleanFailed { .. } => 1,
        OutcomeView::NotFound { .. } => 1,
        OutcomeView::PermissionFailed { .. } => 1,
        OutcomeView::ScriptFailed { .. } => 1,
        OutcomeView::OutOfTurn => 1,
    }
}

impl Outcome {
    /// The exit code that the process leaves with.
    pub fn exit_code(&self) -> (code: i32)
        ensures
            code == exit_code_of(self@),
            code == 0 || code == 1,
    {
        match self {
            Outcome::Cloned => 0,
            Outcome::Listed { .. } => 0,
            Outcome::NothingToClean => 0,
            Outcome::Cleaned => 0,
            Outcome::Cancelled => 0,
            Outcome::ScriptSucceeded => 0,
            Outcome::EmptyUrl => 1,
            Outcome::CloneFailed { .. } => 1,
            Outcome::CleanFailed { .. } => 1,
            Outcome::NotFound { .. } => 1,
            Outcome::PermissionFailed { .. } => 1,
            Outcome::ScriptFailed { .. } => 1,
            Outcome::OutOfTurn => 1,
        }
    }
}

} // verus!
