//! The execution gate: nothing from the cache runs before the user has been
//! warned and has said yes. The library does not ask; it says what to ask
//! ([`ConfirmRequest`]) and judges the answer ([`consent`]).

use vstd::prelude::*;
use vstd::string::*;

verus! {

/// What to show and ask before a script runs.
#[derive(Debug, Clone, PartialEq, Eq)]
pub struct ConfirmRequest {
    /// The warning, shown before the question.
    pub warning: String,
    /// The question, to be answered with yes or no.
    pub prompt: String,
    /// The answer that counts when the user gives none.
    pub default_answer: bool,
}

/// What a [`ConfirmRequest`] holds.
pub struct ConfirmRequestView {
    pub warning: Seq<char>,
    pub prompt: Seq<char>,
    pub default_answer: bool,
}

impl DeepView for ConfirmRequest {
    type V = ConfirmRequestView;

    open spec fn deep_view(&self) -> ConfirmRequestView {
        ConfirmRequestView {
            warning: self.warning@,
            prompt: self.prompt@,
            default_answer: self.default_answer,
        }
    }
}

impl View for ConfirmRequest {
    type V = ConfirmRequestView;

    open spec fn view(&self) -> ConfirmRequestView {
        self.deep_view()
    }
}

/// The one request made before a run: a fixed warning, a fixed question, and
/// no as the default answer.
pub open spec fn gate_request() -> ConfirmRequestView {
    ConfirmRequestView {
        warning: "The file you are about to run may contain malicious code. Please review the script before running it."@,
        prompt: "Do you want to run this script?"@,
        default_answer: false,
    }
}

/// An answer is consent only when it is an explicit yes. No answer at all
/// (the question could not be asked, or was dismissed) is a refusal.
pub open spec fn consents(answer: Option<bool>) -> bool {
    answer == Some(true)
}

/// What to show and ask before a script runs.
pub fn confirmation_request() -> (request: ConfirmRequest)
    ensures
        request@ == gate_request(),
        !request.default_answer,
{
    ConfirmRequest {
        warning: String::from_str(
            "The file you are about to run may contain malicious code. Please review the script before running it.",
        ),
        prompt: String::from_str("Do you want to run this script?"),
        default_answer: false,
    }
}

/// Whether the answer allows the script to run. `None` stands for an answer
/// that could not be had.
pub fn consent(answer: Option<bool>) -> (granted: bool)
    ensures
        granted == consents(answer),
        answer is None ==> !granted,
{
    match answer {
        Some(yes) => yes,
        None => false,
    }
}

} // verus!
