//! The questions the window asks as the system's own dialogs -- before a
//! drawing is lost, and the page's `alert()` and `confirm()` -- and what the
//! player's answer means.

use vstd::prelude::*;

use crate::text::{chars_of, same};

verus! {

/// How the player closed a message dialog: one of its standard buttons, or
/// a button of the app's own, by its label.
#[derive(Debug, PartialEq, Eq)]
pub enum DialogAnswer {
    Yes,
    No,
    /// The OK button.
    Confirm,
    Cancel,
    Custom(String),
}

/// Whether `answer` is the player choosing the button labelled `leave`.
pub open spec fn chose(answer: DialogAnswer, leave: Seq<char>) -> bool {
    match answer {
        DialogAnswer::Custom(label) => label@ == leave,
        _ => false,
    }
}

/// Whether `result` is the player choosing Leave. Esc and a dialog's close
/// box answer Cancel, which is never agreement: a player dismissing the
/// question has not agreed to lose their drawing.
pub fn leaves(result: &DialogAnswer, leave: &str) -> (left: bool)
    ensures
        left == chose(*result, leave@),
{
    match result {
        DialogAnswer::Custom(label) => {
            let label = chars_of(label.as_str());
            let leave = chars_of(leave);
            same(label.as_slice(), leave.as_slice())
        },
        _ => false,
    }
}

/// Only Leave leaves: the standard buttons, Cancel among them, never do.
pub proof fn only_leave_leaves(answer: DialogAnswer, leave: Seq<char>)
    ensures
        !(answer is Custom) ==> !chose(answer, leave),
{
}

/// What a page asks as the system's dialog: to be told something, to say
/// yes or no to something, or whether to leave it with unsaved work.
#[derive(Debug, PartialEq, Eq)]
pub enum Question {
    Alert(String),
    Confirm(String),
    Leave,
}

/// Whether the player agreed to `question` by answering `result`, the
/// leaving question's Leave button labelled `leave`: Leave for leaving,
/// and OK for the page's own `alert()` and `confirm()`. Esc and a close box
/// are never agreement.
pub fn agreed(question: &Question, result: &DialogAnswer, leave: &str) -> (yes: bool)
    ensures
        yes == match question {
            Question::Leave => chose(*result, leave@),
            _ => *result is Confirm,
        },
{
    match question {
        Question::Leave => leaves(result, leave),
        _ => match result {
            DialogAnswer::Confirm => true,
            _ => false,
        },
    }
}

} // verus!
