//! `alert()`, `confirm()`, `beforeunload` and quitting on macOS, where the
//! app asks in its own alert. The first button is the default a reflexive
//! Return answers: OK for `confirm()`, and Stay before leaving, with Leave
//! second.

use vstd::prelude::*;

use crate::words::Words;

verus! {

/// The buttons of the question before leaving, in order: Stay, the default,
/// then Leave.
pub fn leaving_buttons(words: &Words) -> (buttons: [String; 2])
    ensures
        buttons@[0] == words.stay,
        buttons@[1] == words.leave,
{
    [words.stay.clone(), words.leave.clone()]
}

/// The index of the button the player pressed, from the alert's answer and
/// the answer its first button gives: the first button is 0, and an answer
/// before it is taken as the first.
pub fn button_pressed(response: i64, first: i64) -> (pressed: usize)
    ensures
        pressed == if response - first < 0 || response - first > usize::MAX {
            0
        } else {
            response - first
        },
{
    if response < first {
        return 0;
    }
    let gap: i128 = response as i128 - first as i128;
    if gap > usize::MAX as i128 {
        0
    } else {
        gap as usize
    }
}

/// Whether the player agreed to a page's `confirm()`: OK is the first
/// button, and Cancel the second.
pub fn confirmed(pressed: usize) -> (accepted: bool)
    ensures
        accepted == (pressed == 0),
{
    pressed == 0
}

/// Whether the player means to leave a page that has asked them not to,
/// given the index of the button they pressed: only Leave, the second.
pub fn confirm_leaving(pressed: usize) -> (leave: bool)
    ensures
        leave == (pressed == 1),
{
    pressed == 1
}

/// What to answer the system's question whether to quit.
#[derive(Clone, Copy, Debug, PartialEq, Eq, Structural)]
pub enum QuitReply {
    /// Quit now.
    Now,
    /// Not now: the page is asked first, and a quit asked for again once it
    /// has agreed.
    Cancel,
}

/// Whether the page has agreed to go, so the quit it then asks for is not
/// questioned a second time.
pub struct QuitGuard {
    agreed: bool,
}

impl QuitGuard {
    pub closed spec fn agreed(&self) -> bool {
        self.agreed
    }

    pub fn new() -> (guard: QuitGuard)
        ensures
            !guard.agreed(),
    {
        QuitGuard { agreed: false }
    }

    /// The page has agreed to go.
    pub fn agree(&mut self)
        ensures
            final(self).agreed(),
    {
        self.agreed = true;
    }

    /// The answer to a quit asked for, the app there to ask the page or not:
    /// a quit the page has agreed to, or one with no page to ask, goes now;
    /// any other waits for the page.
    pub fn should_terminate(&self, has_app: bool) -> (reply: QuitReply)
        ensures
            reply == (if self.agreed() || !has_app {
                QuitReply::Now
            } else {
                QuitReply::Cancel
            }),
    {
        if self.agreed || !has_app {
            QuitReply::Now
        } else {
            QuitReply::Cancel
        }
    }
}

} // verus!
