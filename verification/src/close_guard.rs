//! Closing the window over a drawing asks first.
//!
//! Closing a window unloads its page without asking it, so the app asks
//! first: the page asks its own `beforeunload` handlers the way a browser
//! asks them (`leave::WOULD_LOSE_WORK`), and if one would keep a browser on
//! the page, the player is asked whether to leave anyway. The question is
//! asked once at a time: a second click on the close button while it is on
//! screen does not stack a second one behind it.
//!
//! The guard decides; the window does what each step says -- evaluates the
//! question in the page, shows the dialog, closes -- and hands back what it
//! heard.

use vstd::prelude::*;

use crate::text::{chars_of, spells};

verus! {

/// What the window does next on the way out.
#[derive(Clone, Copy, Debug, PartialEq, Eq, Structural)]
pub enum LeaveStep {
    /// Go: do what was waiting for the page to agree.
    Go,
    /// Ask the page whether leaving now would lose work, and hand back its
    /// answer.
    AskPage,
    /// A question is already on screen; this close waits on it.
    AlreadyAsking,
    /// The page would lose work: ask the player, and hand back whether they
    /// chose Leave.
    AskPlayer,
    /// The player chose to stay.
    Stay,
    /// The page could not be asked, and so cannot answer: close the window
    /// rather than keep the player.
    Close,
}

/// On a close asked for, with a window to ask or not: whether a question is
/// on screen after, and the step.
pub open spec fn on_close(asking: bool, has_window: bool) -> (bool, LeaveStep) {
    if !has_window {
        (asking, LeaveStep::Go)
    } else if asking {
        (asking, LeaveStep::AlreadyAsking)
    } else {
        (true, LeaveStep::AskPage)
    }
}

/// On the page's answer: anything but `true` has nothing to lose.
pub open spec fn on_page_answer(asking: bool, answer: Seq<char>) -> (bool, LeaveStep) {
    if answer != "true"@ {
        (false, LeaveStep::Go)
    } else {
        (asking, LeaveStep::AskPlayer)
    }
}

/// On the player's answer.
pub open spec fn on_player_answer(leave: bool) -> (bool, LeaveStep) {
    (false, if leave {
        LeaveStep::Go
    } else {
        LeaveStep::Stay
    })
}

/// Whether the question is on screen.
pub struct LeaveGuard {
    asking: bool,
}

impl LeaveGuard {
    pub closed spec fn asking(&self) -> bool {
        self.asking
    }

    /// No question on screen.
    pub fn new() -> (guard: LeaveGuard)
        ensures
            !guard.asking(),
    {
        LeaveGuard { asking: false }
    }

    /// A close is asked for: with no window to ask, go; with a question on
    /// screen already, wait on it; otherwise ask the page.
    pub fn close_requested(&mut self, has_window: bool) -> (step: LeaveStep)
        ensures
            (final(self).asking(), step) == on_close(old(self).asking(), has_window),
    {
        if !has_window {
            LeaveStep::Go
        } else if self.asking {
            LeaveStep::AlreadyAsking
        } else {
            self.asking = true;
            LeaveStep::AskPage
        }
    }

    /// The page answered whether leaving would lose work.
    pub fn page_answered(&mut self, answer: &str) -> (step: LeaveStep)
        ensures
            (final(self).asking(), step) == on_page_answer(old(self).asking(), answer@),
    {
        if !spells(chars_of(answer).as_slice(), "true") {
            self.asking = false;
            LeaveStep::Go
        } else {
            LeaveStep::AskPlayer
        }
    }

    /// The player answered the question.
    pub fn player_answered(&mut self, leave: bool) -> (step: LeaveStep)
        ensures
            (final(self).asking(), step) == on_player_answer(leave),
    {
        self.asking = false;
        if leave {
            LeaveStep::Go
        } else {
            LeaveStep::Stay
        }
    }

    /// The page could not be asked.
    pub fn page_unreachable(&mut self) -> (step: LeaveStep)
        ensures
            !final(self).asking(),
            step == LeaveStep::Close,
    {
        self.asking = false;
        LeaveStep::Close
    }
}

/// One question at a time, and nothing lost without agreement: a close
/// while the question is on screen waits on it; a page that would lose work
/// is never left on its word alone, only on the player's Leave; and once the
/// question is answered the next close asks again.
pub proof fn nothing_is_lost_without_agreement(asking: bool, has_window: bool, leave: bool)
    ensures
        has_window && asking ==> on_close(asking, has_window).1 == LeaveStep::AlreadyAsking,
        has_window && !asking ==> on_close(asking, has_window) == (true, LeaveStep::AskPage),
        on_page_answer(asking, "true"@).1 != LeaveStep::Go,
        on_player_answer(leave).1 == LeaveStep::Go <==> leave,
        !on_player_answer(leave).0,
        on_close(on_player_answer(leave).0, has_window).1 != LeaveStep::AlreadyAsking,
{
}

/// The steps the guard gives for one close asked for, with a question on
/// screen already (`asking`) or not, with a window to ask or not, the page
/// answering `answer` to whether leaving would lose work, and the player
/// answering the Leave question with `leave`: each step the window is told
/// to take, in order -- a page or a player is asked only where the step
/// before said so -- and whether a question is on screen after.
pub open spec fn one_close(asking: bool, has_window: bool, answer: Seq<char>, leave: bool) -> (bool, Seq<LeaveStep>) {
    let (a1, s1) = on_close(asking, has_window);
    if s1 == LeaveStep::AskPage {
        let (a2, s2) = on_page_answer(a1, answer);
        if s2 == LeaveStep::AskPlayer {
            let (a3, s3) = on_player_answer(leave);
            (a3, seq![s1, s2, s3])
        } else {
            (a2, seq![s1, s2])
        }
    } else {
        (a1, seq![s1])
    }
}

/// What waited for the page to agree runs at most once for a close, and
/// only where nothing is lost: at once, asking nothing, with no window to
/// ask; after the page says it would lose nothing; and where it would,
/// only after the Leave question, asked once, and only if the player chose
/// Leave. A close asked for while a question is on screen asks nothing and
/// runs nothing; and a question stays on screen from the page being asked
/// until it is answered, so any close in between is such a one.
pub proof fn what_waits_runs_once_and_only_on_leave(
    asking: bool,
    has_window: bool,
    answer: Seq<char>,
    leave: bool,
)
    ensures
        ({
            let steps = one_close(asking, has_window, answer, leave).1;
            &&& forall|a: int, b: int|
                0 <= a < b < steps.len() ==> !(#[trigger] steps[a] == LeaveStep::Go && #[trigger] steps[b]
                    == LeaveStep::Go)
            &&& steps.contains(LeaveStep::Go) <==> (!has_window || (!asking && (answer != "true"@
                || leave)))
            &&& forall|a: int|
                0 <= a < steps.len() && #[trigger] steps[a] == LeaveStep::Go && has_window && answer == "true"@
                    ==> a > 0 && steps[a - 1] == LeaveStep::AskPlayer && leave
        }),
        !has_window ==> one_close(asking, has_window, answer, leave).1 == seq![LeaveStep::Go],
        has_window && asking ==> one_close(asking, has_window, answer, leave) == (
            true,
            seq![LeaveStep::AlreadyAsking],
        ),
        has_window && !asking && answer != "true"@ ==> one_close(asking, has_window, answer, leave)
            == (false, seq![LeaveStep::AskPage, LeaveStep::Go]),
        has_window && !asking && answer == "true"@ ==> one_close(asking, has_window, answer, leave)
            == (false, seq![LeaveStep::AskPage, LeaveStep::AskPlayer, if leave {
                LeaveStep::Go
            } else {
                LeaveStep::Stay
            }]),
        has_window && !asking ==> on_close(asking, has_window).0 && on_page_answer(
            on_close(asking, has_window).0,
            "true"@,
        ).0,
{
    let steps = one_close(asking, has_window, answer, leave).1;
    if !has_window {
        assert(steps == seq![LeaveStep::Go]);
        assert(steps[0] == LeaveStep::Go);
    } else if asking {
        assert(steps == seq![LeaveStep::AlreadyAsking]);
        assert(!steps.contains(LeaveStep::Go)) by {
            if steps.contains(LeaveStep::Go) {
                let k = choose|k: int| 0 <= k < steps.len() && steps[k] == LeaveStep::Go;
            }
        }
    } else if answer != "true"@ {
        assert(steps == seq![LeaveStep::AskPage, LeaveStep::Go]);
        assert(steps[1] == LeaveStep::Go);
    } else {
        let last = if leave {
            LeaveStep::Go
        } else {
            LeaveStep::Stay
        };
        assert(steps == seq![LeaveStep::AskPage, LeaveStep::AskPlayer, last]);
        if leave {
            assert(steps[2] == LeaveStep::Go);
        } else {
            assert(!steps.contains(LeaveStep::Go)) by {
                if steps.contains(LeaveStep::Go) {
                    let k = choose|k: int| 0 <= k < steps.len() && steps[k] == LeaveStep::Go;
                }
            }
        }
    }
}

} // verus!
