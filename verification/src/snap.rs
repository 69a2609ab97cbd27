//! Snap Layouts on the maximise button the toolbar draws.
//!
//! Windows 11 offers its layouts to a pointer resting on a window's maximise
//! button, and it knows the button by asking the window under the pointer
//! what is there and hearing "the maximise button". The toolbar's button is
//! the page's, and the page cannot answer, so a small window of the app's own
//! sits over it, draws nothing, and answers for it. While the pointer is on
//! it, the stand-in does the button's work: tells the page to show the button
//! hot or pressed (`oeeeApp.caption`), and maximises or restores the window
//! on a click, the way the system's own button does. What it does on each
//! message the system sends it is `StandIn`.

use vstd::prelude::*;

verus! {

/// The messages the stand-in answers itself; the system answers the rest.
#[derive(Clone, Copy, Debug, PartialEq, Eq, Structural)]
pub enum CaptionMessage {
    /// What is under the pointer: asked before the layouts are offered.
    HitTest,
    /// The pointer moved over the stand-in.
    PointerMoved,
    /// The pointer left the stand-in, or the layouts opened over it.
    PointerLeft,
    /// The button pressed, once or twice.
    Pressed,
    /// The button let go.
    Released,
}

/// How the page shows its button.
#[derive(Clone, Copy, Debug, PartialEq, Eq, Structural)]
pub enum Pointer {
    Hot,
    Pressed,
    /// As it is, with no pointer on it.
    Away,
}

/// What the stand-in does on a message.
#[derive(Clone, Copy, Debug, PartialEq, Eq, Structural)]
pub struct Answer {
    /// Says the pointer is on the maximise button.
    pub maximise_button: bool,
    /// Asks to be told when the pointer leaves.
    pub track_leaving: bool,
    /// Tells the page how to show its button.
    pub show: Option<Pointer>,
    /// Maximises the window, or restores it if it is maximised.
    pub toggle: bool,
}

/// Whether the pointer is on the stand-in, and whether it was pressed
/// there.
pub struct StandIn {
    hot: bool,
    pressed: bool,
}

/// An answer that does nothing but what is named.
pub open spec fn answer(maximise_button: bool, track_leaving: bool, show: Option<Pointer>, toggle: bool) -> Answer {
    Answer { maximise_button, track_leaving, show, toggle }
}

/// What the stand-in does on `message`, from `(hot, pressed)`, and the state
/// after.
pub open spec fn on_message(hot: bool, pressed: bool, message: CaptionMessage) -> (bool, bool, Answer) {
    match message {
        CaptionMessage::HitTest => (hot, pressed, answer(true, false, None, false)),
        CaptionMessage::PointerMoved => if hot {
            (hot, pressed, answer(false, false, None, false))
        } else {
            (
                true,
                pressed,
                answer(
                    false,
                    true,
                    Some(
                        if pressed {
                            Pointer::Pressed
                        } else {
                            Pointer::Hot
                        },
                    ),
                    false,
                ),
            )
        },
        CaptionMessage::PointerLeft => (false, false, answer(false, false, Some(Pointer::Away), false)),
        CaptionMessage::Pressed => (hot, true, answer(false, false, Some(Pointer::Pressed), false)),
        CaptionMessage::Released => if pressed {
            (hot, false, answer(false, false, Some(Pointer::Hot), true))
        } else {
            (hot, pressed, answer(false, false, None, false))
        },
    }
}

impl StandIn {
    pub closed spec fn hot(&self) -> bool {
        self.hot
    }

    pub closed spec fn pressed(&self) -> bool {
        self.pressed
    }

    /// No pointer on it.
    pub fn new() -> (stand_in: StandIn)
        ensures
            !stand_in.hot(),
            !stand_in.pressed(),
    {
        StandIn { hot: false, pressed: false }
    }

    /// What to do on a message the system sent the stand-in.
    pub fn on_message(&mut self, message: CaptionMessage) -> (done: Answer)
        ensures
            (final(self).hot(), final(self).pressed(), done) == on_message(
                old(self).hot(),
                old(self).pressed(),
                message,
            ),
    {
        match message {
            CaptionMessage::HitTest => Answer {
                maximise_button: true,
                track_leaving: false,
                show: None,
                toggle: false,
            },
            CaptionMessage::PointerMoved => {
                if self.hot {
                    Answer { maximise_button: false, track_leaving: false, show: None, toggle: false }
                } else {
                    self.hot = true;
                    let show = if self.pressed {
                        Pointer::Pressed
                    } else {
                        Pointer::Hot
                    };
                    Answer {
                        maximise_button: false,
                        track_leaving: true,
                        show: Some(show),
                        toggle: false,
                    }
                }
            },
            CaptionMessage::PointerLeft => self.leave(),
            CaptionMessage::Pressed => {
                self.pressed = true;
                Answer {
                    maximise_button: false,
                    track_leaving: false,
                    show: Some(Pointer::Pressed),
                    toggle: false,
                }
            },
            CaptionMessage::Released => {
                if self.pressed {
                    self.pressed = false;
                    Answer {
                        maximise_button: false,
                        track_leaving: false,
                        show: Some(Pointer::Hot),
                        toggle: true,
                    }
                } else {
                    Answer { maximise_button: false, track_leaving: false, show: None, toggle: false }
                }
            },
        }
    }

    /// The pointer is gone, or the stand-in taken away: the page shows its
    /// button as it is.
    pub fn leave(&mut self) -> (done: Answer)
        ensures
            !final(self).hot(),
            !final(self).pressed(),
            done == answer(false, false, Some(Pointer::Away), false),
    {
        self.hot = false;
        self.pressed = false;
        Answer { maximise_button: false, track_leaving: false, show: Some(Pointer::Away), toggle: false }
    }
}

/// A click maximises only when the press was on the button: letting go
/// toggles the window exactly when the button was pressed, and leaving
/// forgets a press, so a press dragged off and let go elsewhere does
/// nothing.
pub proof fn a_click_is_a_press_and_a_release_on_the_button(hot: bool, pressed: bool)
    ensures
        on_message(hot, pressed, CaptionMessage::Released).2.toggle == pressed,
        !on_message(hot, pressed, CaptionMessage::PointerLeft).1,
        !on_message(
            on_message(hot, pressed, CaptionMessage::PointerLeft).0,
            on_message(hot, pressed, CaptionMessage::PointerLeft).1,
            CaptionMessage::Released,
        ).2.toggle,
        forall|m: CaptionMessage| m != CaptionMessage::Released ==> !#[trigger] on_message(hot, pressed, m).2.toggle,
{
}

/// Tells the page how to show its button.
pub open spec fn caption_script(pointer: Pointer) -> Seq<char> {
    match pointer {
        Pointer::Hot => "window.oeeeApp && window.oeeeApp.caption && window.oeeeApp.caption({pointer: \"hot\"})"@,
        Pointer::Pressed => "window.oeeeApp && window.oeeeApp.caption && window.oeeeApp.caption({pointer: \"pressed\"})"@,
        Pointer::Away => "window.oeeeApp && window.oeeeApp.caption && window.oeeeApp.caption({pointer: \"\"})"@,
    }
}

/// The script that tells the page how to show its button.
pub fn show_script(pointer: Pointer) -> (script: &'static str)
    ensures
        script@ == caption_script(pointer),
{
    match pointer {
        Pointer::Hot => "window.oeeeApp && window.oeeeApp.caption && window.oeeeApp.caption({pointer: \"hot\"})",
        Pointer::Pressed => "window.oeeeApp && window.oeeeApp.caption && window.oeeeApp.caption({pointer: \"pressed\"})",
        Pointer::Away => "window.oeeeApp && window.oeeeApp.caption && window.oeeeApp.caption({pointer: \"\"})",
    }
}

} // verus!
