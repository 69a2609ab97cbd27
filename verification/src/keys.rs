//! The window's keys on Windows: the ones any Windows program answers to,
//! and shortcuts for the site's own commands.
//!
//! WebView2's own browser keys are off, because each of them is the browser
//! speaking -- Ctrl+F's find bar, Ctrl+P's print preview. That took going
//! back, forward and reloading with them, so those are answered here
//! instead, as the app's: Alt+Left and Alt+Right, F5 and Ctrl+R, the
//! keyboard's own Back, Forward and Refresh keys, and Ctrl+W to close the
//! window, which asks first over a drawing as the close button does.
//!
//! Ctrl+F is the site's search rather than a find bar, and the rest are the
//! site's sections by number. F11 is full screen, and Ctrl+Plus, Ctrl+Minus
//! and Ctrl+0 make the window bigger, smaller and back (`zoom`).

use vstd::prelude::*;

use crate::json::json_string;
use crate::store::quoted;
use crate::text::{trim_end_str, trimmed_end};
use crate::zoom::Step;

verus! {

/// What a key does.
#[derive(Debug, Clone, Copy, PartialEq, Eq)]
pub enum Action {
    Back,
    Forward,
    Reload,
    Close,
    /// One of the site's commands, by the name `window.oeeeApp.command` knows it
    /// by.
    Command(&'static str),
    /// Full screen, or out of it.
    FullScreen,
    /// The window a level bigger, smaller, or back to its own size.
    Zoom(Step),
}

/// The modifier keys held with it.
#[derive(Debug, Clone, Copy, Default, PartialEq, Eq)]
pub struct Modifiers {
    pub ctrl: bool,
    pub alt: bool,
    pub shift: bool,
}

// Windows' virtual-key codes, which are what WebView2 reports.
pub const VK_F4: u32 = 0x73;

pub const VK_F5: u32 = 0x74;

pub const VK_F11: u32 = 0x7A;

/// The `=+` key, Plus with Ctrl.
pub const VK_OEM_PLUS: u32 = 0xBB;

/// The `-_` key, Minus with Ctrl.
pub const VK_OEM_MINUS: u32 = 0xBD;

pub const VK_LEFT: u32 = 0x25;

pub const VK_RIGHT: u32 = 0x27;

pub const VK_BROWSER_BACK: u32 = 0xA6;

pub const VK_BROWSER_FORWARD: u32 = 0xA7;

pub const VK_BROWSER_REFRESH: u32 = 0xA8;

pub const VK_OEM_COMMA: u32 = 0xBC;

/// The `/?` key on US layouts.
pub const VK_OEM_2: u32 = 0xBF;

/// Whether a key is a letter or a digit: Windows reports those by their
/// capital's or digit's code.
pub open spec fn is_letter_key(key: u32) -> bool {
    (0x30 <= key <= 0x39) || (0x41 <= key <= 0x5a)
}

/// What an action is, as far as comparing goes: a command by its name's
/// characters.
pub enum Deed {
    Back,
    Forward,
    Reload,
    Close,
    Command(Seq<char>),
    FullScreen,
    Zoom(Step),
}

pub open spec fn deed(action: Action) -> Deed {
    match action {
        Action::Back => Deed::Back,
        Action::Forward => Deed::Forward,
        Action::Reload => Deed::Reload,
        Action::Close => Deed::Close,
        Action::Command(name) => Deed::Command(name@),
        Action::FullScreen => Deed::FullScreen,
        Action::Zoom(step) => Deed::Zoom(step),
    }
}

/// The action for `key` held with Ctrl alone.
pub open spec fn with_ctrl(key: u32) -> Option<Deed> {
    if key == VK_F5 || key == 0x52 {
        Some(Deed::Reload)
    } else if key == VK_F4 || key == 0x57 {
        Some(Deed::Close)
    } else if key == 0x46 {
        Some(Deed::Command("search"@))
    } else if key == 0x4e {
        Some(Deed::Command("new-drawing"@))
    } else if key == VK_OEM_COMMA {
        Some(Deed::Command("account"@))
    } else if key == VK_OEM_2 {
        Some(Deed::Command("shortcuts"@))
    } else if key == 0x31 {
        Some(Deed::Command("recent"@))
    } else if key == 0x32 {
        Some(Deed::Command("following"@))
    } else if key == 0x33 {
        Some(Deed::Command("communities"@))
    } else if key == 0x34 {
        Some(Deed::Command("together"@))
    } else if key == 0x35 {
        Some(Deed::Command("tags"@))
    } else if key == VK_OEM_PLUS {
        Some(Deed::Zoom(Step::In))
    } else if key == VK_OEM_MINUS {
        Some(Deed::Zoom(Step::Out))
    } else if key == 0x30 {
        Some(Deed::Zoom(Step::Reset))
    } else {
        None
    }
}

/// The action for `key` pressed with `held`: the window's table of keys.
pub open spec fn action_for(key: u32, held: Modifiers) -> Option<Deed> {
    if !held.ctrl && !held.alt && !held.shift {
        if key == VK_F5 || key == VK_BROWSER_REFRESH {
            Some(Deed::Reload)
        } else if key == VK_BROWSER_BACK {
            Some(Deed::Back)
        } else if key == VK_BROWSER_FORWARD {
            Some(Deed::Forward)
        } else if key == VK_F11 {
            Some(Deed::FullScreen)
        } else {
            None
        }
    } else if !held.ctrl && held.alt && !held.shift {
        if key == VK_LEFT {
            Some(Deed::Back)
        } else if key == VK_RIGHT {
            Some(Deed::Forward)
        } else {
            None
        }
    } else if held.ctrl && !held.alt && !held.shift {
        with_ctrl(key)
    } else if held.ctrl && !held.alt && held.shift {
        if key == 0x52 {
            Some(Deed::Reload)
        } else {
            None
        }
    } else {
        None
    }
}

/// The action for `key` pressed with `held`, if it is one of the window's.
pub fn action(key: u32, held: Modifiers) -> (done: Option<Action>)
    ensures
        match done {
            Some(a) => action_for(key, held) == Some(deed(a)),
            None => action_for(key, held) is None,
        },
{
    let Modifiers { ctrl, alt, shift } = held;
    // A letter key is its capital's code; F4 and F5 share theirs with
    // lower-case letters, and are matched before any letter is.
    if !ctrl && !alt && !shift {
        if key == VK_F5 || key == VK_BROWSER_REFRESH {
            Some(Action::Reload)
        } else if key == VK_BROWSER_BACK {
            Some(Action::Back)
        } else if key == VK_BROWSER_FORWARD {
            Some(Action::Forward)
        } else if key == VK_F11 {
            Some(Action::FullScreen)
        } else {
            None
        }
    } else if !ctrl && alt && !shift {
        if key == VK_LEFT {
            Some(Action::Back)
        } else if key == VK_RIGHT {
            Some(Action::Forward)
        } else {
            None
        }
    } else if ctrl && !alt && !shift {
        if key == VK_F5 || key == 0x52 {
            Some(Action::Reload)
        } else if key == VK_F4 || key == 0x57 {
            Some(Action::Close)
        } else if key == 0x46 {
            Some(Action::Command("search"))
        } else if key == 0x4e {
            Some(Action::Command("new-drawing"))
        } else if key == VK_OEM_COMMA {
            Some(Action::Command("account"))
        } else if key == VK_OEM_2 {
            Some(Action::Command("shortcuts"))
        } else if key == 0x31 {
            Some(Action::Command("recent"))
        } else if key == 0x32 {
            Some(Action::Command("following"))
        } else if key == 0x33 {
            Some(Action::Command("communities"))
        } else if key == 0x34 {
            Some(Action::Command("together"))
        } else if key == 0x35 {
            Some(Action::Command("tags"))
        } else if key == VK_OEM_PLUS {
            Some(Action::Zoom(Step::In))
        } else if key == VK_OEM_MINUS {
            Some(Action::Zoom(Step::Out))
        } else if key == 0x30 {
            Some(Action::Zoom(Step::Reset))
        } else {
            None
        }
    } else if ctrl && !alt && shift {
        if key == 0x52 {
            Some(Action::Reload)
        } else {
            None
        }
    } else {
        None
    }
}

/// The site's commands a key can send, as `window.oeeeApp.command` knows
/// them.
pub open spec fn is_site_command(name: Seq<char>) -> bool {
    ||| name == "search"@
    ||| name == "new-drawing"@
    ||| name == "account"@
    ||| name == "shortcuts"@
    ||| name == "recent"@
    ||| name == "following"@
    ||| name == "communities"@
    ||| name == "together"@
    ||| name == "tags"@
}

/// Keys that are not the window's are left alone: typing -- a letter or a
/// digit with no modifier, or with Shift alone -- and editing with Ctrl+C,
/// Ctrl+V, Ctrl+X, Ctrl+Z and Ctrl+A, reach the page; a command is always
/// one of the site's; and only Ctrl carries a command.
pub proof fn keys_that_are_not_the_windows_are_left_alone(key: u32, held: Modifiers)
    ensures
        is_letter_key(key) && !held.ctrl && !held.alt ==> action_for(key, held) is None,
        held.ctrl && !held.alt && !held.shift && (key == 0x43 || key == 0x56 || key == 0x58 || key
            == 0x5a || key == 0x41) ==> action_for(key, held) is None,
        action_for(key, held) matches Some(Deed::Command(name)) ==> is_site_command(name)
            && held.ctrl && !held.alt && !held.shift,
        held.alt && key != VK_LEFT && key != VK_RIGHT ==> action_for(key, held) is None,
{
}

/// The script that carries out the site command `command` in the page
/// showing: `call`, the site's own `window.oeeeApp.command` guarded to the
/// member, applied to the command's name as JSON. A page without the
/// toolbar -- a replay, or the loader before the site has arrived -- has no
/// `oeeeApp.command`, and there the key does nothing.
pub fn command_script(call: &str, command: &str) -> (script: String)
    ensures
        script@ == trimmed_end(call@) + "("@ + json_string(command@) + ");"@,
{
    let mut script = String::new();
    script.append(trim_end_str(call));
    script.append("(");
    script.append(quoted(command).as_str());
    script.append(");");
    script
}

/// What carrying out `action` runs in the page showing, `call` being the
/// site's command call: going back, forward or reloading is the page's own,
/// so a page holding a drawing asks first; a site command asks the page;
/// and closing, full screen and the window's size run nothing in the page
/// -- the window does them, closing asking first as the close button does.
pub open spec fn action_script(call: Seq<char>, action: Action) -> Option<Seq<char>> {
    match action {
        Action::Back => Some("history.back();"@),
        Action::Forward => Some("history.forward();"@),
        Action::Reload => Some("location.reload();"@),
        Action::Close | Action::FullScreen | Action::Zoom(_) => None,
        Action::Command(name) => Some(trimmed_end(call) + "("@ + json_string(name@) + ");"@),
    }
}

/// The script that carries out one of the window's keys in the page
/// showing, or none for what the window does itself: closing, full screen
/// and its size.
pub fn script_for_action(call: &str, action: Action) -> (script: Option<String>)
    ensures
        match action_script(call@, action) {
            Some(text) => script matches Some(s) && s@ == text,
            None => script is None,
        },
{
    match action {
        Action::Back => Some(String::from_str("history.back();")),
        Action::Forward => Some(String::from_str("history.forward();")),
        Action::Reload => Some(String::from_str("location.reload();")),
        Action::Close | Action::FullScreen | Action::Zoom(_) => None,
        Action::Command(name) => Some(command_script(call, name)),
    }
}

/// The window's keys, each doing what a Windows program's does: the
/// keyboard's Back, Forward and Refresh keys and F5; Alt+Left and
/// Alt+Right; Ctrl+R, Ctrl+F5 and Ctrl+Shift+R to reload; Ctrl+W and
/// Ctrl+F4 to close; F11 for full screen; and Ctrl+Plus, Ctrl+Minus and
/// Ctrl+0 for the window's size. The site's own: Ctrl+F its search, Ctrl+N
/// a new drawing, Ctrl+, the account, Ctrl+/ its shortcuts, and Ctrl+1 to
/// Ctrl+5 its sections.
pub proof fn each_key_does_what_a_windows_program_does()
    ensures
        ({
            let none = Modifiers { ctrl: false, alt: false, shift: false };
            let alt = Modifiers { ctrl: false, alt: true, shift: false };
            let ctrl = Modifiers { ctrl: true, alt: false, shift: false };
            let ctrl_shift = Modifiers { ctrl: true, alt: false, shift: true };
            &&& action_for(0xA6, none) == Some(Deed::Back)
            &&& action_for(0xA7, none) == Some(Deed::Forward)
            &&& action_for(0xA8, none) == Some(Deed::Reload)
            &&& action_for(0x74, none) == Some(Deed::Reload)
            &&& action_for(0x7A, none) == Some(Deed::FullScreen)
            &&& action_for(0x25, alt) == Some(Deed::Back)
            &&& action_for(0x27, alt) == Some(Deed::Forward)
            &&& action_for(0x52, ctrl) == Some(Deed::Reload)
            &&& action_for(0x74, ctrl) == Some(Deed::Reload)
            &&& action_for(0x52, ctrl_shift) == Some(Deed::Reload)
            &&& action_for(0x57, ctrl) == Some(Deed::Close)
            &&& action_for(0x73, ctrl) == Some(Deed::Close)
            &&& action_for(0xBB, ctrl) == Some(Deed::Zoom(Step::In))
            &&& action_for(0xBD, ctrl) == Some(Deed::Zoom(Step::Out))
            &&& action_for(0x30, ctrl) == Some(Deed::Zoom(Step::Reset))
            &&& action_for(0x46, ctrl) == Some(Deed::Command("search"@))
            &&& action_for(0x4E, ctrl) == Some(Deed::Command("new-drawing"@))
            &&& action_for(0xBC, ctrl) == Some(Deed::Command("account"@))
            &&& action_for(0xBF, ctrl) == Some(Deed::Command("shortcuts"@))
            &&& action_for(0x31, ctrl) == Some(Deed::Command("recent"@))
            &&& action_for(0x32, ctrl) == Some(Deed::Command("following"@))
            &&& action_for(0x33, ctrl) == Some(Deed::Command("communities"@))
            &&& action_for(0x34, ctrl) == Some(Deed::Command("together"@))
            &&& action_for(0x35, ctrl) == Some(Deed::Command("tags"@))
        }),
{
}

} // verus!
