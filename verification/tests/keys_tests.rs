use oeee_cafe_desktop::keys::{
    action, Action, Modifiers, VK_BROWSER_BACK, VK_BROWSER_FORWARD, VK_BROWSER_REFRESH, VK_F4,
    VK_F5, VK_LEFT, VK_OEM_2, VK_OEM_COMMA, VK_RIGHT,
};

const NONE: Modifiers = Modifiers { ctrl: false, alt: false, shift: false };
const CTRL: Modifiers = Modifiers { ctrl: true, alt: false, shift: false };
const ALT: Modifiers = Modifiers { ctrl: false, alt: true, shift: false };
const CTRL_SHIFT: Modifiers = Modifiers { ctrl: true, alt: false, shift: true };

#[test]
fn going_back_and_forward() {
    assert_eq!(action(VK_LEFT, ALT), Some(Action::Back));
    assert_eq!(action(VK_RIGHT, ALT), Some(Action::Forward));
    assert_eq!(action(VK_BROWSER_BACK, NONE), Some(Action::Back));
    assert_eq!(action(VK_BROWSER_FORWARD, NONE), Some(Action::Forward));
}

#[test]
fn reloading() {
    assert_eq!(action(VK_F5, NONE), Some(Action::Reload));
    assert_eq!(action(VK_F5, CTRL), Some(Action::Reload));
    assert_eq!(action('R' as u32, CTRL), Some(Action::Reload));
    assert_eq!(action('R' as u32, CTRL_SHIFT), Some(Action::Reload));
    assert_eq!(action(VK_BROWSER_REFRESH, NONE), Some(Action::Reload));
}

#[test]
fn closing() {
    assert_eq!(action('W' as u32, CTRL), Some(Action::Close));
    assert_eq!(action(VK_F4, CTRL), Some(Action::Close));
}

#[test]
fn the_sites_commands() {
    assert_eq!(action('F' as u32, CTRL), Some(Action::Command("search")));
    assert_eq!(action('N' as u32, CTRL), Some(Action::Command("new-drawing")));
    assert_eq!(action(VK_OEM_COMMA, CTRL), Some(Action::Command("account")));
    assert_eq!(action('3' as u32, CTRL), Some(Action::Command("communities")));
}

#[test]
fn the_sites_sections_by_number_and_its_shortcuts() {
    assert_eq!(action('1' as u32, CTRL), Some(Action::Command("recent")));
    assert_eq!(action('2' as u32, CTRL), Some(Action::Command("following")));
    assert_eq!(action('4' as u32, CTRL), Some(Action::Command("together")));
    assert_eq!(action('5' as u32, CTRL), Some(Action::Command("tags")));
    assert_eq!(action('6' as u32, CTRL), None);
    assert_eq!(action(VK_OEM_2, CTRL), Some(Action::Command("shortcuts")));
}

#[test]
fn keys_that_are_not_the_windows_are_left_alone() {
    // Typing, editing, and the painter's own keys.
    assert_eq!(action('R' as u32, NONE), None);
    assert_eq!(action(VK_LEFT, NONE), None);
    assert_eq!(action('C' as u32, CTRL), None);
    assert_eq!(action('Z' as u32, CTRL), None);
    assert_eq!(action('V' as u32, CTRL_SHIFT), None);
    // Alt+F4 is the system's, which already closes the window through
    // the same question.
    assert_eq!(action(VK_F4, ALT), None);
}

#[test]
fn every_command_a_key_sends_is_one_of_the_sites() {
    let commands = [
        "search", "new-drawing", "account", "shortcuts", "recent", "following", "communities",
        "together", "tags",
    ];
    for key in 0..=0xFF {
        for held in 0..8u32 {
            let held = Modifiers { ctrl: held & 1 != 0, alt: held & 2 != 0, shift: held & 4 != 0 };
            if let Some(Action::Command(name)) = action(key, held) {
                assert!(commands.contains(&name), "{name}");
                assert!(held.ctrl && !held.alt && !held.shift);
            }
        }
    }
}

use oeee_cafe_desktop::webview2::{key_response, KeyKind, KeyResponse};

#[test]
fn the_windows_keys_are_kept_from_the_page_and_act_once() {
    assert_eq!(
        key_response(KeyKind::Down, VK_F5, NONE, false),
        KeyResponse { handled: true, act: Some(Action::Reload) }
    );
    assert_eq!(key_response(KeyKind::Down, VK_F5, NONE, true), KeyResponse { handled: true, act: None });
    assert_eq!(
        key_response(KeyKind::SystemDown, VK_LEFT, ALT, false),
        KeyResponse { handled: true, act: Some(Action::Back) }
    );
}

#[test]
fn other_keys_and_keys_going_up_are_the_pages() {
    assert_eq!(key_response(KeyKind::Up, VK_F5, NONE, false), KeyResponse { handled: false, act: None });
    assert_eq!(key_response(KeyKind::SystemUp, VK_LEFT, ALT, false), KeyResponse { handled: false, act: None });
    assert_eq!(key_response(KeyKind::Down, 'C' as u32, CTRL, false), KeyResponse { handled: false, act: None });
}

use oeee_cafe_desktop::keys::{command_script, script_for_action};

const CALL: &str = "window.oeeeApp && window.oeeeApp.command && window.oeeeApp.command\n";

#[test]
fn a_key_runs_the_pages_own_going_or_asks_for_a_command() {
    assert_eq!(
        command_script(CALL, "search"),
        "window.oeeeApp && window.oeeeApp.command && window.oeeeApp.command(\"search\");"
    );
    assert_eq!(script_for_action(CALL, Action::Back).as_deref(), Some("history.back();"));
    assert_eq!(script_for_action(CALL, Action::Forward).as_deref(), Some("history.forward();"));
    assert_eq!(script_for_action(CALL, Action::Reload).as_deref(), Some("location.reload();"));
    assert_eq!(script_for_action(CALL, Action::Close), None);
    assert_eq!(
        script_for_action(CALL, Action::Command("new-drawing")).as_deref(),
        Some("window.oeeeApp && window.oeeeApp.command && window.oeeeApp.command(\"new-drawing\");")
    );
}

use oeee_cafe_desktop::keys::{VK_F11, VK_OEM_MINUS, VK_OEM_PLUS};
use oeee_cafe_desktop::zoom::Step;

#[test]
fn full_screen_and_the_windows_size() {
    assert_eq!(action(VK_F11, NONE), Some(Action::FullScreen));
    assert_eq!(action(VK_OEM_PLUS, CTRL), Some(Action::Zoom(Step::In)));
    assert_eq!(action(VK_OEM_MINUS, CTRL), Some(Action::Zoom(Step::Out)));
    assert_eq!(action('0' as u32, CTRL), Some(Action::Zoom(Step::Reset)));
    // Without Ctrl they are typing, and F11 with a modifier is not the window's.
    assert_eq!(action(VK_OEM_PLUS, NONE), None);
    assert_eq!(action('0' as u32, NONE), None);
    assert_eq!(action(VK_F11, CTRL), None);
    // The window does these itself: nothing runs in the page.
    assert_eq!(script_for_action(CALL, Action::FullScreen), None);
    assert_eq!(script_for_action(CALL, Action::Zoom(Step::In)), None);
}
