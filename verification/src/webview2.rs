//! The parts of WebView2 the app answers for itself.
//!
//! A page load that failed, which Tauri does not report: the site
//! unreachable -- nothing answered, or a gateway answered in its place --
//! is told from the site answering, or a navigation called off. The
//! browser's own keys are off, each of them being the browser speaking, so
//! the window's keys are taken here, kept from the page as they go down and
//! acted on once however long they are held. The page's `alert()`,
//! `confirm()` and leaving a page with unsaved work are asked as the
//! system's dialogs rather than the browser's. And a link copied from the
//! right-click menu reaches the clipboard as Windows takes text.

use vstd::prelude::*;

use crate::dialogs::Question;
use crate::keys::{action, action_for, deed, Action, Modifiers};
use crate::offline::{gateway_answered, is_gateway_status};
use crate::text::chars_of;

verus! {

/// Why WebView2 says a navigation failed, as far as the app tells reasons
/// apart.
#[derive(Clone, Copy, Debug, PartialEq, Eq, Structural)]
pub enum WebError {
    CannotConnect,
    ConnectionAborted,
    ConnectionReset,
    Disconnected,
    HostNameNotResolved,
    ServerUnreachable,
    Timeout,
    OperationCanceled,
    Unknown,
    /// Any other of WebView2's reasons.
    Other,
}

/// Whether a reason is nothing answering.
pub open spec fn is_unanswered(error: WebError) -> bool {
    ||| error == WebError::CannotConnect
    ||| error == WebError::ConnectionAborted
    ||| error == WebError::ConnectionReset
    ||| error == WebError::Disconnected
    ||| error == WebError::HostNameNotResolved
    ||| error == WebError::ServerUnreachable
    ||| error == WebError::Timeout
}

/// Whether a page that finished like this is the site unreachable: a
/// gateway answered in its place, or it failed with nothing answering --
/// rather than the site answering or the navigation being called off.
pub open spec fn failed_load(success: bool, error: WebError, status: i32) -> bool {
    (0 <= status <= 0xffff && is_gateway_status(status as u16)) || (!success && is_unanswered(error))
}

pub fn failed(success: bool, error: WebError, status: i32) -> (unreachable: bool)
    ensures
        unreachable == failed_load(success, error, status),
{
    if 0 <= status && status <= 0xffff && gateway_answered(status as u16) {
        return true;
    }
    !success && match error {
        WebError::CannotConnect | WebError::ConnectionAborted | WebError::ConnectionReset
        | WebError::Disconnected | WebError::HostNameNotResolved | WebError::ServerUnreachable
        | WebError::Timeout => true,
        _ => false,
    }
}

/// The site answering -- with a page, or one of its own errors -- is never
/// the site unreachable, and neither is a navigation called off.
pub proof fn the_site_answering_or_a_stopped_navigation_is_not(
    success: bool,
    error: WebError,
    status: i32,
)
    ensures
        !is_gateway_status(status as u16) && (success || error == WebError::OperationCanceled
            || error == WebError::Unknown) && 0 <= status <= 0xffff ==> !failed_load(
            success,
            error,
            status,
        ),
{
}

/// Which way a key went, as WebView2 tells it: a system key is one pressed
/// with Alt, or F10.
#[derive(Clone, Copy, Debug, PartialEq, Eq, Structural)]
pub enum KeyKind {
    Down,
    Up,
    SystemDown,
    SystemUp,
}

/// What the app does with a key: keeps it from the page, and acts on it.
#[derive(Clone, Copy, Debug, PartialEq, Eq)]
pub struct KeyResponse {
    pub handled: bool,
    pub act: Option<Action>,
}

/// What the app does with `key`, gone `kind` with `held`, and down already
/// before (`was_down`, a key held down and repeating). The window's keys
/// (keys.rs) are kept from the page as they go down; one held down acts
/// once; every other key is the page's.
pub fn key_response(kind: KeyKind, key: u32, held: Modifiers, was_down: bool) -> (response:
    KeyResponse)
    ensures
        response.handled == ((kind == KeyKind::Down || kind == KeyKind::SystemDown) && action_for(
            key,
            held,
        ) is Some),
        match response.act {
            Some(a) => response.handled && !was_down && action_for(key, held) == Some(deed(a)),
            None => !response.handled || was_down,
        },
{
    if kind != KeyKind::Down && kind != KeyKind::SystemDown {
        return KeyResponse { handled: false, act: None };
    }
    match action(key, held) {
        None => KeyResponse { handled: false, act: None },
        Some(done) => KeyResponse {
            handled: true,
            act: if was_down {
                None
            } else {
                Some(done)
            },
        },
    }
}

/// The dialogs a page's script opens, as WebView2 tells them apart.
#[derive(Clone, Copy, Debug, PartialEq, Eq, Structural)]
pub enum ScriptDialog {
    /// `alert()`.
    Alert,
    /// `confirm()`.
    Confirm,
    /// `prompt()`.
    Prompt,
    /// The page asking before it is left with unsaved work.
    BeforeUnload,
}

/// What the app asks the player for a dialog the page opened with
/// `message`: `alert()` and `confirm()` in the page's words, and leaving in
/// the app's own. `prompt()`, which the site never asks, is asked nothing,
/// and answers as cancelled.
pub fn question_for(kind: ScriptDialog, message: String) -> (asked: Option<Question>)
    ensures
        asked == match kind {
            ScriptDialog::Alert => Some(Question::Alert(message)),
            ScriptDialog::Confirm => Some(Question::Confirm(message)),
            ScriptDialog::BeforeUnload => Some(Question::Leave),
            ScriptDialog::Prompt => None::<Question>,
        },
{
    match kind {
        ScriptDialog::Alert => Some(Question::Alert(message)),
        ScriptDialog::Confirm => Some(Question::Confirm(message)),
        ScriptDialog::BeforeUnload => Some(Question::Leave),
        ScriptDialog::Prompt => None,
    }
}

/// A character in UTF-16: itself below U+10000, and a surrogate pair above.
pub open spec fn utf16_units(c: char) -> Seq<u16> {
    let n = c as u32;
    if n < 0x10000 {
        seq![n as u16]
    } else {
        seq![(0xD800 + (n - 0x10000) / 0x400) as u16, (0xDC00 + (n - 0x10000) % 0x400) as u16]
    }
}

/// `s` in UTF-16.
pub open spec fn utf16(s: Seq<char>) -> Seq<u16>
    decreases s.len(),
{
    if s.len() == 0 {
        Seq::empty()
    } else {
        utf16(s.drop_last()) + utf16_units(s.last())
    }
}

/// `text` as the clipboard takes text: UTF-16, ended by a NUL.
pub fn wide(text: &str) -> (units: Vec<u16>)
    ensures
        units@ == utf16(text@).push(0),
{
    let chars = chars_of(text);
    let mut units: Vec<u16> = Vec::new();
    let mut i: usize = 0;
    while i < chars.len()
        invariant
            i <= chars@.len(),
            chars@ == text@,
            units@ == utf16(chars@.take(i as int)),
        decreases chars@.len() - i,
    {
        let c = chars[i];
        let n = c as u32;
        proof {
            assert(chars@.take(i + 1).drop_last() =~= chars@.take(i as int));
        }
        if n < 0x10000 {
            units.push(n as u16);
        } else {
            let m = n - 0x10000;
            units.push((0xD800 + m / 0x400) as u16);
            units.push((0xDC00 + m % 0x400) as u16);
        }
        proof {
            assert(units@ =~= utf16(chars@.take(i + 1)));
        }
        i = i + 1;
    }
    proof {
        assert(chars@.take(chars@.len() as int) =~= chars@);
    }
    units.push(0);
    units
}

/// Every load that failed with nothing answering is the site unreachable,
/// whatever the status, and so is every load a gateway answered for, with a
/// 502, 503, 504, 52x or 530, whether or not it succeeded.
pub proof fn nothing_answering_is_the_site_unreachable(success: bool, error: WebError, status: i32)
    ensures
        !success && (error == WebError::CannotConnect || error == WebError::ConnectionAborted || error
            == WebError::ConnectionReset || error == WebError::Disconnected || error
            == WebError::HostNameNotResolved || error == WebError::ServerUnreachable || error
            == WebError::Timeout) ==> failed_load(success, error, status),
        status == 502 || status == 503 || status == 504 || (520 <= status <= 527) || status == 530
            ==> failed_load(success, error, status),
{
}

/// The site answering is never the site unreachable, whatever it answered
/// with -- a page, a 404, a 500 -- unless a gateway answered for it; and a
/// navigation called off, or one WebView2 gives no reason for, is not
/// either.
pub proof fn the_site_answering_is_not_unreachable(success: bool, error: WebError, status: i32)
    ensures
        !(status == 502 || status == 503 || status == 504 || (520 <= status <= 527) || status == 530)
            && (success || error == WebError::OperationCanceled || error == WebError::Unknown
            || error == WebError::Other) ==> !failed_load(success, error, status),
{
}

} // verus!
