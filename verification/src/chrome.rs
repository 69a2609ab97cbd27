//! Where the window ends and the site begins.
//!
//! The site's toolbar is drawn as a window's title bar, and every page has it.
//! The app names itself at the end of the user agent (`user_agent`), from
//! which the site marks its root before the page paints; and the window's
//! ground, behind a page that has not painted yet, is the site's own colour
//! once the site has said it (`Ground`), and NEO's lavender or night blue
//! until then. On Windows the window has no title bar of its own: its
//! minimise, maximise and close buttons are drawn at the toolbar's end, and
//! ask for the window by their words (`window_control`).

use vstd::prelude::*;

use crate::text::{chars_of, has_at, holds_at, spells, trim_range, trimmed};

verus! {

/// What the app adds to the webview's user agent, which is how the site
/// tells this window from a browser and from the other apps. Every app ends
/// its user agent with a token of this one shape, `OeeeCafe/<app>`.
pub const USER_AGENT_MARK: &'static str = "OeeeCafe/windows";

/// The start every app's token shares.
pub const APP_TOKEN: &'static str = "OeeeCafe/";

/// Whether a user agent already names an app: one of its space-separated
/// parts begins `OeeeCafe/`.
pub open spec fn names_an_app(agent: Seq<char>) -> bool {
    exists|i: int|
        (i == 0 || agent[i - 1] == ' ') && #[trigger] holds_at(agent, i, APP_TOKEN@)
}

/// The user agent with the app's name at its end, and the store after it.
pub open spec fn named_agent(agent: Seq<char>, store: Option<Seq<char>>) -> Seq<char> {
    if names_an_app(agent) {
        agent
    } else {
        match store {
            Some(store) => agent + " "@ + USER_AGENT_MARK@ + " store/"@ + store,
            None => agent + " "@ + USER_AGENT_MARK@,
        }
    }
}

/// The webview's own user agent with the app's name at its end, and after it
/// the store this build sells through, if it sells at all: ` store/steam`
/// when Steam started it, ` store/microsoft` when it is the Microsoft
/// Store's package, and nothing otherwise, so the site offers nothing to buy
/// in a window that could not sell it.
///
/// Added once: a user agent that already names an app is left as it is.
pub fn user_agent(default: &str, store: Option<&str>) -> (agent: String)
    ensures
        agent@ == named_agent(
            default@,
            match store {
                Some(s) => Some(s@),
                None => None,
            },
        ),
{
    let v = chars_of(default);
    let token = chars_of(APP_TOKEN);
    let mut i: usize = 0;
    while i < v.len()
        invariant
            v@ == default@,
            token@ == APP_TOKEN@,
            i <= v@.len(),
            forall|k: int|
                0 <= k < i ==> !((k == 0 || v@[k - 1] == ' ') && #[trigger] holds_at(
                    v@,
                    k,
                    APP_TOKEN@,
                )),
        decreases v@.len() - i,
    {
        if (i == 0 || v[i - 1] == ' ') && has_at(v.as_slice(), i, token.as_slice()) {
            let mut same = String::new();
            same.append(default);
            return same;
        }
        i = i + 1;
    }
    proof {
        assert forall|k: int| (k == 0 || default@[k - 1] == ' ') implies !#[trigger] holds_at(
            default@,
            k,
            APP_TOKEN@,
        ) by {
            if holds_at(default@, k, APP_TOKEN@) {
                assert(k < v@.len()) by {
                    reveal_strlit("OeeeCafe/");
                }
            }
        }
    }
    let mut agent = String::new();
    agent.append(default);
    agent.append(" ");
    agent.append(USER_AGENT_MARK);
    if let Some(store) = store {
        agent.append(" store/");
        agent.append(store);
    }
    agent
}

/// The app names itself once: naming a user agent the app has already named
/// leaves it as it is.
pub proof fn the_app_names_itself_once(agent: Seq<char>, store: Option<Seq<char>>)
    ensures
        named_agent(named_agent(agent, store), store) == named_agent(agent, store),
        names_an_app(named_agent(agent, store)),
{
    if !names_an_app(agent) {
        let named = named_agent(agent, store);
        let at: int = agent.len() as int + 1;
        assert(named[at - 1] == ' ') by {
            reveal_strlit(" ");
        }
        assert(holds_at(named, at, APP_TOKEN@)) by {
            reveal_strlit("OeeeCafe/windows");
            reveal_strlit("OeeeCafe/");
            reveal_strlit(" ");
            reveal_strlit(" store/");
            assert(named.subrange(at, at + 9) =~= APP_TOKEN@);
        }
    }
}

/// A colour of the window's, red, green, blue and alpha.
#[derive(Clone, Copy, Debug, PartialEq, Eq, Structural)]
pub struct Color(pub u8, pub u8, pub u8, pub u8);

/// The system's theme.
#[derive(Clone, Copy, Debug, PartialEq, Eq, Structural)]
pub enum Theme {
    Light,
    Dark,
}

/// NEO's ground for a theme: lavender, or its night blue.
pub open spec fn neo_ground(theme: Theme) -> Color {
    match theme {
        Theme::Dark => Color(0x17, 0x17, 0x2b, 0xff),
        Theme::Light => Color(0xcc, 0xcc, 0xff, 0xff),
    }
}

/// What the window shows before a page has painted, until the site has said
/// what its ground is: NEO's, so a load does not flash.
pub fn background(theme: Theme) -> (ground: Color)
    ensures
        ground == neo_ground(theme),
{
    match theme {
        Theme::Dark => Color(0x17, 0x17, 0x2b, 0xff),
        Theme::Light => Color(0xcc, 0xcc, 0xff, 0xff),
    }
}

/// Whether a character is a hex digit.
pub open spec fn is_hex(c: char) -> bool {
    ('0' <= c <= '9') || ('a' <= c <= 'f') || ('A' <= c <= 'F')
}

/// Whether every character of `s` is a hex digit.
pub open spec fn all_hex(s: Seq<char>) -> bool {
    forall|i: int| 0 <= i < s.len() ==> is_hex(#[trigger] s[i])
}

/// A hex digit's value.
pub open spec fn hex_value(c: char) -> int {
    if '0' <= c <= '9' {
        c as int - 48
    } else if 'a' <= c <= 'f' {
        c as int - 87
    } else {
        c as int - 55
    }
}

/// The channel `width` digits long at `at` of `digits`: one digit stands for
/// itself twice, as CSS reads `#ccf`.
pub open spec fn channel(digits: Seq<char>, at: int, width: int) -> u8 {
    if width == 1 {
        (hex_value(digits[at]) * 17) as u8
    } else {
        (hex_value(digits[at]) * 16 + hex_value(digits[at + 1])) as u8
    }
}

/// The colour a CSS hex colour names -- `#rgb`, `#rgba`, `#rrggbb` or
/// `#rrggbbaa`, white space around it allowed -- or none for any other text.
pub open spec fn colour_named(text: Seq<char>) -> Option<Color> {
    let t = trimmed(text);
    let digits = t.drop_first();
    let n = digits.len();
    if t.len() == 0 || t[0] != '#' || !all_hex(digits) || !(n == 3 || n == 4 || n == 6 || n == 8) {
        None
    } else {
        let width: int = if n <= 4 { 1 } else { 2 };
        let alpha = if n == 4 || n == 8 { channel(digits, 3 * width, width) } else { 0xff };
        Some(Color(channel(digits, 0, width), channel(digits, width, width), channel(digits, 2 * width, width), alpha))
    }
}

fn hex_digit_value(c: char) -> (value: u8)
    requires
        is_hex(c),
    ensures
        value == hex_value(c),
        value < 16,
{
    if '0' <= c && c <= '9' {
        (c as u32 - 48) as u8
    } else if 'a' <= c && c <= 'f' {
        (c as u32 - 87) as u8
    } else {
        (c as u32 - 55) as u8
    }
}

fn read_channel(digits: &[char], at: usize, width: usize) -> (value: u8)
    requires
        width == 1 || width == 2,
        at + width <= digits@.len(),
        forall|i: int| 0 <= i < digits@.len() ==> is_hex(#[trigger] digits@[i]),
    ensures
        value == channel(digits@, at as int, width as int),
{
    let high = hex_digit_value(digits[at]);
    if width == 1 {
        high * 17
    } else {
        let low = hex_digit_value(digits[at + 1]);
        high * 16 + low
    }
}

/// A CSS hex colour -- `#rgb`, `#rgba`, `#rrggbb` or `#rrggbbaa` -- as the
/// window's.
pub fn hex_colour(text: &str) -> (colour: Option<Color>)
    ensures
        colour == colour_named(text@),
{
    let v = chars_of(text);
    let (lo, hi) = trim_range(v.as_slice());
    let ghost t = trimmed(text@);
    if lo == hi || v[lo] != '#' {
        return None;
    }
    assert(t[0] == v@[lo as int]);
    let mut digits: Vec<char> = Vec::new();
    let mut i = lo + 1;
    while i < hi
        invariant
            v@ == text@,
            lo < i <= hi <= v@.len(),
            v@.subrange(lo as int, hi as int) == t,
            t == trimmed(text@),
            t.len() > 0 && t[0] == '#',
            digits@ == t.drop_first().take(i - lo - 1),
            forall|k: int| 0 <= k < digits@.len() ==> is_hex(#[trigger] digits@[k]),
        decreases hi - i,
    {
        let c = v[i];
        let hex = ('0' <= c && c <= '9') || ('a' <= c && c <= 'f') || ('A' <= c && c <= 'F');
        if !hex {
            proof {
                assert(t.drop_first()[i - lo - 1] == c);
                assert(!is_hex(t.drop_first()[i - lo - 1]));
                assert(t.len() > 0 && t[0] == '#');
                let k = i - lo - 1;
                assert(0 <= k < t.drop_first().len());
                assert(!all_hex(t.drop_first()));
            }
            return None;
        }
        digits.push(c);
        proof {
            assert(t.drop_first().take(i - lo) =~= t.drop_first().take(i - lo - 1).push(c));
        }
        i = i + 1;
    }
    proof {
        assert(t.drop_first().take(hi - lo - 1) =~= t.drop_first());
    }
    assert(t.len() > 0 && t[0] == '#');
    assert(digits@ == t.drop_first());
    let n = digits.len();
    let width: usize = if n == 3 || n == 4 {
        1
    } else if n == 6 || n == 8 {
        2
    } else {
        return None;
    };
    let d = digits.as_slice();
    let alpha = if n == 4 || n == 8 {
        read_channel(d, 3 * width, width)
    } else {
        0xff
    };
    Some(Color(read_channel(d, 0, width), read_channel(d, width, width), read_channel(d, 2 * width, width), alpha))
}

/// What to paint the window when asked: the ground the page said, or NEO's
/// for the system's theme, if the window knows it.
pub open spec fn paint_for(said: Option<Color>, theme: Option<Theme>) -> Option<Color> {
    match said {
        Some(said) => Some(said),
        None => match theme {
            Some(theme) => Some(neo_ground(theme)),
            None => None,
        },
    }
}

/// What to paint when the system's theme changes: NEO's, until the page has
/// said its ground; nothing after.
pub open spec fn paint_on_theme_change(said: Option<Color>, theme: Theme) -> Option<Color> {
    if said is None {
        Some(neo_ground(theme))
    } else {
        None
    }
}

/// What the page has said its ground is, after it says `ground`: that, if
/// the app can read it, or what it said before.
pub open spec fn said_after(said: Option<Color>, ground: Seq<char>) -> Option<Color> {
    match colour_named(ground) {
        Some(colour) => Some(colour),
        None => said,
    }
}

/// The window's ground: NEO's for the system's theme, until the site has
/// said what its ground is (`theme` on the bridge), which is the one to
/// paint from then on.
pub struct Ground {
    said: Option<Color>,
}

impl Ground {
    /// The ground as the page last said it, none until a page has said.
    pub closed spec fn said(&self) -> Option<Color> {
        self.said
    }

    /// Nothing said yet.
    pub fn new() -> (ground: Ground)
        ensures
            ground.said() is None,
    {
        Ground { said: None }
    }

    /// The ground the page last said.
    pub fn said_ground(&self) -> (said: Option<Color>)
        ensures
            said == self.said(),
    {
        self.said
    }

    /// What to paint the window now.
    pub fn paint_background(&self, theme: Option<Theme>) -> (paint: Option<Color>)
        ensures
            paint == paint_for(self.said(), theme),
    {
        match self.said {
            Some(said) => Some(said),
            None => match theme {
                Some(theme) => Some(background(theme)),
                None => None,
            },
        }
    }

    /// The ground the page says it has (`--ds-ground`), which follows the
    /// reader's choice of theme on the site as well as the system's. Kept, and
    /// returned to paint now; a colour the app cannot read is ignored, and
    /// what was said before stands.
    pub fn paint_ground(&mut self, ground: &str) -> (paint: Option<Color>)
        ensures
            paint == colour_named(ground@),
            final(self).said() == said_after(old(self).said(), ground@),
    {
        let colour = hex_colour(ground);
        if let Some(colour) = colour {
            self.said = Some(colour);
        }
        colour
    }

    /// What to paint when the system's theme changes.
    pub fn on_theme_changed(&self, theme: Theme) -> (paint: Option<Color>)
        ensures
            paint == paint_on_theme_change(self.said(), theme),
    {
        if self.said.is_none() {
            Some(background(theme))
        } else {
            None
        }
    }
}

/// Once the page has said a ground the app can read, that is the window's:
/// the system's theme changing paints nothing over it, and painting the
/// window again paints it, whatever the theme.
pub proof fn the_said_ground_holds(
    said: Option<Color>,
    ground: Seq<char>,
    theme: Theme,
    window_theme: Option<Theme>,
)
    requires
        colour_named(ground) is Some,
    ensures
        paint_on_theme_change(said_after(said, ground), theme) is None,
        paint_for(said_after(said, ground), window_theme) == colour_named(ground),
{
}

/// Until the page has said a ground, the window's follows the system's
/// theme as NEO's.
pub proof fn until_the_site_says_the_ground_is_neos(theme: Theme)
    ensures
        paint_on_theme_change(None, theme) == Some(neo_ground(theme)),
        paint_for(None, Some(theme)) == Some(neo_ground(theme)),
{
}

/// What the toolbar's window controls ask of the window.
#[derive(Clone, Copy, Debug, PartialEq, Eq, Structural)]
pub enum WindowControl {
    Minimize,
    /// Maximises the window, or restores it when it is maximised.
    Maximize,
    Close,
}

/// The control a toolbar button asks for by its word: "minimize",
/// "maximize" or "close". Any other word -- the Mac's "drag" and "zoom",
/// which are the iOS app's -- asks nothing.
pub fn window_control(action: &str) -> (control: Option<WindowControl>)
    ensures
        control == if action@ == "minimize"@ {
            Some(WindowControl::Minimize)
        } else if action@ == "maximize"@ {
            Some(WindowControl::Maximize)
        } else if action@ == "close"@ {
            Some(WindowControl::Close)
        } else {
            None::<WindowControl>
        },
{
    let word = chars_of(action);
    if spells(word.as_slice(), "minimize") {
        Some(WindowControl::Minimize)
    } else if spells(word.as_slice(), "maximize") {
        Some(WindowControl::Maximize)
    } else if spells(word.as_slice(), "close") {
        Some(WindowControl::Close)
    } else {
        None
    }
}

/// NEO's grounds are lavender by day and night blue by night, opaque: the
/// window shows them before the site has said its own.
pub proof fn neos_grounds_are_lavender_and_night_blue()
    ensures
        paint_for(None, Some(Theme::Light)) == Some(Color(0xcc, 0xcc, 0xff, 0xff)),
        paint_for(None, Some(Theme::Dark)) == Some(Color(0x17, 0x17, 0x2b, 0xff)),
        paint_on_theme_change(None, Theme::Light) == Some(Color(0xcc, 0xcc, 0xff, 0xff)),
        paint_on_theme_change(None, Theme::Dark) == Some(Color(0x17, 0x17, 0x2b, 0xff)),
{
}

} // verus!
