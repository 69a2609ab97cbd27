//! The menu bar, on macOS.
//!
//! Every command the site offers is here with the key an application would
//! give it (`bar`), and each one asks the page
//! to do it (`window.oeeeCommand`, in the site's toolbar): going somewhere is
//! the page's own navigation, so a page holding an unsaved drawing still asks
//! before it is left, and the menu and the site's keyboard shortcuts are one
//! set of commands rather than two. A page without the toolbar to ask -- the
//! bundled loader, say -- goes to the command's place on the site instead, if
//! the command is a place. The Edit menu is what makes copy and paste work
//! in the site's text fields at all -- WebKit takes those from the menu, not
//! from the keyboard.

use vstd::prelude::*;

use crate::address::{url_joined, Address};
use crate::text::{begins, chars_of, push_char, spells, starts_with};

verus! {

/// Where a command goes when the page has no toolbar to ask. Commands that
/// are not a place do nothing there.
pub open spec fn place_of(name: Seq<char>) -> Option<Seq<char>> {
    if name == "recent"@ || name == "about"@ {
        Some("/"@)
    } else if name == "following"@ {
        Some("/home"@)
    } else if name == "communities"@ {
        Some("/communities"@)
    } else if name == "together"@ {
        Some("/collaborate"@)
    } else if name == "hashtags"@ {
        Some("/hashtags"@)
    } else if name == "search"@ {
        Some("/search"@)
    } else if name == "notifications"@ {
        Some("/notifications"@)
    } else if name == "drafts"@ {
        Some("/posts/drafts"@)
    } else if name == "account"@ {
        Some("/account"@)
    } else {
        None
    }
}

/// Where a command goes when the page has no toolbar to ask -- the bundled
/// loader, say. Commands that are not a place do nothing there.
pub fn fallback(name: &str) -> (place: Option<&'static str>)
    ensures
        match place_of(name@) {
            Some(path) => place matches Some(p) && p@ == path,
            None => place is None,
        },
{
    let v = chars_of(name);
    let v = v.as_slice();
    if spells(v, "recent") || spells(v, "about") {
        Some("/")
    } else if spells(v, "following") {
        Some("/home")
    } else if spells(v, "communities") {
        Some("/communities")
    } else if spells(v, "together") {
        Some("/collaborate")
    } else if spells(v, "hashtags") {
        Some("/hashtags")
    } else if spells(v, "search") {
        Some("/search")
    } else if spells(v, "notifications") {
        Some("/notifications")
    } else if spells(v, "drafts") {
        Some("/posts/drafts")
    } else if spells(v, "account") {
        Some("/account")
    } else {
        None
    }
}

/// What `format!("{:?}", text)` writes for a string: Rust's own quoting of
/// it.
pub uninterp spec fn debug_quoted(text: Seq<char>) -> Seq<char>;

/// `format!("{:?}", text)`: the string quoted as Rust's `Debug` writes it.
#[verifier::external_body]
fn debug_quote(text: &str) -> (quoted: String)
    ensures
        quoted@ == debug_quoted(text@),
{
    format!("{:?}", text)
}

/// The script that asks the page for a command, quoted as `name`, and goes
/// to its place, quoted as `place`, if the page has no toolbar to ask and
/// the command is a place.
pub open spec fn command_script(name: Seq<char>, place: Option<Seq<char>>) -> Seq<char> {
    let go = match place {
        Some(place) => "location.href = "@ + place + ";"@,
        None => Seq::empty(),
    };
    "if (!(window.oeeeCommand && window.oeeeCommand("@ + name + "))) { "@ + go + " }"@
}

/// The script that asks the page for the command quoted as `name`, and goes
/// to the place quoted as `place` if the page has no toolbar to ask.
pub fn site_command_script(name: &str, place: Option<&str>) -> (script: String)
    ensures
        script@ == command_script(
            name@,
            match place {
                Some(p) => Some(p@),
                None => None,
            },
        ),
{
    let mut script = String::new();
    script.append("if (!(window.oeeeCommand && window.oeeeCommand(");
    script.append(name);
    script.append("))) { ");
    if let Some(place) = place {
        script.append("location.href = ");
        script.append(place);
        script.append(";");
    }
    script.append(" }");
    script
}

/// The script that asks the page of `site` for the command `name`, and goes
/// to the command's place if the page has no toolbar to ask; none when the
/// place cannot be joined to the site's address.
pub open spec fn site_command(name: Seq<char>, site: Seq<char>) -> Option<Seq<char>> {
    match place_of(name) {
        Some(path) => match url_joined(site, path) {
            Some(url) => Some(command_script(debug_quoted(name), Some(debug_quoted(url)))),
            None => None,
        },
        None => Some(command_script(debug_quoted(name), None)),
    }
}

/// The script that carries out the menu item `id`, or none for an id that is
/// not the app's (the predefined items are handled by the system).
pub open spec fn script_for_item(id: Seq<char>, site: Seq<char>) -> Option<Seq<char>> {
    if begins(id, "site:"@) {
        site_command(id.skip(5), site)
    } else if id == "page:back"@ {
        Some("history.back();"@)
    } else if id == "page:forward"@ {
        Some("history.forward();"@)
    } else if id == "page:reload"@ {
        // A plain reload, so a page holding a drawing asks first.
        Some("location.reload();"@)
    } else {
        None
    }
}

/// The script that carries out a menu item, or none for an id that is not
/// ours (the predefined items are handled by the system).
pub fn script_for(id: &str, site: &Address) -> (script: Option<String>)
    ensures
        match script_for_item(id@, site@) {
            Some(text) => script matches Some(s) && s@ == text,
            None => script is None,
        },
{
    let v = chars_of(id);
    if starts_with(v.as_slice(), "site:") {
        proof {
            reveal_strlit("site:");
        }
        let name = id.substring_char(5, v.len());
        let quoted_name = debug_quote(name);
        return match fallback(name) {
            Some(path) => {
                let url = site.join(path)?;
                let quoted_url = debug_quote(url.as_str());
                Some(site_command_script(quoted_name.as_str(), Some(quoted_url.as_str())))
            },
            None => Some(site_command_script(quoted_name.as_str(), None)),
        };
    }
    let v = v.as_slice();
    if spells(v, "page:back") {
        Some(String::from_str("history.back();"))
    } else if spells(v, "page:forward") {
        Some(String::from_str("history.forward();"))
    } else if spells(v, "page:reload") {
        Some(String::from_str("location.reload();"))
    } else {
        None
    }
}

/// The words of the menu bar, each shown in the player's language.
#[derive(Clone, Copy, Debug, PartialEq, Eq, Structural)]
pub enum Label {
    About,
    Settings,
    Services,
    Hide,
    HideOthers,
    ShowAll,
    Quit,
    File,
    NewDrawing,
    CloseWindow,
    Edit,
    Undo,
    Redo,
    Cut,
    Copy,
    Paste,
    SelectAll,
    Search,
    View,
    Recent,
    Following,
    Communities,
    Together,
    Hashtags,
    Notifications,
    Drafts,
    Profile,
    Back,
    Forward,
    Reload,
    Theme,
    ThemeLight,
    ThemeDark,
    ThemeSystem,
    FullScreen,
    Window,
    Minimize,
    Zoom,
    BringAllToFront,
    Help,
    Shortcuts,
}

/// The system's own items, which it carries out itself.
#[derive(Clone, Copy, Debug, PartialEq, Eq, Structural)]
pub enum Standard {
    Services,
    Hide,
    HideOthers,
    ShowAll,
    /// Sends `terminate:`, which asks the page first.
    Quit,
    CloseWindow,
    Undo,
    Redo,
    Cut,
    Copy,
    Paste,
    SelectAll,
    FullScreen,
    Minimize,
    Maximize,
    BringAllToFront,
}

/// The keys for an item: Command (Control elsewhere), with Shift or not,
/// and one key.
#[derive(Clone, Copy, Debug, PartialEq, Eq, Structural)]
pub struct Keys {
    pub shift: bool,
    pub key: char,
}

/// Keys as the menu takes them written.
pub open spec fn accelerator_text(keys: Keys) -> Seq<char> {
    "CmdOrCtrl+"@ + (if keys.shift {
        "Shift+"@
    } else {
        Seq::empty()
    }) + seq![keys.key]
}

/// Keys as the menu takes them written: `CmdOrCtrl+`, `Shift+` when Shift
/// is held, and the key.
pub fn accelerator(keys: Keys) -> (text: String)
    ensures
        text@ == accelerator_text(keys),
{
    let mut text = String::new();
    text.append("CmdOrCtrl+");
    if keys.shift {
        text.append("Shift+");
    }
    push_char(&mut text, keys.key);
    proof {
        reveal_strlit("CmdOrCtrl+");
        reveal_strlit("Shift+");
    }
    text
}

/// An item of the menu bar.
#[derive(Clone, Copy, Debug, PartialEq, Eq)]
#[allow(inconsistent_fields)]
pub enum Entry {
    /// Asks the site for the command `name`, with its keys, if it has any.
    Site { name: &'static str, label: Label, keys: Option<Keys> },
    /// Something the page does itself -- going back, forward, reloading --
    /// by `name`, with its keys.
    Page { name: &'static str, label: Label, keys: Keys },
    /// One of the system's own items, in the app's words.
    Standard(Standard, Label),
    Separator,
    /// The theme's submenu (`themes`).
    Themes,
}

/// The id the menu knows an item by, for those the app carries out: `site:`
/// and a command's name, `page:` and what the page does; none for the
/// system's own.
pub open spec fn item_id(entry: Entry) -> Option<Seq<char>> {
    match entry {
        Entry::Site { name, .. } => Some("site:"@ + name@),
        Entry::Page { name, .. } => Some("page:"@ + name@),
        _ => None,
    }
}

impl Entry {
    /// The id the menu knows the item by, if the app carries it out.
    pub fn id(&self) -> (id: Option<String>)
        ensures
            match item_id(*self) {
                Some(text) => id matches Some(i) && i@ == text,
                None => id is None,
            },
    {
        match self {
            Entry::Site { name, .. } => {
                let mut id = String::from_str("site:");
                id.append(name);
                Some(id)
            },
            Entry::Page { name, .. } => {
                let mut id = String::from_str("page:");
                id.append(name);
                Some(id)
            },
            _ => None,
        }
    }
}

/// A menu of the bar: its title -- the app's own name for the first, the
/// application menu -- and its items.
pub struct Menu {
    pub title: Option<Label>,
    pub entries: Vec<Entry>,
}

/// A command of the site's, without keys.
pub open spec fn site_item(name: &'static str, label: Label) -> Entry {
    Entry::Site { name, label, keys: None }
}

/// A command of the site's, with `key` and Command, and Shift if `shift`.
pub open spec fn site_item_keyed(name: &'static str, label: Label, shift: bool, key: char) -> Entry {
    Entry::Site { name, label, keys: Some(Keys { shift, key }) }
}

/// One of the system's own items, in the words of `label`.
pub open spec fn standard(item: Standard, label: Label) -> Entry {
    Entry::Standard(item, label)
}

/// The theme's submenu.
pub open spec fn theme_entries() -> Seq<Entry> {
    seq![
        site_item("theme-light", Label::ThemeLight),
        site_item("theme-dark", Label::ThemeDark),
        site_item("theme-system", Label::ThemeSystem),
    ]
}

/// The titles of the bar's menus, in order; none is the app's own name.
pub open spec fn bar_titles() -> Seq<Option<Label>> {
    seq![
        None,
        Some(Label::File),
        Some(Label::Edit),
        Some(Label::View),
        Some(Label::Window),
        Some(Label::Help),
    ]
}

/// The items of the bar's `i`th menu. Every command the site offers is
/// there with the keys an application would give it; the Edit menu's
/// system items are what make copy and paste work in the site's text fields
/// at all, WebKit taking those from the menu rather than the keyboard; and
/// Find's keys are the site's search, the web view having no find bar of
/// its own.
pub open spec fn bar_entries(i: int) -> Seq<Entry> {
    if i == 0 {
        seq![
            site_item("about", Label::About),
            Entry::Separator,
            site_item_keyed("account", Label::Settings, false, ','),
            Entry::Separator,
            standard(Standard::Services, Label::Services),
            Entry::Separator,
            standard(Standard::Hide, Label::Hide),
            standard(Standard::HideOthers, Label::HideOthers),
            standard(Standard::ShowAll, Label::ShowAll),
            Entry::Separator,
            standard(Standard::Quit, Label::Quit),
        ]
    } else if i == 1 {
        seq![
            site_item_keyed("new-drawing", Label::NewDrawing, false, 'N'),
            Entry::Separator,
            standard(Standard::CloseWindow, Label::CloseWindow),
        ]
    } else if i == 2 {
        seq![
            standard(Standard::Undo, Label::Undo),
            standard(Standard::Redo, Label::Redo),
            Entry::Separator,
            standard(Standard::Cut, Label::Cut),
            standard(Standard::Copy, Label::Copy),
            standard(Standard::Paste, Label::Paste),
            standard(Standard::SelectAll, Label::SelectAll),
            Entry::Separator,
            site_item_keyed("search", Label::Search, false, 'F'),
        ]
    } else if i == 3 {
        seq![
            site_item_keyed("recent", Label::Recent, false, '1'),
            site_item_keyed("following", Label::Following, false, '2'),
            site_item_keyed("communities", Label::Communities, false, '3'),
            site_item_keyed("together", Label::Together, false, '4'),
            site_item_keyed("hashtags", Label::Hashtags, false, '5'),
            Entry::Separator,
            site_item_keyed("notifications", Label::Notifications, true, 'N'),
            site_item_keyed("drafts", Label::Drafts, true, 'D'),
            site_item_keyed("profile", Label::Profile, true, 'P'),
            Entry::Separator,
            Entry::Page { name: "back", label: Label::Back, keys: Keys { shift: false, key: '[' } },
            Entry::Page { name: "forward", label: Label::Forward, keys: Keys { shift: false, key: ']' } },
            Entry::Page { name: "reload", label: Label::Reload, keys: Keys { shift: false, key: 'R' } },
            Entry::Separator,
            Entry::Themes,
            Entry::Separator,
            standard(Standard::FullScreen, Label::FullScreen),
        ]
    } else if i == 4 {
        seq![
            standard(Standard::Minimize, Label::Minimize),
            standard(Standard::Maximize, Label::Zoom),
            Entry::Separator,
            standard(Standard::BringAllToFront, Label::BringAllToFront),
        ]
    } else if i == 5 {
        seq![site_item_keyed("shortcuts", Label::Shortcuts, false, '/')]
    } else {
        Seq::empty()
    }
}

/// The theme's submenu: light, dark, or as the system is.
pub fn themes() -> (entries: Vec<Entry>)
    ensures
        entries@ == theme_entries(),
{
    vec![
        Entry::Site { name: "theme-light", label: Label::ThemeLight, keys: None },
        Entry::Site { name: "theme-dark", label: Label::ThemeDark, keys: None },
        Entry::Site { name: "theme-system", label: Label::ThemeSystem, keys: None },
    ]
}

/// The menu bar, on macOS.
pub fn bar() -> (menus: Vec<Menu>)
    ensures
        menus@.len() == bar_titles().len(),
        forall|i: int|
            0 <= i < menus@.len() ==> #[trigger] menus@[i].title == bar_titles()[i]
                && menus@[i].entries@ == bar_entries(i),
{
    let keyed = |name: &'static str, label: Label, shift: bool, key: char| -> (entry: Entry)
        ensures
            entry == site_item_keyed(name, label, shift, key),
        { Entry::Site { name, label, keys: Some(Keys { shift, key }) } };
    let app_menu = Menu {
        title: None,
        entries: vec![
            Entry::Site { name: "about", label: Label::About, keys: None },
            Entry::Separator,
            keyed("account", Label::Settings, false, ','),
            Entry::Separator,
            Entry::Standard(Standard::Services, Label::Services),
            Entry::Separator,
            Entry::Standard(Standard::Hide, Label::Hide),
            Entry::Standard(Standard::HideOthers, Label::HideOthers),
            Entry::Standard(Standard::ShowAll, Label::ShowAll),
            Entry::Separator,
            Entry::Standard(Standard::Quit, Label::Quit),
        ],
    };
    let file = Menu {
        title: Some(Label::File),
        entries: vec![
            keyed("new-drawing", Label::NewDrawing, false, 'N'),
            Entry::Separator,
            Entry::Standard(Standard::CloseWindow, Label::CloseWindow),
        ],
    };
    let edit = Menu {
        title: Some(Label::Edit),
        entries: vec![
            Entry::Standard(Standard::Undo, Label::Undo),
            Entry::Standard(Standard::Redo, Label::Redo),
            Entry::Separator,
            Entry::Standard(Standard::Cut, Label::Cut),
            Entry::Standard(Standard::Copy, Label::Copy),
            Entry::Standard(Standard::Paste, Label::Paste),
            Entry::Standard(Standard::SelectAll, Label::SelectAll),
            Entry::Separator,
            keyed("search", Label::Search, false, 'F'),
        ],
    };
    let view = Menu {
        title: Some(Label::View),
        entries: vec![
            keyed("recent", Label::Recent, false, '1'),
            keyed("following", Label::Following, false, '2'),
            keyed("communities", Label::Communities, false, '3'),
            keyed("together", Label::Together, false, '4'),
            keyed("hashtags", Label::Hashtags, false, '5'),
            Entry::Separator,
            keyed("notifications", Label::Notifications, true, 'N'),
            keyed("drafts", Label::Drafts, true, 'D'),
            keyed("profile", Label::Profile, true, 'P'),
            Entry::Separator,
            Entry::Page { name: "back", label: Label::Back, keys: Keys { shift: false, key: '[' } },
            Entry::Page { name: "forward", label: Label::Forward, keys: Keys { shift: false, key: ']' } },
            Entry::Page { name: "reload", label: Label::Reload, keys: Keys { shift: false, key: 'R' } },
            Entry::Separator,
            Entry::Themes,
            Entry::Separator,
            Entry::Standard(Standard::FullScreen, Label::FullScreen),
        ],
    };
    let window = Menu {
        title: Some(Label::Window),
        entries: vec![
            Entry::Standard(Standard::Minimize, Label::Minimize),
            Entry::Standard(Standard::Maximize, Label::Zoom),
            Entry::Separator,
            Entry::Standard(Standard::BringAllToFront, Label::BringAllToFront),
        ],
    };
    let help = Menu { title: Some(Label::Help), entries: vec![keyed("shortcuts", Label::Shortcuts, false, '/')] };
    let menus = vec![app_menu, file, edit, view, window, help];
    proof {
        assert(menus@[0].entries@ =~= bar_entries(0));
        assert(menus@[1].entries@ =~= bar_entries(1));
        assert(menus@[2].entries@ =~= bar_entries(2));
        assert(menus@[3].entries@ =~= bar_entries(3));
        assert(menus@[4].entries@ =~= bar_entries(4));
        assert(menus@[5].entries@ =~= bar_entries(5));
    }
    menus
}

/// An item asking the site for any command reaches `script_for` as that
/// very command.
pub proof fn a_site_item_asks_for_its_own_command(name: Seq<char>, site: Seq<char>)
    ensures
        script_for_item("site:"@ + name, site) == site_command(name, site),
{
    reveal_strlit("site:");
    let id = "site:"@ + name;
    assert(id.take(5) =~= "site:"@);
    assert(id.skip(5) =~= name);
}

/// Every item of the bar the app carries out is answered by `script_for`:
/// each of the site's by asking the page for that very command, and each of
/// the page's own always. The rest are the system's, with no id of the
/// app's.
pub proof fn every_item_of_the_bar_is_carried_out(i: int, j: int, site: Seq<char>)
    requires
        0 <= i < bar_titles().len(),
        0 <= j < bar_entries(i).len(),
    ensures
        match bar_entries(i)[j] {
            Entry::Site { name, .. } => script_for_item(item_id(bar_entries(i)[j]).unwrap(), site)
                == site_command(name@, site),
            Entry::Page { .. } => script_for_item(item_id(bar_entries(i)[j]).unwrap(), site) is Some,
            _ => item_id(bar_entries(i)[j]) is None,
        },
        forall|k: int|
            0 <= k < theme_entries().len() ==> (#[trigger] theme_entries()[k] matches Entry::Site {
                name,
                ..
            } && script_for_item(item_id(theme_entries()[k]).unwrap(), site) == site_command(
                name@,
                site,
            )),
{
    reveal_strlit("site:");
    reveal_strlit("page:");
    reveal_strlit("back");
    reveal_strlit("forward");
    reveal_strlit("reload");
    reveal_strlit("page:back");
    reveal_strlit("page:forward");
    reveal_strlit("page:reload");
    match bar_entries(i)[j] {
        Entry::Site { name, .. } => a_site_item_asks_for_its_own_command(name@, site),
        Entry::Page { name, .. } => {
            let id = "page:"@ + name@;
            assert(id[0] == 'p');
            assert(!begins(id, "site:"@)) by {
                if begins(id, "site:"@) {
                    assert(id.take(5)[0] == "site:"@[0]);
                }
            }
            if name == "back" {
                assert(id =~= "page:back"@);
            } else if name == "forward" {
                assert(id =~= "page:forward"@);
            } else {
                assert(id =~= "page:reload"@);
            }
        },
        _ => {},
    }
    assert forall|k: int| 0 <= k < theme_entries().len() implies (#[trigger] theme_entries()[k] matches Entry::Site {
        name,
        ..
    } && script_for_item(item_id(theme_entries()[k]).unwrap(), site) == site_command(name@, site)) by {
        if let Entry::Site { name, .. } = theme_entries()[k] {
            a_site_item_asks_for_its_own_command(name@, site);
        }
    }
}

/// Each of the site's commands that is a place goes there, on the page's
/// site, when the page has no toolbar to ask: the newest drawings and About
/// to the front page, following to `/home`, the communities, drawing
/// together to `/collaborate`, the hashtags, search, notifications, the
/// drafts to `/posts/drafts` and the account; and the script asks the page
/// for the command first all the same. A command that is no place -- a
/// theme, a new drawing, the profile, the shortcuts -- only asks.
pub proof fn each_command_goes_to_its_place(site: Seq<char>)
    ensures
        place_of("recent"@) == Some("/"@),
        place_of("about"@) == Some("/"@),
        place_of("following"@) == Some("/home"@),
        place_of("communities"@) == Some("/communities"@),
        place_of("together"@) == Some("/collaborate"@),
        place_of("hashtags"@) == Some("/hashtags"@),
        place_of("search"@) == Some("/search"@),
        place_of("notifications"@) == Some("/notifications"@),
        place_of("drafts"@) == Some("/posts/drafts"@),
        place_of("account"@) == Some("/account"@),
        place_of("theme-light"@) is None,
        place_of("theme-dark"@) is None,
        place_of("theme-system"@) is None,
        place_of("new-drawing"@) is None,
        place_of("profile"@) is None,
        place_of("shortcuts"@) is None,
        forall|name: Seq<char>|
            place_of(name) is Some ==> #[trigger] script_for_item("site:"@ + name, site) == match url_joined(
                site,
                place_of(name).unwrap(),
            ) {
                Some(url) => Some(command_script(debug_quoted(name), Some(debug_quoted(url)))),
                None => None,
            },
        forall|name: Seq<char>|
            place_of(name) is None ==> #[trigger] script_for_item("site:"@ + name, site) == Some(
                command_script(debug_quoted(name), None),
            ),
{
    reveal_strlit("recent");
    reveal_strlit("about");
    reveal_strlit("following");
    reveal_strlit("communities");
    reveal_strlit("together");
    reveal_strlit("hashtags");
    reveal_strlit("search");
    reveal_strlit("notifications");
    reveal_strlit("drafts");
    reveal_strlit("account");
    reveal_strlit("theme-light");
    reveal_strlit("theme-dark");
    reveal_strlit("theme-system");
    reveal_strlit("new-drawing");
    reveal_strlit("profile");
    reveal_strlit("shortcuts");
    assert("recent"@ != "about"@) by { assert("recent"@.len() != "about"@.len()); }
    assert("recent"@ != "following"@) by { assert("recent"@.len() != "following"@.len()); }
    assert("recent"@ != "communities"@) by { assert("recent"@.len() != "communities"@.len()); }
    assert("recent"@ != "together"@) by { assert("recent"@.len() != "together"@.len()); }
    assert("recent"@ != "hashtags"@) by { assert("recent"@.len() != "hashtags"@.len()); }
    assert("recent"@ != "search"@) by { assert("recent"@[0] != "search"@[0]); }
    assert("recent"@ != "notifications"@) by { assert("recent"@.len() != "notifications"@.len()); }
    assert("recent"@ != "drafts"@) by { assert("recent"@[0] != "drafts"@[0]); }
    assert("recent"@ != "account"@) by { assert("recent"@.len() != "account"@.len()); }
    assert("recent"@ != "theme-light"@) by { assert("recent"@.len() != "theme-light"@.len()); }
    assert("recent"@ != "theme-dark"@) by { assert("recent"@.len() != "theme-dark"@.len()); }
    assert("recent"@ != "theme-system"@) by { assert("recent"@.len() != "theme-system"@.len()); }
    assert("recent"@ != "new-drawing"@) by { assert("recent"@.len() != "new-drawing"@.len()); }
    assert("recent"@ != "profile"@) by { assert("recent"@.len() != "profile"@.len()); }
    assert("recent"@ != "shortcuts"@) by { assert("recent"@.len() != "shortcuts"@.len()); }
    assert("about"@ != "following"@) by { assert("about"@.len() != "following"@.len()); }
    assert("about"@ != "communities"@) by { assert("about"@.len() != "communities"@.len()); }
    assert("about"@ != "together"@) by { assert("about"@.len() != "together"@.len()); }
    assert("about"@ != "hashtags"@) by { assert("about"@.len() != "hashtags"@.len()); }
    assert("about"@ != "search"@) by { assert("about"@.len() != "search"@.len()); }
    assert("about"@ != "notifications"@) by { assert("about"@.len() != "notifications"@.len()); }
    assert("about"@ != "drafts"@) by { assert("about"@.len() != "drafts"@.len()); }
    assert("about"@ != "account"@) by { assert("about"@.len() != "account"@.len()); }
    assert("about"@ != "theme-light"@) by { assert("about"@.len() != "theme-light"@.len()); }
    assert("about"@ != "theme-dark"@) by { assert("about"@.len() != "theme-dark"@.len()); }
    assert("about"@ != "theme-system"@) by { assert("about"@.len() != "theme-system"@.len()); }
    assert("about"@ != "new-drawing"@) by { assert("about"@.len() != "new-drawing"@.len()); }
    assert("about"@ != "profile"@) by { assert("about"@.len() != "profile"@.len()); }
    assert("about"@ != "shortcuts"@) by { assert("about"@.len() != "shortcuts"@.len()); }
    assert("following"@ != "communities"@) by { assert("following"@.len() != "communities"@.len()); }
    assert("following"@ != "together"@) by { assert("following"@.len() != "together"@.len()); }
    assert("following"@ != "hashtags"@) by { assert("following"@.len() != "hashtags"@.len()); }
    assert("following"@ != "search"@) by { assert("following"@.len() != "search"@.len()); }
    assert("following"@ != "notifications"@) by { assert("following"@.len() != "notifications"@.len()); }
    assert("following"@ != "drafts"@) by { assert("following"@.len() != "drafts"@.len()); }
    assert("following"@ != "account"@) by { assert("following"@.len() != "account"@.len()); }
    assert("following"@ != "theme-light"@) by { assert("following"@.len() != "theme-light"@.len()); }
    assert("following"@ != "theme-dark"@) by { assert("following"@.len() != "theme-dark"@.len()); }
    assert("following"@ != "theme-system"@) by { assert("following"@.len() != "theme-system"@.len()); }
    assert("following"@ != "new-drawing"@) by { assert("following"@.len() != "new-drawing"@.len()); }
    assert("following"@ != "profile"@) by { assert("following"@.len() != "profile"@.len()); }
    assert("following"@ != "shortcuts"@) by { assert("following"@[0] != "shortcuts"@[0]); }
    assert("communities"@ != "together"@) by { assert("communities"@.len() != "together"@.len()); }
    assert("communities"@ != "hashtags"@) by { assert("communities"@.len() != "hashtags"@.len()); }
    assert("communities"@ != "search"@) by { assert("communities"@.len() != "search"@.len()); }
    assert("communities"@ != "notifications"@) by { assert("communities"@.len() != "notifications"@.len()); }
    assert("communities"@ != "drafts"@) by { assert("communities"@.len() != "drafts"@.len()); }
    assert("communities"@ != "account"@) by { assert("communities"@.len() != "account"@.len()); }
    assert("communities"@ != "theme-light"@) by { assert("communities"@[0] != "theme-light"@[0]); }
    assert("communities"@ != "theme-dark"@) by { assert("communities"@.len() != "theme-dark"@.len()); }
    assert("communities"@ != "theme-system"@) by { assert("communities"@.len() != "theme-system"@.len()); }
    assert("communities"@ != "new-drawing"@) by { assert("communities"@[0] != "new-drawing"@[0]); }
    assert("communities"@ != "profile"@) by { assert("communities"@.len() != "profile"@.len()); }
    assert("communities"@ != "shortcuts"@) by { assert("communities"@.len() != "shortcuts"@.len()); }
    assert("together"@ != "hashtags"@) by { assert("together"@[0] != "hashtags"@[0]); }
    assert("together"@ != "search"@) by { assert("together"@.len() != "search"@.len()); }
    assert("together"@ != "notifications"@) by { assert("together"@.len() != "notifications"@.len()); }
    assert("together"@ != "drafts"@) by { assert("together"@.len() != "drafts"@.len()); }
    assert("together"@ != "account"@) by { assert("together"@.len() != "account"@.len()); }
    assert("together"@ != "theme-light"@) by { assert("together"@.len() != "theme-light"@.len()); }
    assert("together"@ != "theme-dark"@) by { assert("together"@.len() != "theme-dark"@.len()); }
    assert("together"@ != "theme-system"@) by { assert("together"@.len() != "theme-system"@.len()); }
    assert("together"@ != "new-drawing"@) by { assert("together"@.len() != "new-drawing"@.len()); }
    assert("together"@ != "profile"@) by { assert("together"@.len() != "profile"@.len()); }
    assert("together"@ != "shortcuts"@) by { assert("together"@.len() != "shortcuts"@.len()); }
    assert("hashtags"@ != "search"@) by { assert("hashtags"@.len() != "search"@.len()); }
    assert("hashtags"@ != "notifications"@) by { assert("hashtags"@.len() != "notifications"@.len()); }
    assert("hashtags"@ != "drafts"@) by { assert("hashtags"@.len() != "drafts"@.len()); }
    assert("hashtags"@ != "account"@) by { assert("hashtags"@.len() != "account"@.len()); }
    assert("hashtags"@ != "theme-light"@) by { assert("hashtags"@.len() != "theme-light"@.len()); }
    assert("hashtags"@ != "theme-dark"@) by { assert("hashtags"@.len() != "theme-dark"@.len()); }
    assert("hashtags"@ != "theme-system"@) by { assert("hashtags"@.len() != "theme-system"@.len()); }
    assert("hashtags"@ != "new-drawing"@) by { assert("hashtags"@.len() != "new-drawing"@.len()); }
    assert("hashtags"@ != "profile"@) by { assert("hashtags"@.len() != "profile"@.len()); }
    assert("hashtags"@ != "shortcuts"@) by { assert("hashtags"@.len() != "shortcuts"@.len()); }
    assert("search"@ != "notifications"@) by { assert("search"@.len() != "notifications"@.len()); }
    assert("search"@ != "drafts"@) by { assert("search"@[0] != "drafts"@[0]); }
    assert("search"@ != "account"@) by { assert("search"@.len() != "account"@.len()); }
    assert("search"@ != "theme-light"@) by { assert("search"@.len() != "theme-light"@.len()); }
    assert("search"@ != "theme-dark"@) by { assert("search"@.len() != "theme-dark"@.len()); }
    assert("search"@ != "theme-system"@) by { assert("search"@.len() != "theme-system"@.len()); }
    assert("search"@ != "new-drawing"@) by { assert("search"@.len() != "new-drawing"@.len()); }
    assert("search"@ != "profile"@) by { assert("search"@.len() != "profile"@.len()); }
    assert("search"@ != "shortcuts"@) by { assert("search"@.len() != "shortcuts"@.len()); }
    assert("notifications"@ != "drafts"@) by { assert("notifications"@.len() != "drafts"@.len()); }
    assert("notifications"@ != "account"@) by { assert("notifications"@.len() != "account"@.len()); }
    assert("notifications"@ != "theme-light"@) by { assert("notifications"@.len() != "theme-light"@.len()); }
    assert("notifications"@ != "theme-dark"@) by { assert("notifications"@.len() != "theme-dark"@.len()); }
    assert("notifications"@ != "theme-system"@) by { assert("notifications"@.len() != "theme-system"@.len()); }
    assert("notifications"@ != "new-drawing"@) by { assert("notifications"@.len() != "new-drawing"@.len()); }
    assert("notifications"@ != "profile"@) by { assert("notifications"@.len() != "profile"@.len()); }
    assert("notifications"@ != "shortcuts"@) by { assert("notifications"@.len() != "shortcuts"@.len()); }
    assert("drafts"@ != "account"@) by { assert("drafts"@.len() != "account"@.len()); }
    assert("drafts"@ != "theme-light"@) by { assert("drafts"@.len() != "theme-light"@.len()); }
    assert("drafts"@ != "theme-dark"@) by { assert("drafts"@.len() != "theme-dark"@.len()); }
    assert("drafts"@ != "theme-system"@) by { assert("drafts"@.len() != "theme-system"@.len()); }
    assert("drafts"@ != "new-drawing"@) by { assert("drafts"@.len() != "new-drawing"@.len()); }
    assert("drafts"@ != "profile"@) by { assert("drafts"@.len() != "profile"@.len()); }
    assert("drafts"@ != "shortcuts"@) by { assert("drafts"@.len() != "shortcuts"@.len()); }
    assert("account"@ != "theme-light"@) by { assert("account"@.len() != "theme-light"@.len()); }
    assert("account"@ != "theme-dark"@) by { assert("account"@.len() != "theme-dark"@.len()); }
    assert("account"@ != "theme-system"@) by { assert("account"@.len() != "theme-system"@.len()); }
    assert("account"@ != "new-drawing"@) by { assert("account"@.len() != "new-drawing"@.len()); }
    assert("account"@ != "profile"@) by { assert("account"@[0] != "profile"@[0]); }
    assert("account"@ != "shortcuts"@) by { assert("account"@.len() != "shortcuts"@.len()); }
    assert("theme-light"@ != "theme-dark"@) by { assert("theme-light"@.len() != "theme-dark"@.len()); }
    assert("theme-light"@ != "theme-system"@) by { assert("theme-light"@.len() != "theme-system"@.len()); }
    assert("theme-light"@ != "new-drawing"@) by { assert("theme-light"@[0] != "new-drawing"@[0]); }
    assert("theme-light"@ != "profile"@) by { assert("theme-light"@.len() != "profile"@.len()); }
    assert("theme-light"@ != "shortcuts"@) by { assert("theme-light"@.len() != "shortcuts"@.len()); }
    assert("theme-dark"@ != "theme-system"@) by { assert("theme-dark"@.len() != "theme-system"@.len()); }
    assert("theme-dark"@ != "new-drawing"@) by { assert("theme-dark"@.len() != "new-drawing"@.len()); }
    assert("theme-dark"@ != "profile"@) by { assert("theme-dark"@.len() != "profile"@.len()); }
    assert("theme-dark"@ != "shortcuts"@) by { assert("theme-dark"@.len() != "shortcuts"@.len()); }
    assert("theme-system"@ != "new-drawing"@) by { assert("theme-system"@.len() != "new-drawing"@.len()); }
    assert("theme-system"@ != "profile"@) by { assert("theme-system"@.len() != "profile"@.len()); }
    assert("theme-system"@ != "shortcuts"@) by { assert("theme-system"@.len() != "shortcuts"@.len()); }
    assert("new-drawing"@ != "profile"@) by { assert("new-drawing"@.len() != "profile"@.len()); }
    assert("new-drawing"@ != "shortcuts"@) by { assert("new-drawing"@.len() != "shortcuts"@.len()); }
    assert("profile"@ != "shortcuts"@) by { assert("profile"@.len() != "shortcuts"@.len()); }
    assert forall|name: Seq<char>|
        #![trigger script_for_item("site:"@ + name, site)]
        true implies script_for_item("site:"@ + name, site) == site_command(name, site) by {
        a_site_item_asks_for_its_own_command(name, site);
    }
}

} // verus!
