//! What the site tells the app, by the one channel it tells it by.
//!
//! The site calls `oeeeBridge.postMessage` with a JSON string, which the
//! bridge's script hands to the app as an `oeee-bridge` event. Every message
//! is `{v, type, ...}`. Types the app has no use for -- haptics, a finger
//! landing on a drawing, the painter being ready -- and fields it does not
//! read are ignored, so the site can add either without a release of the
//! app. What the app does on each message it reads is `reactions`.

use vstd::prelude::*;

use crate::words::Words;

verus! {

/// The event the bridge's script emits each message in.
pub const EVENT: &'static str = "oeee-bridge";

/// The version of the contract this app speaks. A message of another is
/// ignored rather than guessed at: the site bumps it only for a change the
/// app could not read correctly.
pub const VERSION: u64 = 1;

/// Whether the app reads a message of version `v`.
pub fn speaks(v: u64) -> (read: bool)
    ensures
        read == (v == VERSION),
{
    v == VERSION
}

/// What the site says, as far as the app reads it.
#[derive(Debug, PartialEq, Eq)]
pub enum Message {
    /// On every page, and again whenever any of it changes.
    Page(Page),
    /// The number on the bell.
    Unread { count: i64 },
    /// The page's colours, of which the app uses the ground.
    Theme(Theme),
    /// What the app says in its own dialogs and menus, in the page's
    /// language. Sent once a page.
    Words(Words),
    /// Open this address in the system's browser: a sign-in the page is
    /// handing out.
    Browse { url: String },
    /// A sign-in the page is carrying, answered with a Steam Web API ticket.
    SignIn,
    /// What these products cost, through the store the build sells through.
    Prices { products: Vec<String> },
    /// Sell this product, through the store the build sells through.
    Purchase { product: String },
    /// The toolbar's window controls on Windows: "minimize", "maximize"
    /// (which restores, too) or "close".
    Window { action: String },
    /// Where the toolbar's maximise button is on Windows, for the Snap
    /// Layouts stand-in over it: its place, or none.
    Caption { place: Option<Place> },
    /// A new notification for the reader, heard by the page while the window
    /// was not in front. `url` is a path on the site.
    Notify { title: String, body: String, url: String },
    /// Anything else the site says.
    Other,
}

/// The toolbar's maximise button's place in the window, in physical pixels
/// from the top left of the window's client area -- which is where the
/// webview starts.
#[derive(Clone, Copy, Debug, PartialEq, Eq, Structural)]
pub struct Place {
    pub x: i32,
    pub y: i32,
    pub width: i32,
    pub height: i32,
}

/// The largest the stand-in may be on a side, so a page cannot spread it
/// over the rest of itself: a caption button is 46 by 52 at 100%, and this
/// is room for it at 400%.
pub const MOST: i32 = 256;

/// A place with no size is none; one is kept in the window's corner and no
/// bigger than a button.
pub open spec fn bounded_place(place: Place) -> Option<Place> {
    if place.width <= 0 || place.height <= 0 {
        None
    } else {
        Some(
            Place {
                x: if place.x < 0 {
                    0
                } else {
                    place.x
                },
                y: if place.y < 0 {
                    0
                } else {
                    place.y
                },
                width: if place.width > MOST {
                    MOST
                } else {
                    place.width
                },
                height: if place.height > MOST {
                    MOST
                } else {
                    place.height
                },
            },
        )
    }
}

impl Place {
    /// None for a button with no size, and one past a button's size as no
    /// more than one.
    pub fn bounded(self) -> (kept: Option<Place>)
        ensures
            kept == bounded_place(self),
    {
        if self.width <= 0 || self.height <= 0 {
            return None;
        }
        Some(
            Place {
                x: if self.x < 0 {
                    0
                } else {
                    self.x
                },
                y: if self.y < 0 {
                    0
                } else {
                    self.y
                },
                width: if self.width > MOST {
                    MOST
                } else {
                    self.width
                },
                height: if self.height > MOST {
                    MOST
                } else {
                    self.height
                },
            },
        )
    }
}

/// The stand-in is never bigger than a button, never outside the window's
/// top left, and a place already bounded stays as it is.
pub proof fn the_stand_in_is_never_bigger_than_a_button(place: Place)
    ensures
        bounded_place(place) matches Some(p) ==> 0 <= p.x && 0 <= p.y && 0 < p.width <= MOST && 0
            < p.height <= MOST,
        bounded_place(place) matches Some(p) ==> bounded_place(p) == Some(p),
{
}

/// What the site says about the page showing, as far as the app uses it.
#[derive(Debug, PartialEq, Eq)]
pub struct Page {
    /// Whether anyone is signed in; none on a page without the toolbar,
    /// which cannot tell.
    pub signed_in: Option<bool>,
    /// What the player is doing, or none for browsing.
    pub presence: Option<String>,
    pub community: Option<String>,
    pub group: Option<String>,
}

impl Default for Page {
    fn default() -> (page: Page)
        ensures
            page.signed_in is None,
            page.presence is None,
            page.community is None,
            page.group is None,
    {
        Page { signed_in: None, presence: None, community: None, group: None }
    }
}

/// What the site says about its colours, as far as the app uses them.
#[derive(Debug, PartialEq, Eq)]
pub struct Theme {
    /// The design system's `--ds-ground` as a CSS colour, the field behind
    /// every page; none on a page without the design system's stylesheet.
    pub ground: Option<String>,
}

impl Default for Theme {
    fn default() -> (theme: Theme)
        ensures
            theme.ground is None,
    {
        Theme { ground: None }
    }
}

/// What the app does on hearing the site.
#[derive(Debug, PartialEq, Eq)]
pub enum Reaction {
    /// Shows this unread count on the icon.
    Badge(i64),
    /// Tells Steam what the page says the player is doing.
    Presence(Page),
    /// Paints the window's ground the page's.
    Ground(String),
    /// Keeps the page's words for the app's own dialogs and menus.
    Hear(Words),
    /// Does what the toolbar's window control asks.
    Window(String),
    /// Puts the Snap Layouts stand-in where the page's button is, or takes
    /// it away.
    Caption(Option<Place>),
    /// Opens this address in the player's browser, if it is the site's.
    Browse(String),
    /// Answers a sign-in with a Steam ticket, or with none without Steam.
    SignIn,
    /// Asks Steam what these cost.
    SteamPrices(Vec<String>),
    /// Asks the Microsoft Store what these cost.
    MicrosoftPrices(Vec<String>),
    /// Shows this DLC's page in Steam's overlay.
    SteamStore(String),
    /// Sells this add-on in the Microsoft Store's dialog.
    MicrosoftSell(String),
    /// Shows a notification as the system's own.
    Notify { title: String, body: String, url: String },
}

/// What the app does on `message`, with Steam there or not, and the
/// Microsoft Store there or not. A build sells through one store at most,
/// Steam's first; a page whose user agent named no store asks nothing of
/// one, and where there is none is answered with nothing.
pub open spec fn reactions_to(message: Message, steam: bool, microsoft: bool) -> Seq<Reaction> {
    match message {
        Message::Page(page) => {
            // Nobody signed in has no bell, and so no count to send.
            let badge = if page.signed_in == Some(false) {
                seq![Reaction::Badge(0)]
            } else {
                Seq::empty()
            };
            if steam {
                badge.push(Reaction::Presence(page))
            } else {
                badge
            }
        },
        Message::Unread { count } => seq![Reaction::Badge(count)],
        Message::Theme(theme) => match theme.ground {
            Some(ground) => seq![Reaction::Ground(ground)],
            None => Seq::empty(),
        },
        Message::Words(words) => seq![Reaction::Hear(words)],
        Message::Window { action } => seq![Reaction::Window(action)],
        Message::Caption { place } => seq![Reaction::Caption(place)],
        Message::Browse { url } => seq![Reaction::Browse(url)],
        Message::SignIn => seq![Reaction::SignIn],
        Message::Prices { products } => if steam {
            seq![Reaction::SteamPrices(products)]
        } else if microsoft {
            seq![Reaction::MicrosoftPrices(products)]
        } else {
            Seq::empty()
        },
        Message::Purchase { product } => if steam {
            seq![Reaction::SteamStore(product)]
        } else if microsoft {
            seq![Reaction::MicrosoftSell(product)]
        } else {
            Seq::empty()
        },
        Message::Notify { title, body, url } => seq![Reaction::Notify { title, body, url }],
        Message::Other => Seq::empty(),
    }
}

/// Acts on what the site says: the unread count on the icon, what the
/// player is doing for their Steam friends, the ground behind the page, the
/// words for the app's own dialogs, the window's controls, a sign-in to open
/// in the browser, Steam's sign-in, and the store -- Steam's or the
/// Microsoft Store's, whichever the build sells through.
pub fn reactions(message: Message, steam: bool, microsoft: bool) -> (done: Vec<Reaction>)
    ensures
        done@ == reactions_to(message, steam, microsoft),
{
    let mut done: Vec<Reaction> = Vec::new();
    match message {
        Message::Page(page) => {
            if page.signed_in == Some(false) {
                done.push(Reaction::Badge(0));
            }
            if steam {
                done.push(Reaction::Presence(page));
            }
        },
        Message::Unread { count } => done.push(Reaction::Badge(count)),
        Message::Theme(theme) => {
            if let Some(ground) = theme.ground {
                done.push(Reaction::Ground(ground));
            }
        },
        Message::Words(words) => done.push(Reaction::Hear(words)),
        Message::Window { action } => done.push(Reaction::Window(action)),
        Message::Caption { place } => done.push(Reaction::Caption(place)),
        Message::Browse { url } => done.push(Reaction::Browse(url)),
        Message::SignIn => done.push(Reaction::SignIn),
        Message::Prices { products } => {
            if steam {
                done.push(Reaction::SteamPrices(products));
            } else if microsoft {
                done.push(Reaction::MicrosoftPrices(products));
            }
        },
        Message::Purchase { product } => {
            if steam {
                done.push(Reaction::SteamStore(product));
            } else if microsoft {
                done.push(Reaction::MicrosoftSell(product));
            }
        },
        Message::Notify { title, body, url } => done.push(Reaction::Notify { title, body, url }),
        Message::Other => {},
    }
    proof {
        assert(done@ =~= reactions_to(message, steam, microsoft));
    }
    done
}

/// Whether a reaction is the Microsoft Store's.
pub open spec fn is_microsoft(reaction: Reaction) -> bool {
    reaction is MicrosoftPrices || reaction is MicrosoftSell
}

/// Whether a reaction is Steam's.
pub open spec fn is_steam(reaction: Reaction) -> bool {
    reaction is SteamPrices || reaction is SteamStore || reaction is Presence
}

/// A build sells through one store at most: with Steam there, nothing is
/// asked of the Microsoft Store; without Steam, nothing of Steam; and what
/// the app does not know it does nothing about.
pub proof fn one_store_at_most(message: Message, steam: bool, microsoft: bool)
    ensures
        steam ==> forall|i: int|
            0 <= i < reactions_to(message, steam, microsoft).len() ==> !is_microsoft(
                #[trigger] reactions_to(message, steam, microsoft)[i],
            ),
        !steam ==> forall|i: int|
            0 <= i < reactions_to(message, steam, microsoft).len() ==> !is_steam(
                #[trigger] reactions_to(message, steam, microsoft)[i],
            ),
        message is Other ==> reactions_to(message, steam, microsoft).len() == 0,
{
}

/// Each message the app reads reaches what it is for, and only that, with or
/// without a store: a window control is done to the window, the count on the
/// bell shown, the words kept, the stand-in placed, a browser asked for,
/// Steam's sign-in answered and a notification shown -- each as exactly one
/// reaction carrying what the message said.
pub proof fn each_message_reaches_what_it_is_for(steam: bool, microsoft: bool, action: String, count: i64, words: Words, place: Option<Place>, url: String, title: String, body: String)
    ensures
        reactions_to(Message::Window { action }, steam, microsoft) == seq![Reaction::Window(action)],
        reactions_to(Message::Unread { count }, steam, microsoft) == seq![Reaction::Badge(count)],
        reactions_to(Message::Words(words), steam, microsoft) == seq![Reaction::Hear(words)],
        reactions_to(Message::Caption { place }, steam, microsoft) == seq![Reaction::Caption(place)],
        reactions_to(Message::Browse { url }, steam, microsoft) == seq![Reaction::Browse(url)],
        reactions_to(Message::SignIn, steam, microsoft) == seq![Reaction::SignIn],
        reactions_to(Message::Notify { title, body, url }, steam, microsoft) == seq![
            Reaction::Notify { title, body, url },
        ],
{
}

/// A ground the page says is painted, and a page with none paints nothing;
/// a page with nobody signed in clears the bell, and Steam hears every page
/// in the Steam build and none elsewhere.
pub proof fn pages_and_grounds_reach_the_window(steam: bool, microsoft: bool, ground: String, page: Page)
    ensures
        reactions_to(Message::Theme(Theme { ground: Some(ground) }), steam, microsoft) == seq![
            Reaction::Ground(ground),
        ],
        reactions_to(Message::Theme(Theme { ground: None }), steam, microsoft).len() == 0,
        page.signed_in == Some(false) && steam ==> reactions_to(Message::Page(page), steam, microsoft)
            == seq![Reaction::Badge(0), Reaction::Presence(page)],
        page.signed_in != Some(false) && steam ==> reactions_to(Message::Page(page), steam, microsoft)
            == seq![Reaction::Presence(page)],
        page.signed_in == Some(false) && !steam ==> reactions_to(Message::Page(page), steam, microsoft)
            == seq![Reaction::Badge(0)],
        page.signed_in != Some(false) && !steam ==> reactions_to(Message::Page(page), steam, microsoft).len()
            == 0,
{
    assert(Seq::<Reaction>::empty().push(Reaction::Presence(page)) =~= seq![Reaction::Presence(page)]);
}

/// What products cost, and selling one, go to the store the build sells
/// through -- Steam where Steam started the app, the Microsoft Store where
/// it is its package and there is no Steam -- carrying the products as the
/// page named them; with no store, nothing is asked.
pub proof fn the_store_is_asked_what_the_page_asked(steam: bool, microsoft: bool, products: Vec<String>, product: String)
    ensures
        steam ==> reactions_to(Message::Prices { products }, steam, microsoft) == seq![
            Reaction::SteamPrices(products),
        ],
        !steam && microsoft ==> reactions_to(Message::Prices { products }, steam, microsoft) == seq![
            Reaction::MicrosoftPrices(products),
        ],
        steam ==> reactions_to(Message::Purchase { product }, steam, microsoft) == seq![
            Reaction::SteamStore(product),
        ],
        !steam && microsoft ==> reactions_to(Message::Purchase { product }, steam, microsoft) == seq![
            Reaction::MicrosoftSell(product),
        ],
        !steam && !microsoft ==> reactions_to(Message::Prices { products }, steam, microsoft).len() == 0
            && reactions_to(Message::Purchase { product }, steam, microsoft).len() == 0,
{
}

} // verus!
