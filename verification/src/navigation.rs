//! Where a link goes: the window, the player's browser, Steam, or nowhere.
//!
//! The site and the bundled loader stay in the app's window; anything else is
//! a link off the site, and goes to the browser the player already uses,
//! where it has their sign-ins and an address bar. A replay file goes
//! nowhere, and the sign-ins the window cannot finish itself are carried out
//! by the app: Steam's with Steam, Apple's and Google's by a handoff to the
//! browser.

use vstd::prelude::*;

use crate::address::{url_host, url_scheme, Address};
use crate::site::{is_site, of_site};
use crate::text::{chars_of, spells};

verus! {

/// Whether a navigation to an address of scheme `scheme` and host `host`
/// stays in the window, `on_site` saying whether it is the site's: the
/// bundled loader -- tauri://localhost on Linux, http://tauri.localhost on
/// Windows -- and the schemes a page makes for itself stay, and so does the
/// site; nothing else does.
pub open spec fn stays(scheme: Seq<char>, host: Option<Seq<char>>, on_site: bool) -> bool {
    ||| scheme == "tauri"@
    ||| scheme == "about"@
    ||| scheme == "data"@
    ||| scheme == "blob"@
    ||| (scheme == "http"@ || scheme == "https"@) && (host == Some("tauri.localhost"@) || on_site)
}

/// Whether a navigation to an address of scheme `scheme` and host `host`
/// stays in the window, `on_site` saying whether it is the site's.
pub fn stays_for(scheme: &str, host: Option<&str>, on_site: bool) -> (stay: bool)
    ensures
        stay == stays(
            scheme@,
            match host {
                Some(h) => Some(h@),
                None => None,
            },
            on_site,
        ),
{
    let scheme = chars_of(scheme);
    let scheme = scheme.as_slice();
    if spells(scheme, "tauri") || spells(scheme, "about") || spells(scheme, "data") || spells(scheme, "blob") {
        return true;
    }
    if spells(scheme, "http") || spells(scheme, "https") {
        let loader = match host {
            Some(host) => spells(chars_of(host).as_slice(), "tauri.localhost"),
            None => false,
        };
        return loader || on_site;
    }
    false
}

/// Whether a navigation stays in the app's window.
pub fn stays_in_app(url: &Address, site: &Address) -> (stay: bool)
    ensures
        stay == stays(url_scheme(url@), url_host(url@), of_site(url@, site@)),
{
    let on_site = is_site(url, site);
    stays_for(url.scheme(), url.host_str(), on_site)
}

/// The site stays in the window: a page of the site on the web stays, and
/// a link to anywhere else on the web goes to the browser, unless it is the
/// bundled loader's.
pub proof fn the_site_stays_in_the_app(url: Seq<char>, site: Seq<char>)
    requires
        url_scheme(url) == "https"@ || url_scheme(url) == "http"@,
    ensures
        stays(url_scheme(url), url_host(url), of_site(url, site)) == (of_site(url, site) || url_host(
            url,
        ) == Some("tauri.localhost"@)),
{
    reveal_strlit("https");
    reveal_strlit("http");
    reveal_strlit("tauri");
    reveal_strlit("about");
    reveal_strlit("data");
    reveal_strlit("blob");
    let scheme = url_scheme(url);
    assert(scheme[0] == 'h');
    assert(scheme != "tauri"@ && scheme != "about"@ && scheme != "data"@ && scheme != "blob"@) by {
        assert("tauri"@[0] != 'h' && "about"@[0] != 'h' && "data"@[0] != 'h' && "blob"@[0] != 'h');
    }
}

/// Where a navigation goes.
#[derive(Clone, Copy, Debug, PartialEq, Eq, Structural)]
pub enum Route {
    /// Nowhere: a replay file, which the window would not show and the
    /// browser would download.
    Nowhere,
    /// The site's "Sign in with Steam", which the app carries out with Steam.
    SteamSignIn,
    /// Apple's or Google's sign-in, handed out to the browser and taken back.
    Handoff,
    /// The app's window.
    Window,
    /// The player's browser.
    Browser,
}

/// Where a navigation goes, by what it is: a replay file; the site's Steam
/// sign-in, with Steam there; Apple's or Google's sign-in; or an address
/// that stays in the window (`stays`). Each is asked in that order, the
/// first that holds deciding.
pub open spec fn route_of(replay: bool, steam_sign_in: bool, handoff_sign_in: bool, stay: bool) -> Route {
    if replay {
        Route::Nowhere
    } else if steam_sign_in {
        Route::SteamSignIn
    } else if handoff_sign_in {
        Route::Handoff
    } else if stay {
        Route::Window
    } else {
        Route::Browser
    }
}

/// Decides a navigation the window makes.
pub fn route(replay: bool, steam_sign_in: bool, handoff_sign_in: bool, stay: bool) -> (to: Route)
    ensures
        to == route_of(replay, steam_sign_in, handoff_sign_in, stay),
{
    if replay {
        Route::Nowhere
    } else if steam_sign_in {
        Route::SteamSignIn
    } else if handoff_sign_in {
        Route::Handoff
    } else if stay {
        Route::Window
    } else {
        Route::Browser
    }
}

/// Decides a new window a page asks for (`target="_blank"`, `window.open`).
/// A second window of the site would be a second app with nothing to tell
/// it apart, so no window is ever opened: a page that stays replaces the one
/// showing, anything else goes to the browser, and a replay file nowhere.
pub fn new_window_route(replay: bool, stay: bool) -> (to: Route)
    ensures
        to == route_of(replay, false, false, stay),
{
    route(replay, false, false, stay)
}

/// Only what stays is shown in the window, a replay file goes nowhere
/// whatever else it is, and every sign-in is carried out rather than shown.
pub proof fn only_what_stays_is_shown(replay: bool, steam_sign_in: bool, handoff_sign_in: bool, stay: bool)
    ensures
        route_of(replay, steam_sign_in, handoff_sign_in, stay) == Route::Window ==> stay && !replay,
        replay ==> route_of(replay, steam_sign_in, handoff_sign_in, stay) == Route::Nowhere,
        !replay && (steam_sign_in || handoff_sign_in) ==> route_of(
            replay,
            steam_sign_in,
            handoff_sign_in,
            stay,
        ) != Route::Window,
{
}

/// What a page makes for itself stays in the window -- an address whose
/// scheme is `tauri`, `about`, `data` or `blob` -- and so does the bundled
/// loader on the web (`tauri.localhost`), whatever site the app is onto;
/// any other scheme, `mailto:` and `javascript:` among them, goes out.
pub proof fn a_pages_own_addresses_stay(url: Seq<char>, site: Seq<char>)
    ensures
        url_scheme(url) == "tauri"@ || url_scheme(url) == "about"@ || url_scheme(url) == "data"@
            || url_scheme(url) == "blob"@ ==> stays(url_scheme(url), url_host(url), of_site(url, site)),
        (url_scheme(url) == "http"@ || url_scheme(url) == "https"@) && url_host(url) == Some(
            "tauri.localhost"@,
        ) ==> stays(url_scheme(url), url_host(url), of_site(url, site)),
        !(url_scheme(url) == "tauri"@ || url_scheme(url) == "about"@ || url_scheme(url) == "data"@
            || url_scheme(url) == "blob"@ || url_scheme(url) == "http"@ || url_scheme(url)
            == "https"@) ==> !stays(url_scheme(url), url_host(url), of_site(url, site)),
{
}

/// An address on the web that is neither the site's nor the bundled
/// loader's goes to the browser, and one of the site's stays.
pub proof fn the_web_beyond_the_site_goes_out(url: Seq<char>, site: Seq<char>)
    ensures
        (url_scheme(url) == "http"@ || url_scheme(url) == "https"@) && url_host(url) != Some(
            "tauri.localhost"@,
        ) && !of_site(url, site) ==> !stays(url_scheme(url), url_host(url), of_site(url, site)),
        (url_scheme(url) == "http"@ || url_scheme(url) == "https"@) && of_site(url, site) ==> stays(
            url_scheme(url),
            url_host(url),
            of_site(url, site),
        ),
{
    if url_scheme(url) == "http"@ || url_scheme(url) == "https"@ {
        the_site_stays_in_the_app(url, site);
    }
}

} // verus!
