//! Signing in with Apple or Google, which this window cannot do itself.
//!
//! Google refuses its own sign-in pages inside an embedded web view, and
//! Apple ships no sheet to open on Windows, so the site hands the sign-in
//! out and takes it back: the page asks the site to start a handoff, the app
//! opens the browser at the URL it is given, and the page asks the site
//! until the browser has finished. The app's whole part is opening a browser
//! when the page asks -- only at the site's own addresses -- and saying when
//! it could not, or when the window comes back.

use vstd::prelude::*;

use crate::address::{url_parsed, Address};
use crate::site::{is_site, of_site};

verus! {

/// Tells the page the browser could not be opened.
pub const UNOPENED: &'static str =
    "window.oeeeApp && window.oeeeApp.signIn && window.oeeeApp.signIn.unopened();";

/// Tells the page to ask the site now whether the browser has finished.
pub const RESUME: &'static str =
    "window.oeeeApp && window.oeeeApp.signIn && window.oeeeApp.signIn.resume();";

/// The scheme the browser is sent to once the provider has answered. It
/// carries nothing: the window is already holding what claims the sign-in.
pub const RETURN_SCHEME: &'static str = "oeee-cafe";

/// Where the browser may be opened for a page that asks: the address it
/// asks for, if that is one of the site's.
pub open spec fn opens(site: Seq<char>, url: Seq<char>) -> Option<Seq<char>> {
    match url_parsed(url) {
        Some(parsed) => if of_site(parsed, site) {
            Some(parsed)
        } else {
            None
        },
        None => None,
    }
}

/// Where to open the browser when the page asks for `url`: only at the
/// site's own URLs. The page is the site's, but the window is the app's,
/// and a page is not given the run of whatever the browser will open.
pub fn to_open(site: &Address, url: &str) -> (open: Option<Address>)
    ensures
        match opens(site@, url@) {
            Some(text) => open matches Some(a) && a@ == text,
            None => open is None,
        },
{
    match Address::parse(url) {
        Some(url) => if is_site(&url, site) {
            Some(url)
        } else {
            None
        },
        None => None,
    }
}

/// The browser is opened only at the site's pages.
pub proof fn the_browser_opens_only_the_site(site: Seq<char>, url: Seq<char>)
    ensures
        opens(site, url) matches Some(opened) ==> of_site(opened, site),
{
}

} // verus!
