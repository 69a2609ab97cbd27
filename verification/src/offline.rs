//! When the site stops answering while the app is open.
//!
//! A page that fails to load would leave whatever the webview or the gateway
//! in front of the site put in its place: WebView2's own error page, or
//! Cloudflare's "Bad gateway", which is not the app's and offers no way
//! back. Instead the window goes back to the loader, in its "can't be
//! reached" state, and trying again opens the page the player was going to.
//!
//! A page is taken to have failed when nothing answered for it, or when the
//! gateway answered in the site's place. An error page of the site's own --
//! a 404, a 500 -- is the site speaking, and is shown.

use vstd::prelude::*;

use crate::address::{pairs_view, url_joined, url_parsed, url_query_pairs, url_with_query, Address};
use crate::site::{is_site, of_site};
use crate::text::{chars_of, spells};

verus! {

/// The statuses a gateway answers with when the site behind it cannot:
/// nginx's and every proxy's 502, 503 and 504, and Cloudflare's own 52x and
/// 530.
pub open spec fn is_gateway_status(status: u16) -> bool {
    status == 502 || status == 503 || status == 504 || (520 <= status <= 527) || status == 530
}

pub fn gateway_answered(status: u16) -> (answered: bool)
    ensures
        answered == is_gateway_status(status),
{
    match status {
        502 | 503 | 504 | 520 | 521 | 522 | 523 | 524 | 525 | 526 | 527 | 530 => true,
        _ => false,
    }
}

/// The value of the first pair named `site`, if any.
pub open spec fn first_site(pairs: Seq<(Seq<char>, Seq<char>)>) -> Option<Seq<char>>
    decreases pairs.len(),
{
    if pairs.len() == 0 {
        None
    } else if pairs[0].0 == "site"@ {
        Some(pairs[0].1)
    } else {
        first_site(pairs.drop_first())
    }
}

/// The loader's query once `page` could not be reached: the site it was
/// told to open, if it was told, then the page, and that it is offline.
pub open spec fn back_pairs(pairs: Seq<(Seq<char>, Seq<char>)>, page: Seq<char>) -> Seq<
    (Seq<char>, Seq<char>),
> {
    let site = match first_site(pairs) {
        Some(site) => seq![("site"@, site)],
        None => Seq::empty(),
    };
    site + seq![("page"@, page), ("offline"@, "1"@)]
}

/// The loader's query pairs once `page` could not be reached, from its
/// pairs now.
pub fn loader_pairs(pairs: &[(String, String)], page: &str) -> (back: Vec<(String, String)>)
    ensures
        pairs_view(back@) == back_pairs(pairs_view(pairs@), page@),
{
    let ghost all = pairs_view(pairs@);
    let mut site: Option<String> = None;
    let mut i: usize = 0;
    assert(all.skip(0) =~= all);
    while i < pairs.len() && site.is_none()
        invariant
            all == pairs_view(pairs@),
            i <= pairs@.len(),
            first_site(all) == match site {
                Some(s) => Some(s@),
                None => first_site(all.skip(i as int)),
            },
        decreases pairs@.len() - i,
    {
        proof {
            assert(all.skip(i as int).drop_first() =~= all.skip(i + 1));
            assert(all.skip(i as int)[0] == all[i as int]);
        }
        if spells(chars_of(pairs[i].0.as_str()).as_slice(), "site") {
            site = Some(pairs[i].1.clone());
        }
        i = i + 1;
    }
    proof {
        if site is None {
            assert(all.skip(i as int).len() == 0);
        }
    }
    let mut back: Vec<(String, String)> = Vec::new();
    if let Some(site) = site {
        back.push((String::from_str("site"), site));
    }
    back.push((String::from_str("page"), String::from_str(page)));
    back.push((String::from_str("offline"), String::from_str("1")));
    proof {
        assert(pairs_view(back@) =~= back_pairs(all, page@));
    }
    back
}

/// The loader in its "can't be reached" state, set to go to `page` once the
/// site answers again.
pub fn loader_for(loader: &Address, page: &Address) -> (back: Address)
    ensures
        back@ == url_with_query(loader@, back_pairs(url_query_pairs(loader@), page@)),
{
    let pairs = loader.query_pairs();
    let back = loader_pairs(pairs.as_slice(), page.as_str());
    loader.with_query_pairs(back.as_slice())
}

/// Where WebView2 serves the bundled loader from.
pub const LOADER_ORIGIN: &'static str = "http://tauri.localhost/";

/// The loader's address in the window, from its path in the app, `loader`,
/// as the window was opened on: the window has not loaded it yet, so it
/// cannot be asked.
pub fn loader_address(loader: &str) -> (address: Option<Address>)
    ensures
        match url_parsed(LOADER_ORIGIN@) {
            Some(origin) => match url_joined(origin, loader@) {
                Some(text) => address matches Some(a) && a@ == text,
                None => address is None,
            },
            None => address is None,
        },
{
    match Address::parse(LOADER_ORIGIN) {
        Some(origin) => origin.join(loader),
        None => None,
    }
}

/// Where the window goes when the page at `page` could not be shown: back
/// to the loader at `loader`, to say so and try again, when the page is the
/// site's; a page that is not the site's, or no address at all, is left as
/// it is.
pub open spec fn sent_back_to(page: Seq<char>, site: Seq<char>, loader: Seq<char>) -> Option<Seq<char>> {
    match url_parsed(page) {
        Some(parsed) => if of_site(parsed, site) {
            Some(url_with_query(loader, back_pairs(url_query_pairs(loader), parsed)))
        } else {
            None
        },
        None => None,
    }
}

/// Sends a page of the site that could not be reached back to the loader,
/// which says so and tries it again.
pub fn sent_back(page: &str, site: &Address, loader: &Address) -> (back: Option<Address>)
    ensures
        match sent_back_to(page@, site@, loader@) {
            Some(text) => back matches Some(a) && a@ == text,
            None => back is None,
        },
{
    match Address::parse(page) {
        Some(page) => if is_site(&page, site) {
            Some(loader_for(loader, &page))
        } else {
            None
        },
        None => None,
    }
}

} // verus!
