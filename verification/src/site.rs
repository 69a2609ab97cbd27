//! Which site the app is a window onto, and what counts as being on it.

use vstd::prelude::*;

use crate::address::{
    byte_serialize, form_encoded, origins_match, same_origin, url_origin, url_origin_text,
    url_parsed, Address,
};

verus! {

/// The site the app is a window onto, unless a development build is pointed
/// elsewhere.
pub const SITE: &'static str = "https://oeee.cafe/";

/// The site: `SITE`, parsed.
pub fn default() -> (site: Option<Address>)
    ensures
        match url_parsed(SITE@) {
            Some(text) => site matches Some(a) && a@ == text,
            None => site is None,
        },
{
    Address::parse(SITE)
}

/// The site a build is set to open, `setting`: where a development build is
/// pointed, such as `https://oeee.test/`, when it is set to an address; the
/// site otherwise.
pub fn from_setting(setting: Option<&str>) -> (site: Option<Address>)
    ensures
        match setting {
            Some(text) if url_parsed(text@) is Some => site matches Some(a) && Some(a@) == url_parsed(
                text@,
            ),
            _ => match url_parsed(SITE@) {
                Some(text) => site matches Some(a) && a@ == text,
                None => site is None,
            },
        },
{
    match setting {
        Some(text) => match Address::parse(text) {
            Some(site) => Some(site),
            None => default(),
        },
        None => default(),
    }
}

/// The site the tests are held to: the app's own.
pub fn for_tests() -> (site: Option<Address>)
    ensures
        match url_parsed(SITE@) {
            Some(text) => site matches Some(a) && a@ == text,
            None => site is None,
        },
{
    default()
}

/// Whether the page at `page` is one of the site at `site`'s: the same
/// scheme, host and port.
pub open spec fn of_site(page: Seq<char>, site: Seq<char>) -> bool {
    same_origin(url_origin(page), url_origin(site))
}

/// Whether `page` is one of the site's: the same scheme, host and port, and
/// so not the loader, its "can't be reached" page, or anywhere else. Every
/// decision that trusts a page -- that it may be posted to from, that its
/// failure is the site's -- is made by this one comparison.
pub fn is_site(page: &Address, site: &Address) -> (on_site: bool)
    ensures
        on_site == of_site(page@, site@),
{
    let page_origin = page.origin();
    let site_origin = site.origin();
    origins_match(&page_origin, &site_origin)
}

/// Being on the site goes both ways, and a site whose origin is a scheme,
/// host and port is on itself.
pub proof fn being_on_the_site_goes_both_ways(a: Seq<char>, b: Seq<char>)
    ensures
        of_site(a, b) == of_site(b, a),
        of_site(a, a) == url_origin(a) is Tuple,
        of_site(a, b) ==> url_origin(a) is Tuple && url_origin(b) is Tuple,
{
}

/// The address pattern a capability gives the site's pages by: the site and
/// nothing else -- its origin, as `is_site` compares it.
pub fn pattern(site: &Address) -> (pattern: String)
    ensures
        pattern@ == url_origin_text(site@) + "/*"@,
{
    let mut pattern = site.origin_text();
    pattern.append("/*");
    pattern
}

/// The start of the bundled loader's address, before the site it is told to
/// open.
pub const LOADER: &'static str = "index.html?site=";

/// The bundled loader, told which site to open.
pub fn loader(site: &Address) -> (loader: String)
    ensures
        loader@ == LOADER@ + form_encoded(site@),
{
    let mut loader = String::new();
    loader.append(LOADER);
    let encoded = byte_serialize(site.as_str());
    loader.append(encoded.as_str());
    loader
}

} // verus!
