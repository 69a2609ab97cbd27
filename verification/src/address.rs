//! Web addresses, as the `url` crate parses and joins them.
//!
//! An `Address` is a parsed URL, known to the rest of the library by its
//! serialization: the text the `url` crate writes for it. What the crate
//! computes of one -- its origin, scheme and host, its query's pairs, a
//! relative address joined to it -- is named here, a function of that text,
//! and only the crate computes it.

use vstd::prelude::*;

verus! {

#[verifier::external_type_specification]
#[verifier::external_body]
pub struct ExUrl(url::Url);

/// A parsed URL.
#[derive(Debug)]
pub struct Address {
    text: String,
    url: url::Url,
}

impl View for Address {
    type V = Seq<char>;

    /// The URL's serialization.
    closed spec fn view(&self) -> Seq<char> {
        self.text@
    }
}

/// An origin: a scheme, host and port, or opaque -- the origin of an address
/// that is not the web's, which is the same as no other.
#[derive(Debug)]
pub enum Origin {
    Tuple(String, String, u16),
    Opaque,
}

/// An origin, its strings as characters.
pub enum OriginView {
    Tuple(Seq<char>, Seq<char>, u16),
    Opaque,
}

impl View for Origin {
    type V = OriginView;

    open spec fn view(&self) -> OriginView {
        match self {
            Origin::Tuple(scheme, host, port) => OriginView::Tuple(scheme@, host@, *port),
            Origin::Opaque => OriginView::Opaque,
        }
    }
}

/// The serialization of `input` parsed as a URL, or none where it is not one
/// (`Url::parse`).
pub uninterp spec fn url_parsed(input: Seq<char>) -> Option<Seq<char>>;

/// The serialization of `input` parsed as a URL relative to the URL `base`,
/// or none where it is not one (`Url::join`).
pub uninterp spec fn url_joined(base: Seq<char>, input: Seq<char>) -> Option<Seq<char>>;

/// The origin of the URL `url` (`Url::origin`).
pub uninterp spec fn url_origin(url: Seq<char>) -> OriginView;

/// The ASCII serialization of the origin of the URL `url`
/// (`Origin::ascii_serialization`).
pub uninterp spec fn url_origin_text(url: Seq<char>) -> Seq<char>;

/// The scheme of the URL whose serialization is `url`: what comes before
/// its first `:`, which a URL's serialization always has right after its
/// scheme, and a scheme never holds (`Url::scheme`).
pub open spec fn url_scheme(url: Seq<char>) -> Seq<char>
    decreases url.len(),
{
    if url.len() == 0 || url[0] == ':' {
        Seq::empty()
    } else {
        seq![url[0]] + url_scheme(url.drop_first())
    }
}

/// The host of the URL `url` as text, if it has one (`Url::host_str`).
pub uninterp spec fn url_host(url: Seq<char>) -> Option<Seq<char>>;

/// The name and value pairs of the query of the URL `url`, decoded
/// (`Url::query_pairs`).
pub uninterp spec fn url_query_pairs(url: Seq<char>) -> Seq<(Seq<char>, Seq<char>)>;

/// The URL `url` with its query written afresh from `pairs`
/// (`Url::query_pairs_mut`, cleared and each pair appended).
pub uninterp spec fn url_with_query(url: Seq<char>, pairs: Seq<(Seq<char>, Seq<char>)>) -> Seq<char>;

/// The characters of pairs of strings.
pub open spec fn pairs_view(pairs: Seq<(String, String)>) -> Seq<(Seq<char>, Seq<char>)> {
    pairs.map_values(|pair: (String, String)| (pair.0@, pair.1@))
}

impl Address {
    /// `Url::parse`: `input` as a URL, or none where it is not one.
    #[verifier::external_body]
    pub(crate) fn parse(input: &str) -> (parsed: Option<Address>)
        ensures
            match url_parsed(input@) {
                Some(text) => parsed matches Some(a) && a@ == text,
                None => parsed is None,
            },
    {
        url::Url::parse(input).ok().map(|url| Address { text: url.as_str().to_owned(), url })
    }

    /// `Url::join`: `input` as a URL relative to this one, or none where it
    /// is not one.
    #[verifier::external_body]
    pub(crate) fn join(&self, input: &str) -> (joined: Option<Address>)
        ensures
            match url_joined(self@, input@) {
                Some(text) => joined matches Some(a) && a@ == text,
                None => joined is None,
            },
    {
        self.url.join(input).ok().map(|url| Address { text: url.as_str().to_owned(), url })
    }

    /// `Url::origin`: the URL's origin, its host as text.
    #[verifier::external_body]
    pub(crate) fn origin(&self) -> (origin: Origin)
        ensures
            origin@ == url_origin(self@),
    {
        match self.url.origin() {
            url::Origin::Tuple(scheme, host, port) => Origin::Tuple(scheme, host.to_string(), port),
            url::Origin::Opaque(_) => Origin::Opaque,
        }
    }

    /// `Origin::ascii_serialization` of the URL's origin.
    #[verifier::external_body]
    pub(crate) fn origin_text(&self) -> (text: String)
        ensures
            text@ == url_origin_text(self@),
    {
        self.url.origin().ascii_serialization()
    }

    /// `Url::scheme`.
    #[verifier::external_body]
    pub(crate) fn scheme(&self) -> (scheme: &str)
        ensures
            scheme@ == url_scheme(self@),
    {
        self.url.scheme()
    }

    /// `Url::host_str`.
    #[verifier::external_body]
    pub(crate) fn host_str(&self) -> (host: Option<&str>)
        ensures
            match url_host(self@) {
                Some(text) => host matches Some(h) && h@ == text,
                None => host is None,
            },
    {
        self.url.host_str()
    }

    /// `Url::query_pairs`: the query's name and value pairs, decoded.
    #[verifier::external_body]
    pub(crate) fn query_pairs(&self) -> (pairs: Vec<(String, String)>)
        ensures
            pairs_view(pairs@) == url_query_pairs(self@),
    {
        self.url.query_pairs().into_owned().collect()
    }

    /// `Url::query_pairs_mut`: the URL with its query written afresh from
    /// `pairs`, each appended in turn.
    #[verifier::external_body]
    pub(crate) fn with_query_pairs(&self, pairs: &[(String, String)]) -> (changed: Address)
        ensures
            changed@ == url_with_query(self@, pairs_view(pairs@)),
    {
        let mut url = self.url.clone();
        url.query_pairs_mut().clear().extend_pairs(pairs);
        Address { text: url.as_str().to_owned(), url }
    }

    /// `Url::clone`: the same URL again.
    #[verifier::external_body]
    pub(crate) fn duplicate(&self) -> (copy: Address)
        ensures
            copy@ == self@,
    {
        Address { text: self.text.clone(), url: self.url.clone() }
    }

    /// The address `text` writes, if it is one: `text` parsed as a URL.
    pub fn from_text(text: &str) -> (address: Option<Address>)
        ensures
            match url_parsed(text@) {
                Some(parsed) => address matches Some(a) && a@ == parsed,
                None => address is None,
            },
    {
        Address::parse(text)
    }

    /// The URL's serialization.
    pub fn as_str(&self) -> (text: &str)
        ensures
            text@ == self@,
    {
        self.text.as_str()
    }
}

impl Clone for Address {
    fn clone(&self) -> (copy: Address)
        ensures
            copy@ == self@,
    {
        self.duplicate()
    }
}

/// Whether two origins are the same: the same scheme, host and port. An
/// opaque origin is the same as no other.
pub open spec fn same_origin(a: OriginView, b: OriginView) -> bool {
    match (a, b) {
        (OriginView::Tuple(s1, h1, p1), OriginView::Tuple(s2, h2, p2)) => s1 == s2 && h1 == h2
            && p1 == p2,
        _ => false,
    }
}

/// Whether two origins are the same.
pub fn origins_match(a: &Origin, b: &Origin) -> (same: bool)
    ensures
        same == same_origin(a@, b@),
{
    match (a, b) {
        (Origin::Tuple(s1, h1, p1), Origin::Tuple(s2, h2, p2)) => *s1 == *s2 && *h1 == *h2 && *p1
            == *p2,
        _ => false,
    }
}

/// The upper-case hex digit for `n`.
pub open spec fn upper_hex(n: int) -> char {
    if n < 10 {
        ((48 + n) as u32) as char
    } else {
        ((55 + n) as u32) as char
    }
}

/// How `application/x-www-form-urlencoded` writes a byte: letters, digits
/// and `*-._` as they are, a space as `+`, and any other byte as `%` and
/// its hex.
pub open spec fn form_byte(b: u8) -> Seq<char> {
    if b == 0x2a || b == 0x2d || b == 0x2e || (0x30 <= b <= 0x39) || (0x41 <= b <= 0x5a) || b
        == 0x5f || (0x61 <= b <= 0x7a) {
        seq![b as char]
    } else if b == 0x20 {
        seq!['+']
    } else {
        seq!['%', upper_hex((b / 16) as int), upper_hex((b % 16) as int)]
    }
}

/// The bytes `bytes`, each as `application/x-www-form-urlencoded` writes it.
pub open spec fn form_bytes(bytes: Seq<u8>) -> Seq<char>
    decreases bytes.len(),
{
    if bytes.len() == 0 {
        Seq::empty()
    } else {
        form_byte(bytes[0]) + form_bytes(bytes.drop_first())
    }
}

/// `text` as `application/x-www-form-urlencoded` writes it: its UTF-8 bytes,
/// each written as `form_byte` says.
pub open spec fn form_encoded(text: Seq<char>) -> Seq<char> {
    form_bytes(vstd::utf8::encode_utf8(text))
}

/// `form_urlencoded::byte_serialize` of a string's UTF-8 bytes, collected.
#[verifier::external_body]
pub(crate) fn byte_serialize(text: &str) -> (encoded: String)
    ensures
        encoded@ == form_encoded(text@),
{
    url::form_urlencoded::byte_serialize(text.as_bytes()).collect()
}

} // verus!
