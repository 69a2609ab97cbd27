//! A new notification as Windows's own: the `notify` message.
//!
//! Windows is sent no push for a notification, so the site hands the app the
//! same words over the bridge whenever it hears one live, and the app shows
//! them as a toast. Pressed, it brings the window forward and goes to the
//! notification's page the way a link in the page would -- which is only
//! ever a page of the site.

use vstd::prelude::*;

use crate::address::{url_joined, url_origin, same_origin, Address};
use crate::site::is_site;
use crate::text::{begins, chars_of, push_char, starts_with};

verus! {

/// The id the Steam build's toasts are shown under: the app's identifier.
pub const APP_ID: &'static str = "cafe.oeee";

/// Whether a notification's path may be followed at all: a path on the
/// site, not an address of another -- not `//host`, and no backslash, which
/// a browser reads as a slash.
pub open spec fn is_site_path(path: Seq<char>) -> bool {
    begins(path, "/"@) && !begins(path, "//"@) && !path.contains('\\')
}

pub fn site_path(path: &str) -> (ok: bool)
    ensures
        ok == is_site_path(path@),
{
    let v = chars_of(path);
    if !starts_with(v.as_slice(), "/") || starts_with(v.as_slice(), "//") {
        return false;
    }
    let mut i: usize = 0;
    while i < v.len()
        invariant
            v@ == path@,
            i <= v@.len(),
            forall|k: int| 0 <= k < i ==> v@[k] != '\\',
        decreases v@.len() - i,
    {
        if v[i] == '\\' {
            proof {
                assert(path@.contains('\\')) by {
                    assert(path@[i as int] == '\\');
                }
            }
            return false;
        }
        i = i + 1;
    }
    true
}

/// Where a notification may take the window: a path on the site, and
/// nowhere else, whatever the message says.
pub open spec fn destination_of(site: Seq<char>, path: Seq<char>) -> Option<Seq<char>> {
    if !is_site_path(path) {
        None
    } else {
        match url_joined(site, path) {
            Some(url) => if same_origin(url_origin(url), url_origin(site)) {
                Some(url)
            } else {
                None
            },
            None => None,
        }
    }
}

/// Where a notification may take the window: a path on the site, and
/// nowhere else, whatever the message says.
pub fn destination(site: &Address, path: &str) -> (url: Option<Address>)
    ensures
        match destination_of(site@, path@) {
            Some(text) => url matches Some(u) && u@ == text,
            None => url is None,
        },
{
    if !site_path(path) {
        return None;
    }
    let url = site.join(path)?;
    if is_site(&url, site) {
        Some(url)
    } else {
        None
    }
}

/// A notification goes only to a page of the site.
pub proof fn a_notification_goes_only_to_a_page_of_the_site(site: Seq<char>, path: Seq<char>)
    ensures
        destination_of(site, path) matches Some(url) ==> same_origin(
            url_origin(url),
            url_origin(site),
        ),
        destination_of(site, path) is Some ==> is_site_path(path),
{
}

/// How XML writes a character in text: the five it gives a meaning to as
/// entities, and any other as itself.
pub open spec fn xml_escape(c: char) -> Seq<char> {
    if c == '&' {
        "&amp;"@
    } else if c == '<' {
        "&lt;"@
    } else if c == '>' {
        "&gt;"@
    } else if c == '"' {
        "&quot;"@
    } else if c == '\'' {
        "&apos;"@
    } else {
        seq![c]
    }
}

/// `text` as XML text.
pub open spec fn xml_escaped(text: Seq<char>) -> Seq<char>
    decreases text.len(),
{
    if text.len() == 0 {
        Seq::empty()
    } else {
        xml_escape(text[0]) + xml_escaped(text.drop_first())
    }
}

proof fn xml_escaped_push(text: Seq<char>, c: char)
    ensures
        xml_escaped(text.push(c)) == xml_escaped(text) + xml_escape(c),
    decreases text.len(),
{
    if text.len() == 0 {
        assert(text.push(c).drop_first() =~= Seq::<char>::empty());
        assert(xml_escaped(Seq::<char>::empty()) == Seq::<char>::empty());
        assert(xml_escaped(text.push(c)) =~= xml_escape(c) + Seq::<char>::empty());
    } else {
        assert(text.push(c).drop_first() =~= text.drop_first().push(c));
        xml_escaped_push(text.drop_first(), c);
        assert(xml_escaped(text.push(c)) =~= xml_escape(text[0]) + xml_escaped(
            text.drop_first().push(c),
        ));
    }
}

/// `text`, its characters escaped as XML text.
pub fn escape(text: &str) -> (escaped: String)
    ensures
        escaped@ == xml_escaped(text@),
{
    let v = chars_of(text);
    let mut escaped = String::new();
    let mut i: usize = 0;
    while i < v.len()
        invariant
            v@ == text@,
            i <= v@.len(),
            escaped@ == xml_escaped(v@.take(i as int)),
        decreases v@.len() - i,
    {
        let c = v[i];
        if c == '&' {
            escaped.append("&amp;");
        } else if c == '<' {
            escaped.append("&lt;");
        } else if c == '>' {
            escaped.append("&gt;");
        } else if c == '"' {
            escaped.append("&quot;");
        } else if c == '\'' {
            escaped.append("&apos;");
        } else {
            push_char(&mut escaped, c);
        }
        proof {
            assert(v@.take(i + 1) =~= v@.take(i as int).push(c));
            xml_escaped_push(v@.take(i as int), c);
        }
        i = i + 1;
    }
    proof {
        assert(v@.take(v@.len() as int) =~= v@);
    }
    escaped
}

/// Whether a character would be markup if it stood in XML text as itself.
pub open spec fn is_markup(c: char) -> bool {
    c == '<' || c == '>' || c == '"' || c == '\''
}

/// The words are text in the toast: once escaped, nothing in them is
/// markup.
pub proof fn the_words_are_text_in_the_toast(text: Seq<char>)
    ensures
        forall|i: int| 0 <= i < xml_escaped(text).len() ==> !is_markup(#[trigger] xml_escaped(text)[i]),
    decreases text.len(),
{
    reveal_strlit("&amp;");
    reveal_strlit("&lt;");
    reveal_strlit("&gt;");
    reveal_strlit("&quot;");
    reveal_strlit("&apos;");
    if text.len() > 0 {
        the_words_are_text_in_the_toast(text.drop_first());
        let head = xml_escape(text[0]);
        let rest = xml_escaped(text.drop_first());
        assert forall|i: int| 0 <= i < xml_escaped(text).len() implies !is_markup(
            #[trigger] xml_escaped(text)[i],
        ) by {
            if i < head.len() {
                assert(xml_escaped(text)[i] == head[i]);
            } else {
                assert(xml_escaped(text)[i] == rest[i - head.len()]);
            }
        }
    }
}

/// XML text as a reader reads it: each of the five entities as the
/// character it stands for, and any other character as itself.
pub open spec fn xml_read(e: Seq<char>) -> Seq<char>
    decreases e.len(),
{
    proof {
        reveal_strlit("&amp;");
        reveal_strlit("&lt;");
        reveal_strlit("&gt;");
        reveal_strlit("&quot;");
        reveal_strlit("&apos;");
    }
    if e.len() == 0 {
        Seq::empty()
    } else if begins(e, "&amp;"@) {
        seq!['&'] + xml_read(e.skip(5))
    } else if begins(e, "&lt;"@) {
        seq!['<'] + xml_read(e.skip(4))
    } else if begins(e, "&gt;"@) {
        seq!['>'] + xml_read(e.skip(4))
    } else if begins(e, "&quot;"@) {
        seq!['"'] + xml_read(e.skip(6))
    } else if begins(e, "&apos;"@) {
        seq!['\''] + xml_read(e.skip(6))
    } else {
        seq![e[0]] + xml_read(e.drop_first())
    }
}

/// One character as XML writes it reads back as itself.
proof fn an_escaped_character_reads_back(c: char, rest: Seq<char>)
    ensures
        xml_read(xml_escape(c) + rest) == seq![c] + xml_read(rest),
{
    reveal_strlit("&amp;");
    reveal_strlit("&lt;");
    reveal_strlit("&gt;");
    reveal_strlit("&quot;");
    reveal_strlit("&apos;");
    let e = xml_escape(c) + rest;
    let n = xml_escape(c).len() as int;
    assert(e.skip(n) =~= rest);
    if c == '&' {
        assert(e.take(5) =~= "&amp;"@);
    } else if c == '<' {
        assert(e[1] == 'l');
        assert(e.take(4) =~= "&lt;"@);
        assert(!begins(e, "&amp;"@)) by {
            if begins(e, "&amp;"@) {
                assert(e.take(5)[1] == 'a');
            }
        }
    } else if c == '>' {
        assert(e[1] == 'g');
        assert(e.take(4) =~= "&gt;"@);
        assert(!begins(e, "&amp;"@)) by {
            if begins(e, "&amp;"@) {
                assert(e.take(5)[1] == 'a');
            }
        }
        assert(!begins(e, "&lt;"@)) by {
            if begins(e, "&lt;"@) {
                assert(e.take(4)[1] == 'l');
            }
        }
    } else if c == '"' {
        assert(e[1] == 'q');
        assert(e.take(6) =~= "&quot;"@);
        assert(!begins(e, "&amp;"@)) by {
            if begins(e, "&amp;"@) {
                assert(e.take(5)[1] == 'a');
            }
        }
        assert(!begins(e, "&lt;"@)) by {
            if begins(e, "&lt;"@) {
                assert(e.take(4)[1] == 'l');
            }
        }
        assert(!begins(e, "&gt;"@)) by {
            if begins(e, "&gt;"@) {
                assert(e.take(4)[1] == 'g');
            }
        }
    } else if c == '\'' {
        assert(e[1] == 'a' && e[2] == 'p');
        assert(e.take(6) =~= "&apos;"@);
        assert(!begins(e, "&amp;"@)) by {
            if begins(e, "&amp;"@) {
                assert(e.take(5)[2] == 'm');
            }
        }
        assert(!begins(e, "&lt;"@)) by {
            if begins(e, "&lt;"@) {
                assert(e.take(4)[1] == 'l');
            }
        }
        assert(!begins(e, "&gt;"@)) by {
            if begins(e, "&gt;"@) {
                assert(e.take(4)[1] == 'g');
            }
        }
        assert(!begins(e, "&quot;"@)) by {
            if begins(e, "&quot;"@) {
                assert(e.take(6)[1] == 'q');
            }
        }
    } else {
        assert(e[0] == c);
        assert(!begins(e, "&amp;"@) && !begins(e, "&lt;"@) && !begins(e, "&gt;"@) && !begins(
            e,
            "&quot;"@,
        ) && !begins(e, "&apos;"@)) by {
            if begins(e, "&amp;"@) {
                assert(e.take(5)[0] == '&');
            }
            if begins(e, "&lt;"@) {
                assert(e.take(4)[0] == '&');
            }
            if begins(e, "&gt;"@) {
                assert(e.take(4)[0] == '&');
            }
            if begins(e, "&quot;"@) {
                assert(e.take(6)[0] == '&');
            }
            if begins(e, "&apos;"@) {
                assert(e.take(6)[0] == '&');
            }
        }
        assert(e.drop_first() =~= rest);
    }
}

/// Whether `e` has one of the five entities at `i`.
pub open spec fn entity_at(e: Seq<char>, i: int) -> bool {
    ||| begins(e.skip(i), "&amp;"@)
    ||| begins(e.skip(i), "&lt;"@)
    ||| begins(e.skip(i), "&gt;"@)
    ||| begins(e.skip(i), "&quot;"@)
    ||| begins(e.skip(i), "&apos;"@)
}

/// Every `&` in the escaped words begins an entity: none stands for itself.
pub proof fn every_ampersand_begins_an_entity(text: Seq<char>)
    ensures
        forall|i: int|
            0 <= i < xml_escaped(text).len() && #[trigger] xml_escaped(text)[i] == '&' ==> entity_at(
                xml_escaped(text),
                i,
            ),
    decreases text.len(),
{
    reveal_strlit("&amp;");
    reveal_strlit("&lt;");
    reveal_strlit("&gt;");
    reveal_strlit("&quot;");
    reveal_strlit("&apos;");
    if text.len() > 0 {
        every_ampersand_begins_an_entity(text.drop_first());
        let head = xml_escape(text[0]);
        let rest = xml_escaped(text.drop_first());
        let e = xml_escaped(text);
        assert(e == head + rest);
        assert forall|i: int| 0 <= i < e.len() && #[trigger] e[i] == '&' implies entity_at(e, i) by {
            if i < head.len() {
                assert(e[i] == head[i]);
                assert(i == 0);
                let n = head.len() as int;
                assert(e.skip(0).take(n) =~= head);
            } else {
                let k = i - head.len();
                assert(e[i] == rest[k]);
                assert(entity_at(rest, k));
                assert(e.skip(i) =~= rest.skip(k));
            }
        }
    }
}

/// The words read back as they were: an XML reader of the toast reads in
/// its text exactly the words the page sent.
pub proof fn the_toast_reads_back_the_words(text: Seq<char>)
    ensures
        xml_read(xml_escaped(text)) == text,
    decreases text.len(),
{
    if text.len() == 0 {
        assert(xml_escaped(text) =~= Seq::<char>::empty());
    } else {
        the_toast_reads_back_the_words(text.drop_first());
        an_escaped_character_reads_back(text[0], xml_escaped(text.drop_first()));
        assert(seq![text[0]] + text.drop_first() =~= text);
    }
}

/// The toast's XML before its title.
pub const TOAST_START: &'static str = "<toast><visual><binding template=\"ToastGeneric\"><text>";

/// The toast's XML between its title and its body.
pub const TOAST_BETWEEN: &'static str = "</text><text>";

/// The toast's XML after its body.
pub const TOAST_END: &'static str = "</text></binding></visual></toast>";

/// The toast's XML, the words escaped.
pub fn toast_xml(title: &str, body: &str) -> (xml: String)
    ensures
        xml@ == TOAST_START@ + xml_escaped(title@) + TOAST_BETWEEN@ + xml_escaped(body@) + TOAST_END@,
{
    let mut xml = String::new();
    xml.append(TOAST_START);
    xml.append(escape(title).as_str());
    xml.append(TOAST_BETWEEN);
    xml.append(escape(body).as_str());
    xml.append(TOAST_END);
    xml
}

} // verus!
