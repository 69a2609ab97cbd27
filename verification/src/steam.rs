//! Steam, when Steam started the app.
//!
//! What the player is doing, for their friends list: the site says it in
//! each `page` message it sends the app, and the app hands it to Steam as
//! rich presence, in the words of `steam/rich_presence.vdf`. And who the
//! player is: a Web API ticket the site takes to Steam to find out, which
//! the page asks the app for and the app hands back, hex-encoded, in a
//! script: as long as Steam says it is, and a ticket with nothing in it is
//! no ticket. The app knows no route of the site's, so the site can change
//! any of them without a release of the app. A DLC the page sells is named
//! by its Steam app id, and its page is shown in Steam's overlay.

use vstd::prelude::*;

use crate::badge::{all_digits, decimal, decimal_grows, is_digit};
use crate::bridge::Page;
use crate::json::{hex_digit, json_string_or_null};
use crate::store::quoted_or_null;
use crate::text::{chars_of, spells, push_char};

verus! {

/// Names the service the ticket is for; the site accepts no other.
pub const STEAM_TICKET_IDENTITY: &'static str = "oeee-cafe";

/// Tells the page a DLC was installed. The page asks for a ticket and takes
/// it to the site itself; it signs nobody in and moves no page, so it can
/// happen mid-drawing.
pub const DLC_INSTALLED: &'static str =
    "window.oeeeApp && window.oeeeApp.steam && window.oeeeApp.steam.dlcInstalled();";

/// The most bytes Steam takes in a rich presence value.
pub const MOST_BYTES: usize = 256;

/// How many bytes UTF-8 takes for a character.
pub open spec fn utf8_width(c: char) -> int {
    let n = c as u32;
    if n < 0x80 {
        1
    } else if n < 0x800 {
        2
    } else if n < 0x10000 {
        3
    } else {
        4
    }
}

/// `s` without its NULs, which Steam cannot carry.
pub open spec fn without_nul(s: Seq<char>) -> Seq<char>
    decreases s.len(),
{
    if s.len() == 0 {
        Seq::empty()
    } else {
        (if s[0] == '\0' {
            Seq::empty()
        } else {
            seq![s[0]]
        }) + without_nul(s.drop_first())
    }
}

/// The longest start of `s` that fits in `room` bytes of UTF-8.
pub open spec fn fitting(s: Seq<char>, room: int) -> Seq<char>
    decreases s.len(),
{
    if s.len() == 0 || utf8_width(s[0]) > room {
        Seq::empty()
    } else {
        seq![s[0]] + fitting(s.drop_first(), room - utf8_width(s[0]))
    }
}

/// A value as Steam takes one: no NUL, and at most 256 bytes, cut where a
/// character ends.
pub open spec fn presence_text(value: Seq<char>) -> Seq<char> {
    fitting(without_nul(value), MOST_BYTES as int)
}

proof fn without_nul_push(s: Seq<char>, c: char)
    ensures
        without_nul(s.push(c)) == without_nul(s) + (if c == '\0' {
            Seq::empty()
        } else {
            seq![c]
        }),
    decreases s.len(),
{
    if s.len() == 0 {
        assert(s.push(c).drop_first() =~= Seq::<char>::empty());
        assert(without_nul(Seq::<char>::empty()) == Seq::<char>::empty());
        assert(without_nul(s.push(c)) =~= (if c == '\0' {
            Seq::<char>::empty()
        } else {
            seq![c]
        }) + Seq::<char>::empty());
    } else {
        assert(s.push(c).drop_first() =~= s.drop_first().push(c));
        without_nul_push(s.drop_first(), c);
        let head: Seq<char> = if s[0] == '\0' {
            Seq::empty()
        } else {
            seq![s[0]]
        };
        assert(without_nul(s.push(c)) =~= head + without_nul(s.drop_first().push(c)));
    }
}

/// A value as Steam takes one: no NUL, which it cannot carry, and at most
/// 256 bytes, cut where a character ends.
pub fn presence_value(value: &str) -> (kept: String)
    ensures
        kept@ == presence_text(value@),
{
    let v = chars_of(value);
    let mut clean: Vec<char> = Vec::new();
    let mut i: usize = 0;
    while i < v.len()
        invariant
            v@ == value@,
            i <= v@.len(),
            clean@ == without_nul(v@.take(i as int)),
        decreases v@.len() - i,
    {
        proof {
            assert(v@.take(i + 1) =~= v@.take(i as int).push(v@[i as int]));
            without_nul_push(v@.take(i as int), v@[i as int]);
        }
        if v[i] != '\0' {
            clean.push(v[i]);
        }
        i = i + 1;
    }
    proof {
        assert(v@.take(v@.len() as int) =~= v@);
    }
    let ghost all = clean@;
    let mut kept = String::new();
    let mut room: usize = MOST_BYTES;
    let mut j: usize = 0;
    assert(all.skip(0) =~= all);
    while j < clean.len()
        invariant
            clean@ == all,
            all == without_nul(value@),
            j <= all.len(),
            room <= MOST_BYTES,
            fitting(all, MOST_BYTES as int) == kept@ + fitting(all.skip(j as int), room as int),
        decreases all.len() - j,
    {
        let c = clean[j];
        let n = c as u32;
        let width: usize = if n < 0x80 {
            1
        } else if n < 0x800 {
            2
        } else if n < 0x10000 {
            3
        } else {
            4
        };
        proof {
            assert(all.skip(j as int)[0] == c);
            assert(width == utf8_width(c));
        }
        if width > room {
            proof {
                assert(fitting(all.skip(j as int), room as int) == Seq::<char>::empty());
                assert(kept@ + Seq::<char>::empty() =~= kept@);
            }
            return kept;
        }
        proof {
            assert(all.skip(j as int).drop_first() =~= all.skip(j + 1));
            assert(fitting(all.skip(j as int), room as int) == seq![c] + fitting(
                all.skip(j + 1),
                room - width,
            ));
            assert(kept@.push(c) + fitting(all.skip(j + 1), room - width) =~= kept@ + (seq![c]
                + fitting(all.skip(j + 1), room - width)));
        }
        push_char(&mut kept, c);
        room = room - width;
        j = j + 1;
    }
    proof {
        assert(all.skip(j as int).len() == 0);
        assert(kept@ + Seq::<char>::empty() =~= kept@);
    }
    kept
}

/// The characters of an optional string.
pub open spec fn text_of(value: Option<String>) -> Option<Seq<char>> {
    match value {
        Some(s) => Some(s@),
        None => None,
    }
}

/// A value as Steam takes one, and none if nothing is left of it.
pub open spec fn presence_or_none(value: Option<String>) -> Option<Seq<char>> {
    match value {
        Some(s) => if presence_text(s@).len() > 0 {
            Some(presence_text(s@))
        } else {
            None
        },
        None => None,
    }
}

/// What a page says the player is doing, as a token of
/// `steam/rich_presence.vdf` and whether the token has a community to say.
pub open spec fn token_for(activity: Seq<char>) -> (Seq<char>, bool) {
    if activity == "drawing"@ {
        ("Drawing"@, true)
    } else if activity == "relaying"@ {
        ("Relaying"@, true)
    } else if activity == "collaborating"@ {
        ("Collaborating"@, true)
    } else if activity == "drawing-banner"@ {
        ("DrawingBanner"@, false)
    } else if activity == "watching-replay"@ {
        ("WatchingReplay"@, false)
    } else {
        ("Browsing"@, false)
    }
}

/// What the player is doing, as the page says it, or nothing.
pub open spec fn activity_of(page: Option<Page>) -> Seq<char> {
    match page {
        Some(page) => match page.presence {
            Some(presence) => presence@,
            None => ""@,
        },
        None => ""@,
    }
}

/// The community a page says to show, if its activity has one to say.
pub open spec fn community_shown(page: Option<Page>) -> Option<Seq<char>> {
    match page {
        Some(page) => if token_for(activity_of(Some(page))).1 {
            presence_or_none(page.community)
        } else {
            None
        },
        None => None,
    }
}

/// The group a page says to show friends in: only drawing together.
pub open spec fn group_shown(page: Option<Page>) -> Option<Seq<char>> {
    match page {
        Some(page) => if activity_of(Some(page)) == "collaborating"@ {
            presence_or_none(page.group)
        } else {
            None
        },
        None => None,
    }
}

/// The token `steam_display` is set to.
pub open spec fn display_shown(page: Option<Page>) -> Seq<char> {
    let token = token_for(activity_of(page)).0;
    if community_shown(page) is Some {
        "#"@ + token + "In"@
    } else {
        "#"@ + token
    }
}

/// The rich presence keys for what a page says, every key given a value or
/// cleared so nothing from the page before is left behind. `steam_display` is
/// a token of `steam/rich_presence.vdf`; `community` fills its `%community%`.
pub fn rich_presence(page: Option<&Page>) -> (keys: [(&'static str, Option<String>); 3])
    ensures
        keys@[0].0@ == "steam_display"@,
        text_of(keys@[0].1) == Some(display_shown(
            match page {
                Some(p) => Some(*p),
                None => None,
            },
        )),
        keys@[1].0@ == "community"@,
        text_of(keys@[1].1) == community_shown(
            match page {
                Some(p) => Some(*p),
                None => None,
            },
        ),
        keys@[2].0@ == "steam_player_group"@,
        text_of(keys@[2].1) == group_shown(
            match page {
                Some(p) => Some(*p),
                None => None,
            },
        ),
{
    let ghost said = match page {
        Some(p) => Some(*p),
        None => None,
    };
    let activity: &str = match page {
        Some(p) => match &p.presence {
            Some(presence) => presence.as_str(),
            None => "",
        },
        None => "",
    };
    assert(activity@ == activity_of(said));
    let a = chars_of(activity);
    let a = a.as_slice();
    let (token, in_community): (&str, bool) = if spells(a, "drawing") {
        ("Drawing", true)
    } else if spells(a, "relaying") {
        ("Relaying", true)
    } else if spells(a, "collaborating") {
        ("Collaborating", true)
    } else if spells(a, "drawing-banner") {
        ("DrawingBanner", false)
    } else if spells(a, "watching-replay") {
        ("WatchingReplay", false)
    } else {
        ("Browsing", false)
    };
    let collaborating = spells(a, "collaborating");
    let community: Option<String> = match page {
        Some(p) => if in_community {
            match &p.community {
                Some(c) => {
                    let value = presence_value(c.as_str());
                    if value.as_str().is_empty() {
                        None
                    } else {
                        Some(value)
                    }
                },
                None => None,
            }
        } else {
            None
        },
        None => None,
    };
    let group: Option<String> = match page {
        Some(p) => if collaborating {
            match &p.group {
                Some(g) => {
                    let value = presence_value(g.as_str());
                    if value.as_str().is_empty() {
                        None
                    } else {
                        Some(value)
                    }
                },
                None => None,
            }
        } else {
            None
        },
        None => None,
    };
    let mut display = String::from_str("#");
    display.append(token);
    if community.is_some() {
        display.append("In");
    }
    [("steam_display", Some(display)), ("community", community), ("steam_player_group", group)]
}

/// How many bytes UTF-8 takes for `s`.
pub open spec fn utf8_len(s: Seq<char>) -> int
    decreases s.len(),
{
    if s.len() == 0 {
        0
    } else {
        utf8_width(s[0]) + utf8_len(s.drop_first())
    }
}

proof fn fitting_fits(s: Seq<char>, room: int)
    requires
        room >= 0,
    ensures
        utf8_len(fitting(s, room)) <= room,
        fitting(s, room).len() <= s.len(),
        forall|i: int| 0 <= i < fitting(s, room).len() ==> #[trigger] fitting(s, room)[i] == s[i],
    decreases s.len(),
{
    if s.len() > 0 && utf8_width(s[0]) <= room {
        let rest = fitting(s.drop_first(), room - utf8_width(s[0]));
        fitting_fits(s.drop_first(), room - utf8_width(s[0]));
        assert((seq![s[0]] + rest).drop_first() =~= rest);
        assert forall|i: int| 0 <= i < fitting(s, room).len() implies #[trigger] fitting(s, room)[i]
            == s[i] by {
            if i > 0 {
                assert(fitting(s, room)[i] == rest[i - 1]);
            }
        }
    }
}

proof fn without_nul_has_none(s: Seq<char>)
    ensures
        forall|i: int| 0 <= i < without_nul(s).len() ==> #[trigger] without_nul(s)[i] != '\0',
        without_nul(s).len() <= s.len(),
    decreases s.len(),
{
    if s.len() > 0 {
        without_nul_has_none(s.drop_first());
        let head: Seq<char> = if s[0] == '\0' {
            Seq::empty()
        } else {
            seq![s[0]]
        };
        let rest = without_nul(s.drop_first());
        assert forall|i: int| 0 <= i < without_nul(s).len() implies #[trigger] without_nul(s)[i]
            != '\0' by {
            if i < head.len() {
                assert(without_nul(s)[i] == head[i]);
            } else {
                assert(without_nul(s)[i] == rest[i - head.len()]);
            }
        }
    }
}

/// A value is what Steam takes: at most 256 bytes of UTF-8, and no NUL.
pub proof fn a_value_is_what_steam_takes(value: Seq<char>)
    ensures
        utf8_len(presence_text(value)) <= MOST_BYTES,
        !presence_text(value).contains('\0'),
{
    let clean = without_nul(value);
    fitting_fits(clean, MOST_BYTES as int);
    without_nul_has_none(value);
    if presence_text(value).contains('\0') {
        let i = choose|i: int| 0 <= i < presence_text(value).len() && presence_text(value)[i] == '\0';
        assert(presence_text(value)[i] == clean[i]);
    }
}

/// Anything the app does not know a page to be doing is browsing, and
/// clears what came before: no community and no group. A banner is not
/// drawn in a community, whatever the page says.
pub proof fn anything_else_is_browsing(page: Page)
    ensures
        !(activity_of(Some(page)) == "drawing"@ || activity_of(Some(page)) == "relaying"@
            || activity_of(Some(page)) == "collaborating"@ || activity_of(Some(page))
            == "drawing-banner"@ || activity_of(Some(page)) == "watching-replay"@) ==> {
            &&& display_shown(Some(page)) == "#Browsing"@
            &&& community_shown(Some(page)) is None
            &&& group_shown(Some(page)) is None
        },
        display_shown(None) == "#Browsing"@,
        community_shown(None) is None,
        group_shown(None) is None,
        activity_of(Some(page)) == "drawing-banner"@ ==> community_shown(Some(page)) is None,
{
    reveal_strlit("#");
    reveal_strlit("Browsing");
    reveal_strlit("#Browsing");
    reveal_strlit("drawing");
    reveal_strlit("relaying");
    reveal_strlit("collaborating");
    reveal_strlit("drawing-banner");
    reveal_strlit("");
    assert("#"@ + "Browsing"@ =~= "#Browsing"@);
    reveal_strlit("watching-replay");
    assert(""@.len() != "collaborating"@.len());
    assert(""@.len() != "drawing"@.len());
    assert(""@.len() != "relaying"@.len());
    assert(""@.len() != "drawing-banner"@.len());
    assert(""@.len() != "watching-replay"@.len());
    assert("drawing-banner"@.len() != "drawing"@.len());
    assert("drawing-banner"@.len() != "relaying"@.len());
    assert("drawing-banner"@.len() != "collaborating"@.len());
}

/// The bytes `bytes` as hex, two lower-case digits each.
pub open spec fn hex_text(bytes: Seq<u8>) -> Seq<char>
    decreases bytes.len(),
{
    if bytes.len() == 0 {
        Seq::empty()
    } else {
        seq![hex_digit((bytes[0] / 16) as int), hex_digit((bytes[0] % 16) as int)] + hex_text(
            bytes.drop_first(),
        )
    }
}

proof fn hex_text_push(bytes: Seq<u8>, b: u8)
    ensures
        hex_text(bytes.push(b)) == hex_text(bytes) + seq![
            hex_digit((b / 16) as int),
            hex_digit((b % 16) as int),
        ],
    decreases bytes.len(),
{
    if bytes.len() == 0 {
        assert(bytes.push(b).drop_first() =~= Seq::<u8>::empty());
        assert(hex_text(Seq::<u8>::empty()) == Seq::<char>::empty());
        assert(hex_text(bytes.push(b)) =~= seq![
            hex_digit((b / 16) as int),
            hex_digit((b % 16) as int),
        ] + Seq::<char>::empty());
    } else {
        assert(bytes.push(b).drop_first() =~= bytes.drop_first().push(b));
        hex_text_push(bytes.drop_first(), b);
        assert(hex_text(bytes.push(b)) =~= seq![
            hex_digit((bytes[0] / 16) as int),
            hex_digit((bytes[0] % 16) as int),
        ] + hex_text(bytes.drop_first().push(b)));
    }
}

fn hex_char(n: u8) -> (c: char)
    requires
        n < 16,
    ensures
        c == hex_digit(n as int),
{
    if n < 10 {
        (48 + n) as char
    } else {
        (87 + n) as char
    }
}

/// The bytes as hex, as the site reads a ticket: two lower-case digits each.
pub fn hex(bytes: &[u8]) -> (text: String)
    ensures
        text@ == hex_text(bytes@),
{
    let mut text = String::new();
    let mut i: usize = 0;
    while i < bytes.len()
        invariant
            i <= bytes@.len(),
            text@ == hex_text(bytes@.take(i as int)),
        decreases bytes@.len() - i,
    {
        let b = bytes[i];
        push_char(&mut text, hex_char(b / 16));
        push_char(&mut text, hex_char(b % 16));
        proof {
            assert(bytes@.take(i + 1) =~= bytes@.take(i as int).push(b));
            hex_text_push(bytes@.take(i as int), b);
        }
        i = i + 1;
    }
    proof {
        assert(bytes@.take(bytes@.len() as int) =~= bytes@);
    }
    text
}

/// The call that answers the page's ticket, before its argument.
pub const TICKET_CALL: &'static str =
    "window.oeeeApp && window.oeeeApp.steam && window.oeeeApp.steam.ticket(";

/// Answers the page's `steamTicket` with a ticket, or with null when Steam
/// would not give one. Guarded, as every call into the page is: a page that
/// has gone since it asked -- or the loader, which never asks -- has no
/// `oeeeApp.steam` to answer.
pub fn ticket_script(ticket: Option<&str>) -> (script: String)
    ensures
        script@ == TICKET_CALL@ + json_string_or_null(
            match ticket {
                Some(t) => Some(t@),
                None => None,
            },
        ) + ");"@,
{
    let argument = quoted_or_null(ticket);
    let mut script = String::new();
    script.append(TICKET_CALL);
    script.append(argument.as_str());
    script.append(");");
    script
}

/// The ticket in Steam's answer: the first `len` of the bytes it handed
/// over, or none when it counts more than it handed over, or fewer than
/// none.
pub fn ticket_of(bytes: &[u8], len: i32) -> (ticket: Vec<u8>)
    ensures
        ticket@ == if 0 <= len <= bytes@.len() {
            bytes@.subrange(0, len as int)
        } else {
            Seq::<u8>::empty()
        },
{
    let mut ticket: Vec<u8> = Vec::new();
    if len < 0 || len as usize > bytes.len() {
        return ticket;
    }
    let end = len as usize;
    let mut i: usize = 0;
    while i < end
        invariant
            i <= end,
            end <= bytes@.len(),
            ticket@ == bytes@.subrange(0, i as int),
        decreases end - i,
    {
        ticket.push(bytes[i]);
        i = i + 1;
    }
    ticket
}

/// Why there is no ticket when Steam handed over one with nothing in it.
pub const EMPTY_TICKET: &'static str = "Steam gave an empty ticket";

/// The ticket for the site, hex-encoded, from what Steam answered: its
/// failure as it said it, and a ticket with nothing in it as no ticket.
pub fn web_ticket(answer: Result<Vec<u8>, String>) -> (ticket: Result<String, String>)
    ensures
        match answer {
            Ok(bytes) => if bytes@.len() == 0 {
                ticket matches Err(e) && e@ == EMPTY_TICKET@
            } else {
                ticket matches Ok(t) && t@ == hex_text(bytes@)
            },
            Err(e) => ticket == Err::<String, String>(e),
        },
{
    match answer {
        Ok(bytes) => {
            if bytes.len() == 0 {
                Err(EMPTY_TICKET.to_string())
            } else {
                Ok(hex(bytes.as_slice()))
            }
        },
        Err(e) => Err(e),
    }
}

/// The number `s` writes as a `u32` reads one: a `+` if any, then one digit
/// or more, and within the type's range; none for anything else.
pub open spec fn parsed_u32(s: Seq<char>) -> Option<int> {
    let digits = if s.len() > 0 && s[0] == '+' {
        s.drop_first()
    } else {
        s
    };
    if digits.len() == 0 || !all_digits(digits) || decimal(digits) > u32::MAX {
        None
    } else {
        Some(decimal(digits))
    }
}

/// The Steam app id of the DLC a page asks to sell: in the Steam build a
/// product is named by its app id, and anything else names none.
pub fn app_id(product: &str) -> (id: Option<u32>)
    ensures
        match parsed_u32(product@) {
            Some(n) => id == Some(n as u32),
            None => id is None,
        },
{
    let v = chars_of(product);
    let n = v.len();
    let start: usize = if n > 0 && v[0] == '+' {
        1
    } else {
        0
    };
    let ghost digits = v@.subrange(start as int, n as int);
    assert(digits == if v@.len() > 0 && v@[0] == '+' {
        v@.drop_first()
    } else {
        v@
    });
    let mut value: u64 = 0;
    let mut i = start;
    while i < n
        invariant
            start <= i <= n,
            n == v@.len(),
            v@ == product@,
            digits == v@.subrange(start as int, n as int),
            digits == if v@.len() > 0 && v@[0] == '+' {
                v@.drop_first()
            } else {
                v@
            },
            all_digits(digits.take(i - start)),
            value == decimal(digits.take(i - start)),
            value <= u32::MAX,
        decreases n - i,
    {
        let c = v[i];
        if c < '0' || c > '9' {
            proof {
                assert(digits[i - start] == c);
                assert(!all_digits(digits));
            }
            return None;
        }
        let ghost before = digits.take(i - start);
        let ghost after = digits.take(i - start + 1);
        proof {
            assert(after.drop_last() =~= before);
            assert(after.last() == c);
            assert(all_digits(after)) by {
                assert forall|k: int| 0 <= k < after.len() implies is_digit(#[trigger] after[k]) by {
                    if k < before.len() {
                        assert(after[k] == before[k]);
                    }
                }
            }
        }
        let d = (c as u32 - 48) as u64;
        let next = value * 10 + d;
        if next > 0xffff_ffff {
            // Past the largest `u32`, which no more digits bring back.
            proof {
                assert(decimal(after) == next);
                if all_digits(digits) {
                    decimal_grows(digits, i - start + 1);
                }
            }
            return None;
        }
        value = next;
        i = i + 1;
    }
    proof {
        assert(digits.take(n - start) =~= digits);
    }
    if i == start {
        return None;
    }
    Some(value as u32)
}

/// What Steam shows for each thing a page says the player is doing: drawing,
/// relaying and drawing together name the community they are in, where the
/// page says one that Steam can take, and say "In" it; drawing together
/// also groups the player with the others in the room; drawing a banner and
/// watching a replay name no community and no group.
pub proof fn each_activity_is_shown_as_itself(page: Page)
    ensures
        activity_of(Some(page)) == "drawing"@ ==> community_shown(Some(page)) == presence_or_none(
            page.community,
        ),
        activity_of(Some(page)) == "drawing"@ ==> display_shown(Some(page)) == if presence_or_none(
            page.community,
        ) is Some {
            "#DrawingIn"@
        } else {
            "#Drawing"@
        },
        activity_of(Some(page)) == "relaying"@ ==> community_shown(Some(page)) == presence_or_none(
            page.community,
        ),
        activity_of(Some(page)) == "relaying"@ ==> display_shown(Some(page)) == if presence_or_none(
            page.community,
        ) is Some {
            "#RelayingIn"@
        } else {
            "#Relaying"@
        },
        activity_of(Some(page)) == "collaborating"@ ==> community_shown(Some(page)) == presence_or_none(
            page.community,
        ),
        activity_of(Some(page)) == "collaborating"@ ==> display_shown(Some(page)) == if presence_or_none(
            page.community,
        ) is Some {
            "#CollaboratingIn"@
        } else {
            "#Collaborating"@
        },
        activity_of(Some(page)) == "collaborating"@ ==> group_shown(Some(page)) == presence_or_none(
            page.group,
        ),
        activity_of(Some(page)) == "drawing"@ || activity_of(Some(page)) == "relaying"@ ==> group_shown(
            Some(page),
        ) is None,
        activity_of(Some(page)) == "drawing-banner"@ ==> community_shown(Some(page)) is None
            && display_shown(Some(page)) == "#DrawingBanner"@ && group_shown(Some(page)) is None,
        activity_of(Some(page)) == "watching-replay"@ ==> community_shown(Some(page)) is None
            && display_shown(Some(page)) == "#WatchingReplay"@ && group_shown(Some(page)) is None,
{
    reveal_strlit("#");
    reveal_strlit("In");
    reveal_strlit("drawing");
    reveal_strlit("relaying");
    reveal_strlit("collaborating");
    reveal_strlit("drawing-banner");
    reveal_strlit("watching-replay");
    reveal_strlit("Drawing");
    reveal_strlit("Relaying");
    reveal_strlit("Collaborating");
    reveal_strlit("DrawingBanner");
    reveal_strlit("WatchingReplay");
    reveal_strlit("#Drawing");
    reveal_strlit("#DrawingIn");
    reveal_strlit("#Relaying");
    reveal_strlit("#RelayingIn");
    reveal_strlit("#Collaborating");
    reveal_strlit("#CollaboratingIn");
    reveal_strlit("#DrawingBanner");
    reveal_strlit("#WatchingReplay");
    assert("#"@ + "Drawing"@ =~= "#Drawing"@);
    assert("#"@ + "Drawing"@ + "In"@ =~= "#DrawingIn"@);
    assert("#"@ + "Relaying"@ =~= "#Relaying"@);
    assert("#"@ + "Relaying"@ + "In"@ =~= "#RelayingIn"@);
    assert("#"@ + "Collaborating"@ =~= "#Collaborating"@);
    assert("#"@ + "Collaborating"@ + "In"@ =~= "#CollaboratingIn"@);
    assert("#"@ + "DrawingBanner"@ =~= "#DrawingBanner"@);
    assert("#"@ + "WatchingReplay"@ =~= "#WatchingReplay"@);
    assert("drawing"@ != "relaying"@) by { assert("drawing"@.len() != "relaying"@.len()); }
    assert("drawing"@ != "collaborating"@) by { assert("drawing"@.len() != "collaborating"@.len()); }
    assert("drawing"@ != "drawing-banner"@) by { assert("drawing"@.len() != "drawing-banner"@.len()); }
    assert("drawing"@ != "watching-replay"@) by { assert("drawing"@.len() != "watching-replay"@.len()); }
    assert("relaying"@ != "collaborating"@) by { assert("relaying"@.len() != "collaborating"@.len()); }
    assert("relaying"@ != "drawing-banner"@) by { assert("relaying"@.len() != "drawing-banner"@.len()); }
    assert("relaying"@ != "watching-replay"@) by { assert("relaying"@.len() != "watching-replay"@.len()); }
    assert("collaborating"@ != "drawing-banner"@) by { assert("collaborating"@.len() != "drawing-banner"@.len()); }
    assert("collaborating"@ != "watching-replay"@) by { assert("collaborating"@.len() != "watching-replay"@.len()); }
    assert("drawing-banner"@ != "watching-replay"@) by { assert("drawing-banner"@.len() != "watching-replay"@.len()); }
    let p = Some(page);
    let a = activity_of(p);
    if a == "drawing"@ {
        assert(token_for(a) == ("Drawing"@, true));
    } else if a == "relaying"@ {
        assert(a != "drawing"@);
        assert(token_for(a) == ("Relaying"@, true));
        assert(display_shown(p) == if community_shown(p) is Some {
            "#"@ + "Relaying"@ + "In"@
        } else {
            "#"@ + "Relaying"@
        });
        assert(community_shown(p) == presence_or_none(page.community));
        assert("#"@ + "Relaying"@ + "In"@ == "#RelayingIn"@);
        assert("#"@ + "Relaying"@ == "#Relaying"@);
    } else if a == "collaborating"@ {
        assert(a != "drawing"@ && a != "relaying"@);
        assert(token_for(a) == ("Collaborating"@, true));
        assert(display_shown(p) == if community_shown(p) is Some {
            "#"@ + "Collaborating"@ + "In"@
        } else {
            "#"@ + "Collaborating"@
        });
        assert(community_shown(p) == presence_or_none(page.community));
        assert("#"@ + "Collaborating"@ + "In"@ == "#CollaboratingIn"@);
        assert("#"@ + "Collaborating"@ == "#Collaborating"@);
    } else if a == "drawing-banner"@ {
        assert(a != "drawing"@ && a != "relaying"@ && a != "collaborating"@);
        assert(token_for(a) == ("DrawingBanner"@, false));
    } else if a == "watching-replay"@ {
        assert(a != "drawing"@ && a != "relaying"@ && a != "collaborating"@ && a
            != "drawing-banner"@);
        assert(token_for(a) == ("WatchingReplay"@, false));
    }
}

} // verus!
