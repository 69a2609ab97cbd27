//! JSON as the app writes values into the scripts it hands the page: a
//! string quoted and escaped so it cannot close its own quotes, and lists
//! and maps of such strings.

use vstd::prelude::*;

verus! {

/// A hex digit, lower case, as JSON writes a control character's code.
pub open spec fn hex_digit(n: int) -> char {
    if n < 10 {
        ((48 + n) as u32) as char
    } else {
        ((87 + n) as u32) as char
    }
}

/// How JSON writes one character inside a string's quotes.
pub open spec fn json_escape(c: char) -> Seq<char> {
    let n = c as u32;
    if c == '"' {
        seq!['\\', '"']
    } else if c == '\\' {
        seq!['\\', '\\']
    } else if n == 0x08 {
        seq!['\\', 'b']
    } else if n == 0x09 {
        seq!['\\', 't']
    } else if n == 0x0a {
        seq!['\\', 'n']
    } else if n == 0x0c {
        seq!['\\', 'f']
    } else if n == 0x0d {
        seq!['\\', 'r']
    } else if n < 0x20 {
        seq!['\\', 'u', '0', '0', hex_digit((n / 16) as int), hex_digit((n % 16) as int)]
    } else {
        seq![c]
    }
}

/// The characters of `s`, each as JSON writes it inside quotes.
pub open spec fn json_escaped(s: Seq<char>) -> Seq<char>
    decreases s.len(),
{
    if s.len() == 0 {
        Seq::empty()
    } else {
        json_escape(s[0]) + json_escaped(s.drop_first())
    }
}

/// `s` as a JSON string: quoted, and escaped inside the quotes.
pub open spec fn json_string(s: Seq<char>) -> Seq<char> {
    seq!['"'] + json_escaped(s) + seq!['"']
}

/// A JSON string, or `null` for none.
pub open spec fn json_string_or_null(s: Option<Seq<char>>) -> Seq<char> {
    match s {
        Some(s) => json_string(s),
        None => seq!['n', 'u', 'l', 'l'],
    }
}

/// The strings `items` as JSON strings, a comma between each two.
pub open spec fn json_strings(items: Seq<Seq<char>>) -> Seq<char>
    decreases items.len(),
{
    if items.len() == 0 {
        Seq::empty()
    } else if items.len() == 1 {
        json_string(items[0])
    } else {
        json_string(items[0]) + seq![','] + json_strings(items.drop_first())
    }
}

/// A JSON array of strings.
pub open spec fn json_list(items: Seq<Seq<char>>) -> Seq<char> {
    seq!['['] + json_strings(items) + seq![']']
}

/// Whether `a` comes before `b` as strings are ordered: by their characters'
/// codes, the first difference deciding, and a string before any longer one
/// it begins.
pub open spec fn comes_before(a: Seq<char>, b: Seq<char>) -> bool
    decreases a.len(),
{
    if a.len() == 0 {
        b.len() > 0
    } else if b.len() == 0 {
        false
    } else if a[0] != b[0] {
        (a[0] as u32) < (b[0] as u32)
    } else {
        comes_before(a.drop_first(), b.drop_first())
    }
}

/// Whether `keys` are in increasing order.
pub open spec fn in_order(keys: Seq<Seq<char>>) -> bool {
    forall|i: int, j: int| 0 <= i < j < keys.len() ==> comes_before(keys[i], keys[j])
}

/// The keys of `m`, in increasing order.
pub open spec fn ordered_keys(m: Map<Seq<char>, Seq<char>>) -> Seq<Seq<char>> {
    choose|keys: Seq<Seq<char>>| in_order(keys) && keys.to_set() == m.dom() && keys.no_duplicates()
}

/// The entries of `m` for the keys `keys`, as JSON writes an object's
/// members: `"key":"value"`, a comma between each two.
pub open spec fn json_members(m: Map<Seq<char>, Seq<char>>, keys: Seq<Seq<char>>) -> Seq<char>
    decreases keys.len(),
{
    if keys.len() == 0 {
        Seq::empty()
    } else {
        let member = json_string(keys[0]) + seq![':'] + json_string(m[keys[0]]);
        if keys.len() == 1 {
            member
        } else {
            member + seq![','] + json_members(m, keys.drop_first())
        }
    }
}

/// A map of strings to strings as a JSON object, its keys in order.
pub open spec fn json_object(m: Map<Seq<char>, Seq<char>>) -> Seq<char> {
    seq!['{'] + json_members(m, ordered_keys(m)) + seq!['}']
}

/// Where a string's body `t` ends as JavaScript reads it: at the first
/// quote no backslash escapes; none where it does not end.
pub open spec fn string_end(t: Seq<char>) -> Option<int>
    decreases t.len(),
{
    if t.len() == 0 {
        None
    } else if t[0] == '"' {
        Some(0)
    } else if t[0] == '\\' {
        if t.len() < 2 {
            None
        } else {
            match string_end(t.skip(2)) {
                Some(k) => Some(k + 2),
                None => None,
            }
        }
    } else {
        match string_end(t.drop_first()) {
            Some(k) => Some(k + 1),
            None => None,
        }
    }
}

/// A character that is neither a quote nor a backslash reads as itself.
proof fn plain_reads_through(c: char, tail: Seq<char>)
    requires
        c != '"',
        c != '\\',
    ensures
        string_end(seq![c] + tail) == match string_end(tail) {
            Some(k) => Some(k + 1),
            None => None::<int>,
        },
{
    let t = seq![c] + tail;
    assert(t[0] == c);
    assert(t.drop_first() =~= tail);
}

/// A character as JSON writes it is read through, to whatever follows it.
proof fn an_escape_reads_through(c: char, tail: Seq<char>)
    ensures
        string_end(json_escape(c) + tail) == match string_end(tail) {
            Some(k) => Some(k + json_escape(c).len()),
            None => None::<int>,
        },
{
    let e = json_escape(c);
    let t = e + tail;
    let n = c as u32;
    if e.len() == 1 {
        assert(e == seq![c]);
        plain_reads_through(c, tail);
    } else if e.len() == 2 {
        assert(t[0] == '\\');
        assert(t.skip(2) =~= tail);
    } else {
        let h1 = hex_digit((n / 16) as int);
        let h2 = hex_digit((n % 16) as int);
        assert(h1 != '"' && h1 != '\\' && h2 != '"' && h2 != '\\');
        assert(t[0] == '\\');
        plain_reads_through(h2, tail);
        plain_reads_through(h1, seq![h2] + tail);
        plain_reads_through('0', seq![h1] + (seq![h2] + tail));
        plain_reads_through('0', seq!['0'] + (seq![h1] + (seq![h2] + tail)));
        assert(t.skip(2) =~= seq!['0'] + (seq!['0'] + (seq![h1] + (seq![h2] + tail))));
    }
}

/// A string the app quotes cannot close its own quotes: read as a
/// JavaScript string, it ends at the quote the app puts after it, whatever
/// comes after that; and it holds no control character, a line break
/// among them, that would end the line it is on.
pub proof fn a_quoted_string_ends_where_the_app_ends_it(s: Seq<char>, rest: Seq<char>)
    ensures
        string_end(json_escaped(s) + seq!['"'] + rest) == Some(json_escaped(s).len() as int),
        forall|i: int| 0 <= i < json_escaped(s).len() ==> (#[trigger] json_escaped(s)[i] as u32) >= 0x20,
    decreases s.len(),
{
    if s.len() == 0 {
        let t = json_escaped(s) + seq!['"'] + rest;
        assert(json_escaped(s) =~= Seq::<char>::empty());
        assert(t[0] == '"');
    } else {
        let head = json_escape(s[0]);
        let tail = json_escaped(s.drop_first());
        a_quoted_string_ends_where_the_app_ends_it(s.drop_first(), rest);
        an_escape_reads_through(s[0], tail + seq!['"'] + rest);
        assert(json_escaped(s) + seq!['"'] + rest =~= head + (tail + seq!['"'] + rest));
        let n = s[0] as u32;
        assert forall|i: int| 0 <= i < json_escaped(s).len() implies (#[trigger] json_escaped(
            s,
        )[i] as u32) >= 0x20 by {
            if i < head.len() {
                assert(json_escaped(s)[i] == head[i]);
                if n < 0x20 && head.len() == 6 && i >= 4 {
                    let h = if i == 4 {
                        (n / 16) as int
                    } else {
                        (n % 16) as int
                    };
                    assert(head[i] == hex_digit(h));
                }
            } else {
                assert(json_escaped(s)[i] == tail[i - head.len()]);
            }
        }
    }
}

} // verus!
