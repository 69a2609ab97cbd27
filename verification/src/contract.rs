//! Reading the app's own scripts against the site's contract with every
//! app: every `window.oeeeApp` member a script calls has to be one the page
//! has, and this finds what each script calls.

use vstd::prelude::*;

use crate::text::{chars_of, has_at, holds_at, string_of};

verus! {

/// The object every call into the page is made on.
pub const APP: &'static str = "window.oeeeApp";

/// Whether a character can stand in a member's path.
pub open spec fn in_path(c: char) -> bool {
    ('0' <= c <= '9') || ('a' <= c <= 'z') || ('A' <= c <= 'Z') || c == '_' || c == '.'
}

/// The run of path characters at the start of `s`.
pub open spec fn path_run(s: Seq<char>) -> Seq<char>
    decreases s.len(),
{
    if s.len() > 0 && in_path(s[0]) {
        seq![s[0]] + path_run(s.drop_first())
    } else {
        Seq::empty()
    }
}

/// `s` without the dots it begins with.
pub open spec fn without_leading_dots(s: Seq<char>) -> Seq<char>
    decreases s.len(),
{
    if s.len() > 0 && s[0] == '.' {
        without_leading_dots(s.drop_first())
    } else {
        s
    }
}

/// `s` without the dots it ends with.
pub open spec fn without_trailing_dots(s: Seq<char>) -> Seq<char>
    decreases s.len(),
{
    if s.len() > 0 && s.last() == '.' {
        without_trailing_dots(s.drop_last())
    } else {
        s
    }
}

/// The member path that follows a call's object at `at`.
pub open spec fn path_at(s: Seq<char>, at: int) -> Seq<char> {
    without_trailing_dots(without_leading_dots(path_run(s.skip(at))))
}

/// Every member path called in `s` from `at` on, in order.
pub open spec fn members_from(s: Seq<char>, at: int) -> Seq<Seq<char>>
    decreases s.len() + 14 - at,
{
    if at < 0 || at >= s.len() {
        Seq::empty()
    } else if holds_at(s, at, APP@) {
        let path = path_at(s, at + 14);
        (if path.len() > 0 {
            seq![path]
        } else {
            Seq::empty()
        }) + members_from(s, at + 14)
    } else {
        members_from(s, at + 1)
    }
}

/// The path of path characters in `v` from `at`, without the dots at
/// either end.
fn path_from(v: &[char], at: usize) -> (path: String)
    requires
        at <= v@.len(),
    ensures
        path@ == path_at(v@, at as int),
{
    let ghost rest = v@.skip(at as int);
    let mut end = at;
    while end < v.len() && (('0' <= v[end] && v[end] <= '9') || ('a' <= v[end] && v[end] <= 'z')
        || ('A' <= v[end] && v[end] <= 'Z') || v[end] == '_' || v[end] == '.')
        invariant
            at <= end <= v@.len(),
            rest == v@.skip(at as int),
            path_run(rest) == v@.subrange(at as int, end as int) + path_run(v@.skip(end as int)),
        decreases v@.len() - end,
    {
        proof {
            assert(v@.skip(end as int).drop_first() =~= v@.skip(end + 1));
            assert(v@.subrange(at as int, end + 1) =~= v@.subrange(at as int, end as int) + seq![
                v@[end as int],
            ]);
            assert(v@.subrange(at as int, end as int) + (seq![v@[end as int]] + path_run(
                v@.skip(end + 1),
            )) =~= v@.subrange(at as int, end + 1) + path_run(v@.skip(end + 1)));
        }
        end = end + 1;
    }
    proof {
        assert(path_run(v@.skip(end as int)) == Seq::<char>::empty());
        assert(v@.subrange(at as int, end as int) + Seq::<char>::empty() =~= v@.subrange(
            at as int,
            end as int,
        ));
    }
    let ghost run = v@.subrange(at as int, end as int);
    let mut lo = at;
    assert(run.skip(0) =~= run);
    while lo < end && v[lo] == '.'
        invariant
            at <= lo <= end <= v@.len(),
            run == v@.subrange(at as int, end as int),
            without_leading_dots(run) == without_leading_dots(v@.subrange(lo as int, end as int)),
        decreases end - lo,
    {
        proof {
            assert(v@.subrange(lo as int, end as int).drop_first() =~= v@.subrange(
                lo + 1,
                end as int,
            ));
        }
        lo = lo + 1;
    }
    let ghost start = v@.subrange(lo as int, end as int);
    let mut hi = end;
    while hi > lo && v[hi - 1] == '.'
        invariant
            at <= lo <= hi <= end <= v@.len(),
            start == v@.subrange(lo as int, end as int),
            without_trailing_dots(start) == without_trailing_dots(v@.subrange(lo as int, hi as int)),
        decreases hi,
    {
        proof {
            assert(v@.subrange(lo as int, hi as int).drop_last() =~= v@.subrange(
                lo as int,
                hi - 1,
            ));
        }
        hi = hi - 1;
    }
    string_of(&v[lo..hi])
}

/// Every `window.oeeeApp.<path>` in `source`, as the path.
pub fn members_called(source: &str) -> (found: Vec<String>)
    ensures
        found@.map_values(|m: String| m@) == members_from(source@, 0),
{
    let v = chars_of(source);
    let app = chars_of(APP);
    let mut found: Vec<String> = Vec::new();
    let mut at: usize = 0;
    proof {
        reveal_strlit("window.oeeeApp");
    }
    while at < v.len()
        invariant
            v@ == source@,
            app@ == APP@,
            app@.len() == 14,
            at <= v@.len() + 14,
            members_from(source@, 0) == found@.map_values(|m: String| m@) + members_from(
                source@,
                at as int,
            ),
        decreases v@.len() + 14 - at,
    {
        if has_at(v.as_slice(), at, app.as_slice()) {
            let path = path_from(v.as_slice(), at + 14);
            let ghost before = found@;
            if !path.as_str().is_empty() {
                found.push(path);
            }
            proof {
                let p = path_at(source@, at + 14);
                assert(members_from(source@, at as int) == (if p.len() > 0 {
                    seq![p]
                } else {
                    Seq::<Seq<char>>::empty()
                }) + members_from(source@, at + 14));
                assert(found@.map_values(|m: String| m@) =~= before.map_values(|m: String| m@) + (
                if p.len() > 0 {
                    seq![p]
                } else {
                    Seq::<Seq<char>>::empty()
                }));
            }
            at = at + 14;
        } else {
            at = at + 1;
        }
    }
    proof {
        assert(found@.map_values(|m: String| m@) + Seq::<Seq<char>>::empty() =~= found@.map_values(
            |m: String| m@,
        ));
    }
    found
}

} // verus!
