//! Text as the rest of the library reads and writes it: a string's
//! characters, compared, trimmed and put back together.

use vstd::prelude::*;

verus! {

broadcast use vstd::string::group_string_axioms;

/// The characters of `s`, in order.
pub fn chars_of(s: &str) -> (v: Vec<char>)
    ensures
        v@ == s@,
{
    let mut v: Vec<char> = Vec::new();
    for c in it: s.chars()
        invariant
            it.seq() == s@,
            v@ == s@.take(it.index() as int),
    {
        v.push(c);
    }
    v
}

/// `String::push`: the string with `c` after it.
#[verifier::external_body]
pub fn push_char(s: &mut String, c: char)
    ensures
        final(s)@ == old(s)@.push(c),
{
    s.push(c);
}

/// The string of the characters `v`.
pub fn string_of(v: &[char]) -> (s: String)
    ensures
        s@ == v@,
{
    let mut s = String::new();
    let mut i: usize = 0;
    while i < v.len()
        invariant
            i <= v@.len(),
            s@ == v@.take(i as int),
        decreases v@.len() - i,
    {
        push_char(&mut s, v[i]);
        proof {
            assert(v@.take(i + 1) =~= v@.take(i as int).push(v@[i as int]));
        }
        i = i + 1;
    }
    proof {
        assert(v@.take(v@.len() as int) =~= v@);
    }
    s
}

/// The string `a` followed by `b`.
pub fn joined(a: &str, b: &str) -> (s: String)
    ensures
        s@ == a@ + b@,
{
    let mut s = String::new();
    s.append(a);
    s.append(b);
    s
}

/// Whether two runs of characters are the same.
pub fn same(a: &[char], b: &[char]) -> (r: bool)
    ensures
        r == (a@ == b@),
{
    if a.len() != b.len() {
        return false;
    }
    let mut i: usize = 0;
    while i < a.len()
        invariant
            a@.len() == b@.len(),
            i <= a@.len(),
            forall|k: int| 0 <= k < i ==> a@[k] == b@[k],
        decreases a@.len() - i,
    {
        if a[i] != b[i] {
            return false;
        }
        i = i + 1;
    }
    proof {
        assert(a@ =~= b@);
    }
    true
}

/// Whether the characters `v` spell `word`.
pub fn spells(v: &[char], word: &str) -> (r: bool)
    ensures
        r == (v@ == word@),
{
    let w = chars_of(word);
    same(v, w.as_slice())
}

/// Whether the characters `v` begin with `prefix`.
pub open spec fn begins(v: Seq<char>, prefix: Seq<char>) -> bool {
    prefix.len() <= v.len() && v.take(prefix.len() as int) == prefix
}

/// Whether the characters `v` begin with `prefix`.
pub fn starts_with(v: &[char], prefix: &str) -> (r: bool)
    ensures
        r == begins(v@, prefix@),
{
    let p = chars_of(prefix);
    if p.len() > v.len() {
        return false;
    }
    let mut i: usize = 0;
    while i < p.len()
        invariant
            p@ == prefix@,
            p@.len() <= v@.len(),
            i <= p@.len(),
            forall|k: int| 0 <= k < i ==> v@[k] == p@[k],
        decreases p@.len() - i,
    {
        if v[i] != p[i] {
            proof {
                assert(v@.take(p@.len() as int)[i as int] != p@[i as int]);
            }
            return false;
        }
        i = i + 1;
    }
    proof {
        assert(v@.take(p@.len() as int) =~= p@);
    }
    true
}

/// Whether the characters `v` hold `part` starting at `at`.
pub open spec fn holds_at(v: Seq<char>, at: int, part: Seq<char>) -> bool {
    0 <= at && at + part.len() <= v.len() && v.subrange(at, at + part.len()) == part
}

/// Whether the characters `v` hold `part` starting at `at`.
pub fn has_at(v: &[char], at: usize, part: &[char]) -> (r: bool)
    ensures
        r == holds_at(v@, at as int, part@),
{
    let n = v.len();
    if at > n || part.len() > n - at {
        return false;
    }
    let mut i: usize = 0;
    while i < part.len()
        invariant
            n == v@.len(),
            at + part@.len() <= n,
            i <= part@.len(),
            forall|k: int| 0 <= k < i ==> v@[at + k] == part@[k],
        decreases part@.len() - i,
    {
        if v[at + i] != part[i] {
            proof {
                assert(v@.subrange(at as int, at + part@.len())[i as int] != part@[i as int]);
            }
            return false;
        }
        i = i + 1;
    }
    proof {
        assert(v@.subrange(at as int, at + part@.len()) =~= part@);
    }
    true
}

/// Unicode's White_Space, which is what `str::trim` takes away.
pub open spec fn is_white_space(c: char) -> bool {
    let n = c as u32;
    ||| 0x09 <= n <= 0x0d
    ||| n == 0x20
    ||| n == 0x85
    ||| n == 0xa0
    ||| n == 0x1680
    ||| 0x2000 <= n <= 0x200a
    ||| n == 0x2028
    ||| n == 0x2029
    ||| n == 0x202f
    ||| n == 0x205f
    ||| n == 0x3000
}

pub fn white_space(c: char) -> (r: bool)
    ensures
        r == is_white_space(c),
{
    let n = c as u32;
    (0x09 <= n && n <= 0x0d) || n == 0x20 || n == 0x85 || n == 0xa0 || n == 0x1680 || (0x2000
        <= n && n <= 0x200a) || n == 0x2028 || n == 0x2029 || n == 0x202f || n == 0x205f || n
        == 0x3000
}

/// `s` without the white space it begins with.
pub open spec fn trimmed_start(s: Seq<char>) -> Seq<char>
    decreases s.len(),
{
    if s.len() > 0 && is_white_space(s[0]) {
        trimmed_start(s.drop_first())
    } else {
        s
    }
}

/// `s` without the white space it ends with.
pub open spec fn trimmed_end(s: Seq<char>) -> Seq<char>
    decreases s.len(),
{
    if s.len() > 0 && is_white_space(s.last()) {
        trimmed_end(s.drop_last())
    } else {
        s
    }
}

/// `s` without white space at either end, as `str::trim` leaves it.
pub open spec fn trimmed(s: Seq<char>) -> Seq<char> {
    trimmed_end(trimmed_start(s))
}

/// Where the characters `v` start and end once white space is taken from
/// either end.
pub fn trim_range(v: &[char]) -> (r: (usize, usize))
    ensures
        r.0 <= r.1 <= v@.len(),
        v@.subrange(r.0 as int, r.1 as int) == trimmed(v@),
{
    let n = v.len();
    let mut lo: usize = 0;
    assert(v@.skip(0) =~= v@);
    while lo < n && white_space(v[lo])
        invariant
            n == v@.len(),
            lo <= n,
            trimmed_start(v@) == trimmed_start(v@.skip(lo as int)),
        decreases n - lo,
    {
        proof {
            assert(v@.skip(lo as int).drop_first() =~= v@.skip(lo + 1));
        }
        lo = lo + 1;
    }
    let ghost start = v@.skip(lo as int);
    assert(trimmed_start(v@) == start);
    let mut hi: usize = n;
    assert(v@.skip(lo as int) =~= v@.subrange(lo as int, n as int));
    while hi > lo && white_space(v[hi - 1])
        invariant
            n == v@.len(),
            lo <= hi <= n,
            start == v@.skip(lo as int),
            trimmed_end(start) == trimmed_end(v@.subrange(lo as int, hi as int)),
        decreases hi,
    {
        proof {
            assert(v@.subrange(lo as int, hi as int).drop_last() =~= v@.subrange(
                lo as int,
                hi - 1,
            ));
        }
        hi = hi - 1;
    }
    (lo, hi)
}

/// The characters `v` without white space at either end.
pub fn trim(v: &[char]) -> (t: Vec<char>)
    ensures
        t@ == trimmed(v@),
{
    let (lo, hi) = trim_range(v);
    let mut t: Vec<char> = Vec::new();
    let mut i: usize = lo;
    while i < hi
        invariant
            lo <= i <= hi <= v@.len(),
            t@ == v@.subrange(lo as int, i as int),
        decreases hi - i,
    {
        t.push(v[i]);
        proof {
            assert(v@.subrange(lo as int, i + 1) =~= v@.subrange(lo as int, i as int).push(
                v@[i as int],
            ));
        }
        i = i + 1;
    }
    t
}

/// `s` without white space at either end, as `str::trim` leaves it.
pub fn trim_str(s: &str) -> (t: &str)
    ensures
        t@ == trimmed(s@),
{
    let v = chars_of(s);
    let (lo, hi) = trim_range(v.as_slice());
    s.substring_char(lo, hi)
}

/// `s` without the white space it ends with, as `str::trim_end` leaves it.
pub fn trim_end_str(s: &str) -> (t: &str)
    ensures
        t@ == trimmed_end(s@),
{
    let v = chars_of(s);
    let n = v.len();
    let mut hi: usize = n;
    proof {
        assert(v@.subrange(0, n as int) =~= v@);
    }
    while hi > 0 && white_space(v[hi - 1])
        invariant
            n == v@.len(),
            v@ == s@,
            hi <= n,
            trimmed_end(s@) == trimmed_end(v@.subrange(0, hi as int)),
        decreases hi,
    {
        proof {
            assert(v@.subrange(0, hi as int).drop_last() =~= v@.subrange(0, hi - 1));
        }
        hi = hi - 1;
    }
    s.substring_char(0, hi)
}

} // verus!
