//! The unread count on the app's icon.
//!
//! The site says how many notifications are unread, and the app puts it
//! where each system puts one: a number on the launcher's icon on Linux, and
//! on Windows -- whose taskbar has no numbers -- a red dot over the taskbar
//! button.

use vstd::prelude::*;

use crate::text::{chars_of, trim_range, trimmed};

verus! {

/// The event the site's toolbar sends its unread count in.
pub const EVENT: &'static str = "oeee-unread";

/// Whether a character is a decimal digit.
pub open spec fn is_digit(c: char) -> bool {
    '0' <= c <= '9'
}

/// Whether every character of `s` is a decimal digit.
pub open spec fn all_digits(s: Seq<char>) -> bool {
    forall|i: int| 0 <= i < s.len() ==> is_digit(#[trigger] s[i])
}

/// The number the decimal digits `s` write.
pub open spec fn decimal(s: Seq<char>) -> int
    decreases s.len(),
{
    if s.len() == 0 {
        0
    } else {
        decimal(s.drop_last()) * 10 + (s.last() as int - 48)
    }
}

/// The number `s` writes as an `i64` reads one: a sign if any, `+` or `-`,
/// then one digit or more, and within the type's range; none for anything
/// else.
pub open spec fn parsed_i64(s: Seq<char>) -> Option<int> {
    let negative = s.len() > 0 && s[0] == '-';
    let digits = if s.len() > 0 && (s[0] == '-' || s[0] == '+') {
        s.drop_first()
    } else {
        s
    };
    if digits.len() == 0 || !all_digits(digits) {
        None
    } else {
        let value = if negative {
            -decimal(digits)
        } else {
            decimal(digits)
        };
        if i64::MIN <= value <= i64::MAX {
            Some(value)
        } else {
            None
        }
    }
}

/// The count in an event's payload: a number, white space around it allowed,
/// and anything else, or a number below nothing, as none.
pub open spec fn count_in(payload: Seq<char>) -> int {
    match parsed_i64(trimmed(payload)) {
        Some(value) => if value > 0 {
            value
        } else {
            0
        },
        None => 0,
    }
}

pub(crate) proof fn decimal_is_not_negative(s: Seq<char>)
    requires
        all_digits(s),
    ensures
        decimal(s) >= 0,
    decreases s.len(),
{
    if s.len() > 0 {
        assert(all_digits(s.drop_last())) by {
            assert forall|i: int| 0 <= i < s.drop_last().len() implies is_digit(
                #[trigger] s.drop_last()[i],
            ) by {
                assert(s.drop_last()[i] == s[i]);
            }
        }
        decimal_is_not_negative(s.drop_last());
        assert(is_digit(s[s.len() - 1]));
    }
}

/// More digits never write a smaller number.
pub(crate) proof fn decimal_grows(s: Seq<char>, k: int)
    requires
        all_digits(s),
        0 <= k <= s.len(),
    ensures
        decimal(s.take(k)) <= decimal(s),
    decreases s.len(),
{
    if k < s.len() {
        let shorter = s.drop_last();
        assert(all_digits(shorter)) by {
            assert forall|i: int| 0 <= i < shorter.len() implies is_digit(#[trigger] shorter[i]) by {
                assert(shorter[i] == s[i]);
            }
        }
        decimal_grows(shorter, k);
        assert(shorter.take(k) =~= s.take(k));
        decimal_is_not_negative(shorter);
        assert(is_digit(s[s.len() - 1]));
    } else {
        assert(s.take(k) =~= s);
    }
}

/// The count in an event's payload: a JSON number, or anything else as none.
pub fn parse(payload: &str) -> (count: i64)
    ensures
        count == count_in(payload@),
        count >= 0,
{
    let v = chars_of(payload);
    let (lo, hi) = trim_range(v.as_slice());
    let ghost t = trimmed(payload@);
    assert(t == v@.subrange(lo as int, hi as int));
    if lo == hi {
        return 0;
    }
    if v[lo] == '-' {
        // Whatever follows, the count is none: a number below nothing, or
        // no number at all.
        proof {
            let digits = t.drop_first();
            if digits.len() > 0 && all_digits(digits) {
                decimal_is_not_negative(digits);
            }
        }
        return 0;
    }
    let start = if v[lo] == '+' {
        lo + 1
    } else {
        lo
    };
    let ghost digits = t.subrange(start - lo, t.len() as int);
    assert(digits == if t[0] == '+' {
        t.drop_first()
    } else {
        t
    });
    let mut value: u64 = 0;
    let mut i = start;
    while i < hi
        invariant
            lo <= start <= i <= hi <= v@.len(),
            t == v@.subrange(lo as int, hi as int),
            t == trimmed(payload@),
            t.len() > 0 && t[0] != '-',
            digits == t.subrange(start - lo, t.len() as int),
            digits == if t[0] == '+' {
                t.drop_first()
            } else {
                t
            },
            all_digits(digits.take(i - start)),
            value == decimal(digits.take(i - start)),
            value <= i64::MAX,
        decreases hi - i,
    {
        let c = v[i];
        if c < '0' || c > '9' {
            proof {
                assert(digits[i - start] == c);
                assert(!all_digits(digits));
            }
            return 0;
        }
        let ghost before = digits.take(i - start);
        let ghost after = digits.take(i - start + 1);
        proof {
            assert(after.drop_last() =~= before);
            assert(after.last() == c);
            assert(all_digits(after)) by {
                assert forall|k: int| 0 <= k < after.len() implies is_digit(#[trigger] after[k]) by {
                    if k < before.len() {
                        assert(after[k] == before[k]);
                    }
                }
            }
        }
        let d = (c as u32 - 48) as u64;
        if value > 922337203685477580 || (value == 922337203685477580 && d > 7) {
            // Past the largest `i64`, which no more digits bring back.
            proof {
                let b = decimal(before);
                assert(decimal(after) == b * 10 + d);
                assert(b * 10 + d > i64::MAX) by (nonlinear_arith)
                    requires
                        b > 922337203685477580 || (b == 922337203685477580 && d > 7),
                        d >= 0,
                ;
                if all_digits(digits) {
                    decimal_grows(digits, i - start + 1);
                }
            }
            return 0;
        }
        value = value * 10 + d;
        i = i + 1;
    }
    proof {
        assert(digits.take(hi - start) =~= digits);
    }
    if i == start {
        return 0;
    }
    value as i64
}

} // verus!
