//! Decimal integers: reading an `i64` from text and writing it back.
use crate::text::{chars_of, is_ascii_digit};
use vstd::prelude::*;

verus! {

pub open spec fn digit_value(c: char) -> int {
    (c as int) - ('0' as int)
}

/// The value of a string of decimal digits.
pub open spec fn digits_value(d: Seq<char>) -> int
    decreases d.len(),
{
    if d.len() == 0 {
        0
    } else {
        digits_value(d.drop_last()) * 10 + digit_value(d.last())
    }
}

pub open spec fn all_digits(d: Seq<char>) -> bool {
    forall|i: int| 0 <= i < d.len() ==> is_ascii_digit(#[trigger] d[i])
}

/// `i64::from_str`: an optional sign, then at least one digit, and a value
/// in range.
pub open spec fn parse_i64_spec(s: Seq<char>) -> Option<int> {
    let neg = s.len() > 0 && s[0] == '-';
    let d = if s.len() > 0 && (s[0] == '-' || s[0] == '+') {
        s.drop_first()
    } else {
        s
    };
    if d.len() == 0 || !all_digits(d) {
        None
    } else {
        let v = if neg {
            -digits_value(d)
        } else {
            digits_value(d)
        };
        if i64::MIN <= v <= i64::MAX {
            Some(v)
        } else {
            None
        }
    }
}

pub open spec fn digit_char(n: int) -> char {
    ((n + ('0' as int)) as u32) as char
}

/// The decimal digits of a natural number, without leading zeros.
pub open spec fn nat_text(n: nat) -> Seq<char>
    decreases n,
{
    if n < 10 {
        seq![digit_char(n as int)]
    } else {
        nat_text(n / 10) + seq![digit_char((n % 10) as int)]
    }
}

/// The decimal text of an integer, `-` before a negative one.
pub open spec fn decimal_text(n: int) -> Seq<char> {
    if n < 0 {
        seq!['-'] + nat_text((-n) as nat)
    } else {
        nat_text(n as nat)
    }
}

proof fn lemma_digits_value_bound(d: Seq<char>)
    requires
        all_digits(d),
    ensures
        digits_value(d) >= 0,
    decreases d.len(),
{
    if d.len() > 0 {
        assert forall|i: int| 0 <= i < d.drop_last().len() implies is_ascii_digit(
            #[trigger] d.drop_last()[i],
        ) by {
            assert(d.drop_last()[i] == d[i]);
        }
        lemma_digits_value_bound(d.drop_last());
        assert(is_ascii_digit(d[d.len() - 1]));
    }
}

/// The decimal digit for a value below ten.
fn ascii_digit_char(n: u64) -> (c: char)
    requires
        n < 10,
    ensures
        c == digit_char(n as int),
{
    let b: u8 = (n as u8) + 48;
    b as char
}

/// `i64::from_str`.
pub fn parse_i64(s: &str) -> (r: Option<i64>)
    ensures
        match r {
            Some(n) => parse_i64_spec(s@) == Some(n as int),
            None => parse_i64_spec(s@) is None,
        },
{
    let v = chars_of(s);
    let neg = v.len() > 0 && v[0] == '-';
    let start: usize = if v.len() > 0 && (v[0] == '-' || v[0] == '+') {
        1
    } else {
        0
    };
    let ghost d = if s@.len() > 0 && (s@[0] == '-' || s@[0] == '+') {
        s@.drop_first()
    } else {
        s@
    };
    assert(d =~= v@.skip(start as int));
    if start == v.len() {
        return None;
    }
    let limit: u128 = if neg {
        0x8000_0000_0000_0000
    } else {
        0x7fff_ffff_ffff_ffff
    };
    let mut acc: u128 = 0;
    let mut i = start;
    while i < v.len()
        invariant
            start <= i <= v@.len(),
            v@ == s@,
            d == v@.skip(start as int),
            d == (if s@.len() > 0 && (s@[0] == '-' || s@[0] == '+') {
                s@.drop_first()
            } else {
                s@
            }),
            neg == (s@.len() > 0 && s@[0] == '-'),
            limit == (if neg {
                0x8000_0000_0000_0000u128
            } else {
                0x7fff_ffff_ffff_ffffu128
            }),
            all_digits(v@.subrange(start as int, i as int)),
            acc as int == digits_value(v@.subrange(start as int, i as int)),
            acc <= limit,
            limit <= 0x8000_0000_0000_0000,
        decreases v@.len() - i,
    {
        let c = v[i];
        if !('0' <= c && c <= '9') {
            assert(d[i - start] == c);
            assert(!is_ascii_digit(d[i - start]));
            return None;
        }
        let dv: u128 = (c as u32 - '0' as u32) as u128;
        assert(v@.subrange(start as int, i + 1).drop_last() =~= v@.subrange(start as int, i as int));
        let next = acc * 10 + dv;
        assert(next as int == digits_value(v@.subrange(start as int, i + 1)));
        if next > limit {
            proof {
                // every later digit only makes the value larger
                lemma_digits_prefix_grows(d, i + 1 - start);
                assert(d.take(i + 1 - start) =~= v@.subrange(start as int, i + 1));
                assert(all_digits(d.take(i + 1 - start)));
                assert(all_digits(d) ==> digits_value(d) > limit);
            }
            return None;
        }
        acc = next;
        i = i + 1;
        assert(all_digits(v@.subrange(start as int, i as int)));
    }
    assert(v@.subrange(start as int, v@.len() as int) =~= d);
    if neg {
        if acc == 0x8000_0000_0000_0000 {
            Some(i64::MIN)
        } else {
            Some(-(acc as i64))
        }
    } else {
        Some(acc as i64)
    }
}

/// A prefix of a string of digits has at most its value.
proof fn lemma_digits_prefix_grows(d: Seq<char>, k: int)
    requires
        0 <= k <= d.len(),
        all_digits(d.take(k)),
    ensures
        all_digits(d) ==> digits_value(d) >= digits_value(d.take(k)),
    decreases d.len() - k,
{
    if k < d.len() && all_digits(d) {
        assert(all_digits(d.take(k + 1)));
        lemma_digits_prefix_grows(d, k + 1);
        assert(d.take(k + 1).drop_last() =~= d.take(k));
        lemma_digits_value_bound(d.take(k));
    } else if k == d.len() {
        assert(d.take(k) =~= d);
    }
}

/// The decimal text of an `i64`.
pub fn i64_text(n: i64) -> (r: String)
    ensures
        r@ == decimal_text(n as int),
{
    let neg = n < 0;
    let mut m: u64 = if n == i64::MIN {
        0x8000_0000_0000_0000
    } else if n < 0 {
        (-n) as u64
    } else {
        n as u64
    };
    let ghost total = if n < 0 {
        -(n as int)
    } else {
        n as int
    };
    assert(m as int == total);
    let mut suffix: Vec<char> = Vec::new();
    while m >= 10
        invariant
            nat_text(total as nat) == nat_text(m as nat) + suffix@,
        decreases m,
    {
        let c = ascii_digit_char(m % 10);
        let ghost old_suffix = suffix@;
        suffix.insert(0, c);
        assert(nat_text(m as nat) == nat_text((m / 10) as nat) + seq![digit_char((m % 10) as int)]);
        assert(suffix@ =~= seq![c] + old_suffix);
        m = m / 10;
        assert(nat_text(total as nat) =~= nat_text(m as nat) + suffix@);
    }
    let mut r = String::new();
    if neg {
        crate::text::push_char(&mut r, '-');
    }
    crate::text::push_char(&mut r, ascii_digit_char(m));
    let ghost before = r@;
    crate::text::push_range(&mut r, suffix.as_slice(), 0, suffix.len());
    assert(suffix@.subrange(0, suffix@.len() as int) =~= suffix@);
    assert(nat_text(m as nat) == seq![digit_char(m as int)]);
    r
}


/// The decimal text of a `u64`.
pub fn u64_text(n: u64) -> (r: String)
    ensures
        r@ == nat_text(n as nat),
{
    let mut m: u64 = n;
    let mut suffix: Vec<char> = Vec::new();
    assert(nat_text(n as nat) =~= nat_text(m as nat) + suffix@);
    while m >= 10
        invariant
            nat_text(n as nat) == nat_text(m as nat) + suffix@,
        decreases m,
    {
        let c = ascii_digit_char(m % 10);
        let ghost old_suffix = suffix@;
        suffix.insert(0, c);
        assert(nat_text(m as nat) == nat_text((m / 10) as nat) + seq![digit_char((m % 10) as int)]);
        assert(suffix@ =~= seq![c] + old_suffix);
        m = m / 10;
        assert(nat_text(n as nat) =~= nat_text(m as nat) + suffix@);
    }
    let mut r = String::new();
    crate::text::push_char(&mut r, ascii_digit_char(m));
    crate::text::push_range(&mut r, suffix.as_slice(), 0, suffix.len());
    assert(suffix@.subrange(0, suffix@.len() as int) =~= suffix@);
    assert(nat_text(m as nat) == seq![digit_char(m as int)]);
    r
}

} // verus!
