//! Decimal numerals: the registry keeps bit lengths and resolutions as
//! text, so downstream consumers parse them on demand. This module gives
//! the parse, the reverse formatting used in emitted comments, and the
//! test for a resolution of exactly one.

use vstd::prelude::*;

use crate::strutil::push_char;

verus! {

/// True when `c` is a decimal digit.
pub open spec fn is_dec_digit(c: char) -> bool {
    '0' <= c && c <= '9'
}

/// The numeric value of a digit character; zero for anything else.
pub open spec fn digit_val(c: char) -> nat {
    if is_dec_digit(c) {
        ((c as int) - 48) as nat
    } else {
        0
    }
}

/// True when every character of `s` is a decimal digit.
pub open spec fn all_digits(s: Seq<char>) -> bool {
    forall|i: int| 0 <= i < s.len() ==> is_dec_digit(#[trigger] s[i])
}

/// The value of a digit string read from the left.
pub open spec fn dec_value(s: Seq<char>) -> nat
    decreases s.len(),
{
    if s.len() == 0 {
        0
    } else {
        dec_value(s.drop_last()) * 10 + digit_val(s.last())
    }
}

proof fn lemma_dec_value_take_step(s: Seq<char>, i: int)
    requires
        0 <= i < s.len(),
    ensures
        dec_value(s.take(i + 1)) == dec_value(s.take(i)) * 10 + digit_val(s[i]),
{
    let t = s.take(i + 1);
    assert(t.drop_last() =~= s.take(i));
    assert(t.last() == s[i]);
}

proof fn lemma_dec_value_prefix_le(s: Seq<char>, i: int)
    requires
        0 <= i <= s.len(),
    ensures
        dec_value(s.take(i)) <= dec_value(s),
    decreases s.len() - i,
{
    if i == s.len() {
        assert(s.take(i) =~= s);
    } else {
        lemma_dec_value_take_step(s, i);
        lemma_dec_value_prefix_le(s, i + 1);
    }
}

/// Parses a string of decimal digits. Returns the value exactly when the
/// string is non-empty, all digits, and the value fits in a `u64`.
pub fn parse_u64(s: &str) -> (r: Option<u64>)
    ensures
        r is Some <==> (s@.len() > 0 && all_digits(s@) && dec_value(s@) <= u64::MAX),
        r is Some ==> r->0 == dec_value(s@),
{
    let len = s.unicode_len();
    if len == 0 {
        return None;
    }
    let mut acc: u64 = 0;
    let mut i: usize = 0;
    proof {
        assert(s@.take(0) =~= Seq::<char>::empty());
    }
    while i < len
        invariant
            i <= len,
            len == s@.len(),
            all_digits(s@.take(i as int)),
            acc == dec_value(s@.take(i as int)),
        decreases len - i,
    {
        let c = s.get_char(i);
        if !(c >= '0' && c <= '9') {
            proof {
                assert(!is_dec_digit(s@[i as int]));
            }
            return None;
        }
        let d: u64 = ((c as u8) - 48) as u64;
        proof {
            lemma_dec_value_take_step(s@, i as int);
        }
        if acc > u64::MAX / 10 || (acc == u64::MAX / 10 && d > u64::MAX % 10) {
            proof {
                lemma_dec_value_prefix_le(s@, i as int + 1);
            }
            return None;
        }
        acc = acc * 10 + d;
        proof {
            assert(s@.take(i as int + 1) =~= s@.take(i as int).push(s@[i as int]));
            assert(forall|j: int|
                0 <= j < i as int + 1 ==> is_dec_digit(#[trigger] s@.take(i as int + 1)[j]));
        }
        i = i + 1;
    }
    proof {
        assert(s@.take(len as int) =~= s@);
    }
    Some(acc)
}

/// The decimal digits of `n` without a leading zero; empty for zero.
pub open spec fn digits_of(n: nat) -> Seq<char>
    decreases n,
{
    if n == 0 {
        Seq::empty()
    } else {
        digits_of(n / 10) + seq![((n % 10 + 48) as char)]
    }
}

/// The decimal numeral of `n`: its digits, or `0` for zero.
pub open spec fn dec_str_of(n: nat) -> Seq<char> {
    if n == 0 {
        seq!['0']
    } else {
        digits_of(n)
    }
}

/// Formats `n` as its decimal numeral.
pub fn u64_to_string(n: u64) -> (r: String)
    ensures
        r@ == dec_str_of(n as nat),
{
    if n == 0 {
        let mut zero = String::new();
        push_char(&mut zero, '0');
        proof {
            assert(zero@ =~= seq!['0']);
        }
        return zero;
    }
    let mut rev: Vec<char> = Vec::new();
    let mut m: u64 = n;
    proof {
        assert(rev@.reverse() =~= Seq::<char>::empty());
        assert(digits_of(n as nat) + rev@.reverse() =~= digits_of(n as nat));
    }
    while m > 0
        invariant
            digits_of(n as nat) == digits_of(m as nat) + rev@.reverse(),
        decreases m,
    {
        let d: u64 = m % 10;
        rev.push(((d as u8) + 48) as char);
        proof {
            assert(rev@.reverse() =~= seq![(((m as nat) % 10 + 48) as char)] + rev@.drop_last().reverse());
            assert(digits_of(m as nat) == digits_of((m as nat) / 10) + seq![
                (((m as nat) % 10 + 48) as char),
            ]);
            assert(digits_of((m as nat) / 10) + seq![(((m as nat) % 10 + 48) as char)]
                + rev@.drop_last().reverse() =~= digits_of((m as nat) / 10) + (seq![
                (((m as nat) % 10 + 48) as char),
            ] + rev@.drop_last().reverse()));
        }
        m = m / 10;
    }
    proof {
        assert(digits_of(0nat) == Seq::<char>::empty());
        assert(digits_of(n as nat) =~= rev@.reverse());
    }
    let k = rev.len();
    let mut result = String::new();
    let mut i: usize = 0;
    proof {
        assert(result@ =~= rev@.reverse().take(0));
    }
    while i < k
        invariant
            i <= k,
            k == rev@.len(),
            result@ == rev@.reverse().take(i as int),
        decreases k - i,
    {
        let c = rev[k - 1 - i];
        push_char(&mut result, c);
        proof {
            assert(rev@.reverse()[i as int] == rev@[k - 1 - i as int]);
            assert(result@ =~= rev@.reverse().take(i as int + 1));
        }
        i = i + 1;
    }
    proof {
        assert(rev@.reverse().take(k as int) =~= rev@.reverse());
    }
    result
}

/// The position `d` is the first dot of `s`.
pub open spec fn is_first_dot(s: Seq<char>, d: int) -> bool {
    &&& 0 <= d < s.len()
    &&& s[d] == '.'
    &&& forall|j: int| 0 <= j < d ==> s[j] != '.'
}

/// An integer part denoting exactly one: digits with value one.
pub open spec fn unit_int_part(s: Seq<char>) -> bool {
    s.len() > 0 && all_digits(s) && dec_value(s) == 1
}

/// A fractional part worth nothing: digits, possibly none, all zero.
pub open spec fn zero_frac_part(s: Seq<char>) -> bool {
    all_digits(s) && dec_value(s) == 0
}

/// A resolution string denoting exactly one: an integer part of digits
/// with value one, optionally followed by a dot and a fraction of zeros.
/// Only these plain decimal spellings count: a signed or exponent form
/// (`+1`, `1e0`) is not recognized as one, and a plain integer field
/// carrying such a resolution aborts the run as unsupported scaling
/// rather than being given a type on an unread spelling.
pub open spec fn is_unit_res(s: Seq<char>) -> bool {
    if exists|d: int| is_first_dot(s, d) {
        let d = choose|d: int| is_first_dot(s, d);
        unit_int_part(s.take(d)) && zero_frac_part(s.subrange(d + 1, s.len() as int))
    } else {
        unit_int_part(s)
    }
}

proof fn lemma_first_dot_unique(s: Seq<char>, d1: int, d2: int)
    requires
        is_first_dot(s, d1),
        is_first_dot(s, d2),
    ensures
        d1 == d2,
{
    if d1 < d2 {
        assert(s[d1] != '.');
    }
    if d2 < d1 {
        assert(s[d2] != '.');
    }
}

/// Decides whether a resolution string denotes exactly one: the only
/// scale factor under which a plain integer field is generated.
pub fn is_unit_resolution(s: &str) -> (r: bool)
    ensures
        r == is_unit_res(s@),
{
    let len = s.unicode_len();
    let mut dot: usize = len;
    let mut i: usize = 0;
    while i < len
        invariant
            i <= len,
            dot <= len,
            len == s@.len(),
            dot == len ==> forall|j: int| 0 <= j < i ==> s@[j] != '.',
            dot < len ==> is_first_dot(s@, dot as int),
        decreases len - i,
    {
        let c = s.get_char(i);
        if c == '.' && dot == len {
            dot = i;
        }
        i = i + 1;
    }
    if dot == len {
        // no dot anywhere
        proof {
            assert forall|d: int| !is_first_dot(s@, d) by {
                if 0 <= d < s@.len() {
                    assert(s@[d] != '.');
                }
            }
        }
        let ip = parse_u64(s);
        match ip {
            Some(v) => v == 1,
            None => false,
        }
    } else {
        let d = dot;
        proof {
            assert(is_first_dot(s@, d as int));
            let dd = choose|dd: int| is_first_dot(s@, dd);
            lemma_first_dot_unique(s@, dd, d as int);
            assert(s@.take(d as int) =~= s@.subrange(0, d as int));
        }
        let int_part = s.substring_char(0, d);
        let frac_part = s.substring_char(d + 1, len);
        let ip_ok = match parse_u64(int_part) {
            Some(v) => v == 1,
            None => false,
        };
        let fp_ok = if frac_part.unicode_len() == 0 {
            true
        } else {
            match parse_u64(frac_part) {
                Some(v) => v == 0,
                None => false,
            }
        };
        proof {
            if frac_part@.len() == 0 {
                assert(zero_frac_part(frac_part@));
            }
        }
        ip_ok && fp_ok
    }
}

} // verus!
