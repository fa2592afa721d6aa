//! Decimal parsing of command-line option values: the exact behaviour of
//! parsing an unsigned 32-bit number from a string — an optional leading
//! `'+'`, then one or more decimal digits, with the value within range.

use vstd::prelude::*;

verus! {

pub open spec fn is_digit(c: char) -> bool {
    48 <= c as u32 && c as u32 <= 57
}

pub open spec fn digit_val(c: char) -> int {
    c as u32 - 48
}

/// The digit portion of a numeral: everything after an optional leading
/// `'+'`.
pub open spec fn unsigned_digits(s: Seq<char>) -> Seq<char> {
    if s.len() > 0 && s[0] == '+' {
        s.drop_first()
    } else {
        s
    }
}

/// At least one character, all decimal digits.
pub open spec fn is_numeral(d: Seq<char>) -> bool {
    d.len() >= 1 && forall|i: int| 0 <= i < d.len() ==> is_digit(d[i])
}

/// The value of a digit string, most significant digit first.
pub open spec fn numeral_value(d: Seq<char>) -> int
    decreases d,
{
    if d.len() == 0 {
        0
    } else {
        numeral_value(d.drop_last()) * 10 + digit_val(d.last())
    }
}

/// `s` parses as the unsigned 32-bit number `n`.
pub open spec fn parses_to_u32(s: Seq<char>, n: u32) -> bool {
    is_numeral(unsigned_digits(s)) && numeral_value(unsigned_digits(s)) == n
}

/// Parsing `s` as an unsigned 32-bit number fails: a malformed numeral, or a
/// value out of range.
pub open spec fn u32_parse_fails(s: Seq<char>) -> bool {
    !is_numeral(unsigned_digits(s)) || numeral_value(unsigned_digits(s)) > u32::MAX
}

proof fn lemma_numeral_nonneg(d: Seq<char>)
    requires
        forall|i: int| 0 <= i < d.len() ==> is_digit(d[i]),
    ensures
        numeral_value(d) >= 0,
    decreases d,
{
    if d.len() > 0 {
        lemma_numeral_nonneg(d.drop_last());
    }
}

/// Appending one digit multiplies the value by ten and adds the digit.
proof fn lemma_numeral_take_step(d: Seq<char>, m: int)
    requires
        0 <= m < d.len(),
    ensures
        numeral_value(d.take(m + 1)) == numeral_value(d.take(m)) * 10 + digit_val(d[m]),
{
    assert(d.take(m + 1).drop_last() =~= d.take(m));
    assert(d.take(m + 1).last() == d[m]);
}

/// A numeral is worth at least any of its prefixes.
proof fn lemma_numeral_prefix_le(d: Seq<char>, m: int)
    requires
        0 <= m <= d.len(),
        forall|i: int| 0 <= i < d.len() ==> is_digit(d[i]),
    ensures
        numeral_value(d.take(m)) <= numeral_value(d),
    decreases d.len() - m,
{
    if m == d.len() {
        assert(d.take(m) =~= d);
    } else {
        lemma_numeral_take_step(d, m);
        assert(forall|i: int| 0 <= i < d.take(m).len() ==> is_digit(d.take(m)[i]));
        lemma_numeral_nonneg(d.take(m));
        lemma_numeral_prefix_le(d, m + 1);
    }
}

/// Parses `s` as an unsigned 32-bit decimal number: an optional leading
/// `'+'`, then one or more digits. Returns `None` exactly when the string is
/// malformed or the value exceeds `u32::MAX`.
pub fn parse_u32(s: &str) -> (r: Option<u32>)
    ensures
        r matches Some(n) ==> parses_to_u32(s@, n),
        r is None <==> u32_parse_fails(s@),
{
    let len = s.unicode_len();
    if len == 0 {
        return None;
    }
    let first = s.get_char(0);
    let start: usize = if first == '+' {
        1
    } else {
        0
    };
    let ghost d = unsigned_digits(s@);
    proof {
        assert(d =~= s@.skip(start as int));
    }
    if start == len {
        return None;
    }
    let mut acc: u64 = 0;
    let mut j: usize = start;
    proof {
        assert(d.take(0) =~= Seq::<char>::empty());
    }
    while j < len
        invariant
            start <= j <= len,
            len == s@.len(),
            d == unsigned_digits(s@),
            d == s@.skip(start as int),
            forall|k: int| 0 <= k < j - start ==> is_digit(d[k]),
            acc == numeral_value(d.take(j - start)),
            acc <= u32::MAX,
        decreases len - j,
    {
        let c = s.get_char(j);
        proof {
            assert(d[j - start] == s@[j as int]);
        }
        let v = c as u32;
        if v < 48 || v > 57 {
            proof {
                assert(!is_digit(c));
                assert(!is_numeral(d));
            }
            return None;
        }
        proof {
            assert(is_digit(c));
            lemma_numeral_take_step(d, j - start);
            assert(digit_val(d[j - start]) == v - 48);
        }
        acc = acc * 10 + ((v - 48) as u64);
        if acc > 0xffffffff {
            proof {
                if is_numeral(d) {
                    lemma_numeral_prefix_le(d, j + 1 - start);
                }
            }
            return None;
        }
        j = j + 1;
    }
    proof {
        assert(d.take(len - start) =~= d);
        assert(is_numeral(d));
    }
    Some(acc as u32)
}

} // verus!
