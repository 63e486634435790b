//! Small verified helpers on strings: equality of two string slices and
//! parsing of an unsigned decimal number, as the configuration resolver needs.
use vstd::prelude::*;
use vstd::string::*;

verus! {

/// Whether `c` is an ASCII decimal digit.
pub open spec fn is_dec_digit(c: char) -> bool {
    48 <= c as u32 <= 57
}

/// Numeric value of a decimal digit character.
pub open spec fn digit_value(c: char) -> int {
    c as u32 - 48
}

/// Whether every character of `s` is a decimal digit.
pub open spec fn all_dec_digits(s: Seq<char>) -> bool {
    forall|i: int| 0 <= i < s.len() ==> is_dec_digit(#[trigger] s[i])
}

/// The number denoted by a sequence of decimal digits, most significant first.
pub open spec fn dec_value(s: Seq<char>) -> int
    decreases s.len(),
{
    if s.len() == 0 {
        0
    } else {
        dec_value(s.drop_last()) * 10 + digit_value(s.last())
    }
}

/// The digits of a decimal number string: everything after an optional
/// leading `'+'` sign.
pub open spec fn digit_part(s: Seq<char>) -> Seq<char> {
    if s.len() > 0 && s[0] == '+' {
        s.subrange(1, s.len() as int)
    } else {
        s
    }
}

/// What parsing `s` as a `u32` yields: an optional leading `'+'`, then at
/// least one decimal digit, and a value that fits in 32 bits; otherwise
/// nothing.
pub open spec fn parsed_u32(s: Seq<char>) -> Option<u32> {
    let digits = digit_part(s);
    if digits.len() > 0 && all_dec_digits(digits) && dec_value(digits) <= u32::MAX {
        Some(dec_value(digits) as u32)
    } else {
        None
    }
}

/// A digit string denotes a non-negative number.
proof fn lemma_dec_value_nonneg(s: Seq<char>)
    requires
        all_dec_digits(s),
    ensures
        dec_value(s) >= 0,
    decreases s.len(),
{
    if s.len() > 0 {
        assert(all_dec_digits(s.drop_last()));
        lemma_dec_value_nonneg(s.drop_last());
        assert(is_dec_digit(s[s.len() - 1]));
        assert(dec_value(s.drop_last()) * 10 >= 0) by (nonlinear_arith)
            requires
                dec_value(s.drop_last()) >= 0,
        ;
    }
}

/// Extending a digit string never shrinks its value.
proof fn lemma_dec_value_prefix_le(s: Seq<char>, i: int)
    requires
        all_dec_digits(s),
        0 <= i <= s.len(),
    ensures
        dec_value(s.take(i)) <= dec_value(s),
    decreases s.len() - i,
{
    if i == s.len() {
        assert(s.take(i) =~= s);
    } else {
        let head = s.drop_last();
        assert(all_dec_digits(head));
        assert(head.take(i) =~= s.take(i));
        lemma_dec_value_prefix_le(head, i);
        lemma_dec_value_nonneg(head);
        assert(is_dec_digit(s[s.len() - 1]));
        assert(dec_value(head) * 10 >= dec_value(head)) by (nonlinear_arith)
            requires
                dec_value(head) >= 0,
        ;
    }
}

/// Equality of two string slices, decided character by character.
pub fn str_eq(a: &str, b: &str) -> (r: bool)
    ensures
        r == (a@ == b@),
{
    let alen = a.unicode_len();
    let blen = b.unicode_len();
    if alen != blen {
        return false;
    }
    let mut i: usize = 0;
    while i < alen
        invariant
            0 <= i <= alen,
            alen == a@.len(),
            alen == b@.len(),
            forall|j: int| 0 <= j < i ==> a@[j] == b@[j],
        decreases alen - i,
    {
        if a.get_char(i) != b.get_char(i) {
            return false;
        }
        i += 1;
    }
    proof {
        assert(a@ =~= b@);
    }
    true
}

/// Parse `s` as an unsigned 32-bit decimal number, accepting an optional
/// leading `'+'` and rejecting everything else that `u32` parsing rejects.
pub fn parse_u32(s: &str) -> (r: Option<u32>)
    ensures
        r == parsed_u32(s@),
{
    let n = s.unicode_len();
    if n == 0 {
        return None;
    }
    let start: usize = if s.get_char(0) == '+' {
        1
    } else {
        0
    };
    let ghost digits: Seq<char> = digit_part(s@);
    proof {
        if start == 1 {
            assert(digits =~= s@.subrange(1, n as int));
        }
        assert(digits.len() == n - start);
    }
    if start == n {
        return None;
    }
    let mut i: usize = start;
    let mut acc: u64 = 0;
    while i < n
        invariant
            start <= i <= n,
            n == s@.len(),
            start <= 1,
            digits == digit_part(s@),
            digits.len() == n - start,
            forall|j: int| start <= j < i ==> digits[j - start] == s@[j],
            all_dec_digits(digits.take(i - start)),
            acc == dec_value(digits.take(i - start)),
            acc <= u32::MAX,
        decreases n - i,
    {
        let c = s.get_char(i);
        let cu = c as u32;
        proof {
            assert(digits[i - start] == s@[i as int]) by {
                if start == 1 {
                    assert(digits =~= s@.subrange(1, n as int));
                }
            }
        }
        if cu < 48 || cu > 57 {
            proof {
                assert(!is_dec_digit(digits[i - start]));
            }
            return None;
        }
        let d: u64 = (cu - 48) as u64;
        let next: u64 = acc * 10 + d;
        proof {
            let taken = digits.take(i + 1 - start);
            assert(taken =~= digits.take(i - start).push(c));
            assert(taken.drop_last() =~= digits.take(i - start));
            assert(taken.last() == c);
            assert(next == dec_value(taken));
            assert(all_dec_digits(taken));
        }
        if next > u32::MAX as u64 {
            proof {
                if all_dec_digits(digits) {
                    lemma_dec_value_prefix_le(digits, i + 1 - start);
                    assert(dec_value(digits) > u32::MAX);
                }
            }
            return None;
        }
        acc = next;
        i += 1;
    }
    proof {
        assert(digits.take(n - start) =~= digits);
    }
    Some(acc as u32)
}

} // verus!
