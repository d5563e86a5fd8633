//! Parsing of amount fields.  An amount arrives as a decimal string in
//! minor currency units, is non-negative, and an invalid or unparseable
//! amount counts as zero rather than failing the whole request.

use vstd::prelude::*;

verus! {

/// ASCII decimal digit.
pub open spec fn is_digit(c: char) -> bool {
    48 <= c as int && c as int <= 57
}

/// Numeric value of an ASCII decimal digit.
pub open spec fn digit_val(c: char) -> int {
    c as int - 48
}

/// Value of a digit string, most significant digit first.
pub open spec fn digits_val(s: Seq<char>) -> int
    decreases s.len(),
{
    if s.len() == 0 {
        0
    } else {
        digits_val(s.drop_last()) * 10 + digit_val(s.last())
    }
}

/// The string with an optional leading plus sign removed.
pub open spec fn unsigned_part(s: Seq<char>) -> Seq<char> {
    if s.len() > 0 && s[0] == '+' {
        s.drop_first()
    } else {
        s
    }
}

/// The string denotes a non-negative amount that fits the balance type:
/// an optional plus sign, then one or more digits, value at most
/// `i64::MAX`.
pub open spec fn amount_parses(s: Seq<char>) -> bool {
    let t = unsigned_part(s);
    &&& t.len() > 0
    &&& forall|i: int| 0 <= i < t.len() ==> is_digit(t[i])
    &&& digits_val(t) <= i64::MAX
}

/// The amount a string denotes; an invalid one counts as zero.
pub open spec fn parse_amount_spec(s: Seq<char>) -> i64 {
    if amount_parses(s) {
        digits_val(unsigned_part(s)) as i64
    } else {
        0
    }
}

/// The value of a digit string is non-negative.
proof fn lemma_digits_val_nonneg(s: Seq<char>)
    requires
        forall|i: int| 0 <= i < s.len() ==> is_digit(s[i]),
    ensures
        digits_val(s) >= 0,
    decreases s.len(),
{
    if s.len() > 0 {
        lemma_digits_val_nonneg(s.drop_last());
    }
}

/// Appending digits never shrinks a digit string's value.
proof fn lemma_digits_val_prefix_le(s: Seq<char>, j: int)
    requires
        forall|i: int| 0 <= i < s.len() ==> is_digit(s[i]),
        0 <= j <= s.len(),
    ensures
        digits_val(s.take(j)) <= digits_val(s),
    decreases s.len() - j,
{
    if j == s.len() {
        assert(s.take(j) =~= s);
    } else {
        assert(s.take(j + 1).drop_last() =~= s.take(j));
        assert(s.take(j + 1).last() == s[j]);
        assert(forall|i: int| 0 <= i < s.take(j).len() ==> is_digit(s.take(j)[i]));
        lemma_digits_val_nonneg(s.take(j));
        lemma_digits_val_prefix_le(s, j + 1);
    }
}

/// Parse an amount string; anything but an in-range non-negative decimal
/// number yields zero.
pub fn parse_amount(s: &String) -> (r: i64)
    ensures
        r == parse_amount_spec(s@),
        r >= 0,
{
    let st = s.as_str();
    let n = st.unicode_len();
    let has_sign = n > 0 && st.get_char(0) == '+';
    let start: usize = if has_sign {
        1
    } else {
        0
    };
    proof {
        if has_sign {
            assert(unsigned_part(s@) =~= s@.drop_first());
        } else {
            assert(unsigned_part(s@) =~= s@);
        }
    }
    if start == n {
        // no digits at all
        return 0;
    }
    let ghost t = unsigned_part(s@);
    let mut v: i64 = 0;
    let mut i: usize = start;
    while i < n
        invariant
            start <= i <= n,
            start <= 1,
            st@ == s@,
            n == s@.len(),
            t == unsigned_part(s@),
            t.len() == n - start,
            forall|k: int| 0 <= k < t.len() ==> t[k] == s@[k + start],
            forall|k: int| 0 <= k < i - start ==> is_digit(t[k]),
            0 <= v <= i64::MAX,
            v == digits_val(t.take(i - start)),
        decreases n - i,
    {
        let c = st.get_char(i);
        let d = c as u32;
        proof {
            let p = i - start as int;
            assert(t[p] == s@[p + start as int]);
            assert(t.take(p + 1).drop_last() =~= t.take(p));
            assert(t.take(p + 1).last() == t[p]);
        }
        if d < 48 || d > 57 {
            // a non-digit invalidates the whole amount
            proof {
                assert(!is_digit(t[i - start as int]));
                assert(!amount_parses(s@));
            }
            return 0;
        }
        let d64: i64 = (d - 48) as i64;
        let wide: i128 = v as i128 * 10 + d64 as i128;
        if wide > i64::MAX as i128 {
            // the value no longer fits the balance type
            proof {
                let j = i + 1 - start as int;
                assert(digits_val(t.take(j)) == v * 10 + d64);
                if amount_parses(s@) {
                    lemma_digits_val_prefix_le(t, j);
                    assert(digits_val(t) > i64::MAX);
                }
                assert(!amount_parses(s@));
            }
            return 0;
        }
        v = wide as i64;
        i += 1;
    }
    proof {
        assert(t.take(n - start as int) =~= t);
        assert(amount_parses(s@));
    }
    v
}

} // verus!
