//! Decimal text: the protocol writes expiration seconds as base-10 ASCII
//! digits, and reads `EXIN`'s success response the same way.

use vstd::prelude::*;
use vstd::assert_seqs_equal;
use vstd::arithmetic::div_mod::lemma_fundamental_div_mod;

verus! {

/// ASCII code of the digit zero.
pub const DIGIT_ZERO: u8 = 48;

/// Whether `b` is an ASCII decimal digit.
pub open spec fn spec_is_digit(b: u8) -> bool {
    DIGIT_ZERO <= b <= DIGIT_ZERO + 9
}

/// Whether every byte of `s` is an ASCII decimal digit.
pub open spec fn spec_all_digits(s: Seq<u8>) -> bool {
    forall|i: int| 0 <= i < s.len() ==> spec_is_digit(#[trigger] s[i])
}

/// The number that the digit bytes `s` write in base 10, most significant
/// digit first.  An empty sequence writes 0.
pub open spec fn spec_decimal_value(s: Seq<u8>) -> int
    recommends
        spec_all_digits(s),
    decreases s.len(),
{
    if s.len() == 0 {
        0
    } else {
        spec_decimal_value(s.drop_last()) * 10 + (s.last() - DIGIT_ZERO)
    }
}

/// The canonical digit bytes of `n`: no sign, no leading zero except for
/// the number 0 itself.
pub open spec fn spec_decimal_digits(n: int) -> Seq<u8>
    recommends
        0 <= n,
    decreases n,
{
    if n < 10 {
        seq![(DIGIT_ZERO + n) as u8]
    } else {
        spec_decimal_digits(n / 10).push((DIGIT_ZERO + n % 10) as u8)
    }
}

/// The canonical digits of `n` are digits, write `n` itself, and never
/// start with a zero unless they are the single digit `0`.
pub proof fn lemma_decimal_digits_value(n: int)
    requires
        0 <= n,
    ensures
        spec_decimal_digits(n).len() >= 1,
        spec_all_digits(spec_decimal_digits(n)),
        spec_decimal_value(spec_decimal_digits(n)) == n,
        spec_decimal_digits(n)[0] == DIGIT_ZERO ==> n == 0,
    decreases n,
{
    if n < 10 {
        let s = spec_decimal_digits(n);
        assert(s.drop_last().len() == 0);
        assert(spec_decimal_value(s) == spec_decimal_value(s.drop_last()) * 10 + (s.last()
            - DIGIT_ZERO));
    } else {
        lemma_decimal_digits_value(n / 10);
        let s = spec_decimal_digits(n);
        assert_seqs_equal!(s.drop_last() == spec_decimal_digits(n / 10));
        assert(s[0] == spec_decimal_digits(n / 10)[0]);
        lemma_fundamental_div_mod(n, 10);
        assert(spec_decimal_value(s) == spec_decimal_value(s.drop_last()) * 10 + (s.last()
            - DIGIT_ZERO));
    }
}

/// Digit sequences write non-negative numbers, and a prefix never writes
/// more than the whole: each further digit multiplies the prefix's value
/// by ten before adding a non-negative digit.
pub proof fn lemma_decimal_prefix_le(s: Seq<u8>, i: int)
    requires
        spec_all_digits(s),
        0 <= i <= s.len(),
    ensures
        0 <= spec_decimal_value(s.subrange(0, i)),
        spec_decimal_value(s.subrange(0, i)) <= spec_decimal_value(s),
    decreases s.len(),
{
    if s.len() == 0 {
        assert_seqs_equal!(s.subrange(0, i) == s);
    } else if i == s.len() {
        assert_seqs_equal!(s.subrange(0, i) == s);
        lemma_decimal_prefix_le(s.drop_last(), s.len() - 1);
        assert_seqs_equal!(s.drop_last().subrange(0, s.len() - 1) == s.drop_last());
    } else {
        assert_seqs_equal!(s.subrange(0, i) == s.drop_last().subrange(0, i));
        lemma_decimal_prefix_le(s.drop_last(), i);
        assert(spec_decimal_value(s.drop_last()) * 10 >= spec_decimal_value(s.drop_last()))
            by (nonlinear_arith)
            requires
                spec_decimal_value(s.drop_last()) >= 0,
        ;
    }
}

/// Writes `n` in its canonical decimal digits.
pub fn format_u64(n: u64) -> (r: Vec<u8>)
    ensures
        r@ == spec_decimal_digits(n as int),
        spec_all_digits(r@),
        spec_decimal_value(r@) == n,
        r@.len() >= 1,
    decreases n,
{
    proof {
        lemma_decimal_digits_value(n as int);
    }
    if n < 10 {
        let mut r: Vec<u8> = Vec::new();
        r.push(DIGIT_ZERO + (n as u8));
        proof {
            assert_seqs_equal!(r@ == spec_decimal_digits(n as int));
        }
        r
    } else {
        let mut r = format_u64(n / 10);
        r.push(DIGIT_ZERO + ((n % 10) as u8));
        proof {
            assert_seqs_equal!(r@ == spec_decimal_digits(n as int));
        }
        r
    }
}

/// Reads an unsigned 64-bit number from decimal digit bytes.  Succeeds on
/// exactly the inputs that are non-empty, all digits, and in range; the
/// digits may carry leading zeros.
pub fn parse_u64(s: &Vec<u8>) -> (r: Option<u64>)
    ensures
        match r {
            Some(v) => {
                &&& s@.len() > 0
                &&& spec_all_digits(s@)
                &&& v == spec_decimal_value(s@)
            },
            None => s@.len() == 0 || !spec_all_digits(s@) || spec_decimal_value(s@) > u64::MAX,
        },
{
    if s.len() == 0 {
        return None;
    }
    let mut acc: u64 = 0;
    let mut i: usize = 0;
    while i < s.len()
        invariant
            i <= s@.len(),
            spec_all_digits(s@.subrange(0, i as int)),
            acc == spec_decimal_value(s@.subrange(0, i as int)),
        decreases s@.len() - i,
    {
        let b = s[i];
        if b < DIGIT_ZERO || b > DIGIT_ZERO + 9 {
            assert(!spec_is_digit(s@[i as int]));
            return None;
        }
        let d = b - DIGIT_ZERO;
        proof {
            assert_seqs_equal!(s@.subrange(0, i + 1).drop_last() == s@.subrange(0, i as int));
        }
        if acc > (u64::MAX - (d as u64)) / 10 {
            proof {
                let prefix = s@.subrange(0, i + 1);
                assert(spec_decimal_value(prefix) == acc * 10 + d);
                assert(acc * 10 + d > u64::MAX) by (nonlinear_arith)
                    requires
                        acc > (u64::MAX - (d as u64)) / 10,
                        0 <= d < 10,
                        acc <= u64::MAX,
                ;
                if spec_all_digits(s@) {
                    lemma_decimal_prefix_le(s@, i + 1);
                }
            }
            return None;
        }
        proof {
            assert(acc * 10 + d <= u64::MAX) by (nonlinear_arith)
                requires
                    acc <= (u64::MAX - (d as u64)) / 10,
                    0 <= d < 10,
            ;
        }
        acc = acc * 10 + (d as u64);
        i += 1;
    }
    proof {
        assert_seqs_equal!(s@.subrange(0, s@.len() as int) == s@);
    }
    Some(acc)
}

} // verus!
