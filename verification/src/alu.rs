use vstd::prelude::*;
use vstd::arithmetic::power2::{pow2, lemma2_to64, lemma_pow2_adds, lemma_pow2_pos, lemma_pow2_strictly_increases};
use vstd::bits::{lemma_u64_shl_is_mul, lemma_u32_shl_is_mul, lemma_u32_pow2_no_overflow};
use vstd::arithmetic::div_mod::{
    lemma_basic_div, lemma_small_mod, lemma_mod_multiples_basic, lemma_fundamental_div_mod,
    lemma_mod_pos_bound,
};
use vstd::arithmetic::mul::lemma_mul_is_commutative;
use vstd::bits::{lemma_u32_shr_is_div, lemma_u32_mul_pow2_le_max_iff_max_shr};
use crate::types::Word;

verus! {

/// `x` reduced modulo 2^32 into a word.
pub open spec fn wrap(x: int) -> Word {
    (x % 0x1_0000_0000) as Word
}

/// The wrapped sum of two words and whether the sum overflowed.
pub open spec fn sum_with_carry(l: Word, r: Word) -> (Word, bool) {
    (wrap(l + r), l + r > u32::MAX)
}

/// The wrapped difference `l - r - borrow_in` and whether it went below zero.
pub open spec fn difference_with_borrow(l: Word, r: Word, borrow_in: bool) -> (Word, bool) {
    let d = l - r - (if borrow_in { 1int } else { 0int });
    (wrap(d), d < 0)
}

/// The high and the low word of the full product of two words.
pub open spec fn product_halves(l: Word, r: Word) -> (Word, Word) {
    (((l * r) / 0x1_0000_0000int) as Word, wrap(l * r))
}

/// Quotient and remainder; a division by zero gives quotient zero and leaves
/// the dividend as remainder.
pub open spec fn quotient_remainder(l: Word, r: Word) -> (Word, Word) {
    if r == 0 {
        (0, l)
    } else {
        ((l / r) as Word, (l % r) as Word)
    }
}

/// `l` shifted left by `r` bits, and whether any set bit was shifted out.
pub open spec fn shifted_left(l: Word, r: Word) -> (Word, bool) {
    let p = l * pow2(r as nat);
    (wrap(p), p > u32::MAX)
}

/// `l` shifted right by `r` bits, and whether any set bit was shifted out.
pub open spec fn shifted_right(l: Word, r: Word) -> (Word, bool) {
    ((l as nat / pow2(r as nat)) as Word, l as nat % pow2(r as nat) != 0)
}

/// `u32::MAX` when `l < r`, 1 when `l > r`, 0 when they are equal.
pub open spec fn comparison(l: Word, r: Word) -> Word {
    if l < r {
        u32::MAX
    } else if l > r {
        1
    } else {
        0
    }
}

pub fn add_words(l: Word, r: Word) -> (res: (Word, bool))
    ensures
        res == sum_with_carry(l, r),
{
    let s = l as u64 + r as u64;
    ((s % 0x1_0000_0000) as u32, s > 0xFFFF_FFFF)
}

pub fn subtract_words(l: Word, r: Word, borrow_in: bool) -> (res: (Word, bool))
    ensures
        res == difference_with_borrow(l, r, borrow_in),
{
    let b: u64 = if borrow_in {
        1
    } else {
        0
    };
    let subtrahend = r as u64 + b;
    if (l as u64) < subtrahend {
        let v = (l as u64 + 0x1_0000_0000 - subtrahend) as u32;
        proof {
            let d = l - r - (if borrow_in { 1int } else { 0int });
            assert(d % 0x1_0000_0000 == d + 0x1_0000_0000);
        }
        (v, true)
    } else {
        ((l as u64 - subtrahend) as u32, false)
    }
}

pub fn multiply_words(l: Word, r: Word) -> (res: (Word, Word))
    ensures
        res == product_halves(l, r),
{
    assert(l * r <= 0xFFFF_FFFF * 0xFFFF_FFFF) by (nonlinear_arith)
        requires
            l <= 0xFFFF_FFFF,
            r <= 0xFFFF_FFFF,
    ;
    let p = l as u64 * r as u64;
    ((p / 0x1_0000_0000) as u32, (p % 0x1_0000_0000) as u32)
}

pub fn divide_words(l: Word, r: Word) -> (res: (Word, Word))
    ensures
        res == quotient_remainder(l, r),
{
    if r == 0 {
        (0, l)
    } else {
        (l / r, l % r)
    }
}

pub fn shift_left(l: Word, r: Word) -> (res: (Word, bool))
    ensures
        res == shifted_left(l, r),
{
    let ghost p = l * pow2(r as nat);
    if r >= 32 {
        proof {
            let k = pow2((r - 32) as nat);
            lemma2_to64();
            lemma_pow2_adds(32, (r - 32) as nat);
            lemma_pow2_pos((r - 32) as nat);
            assert(p == (l * k) * 0x1_0000_0000) by (nonlinear_arith)
                requires
                    p == l * pow2(r as nat),
                    pow2(r as nat) == pow2(32) * k,
                    pow2(32) == 0x1_0000_0000,
            ;
            lemma_mod_multiples_basic(l * k, 0x1_0000_0000);
            assert(p > u32::MAX <==> l != 0) by (nonlinear_arith)
                requires
                    p == (l * k) * 0x1_0000_0000,
                    k >= 1,
                    l >= 0,
            ;
        }
        (0, l != 0)
    } else {
        proof {
            lemma_u32_pow2_no_overflow(r as nat);
            assert(l * pow2(r as nat) <= 0xFFFF_FFFF * 0xFFFF_FFFF) by (nonlinear_arith)
                requires
                    l <= 0xFFFF_FFFF,
                    pow2(r as nat) <= 0xFFFF_FFFF,
            ;
            lemma_u64_shl_is_mul(l as u64, r as u64);
        }
        let w = (l as u64) << (r as u64);
        ((w % 0x1_0000_0000) as u32, w > 0xFFFF_FFFF)
    }
}

pub fn shift_right(l: Word, r: Word) -> (res: (Word, bool))
    ensures
        res == shifted_right(l, r),
{
    if r >= 32 {
        proof {
            lemma2_to64();
            if r > 32 {
                lemma_pow2_strictly_increases(32, r as nat);
            }
            lemma_basic_div(l as int, pow2(r as nat) as int);
            lemma_small_mod(l as nat, pow2(r as nat));
        }
        (0, l != 0)
    } else {
        proof {
            lemma_u32_pow2_no_overflow(r as nat);
            lemma_u32_shl_is_mul(1, r);
        }
        let d: u32 = 1u32 << r;
        (l / d, l % d != 0)
    }
}

pub fn compare_words(l: Word, r: Word) -> (res: Word)
    ensures
        res == comparison(l, r),
{
    if l < r {
        u32::MAX
    } else if l > r {
        1
    } else {
        0
    }
}

/// Addition: the wrapped sum plus 2^32 when the carry is set is the exact sum.
pub proof fn lemma_sum_law(l: Word, r: Word)
    ensures
        ({
            let (v, c) = sum_with_carry(l, r);
            v + (if c { 0x1_0000_0000int } else { 0int }) == l + r
        }),
{
}

/// Subtraction: the wrapped difference minus 2^32 when the borrow is set is
/// the exact difference `l - r - borrow_in`.
pub proof fn lemma_difference_law(l: Word, r: Word, borrow_in: bool)
    ensures
        ({
            let (v, c) = difference_with_borrow(l, r, borrow_in);
            v - (if c { 0x1_0000_0000int } else { 0int }) == l - r - (if borrow_in { 1int } else { 0int })
        }),
{
}

/// Multiplication: high word times 2^32 plus low word is the exact product.
pub proof fn lemma_product_law(l: Word, r: Word)
    ensures
        ({
            let (high, low) = product_halves(l, r);
            high * 0x1_0000_0000int + low == l * r
        }),
{
    let p = l * r;
    assert(0 <= p <= 0xFFFF_FFFF * 0xFFFF_FFFF) by (nonlinear_arith)
        requires
            p == l * r,
            0 <= l <= 0xFFFF_FFFF,
            0 <= r <= 0xFFFF_FFFF,
    ;
    lemma_fundamental_div_mod(p, 0x1_0000_0000);
    lemma_mod_pos_bound(p, 0x1_0000_0000);
}

/// Division: for a non-zero divisor, quotient times divisor plus remainder is
/// the dividend and the remainder is below the divisor; a zero divisor gives
/// quotient zero and the dividend as remainder.
pub proof fn lemma_quotient_law(l: Word, r: Word)
    ensures
        ({
            let (q, m) = quotient_remainder(l, r);
            &&& r != 0 ==> q * r + m == l && m < r
            &&& r == 0 ==> q == 0 && m == l
        }),
{
    if r != 0 {
        lemma_fundamental_div_mod(l as int, r as int);
        lemma_mod_pos_bound(l as int, r as int);
        lemma_mul_is_commutative(r as int, (l / r) as int);
    }
}

/// Left shift: below the word width it is `l << r`, with carry exactly when
/// `l` exceeds what fits when shifted (`u32::MAX >> r`); from the word width
/// on everything is shifted out.
pub proof fn lemma_shift_left_law(l: Word, r: Word)
    ensures
        ({
            let (v, c) = shifted_left(l, r);
            &&& r < 32 ==> v == l << r && c == (l > (u32::MAX >> r))
            &&& r >= 32 ==> v == 0 && c == (l != 0)
        }),
{
    if r < 32 {
        lemma_u32_pow2_no_overflow(r as nat);
        assert(l * pow2(r as nat) <= 0xFFFF_FFFF * 0xFFFF_FFFF) by (nonlinear_arith)
            requires
                l <= 0xFFFF_FFFF,
                pow2(r as nat) <= 0xFFFF_FFFF,
        ;
        lemma_u64_shl_is_mul(l as u64, r as u64);
        lemma_u32_mul_pow2_le_max_iff_max_shr(l, r, u32::MAX);
        let w = (l as u64) << (r as u64);
        assert((w as u32) == (w % 0x1_0000_0000) as u32) by (bit_vector);
        assert(((l as u64) << (r as u64)) as u32 == l << r) by (bit_vector)
            requires
                r < 32,
        ;
    } else {
        let k = pow2((r - 32) as nat);
        let p = l * pow2(r as nat);
        lemma2_to64();
        lemma_pow2_adds(32, (r - 32) as nat);
        lemma_pow2_pos((r - 32) as nat);
        assert(p == (l * k) * 0x1_0000_0000) by (nonlinear_arith)
            requires
                p == l * pow2(r as nat),
                pow2(r as nat) == pow2(32) * k,
                pow2(32) == 0x1_0000_0000,
        ;
        lemma_mod_multiples_basic(l * k, 0x1_0000_0000);
        assert(p > u32::MAX <==> l != 0) by (nonlinear_arith)
            requires
                p == (l * k) * 0x1_0000_0000,
                k >= 1,
                l >= 0,
        ;
    }
}

/// Right shift: below the word width it is `l >> r`, with carry exactly when
/// shifting back does not restore `l` (a set bit was shifted out); from the
/// word width on everything is shifted out.
pub proof fn lemma_shift_right_law(l: Word, r: Word)
    ensures
        ({
            let (v, c) = shifted_right(l, r);
            &&& r < 32 ==> v == l >> r && c == (((l >> r) << r) != l)
            &&& r >= 32 ==> v == 0 && c == (l != 0)
        }),
{
    if r < 32 {
        let d = pow2(r as nat);
        lemma_u32_pow2_no_overflow(r as nat);
        lemma_u32_shr_is_div(l, r);
        let q = l >> r;
        lemma_fundamental_div_mod(l as int, d as int);
        lemma_mod_pos_bound(l as int, d as int);
        lemma_mul_is_commutative(d as int, q as int);
        assert(q * d <= l);
        lemma_u32_shl_is_mul(q, r);
    } else {
        lemma2_to64();
        if r > 32 {
            lemma_pow2_strictly_increases(32, r as nat);
        }
        lemma_basic_div(l as int, pow2(r as nat) as int);
        lemma_small_mod(l as nat, pow2(r as nat));
    }
}

/// Comparison: zero exactly for equal words, one exactly when the left word
/// is greater, `u32::MAX` exactly when it is smaller.
pub proof fn lemma_comparison_law(l: Word, r: Word)
    ensures
        (comparison(l, r) == 0) == (l == r),
        (comparison(l, r) == 1) == (l > r),
        (comparison(l, r) == u32::MAX) == (l < r),
{
}

} // verus!
