//! A small verified calculator over 32-bit signed integers: addition,
//! subtraction, multiplication, and truncating division and remainder with a
//! guarded zero-divisor path. Division by zero is reported as an explicit
//! error by `try_divide` and `try_modulo`; `divide` and `modulo` fold it into
//! the sentinel result `0`, so that a caller who wants to tell the two apart
//! uses the `try_` forms.

use vstd::arithmetic::div_mod::{
    lemma_div_is_ordered_by_denominator, lemma_div_nonincreasing, lemma_div_pos_is_pos,
    lemma_fundamental_div_mod, lemma_mod_division_less_than_divisor,
};
use vstd::arithmetic::mul::{lemma_mul_basics, lemma_mul_is_commutative, lemma_mul_unary_negation};
use vstd::prelude::*;

verus! {

/// The absolute value of an integer.
pub open spec fn magnitude(a: int) -> int {
    if a < 0 {
        -a
    } else {
        a
    }
}

/// The sum of two integers.
pub open spec fn sum_of(a: int, b: int) -> int {
    a + b
}

/// The difference of two integers.
pub open spec fn difference_of(a: int, b: int) -> int {
    a - b
}

/// The product of two integers.
pub open spec fn product_of(a: int, b: int) -> int {
    a * b
}

/// The quotient of truncating division: the magnitudes are divided and the
/// quotient rounds toward zero, so it is negative exactly when the operands
/// have opposite signs and the division is not exact at zero.
pub open spec fn trunc_div(a: int, b: int) -> int
    recommends
        b != 0,
{
    if a == 0 {
        0
    } else if (a < 0) == (b < 0) {
        magnitude(a) / magnitude(b)
    } else {
        -(magnitude(a) / magnitude(b))
    }
}

/// The remainder of truncating division: its magnitude is the remainder of
/// the magnitudes, and its sign follows the dividend `a`.
pub open spec fn trunc_rem(a: int, b: int) -> int
    recommends
        b != 0,
{
    if a == 0 {
        0
    } else if a < 0 {
        -(magnitude(a) % magnitude(b))
    } else {
        a % magnitude(b)
    }
}

/// The one failure the calculator can report: a division or remainder was
/// asked for with a zero divisor.
#[derive(Clone, Copy, Debug, PartialEq, Eq, Structural)]
pub enum ArithError {
    DivisionByZero,
}

/// Adds two integers. The operands must not overflow the 32-bit range.
pub fn add(a: i32, b: i32) -> (r: i32)
    requires
        i32::MIN <= a + b <= i32::MAX,
    ensures
        r == sum_of(a as int, b as int),
{
    a + b
}

/// Subtracts `b` from `a`. The difference must not overflow the 32-bit range.
pub fn subtract(a: i32, b: i32) -> (r: i32)
    requires
        i32::MIN <= a - b <= i32::MAX,
    ensures
        r == difference_of(a as int, b as int),
{
    a - b
}

/// Multiplies two integers. The product must not overflow the 32-bit range.
pub fn multiply(a: i32, b: i32) -> (r: i32)
    requires
        i32::MIN <= a * b <= i32::MAX,
    ensures
        r == product_of(a as int, b as int),
{
    a * b
}

/// Truncating division that reports a zero divisor as an error instead of
/// folding it into the result. The one quotient that does not fit in 32 bits,
/// `i32::MIN / -1`, is ruled out.
pub fn try_divide(a: i32, b: i32) -> (r: Result<i32, ArithError>)
    requires
        !(a == i32::MIN && b == -1),
    ensures
        b != 0 ==> (r matches Ok(q) && q == trunc_div(a as int, b as int)),
        b == 0 ==> (r matches Err(e) && e == ArithError::DivisionByZero),
{
    proof {
        if b != 0 {
            lemma_trunc_div_fits_i32(a as int, b as int);
        }
    }
    match a.checked_div(b) {
        Some(q) => Ok(q),
        None => Err(ArithError::DivisionByZero),
    }
}

/// Truncating remainder that reports a zero divisor as an error instead of
/// folding it into the result. The pair `(i32::MIN, -1)`, whose quotient
/// overflows on the way to the remainder, is ruled out.
pub fn try_modulo(a: i32, b: i32) -> (r: Result<i32, ArithError>)
    requires
        !(a == i32::MIN && b == -1),
    ensures
        b != 0 ==> (r matches Ok(q) && q == trunc_rem(a as int, b as int)),
        b == 0 ==> (r matches Err(e) && e == ArithError::DivisionByZero),
{
    proof {
        if b != 0 {
            lemma_trunc_rem_fits_i32(a as int, b as int);
        }
    }
    match a.checked_rem(b) {
        Some(q) => Ok(q),
        None => Err(ArithError::DivisionByZero),
    }
}

/// Truncating division with a guarded zero divisor: dividing by zero yields
/// the sentinel `0` in place of a quotient.
pub fn divide(a: i32, b: i32) -> (r: i32)
    requires
        !(a == i32::MIN && b == -1),
    ensures
        b != 0 ==> r == trunc_div(a as int, b as int),
        b == 0 ==> r == 0,
{
    match try_divide(a, b) {
        Ok(q) => q,
        Err(_) => 0,
    }
}

/// Truncating remainder with a guarded zero divisor: a zero divisor yields
/// the sentinel `0` in place of a remainder.
pub fn modulo(a: i32, b: i32) -> (r: i32)
    requires
        !(a == i32::MIN && b == -1),
    ensures
        b != 0 ==> r == trunc_rem(a as int, b as int),
        b == 0 ==> r == 0,
{
    match try_modulo(a, b) {
        Ok(q) => q,
        Err(_) => 0,
    }
}

/// For 32-bit operands with a nonzero divisor, the truncating quotient stays
/// in the 32-bit range as long as it is not `i32::MIN / -1`.
proof fn lemma_trunc_div_fits_i32(a: int, b: int)
    requires
        i32::MIN <= a <= i32::MAX,
        i32::MIN <= b <= i32::MAX,
        b != 0,
        !(a == i32::MIN && b == -1),
    ensures
        i32::MIN <= trunc_div(a, b) <= i32::MAX,
{
    let x = magnitude(a);
    let d = magnitude(b);
    if a != 0 {
        lemma_div_pos_is_pos(x, d);
        lemma_div_nonincreasing(x, d);
        if a == i32::MIN && (a < 0) == (b < 0) {
            lemma_div_is_ordered_by_denominator(x, 2, d);
        }
    }
}

/// For 32-bit operands with a nonzero divisor, the truncating remainder stays
/// in the 32-bit range: its magnitude is below the divisor's.
proof fn lemma_trunc_rem_fits_i32(a: int, b: int)
    requires
        i32::MIN <= a <= i32::MAX,
        i32::MIN <= b <= i32::MAX,
        b != 0,
    ensures
        i32::MIN <= trunc_rem(a, b) <= i32::MAX,
{
    if a != 0 {
        lemma_mod_division_less_than_divisor(magnitude(a), magnitude(b));
    }
}

/// Truncating division identity: for a nonzero divisor the quotient and
/// remainder reassemble the dividend.
pub proof fn lemma_division_identity(a: int, b: int)
    requires
        b != 0,
    ensures
        trunc_div(a, b) * b + trunc_rem(a, b) == a,
{
    if a != 0 {
        let x = magnitude(a);
        let d = magnitude(b);
        let q = x / d;
        lemma_fundamental_div_mod(x, d);
        lemma_mul_is_commutative(d, q);
        lemma_mul_unary_negation(q, b);
    }
}

/// Addition is commutative: the operands of a sum can be exchanged.
pub proof fn lemma_add_commutative(a: int, b: int)
    ensures
        sum_of(a, b) == sum_of(b, a),
{
}

/// Multiplication is commutative: the operands of a product can be exchanged.
pub proof fn lemma_multiply_commutative(a: int, b: int)
    ensures
        product_of(a, b) == product_of(b, a),
{
    lemma_mul_is_commutative(a, b);
}

/// Exchanging the operands of a difference negates it.
pub proof fn lemma_subtract_antisymmetric(a: int, b: int)
    ensures
        difference_of(a, b) == -difference_of(b, a),
{
}

/// Zero is the identity of addition, one is the identity of multiplication,
/// and a zero factor makes the product zero.
pub proof fn lemma_identity_operands(a: int)
    ensures
        sum_of(a, 0) == a,
        product_of(a, 1) == a,
        product_of(a, 0) == 0,
{
    lemma_mul_basics(a);
}


} // verus!
