//! Fixed-point scalars: an `i64` counting units of 1/256.
//!
//! `256` in this representation is the real number `1.0`; `128` is `0.5`.
//! Addition is ordinary integer addition. Multiplying two fixed-point
//! numbers yields a value with denominator 256 * 256, so the product of
//! the raw integers is divided by 256; [`mul_fix`] demands that this
//! division be exact, which keeps every coordinate in the library an
//! exact fixed-point number.

use vstd::prelude::*;

verus! {

/// The fixed-point representation of the real number one.
pub const FIX_ONE: i64 = 256;

/// Raw operands admitted by [`mul_fix`]: comfortably inside the range
/// where a product of two operands still fits in an `i64`.
pub const FIX_MUL_BOUND: i64 = 0x4000_0000;

/// Whether `x` is an admissible operand for [`mul_fix`].
pub open spec fn mul_operand(x: int) -> bool {
    -FIX_MUL_BOUND <= x <= FIX_MUL_BOUND
}

/// The exact fixed-point product of `a` and `b`, as a mathematical integer.
pub open spec fn fix_mul(a: int, b: int) -> int {
    (a * b) / (FIX_ONE as int)
}

/// Fixed-point multiplication. The product must be exactly representable:
/// the raw product has to be a multiple of 256.
pub fn mul_fix(a: i64, b: i64) -> (r: i64)
    requires
        mul_operand(a as int),
        mul_operand(b as int),
        (a * b) % (FIX_ONE as int) == 0,
    ensures
        r == fix_mul(a as int, b as int),
        256 * r == a * b,
{
    proof {
        assert(-0x1000_0000_0000_0000 <= (a as int) * (b as int) <= 0x1000_0000_0000_0000)
            by (nonlinear_arith)
            requires
                mul_operand(a as int),
                mul_operand(b as int),
        ;
    }
    let prod: i64 = a * b;
    if prod >= 0 {
        let q: u64 = (prod as u64) / 256;
        proof {
            assert(256 * ((prod as int) / 256) == prod as int) by {
                vstd::arithmetic::div_mod::lemma_fundamental_div_mod(prod as int, 256);
            }
        }
        q as i64
    } else {
        let m: u64 = (-prod) as u64;
        let q: u64 = m / 256;
        proof {
            assert((m as int) % 256 == 0) by {
                assert(m as int == -(prod as int));
                assert((prod as int) % 256 == 0);
            }
            assert(256 * ((m as int) / 256) == m as int) by {
                vstd::arithmetic::div_mod::lemma_fundamental_div_mod(m as int, 256);
            }
            assert((prod as int) / 256 == -((m as int) / 256)) by {
                assert(prod as int == 256 * (-((m as int) / 256)));
                vstd::arithmetic::div_mod::lemma_div_multiples_vanish(
                    -((m as int) / 256),
                    256,
                );
            }
        }
        -(q as i64)
    }
}

} // verus!
