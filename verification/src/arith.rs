//! The arithmetic of the signal path.
//!
//! Samples, gains, frequencies and filter coefficients are carried as 32-bit
//! patterns: the encoding of a single-precision value. This library moves
//! them, stores them and decides what is computed from what; the computing
//! itself is done by an arithmetic unit that the caller hands in, a function
//! from an operation and two patterns to a pattern. What each function of the
//! library computes is stated for every unit, in terms of what the unit
//! computes.

use vstd::prelude::*;

verus! {

/// An operation of the arithmetic unit.
#[derive(Clone, Copy, Debug, PartialEq, Eq, Structural)]
pub enum Op {
    /// The sum of the two operands.
    Add,
    /// The first operand less the second.
    Sub,
    /// The product of the two operands.
    Mul,
    /// The first operand divided by the second.
    Div,
    /// The sine of the first operand, in radians. The second is not read.
    Sin,
}

/// What an arithmetic unit computes: a pattern for each operation and pair of
/// operands.
pub type Arith = spec_fn(Op, u32, u32) -> u32;

/// The pattern of a silent sample: positive zero.
pub const SILENCE: u32 = 0;

/// The pattern of 1.0: the gain that changes nothing.
pub const UNITY_GAIN: u32 = 0x3f80_0000;

/// The pattern of 2.0.
pub const TWO: u32 = 0x4000_0000;

/// The pattern of the single-precision value nearest to pi.
pub const PI: u32 = 0x4049_0fdb;

/// The pattern of the single-precision machine epsilon, 2^-23.
pub const EPSILON: u32 = 0x3400_0000;

/// The unit can be asked for every operation on every pair of operands.
pub open spec fn total<F: Fn(Op, u32, u32) -> u32>(unit: &F) -> bool {
    forall|op: Op, a: u32, b: u32| #[trigger] unit.requires((op, a, b))
}

/// Whatever the unit returns is what `m` says.
pub open spec fn computes<F: Fn(Op, u32, u32) -> u32>(unit: &F, m: Arith) -> bool {
    forall|op: Op, a: u32, b: u32, r: u32| #[trigger]
        unit.ensures((op, a, b), r) ==> r == m(op, a, b)
}

/// `a + b` in the arithmetic `m`.
pub open spec fn plus(m: Arith, a: u32, b: u32) -> u32 {
    m(Op::Add, a, b)
}

/// `a - b` in the arithmetic `m`.
pub open spec fn minus(m: Arith, a: u32, b: u32) -> u32 {
    m(Op::Sub, a, b)
}

/// `a * b` in the arithmetic `m`.
pub open spec fn times(m: Arith, a: u32, b: u32) -> u32 {
    m(Op::Mul, a, b)
}

/// `a / b` in the arithmetic `m`.
pub open spec fn over(m: Arith, a: u32, b: u32) -> u32 {
    m(Op::Div, a, b)
}

/// The sine of `a` in the arithmetic `m`.
pub open spec fn sine(m: Arith, a: u32) -> u32 {
    m(Op::Sin, a, SILENCE)
}

} // verus!
