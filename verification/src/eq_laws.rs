//! What is proved of the equaliser with every gain at unity.
//!
//! In exact arithmetic it hands back its input three samples late and
//! otherwise unchanged, whatever the cutoffs are. In an arithmetic that rounds
//! each operation by no more than a given error, it hands back its input
//! three samples late and off by no more than seven times that error, as
//! long as state, input and coefficients are of ordinary size. Both are proved
//! for every arithmetic that meets the conditions stated; nothing is proved
//! here of what a given arithmetic unit rounds by.

use crate::arith::{minus, plus, times, Arith, Op, SILENCE, UNITY_GAIN};
use crate::eq::{biased_pole, pole, EQSTATE, VSA};
use crate::history::{fed, lemma_delay_is_three_samples};
use vstd::prelude::*;

verus! {

/// An exact arithmetic: addition is commutative and associative, taking away
/// what was added gives back what was there, and scaling by unity changes
/// nothing.
pub open spec fn exact(m: Arith) -> bool {
    &&& forall|a: u32, b: u32| #[trigger] plus(m, a, b) == plus(m, b, a)
    &&& forall|a: u32, b: u32, c: u32| #[trigger]
        plus(m, plus(m, a, b), c) == plus(m, a, plus(m, b, c))
    &&& forall|a: u32, b: u32| plus(m, #[trigger] minus(m, a, b), b) == a
    &&& forall|a: u32| #[trigger] times(m, a, UNITY_GAIN) == a
}

/// Arithmetic on patterns read as integers modulo 2^32, with unity standing
/// for one: sums and differences wrap, and a product is its first factor
/// where the second is unity.
pub open spec fn modular(op: Op, a: u32, b: u32) -> u32 {
    match op {
        Op::Add => ((a + b) % 0x1_0000_0000) as u32,
        Op::Sub => ((a - b) % 0x1_0000_0000) as u32,
        Op::Mul => if b == UNITY_GAIN {
            a
        } else {
            SILENCE
        },
        Op::Div => SILENCE,
        Op::Sin => SILENCE,
    }
}

/// There are exact arithmetics: the modular one is exact.
pub proof fn lemma_modular_is_exact()
    ensures
        exact(|op: Op, a: u32, b: u32| modular(op, a, b)),
{
}

/// Every gain is unity.
pub open spec fn unit_gains(e: EQSTATE) -> bool {
    e.lg == UNITY_GAIN && e.mg == UNITY_GAIN && e.hg == UNITY_GAIN
}

/// The equaliser after each of `samples` has gone in, in order.
pub open spec fn run(e: EQSTATE, samples: Seq<u32>, m: Arith) -> EQSTATE
    decreases samples.len(),
{
    if samples.len() == 0 {
        e
    } else {
        run(e, samples.drop_last(), m).processed(samples.last(), m)
    }
}

/// The sample that comes out when `samples[k]` goes in, after the samples
/// before it.
pub open spec fn output_at(e: EQSTATE, samples: Seq<u32>, k: int, m: Arith) -> u32 {
    run(e, samples.take(k), m).output(samples[k], m)
}

/// In exact arithmetic the three bands add up to the delayed input: with
/// every gain at unity, what comes out is the sample that went in three
/// samples earlier.
pub proof fn lemma_bands_add_up(e: EQSTATE, sample: u32, m: Arith)
    requires
        exact(m),
        unit_gains(e),
    ensures
        e.output(sample, m) == e.history.sdm3,
{
    // out = (l + mid) + h with mid = d - (h + l), which is (d - (h + l)) + (h + l).
    let d = e.history.sdm3;
    let l = e.low_band(sample, m);
    let h = e.high_band(sample, m);
    let mid = e.mid_band(sample, m);
    assert(e.output(sample, m) == plus(m, plus(m, l, mid), h));
    assert(plus(m, plus(m, mid, l), h) == plus(m, mid, plus(m, l, h)));
    assert(plus(m, mid, plus(m, h, l)) == d);
}

/// Processing changes neither gains nor cutoffs nor the sample rate, and the
/// history holds the last three samples that went in.
pub proof fn lemma_run_keeps_settings(e: EQSTATE, samples: Seq<u32>, m: Arith)
    ensures
        run(e, samples, m).lg == e.lg,
        run(e, samples, m).mg == e.mg,
        run(e, samples, m).hg == e.hg,
        run(e, samples, m).lf == e.lf,
        run(e, samples, m).hf == e.hf,
        run(e, samples, m).sr == e.sr,
        run(e, samples, m).history@ == fed(e.history@, samples),
    decreases samples.len(),
{
    if samples.len() > 0 {
        lemma_run_keeps_settings(e, samples.drop_last(), m);
    }
}

/// Reconstruction: in exact arithmetic and with every gain at unity, the
/// equaliser's output is its input delayed by exactly three samples. The
/// first three outputs are what the history held at the start.
pub proof fn lemma_reconstruction(e: EQSTATE, samples: Seq<u32>, k: int, m: Arith)
    requires
        exact(m),
        unit_gains(e),
        0 <= k < samples.len(),
    ensures
        k >= 3 ==> output_at(e, samples, k, m) == samples[k - 3],
        k < 3 ==> output_at(e, samples, k, m) == e.history@[2 - k],
{
    let before = samples.take(k);
    let state = run(e, before, m);
    lemma_run_keeps_settings(e, before, m);
    lemma_bands_add_up(state, samples[k], m);
    lemma_delay_is_three_samples(e.history@, before);
}

/// What a pattern is worth: a whole number of some unit small enough to
/// measure every value that occurs.
pub type Worth = spec_fn(u32) -> int;

/// `a` and `b` differ by no more than `eps`.
pub open spec fn near(a: int, b: int, eps: int) -> bool {
    -eps <= a - b <= eps
}

/// `a` is no more than `bound` in magnitude.
pub open spec fn within(a: int, bound: int) -> bool {
    -bound <= a <= bound
}

/// A rounding arithmetic: on operands worth no more than `range` in
/// magnitude, a sum and a difference are worth what they should be up to
/// `eps`, and so is a value scaled by unity.
pub open spec fn rounds_by(m: Arith, worth: Worth, eps: int, range: int) -> bool {
    &&& forall|a: u32, b: u32|
        within(worth(a), range) && within(worth(b), range) ==> near(
            worth(#[trigger] plus(m, a, b)),
            worth(a) + worth(b),
            eps,
        )
    &&& forall|a: u32, b: u32|
        within(worth(a), range) && within(worth(b), range) ==> near(
            worth(#[trigger] minus(m, a, b)),
            worth(a) - worth(b),
            eps,
        )
    &&& forall|a: u32|
        within(worth(a), range) ==> near(worth(#[trigger] times(m, a, UNITY_GAIN)), worth(a), eps)
}

/// A pattern read as a signed whole number.
pub open spec fn signed(a: u32) -> int {
    if a < 0x8000_0000 {
        a as int
    } else {
        a - 0x1_0000_0000
    }
}

/// There are rounding arithmetics: on patterns read as signed numbers of
/// no more than 2^29 in magnitude, the modular one rounds by nothing.
pub proof fn lemma_modular_rounds_by_nothing()
    ensures
        rounds_by(
            |op: Op, a: u32, b: u32| modular(op, a, b),
            |a: u32| signed(a),
            0,
            0x2000_0000,
        ),
{
    let m: Arith = |op: Op, a: u32, b: u32| modular(op, a, b);
    let worth: Worth = |a: u32| signed(a);
    assert forall|a: u32, b: u32|
        within(worth(a), 0x2000_0000) && within(worth(b), 0x2000_0000) implies near(
        worth(#[trigger] plus(m, a, b)),
        worth(a) + worth(b),
        0,
    ) by {
        lemma_wraps_to_signed(a + b, signed(a) + signed(b));
    }
    assert forall|a: u32, b: u32|
        within(worth(a), 0x2000_0000) && within(worth(b), 0x2000_0000) implies near(
        worth(#[trigger] minus(m, a, b)),
        worth(a) - worth(b),
        0,
    ) by {
        lemma_wraps_to_signed(a - b, signed(a) - signed(b));
    }
}

/// A number that differs from a small signed number by a multiple of 2^32
/// wraps to the pattern of that signed number.
proof fn lemma_wraps_to_signed(x: int, v: int)
    requires
        -0x8000_0000 <= v < 0x8000_0000,
        x == v || x == v + 0x1_0000_0000 || x == v + 0x2_0000_0000 || x == v - 0x1_0000_0000,
    ensures
        signed((x % 0x1_0000_0000) as u32) == v,
{
}

/// In a rounding arithmetic the three bands add up to the delayed input up
/// to seven roundings: with every gain at unity, what comes out is worth
/// what went in three samples earlier, give or take seven times the error of
/// one operation. The delayed input and the outputs of the two cascades
/// must be worth no more than `bound`, and the arithmetic must round by no
/// more than `eps` up to three times that and six times `eps`.
pub proof fn lemma_bands_add_up_to_rounding(
    e: EQSTATE,
    sample: u32,
    m: Arith,
    worth: Worth,
    eps: int,
    bound: int,
    range: int,
)
    requires
        unit_gains(e),
        0 <= eps,
        0 <= bound,
        3 * bound + 6 * eps <= range,
        rounds_by(m, worth, eps, range),
        within(worth(e.history.sdm3), bound),
        within(worth(e.low_stages(sample, m).3), bound),
        within(worth(e.high_stages(sample, m).3), bound),
    ensures
        near(worth(e.output(sample, m)), worth(e.history.sdm3), 7 * eps),
{
    let d = e.history.sdm3;
    let l = e.low_band(sample, m);
    let h = e.high_band(sample, m);
    let both = plus(m, h, l);
    let mid = e.mid_band(sample, m);
    let l1 = times(m, l, UNITY_GAIN);
    let m1 = times(m, mid, UNITY_GAIN);
    let h1 = times(m, h, UNITY_GAIN);
    let low_mid = plus(m, l1, m1);
    assert(h == minus(m, d, e.high_stages(sample, m).3));
    assert(within(worth(h), 2 * bound + eps));
    assert(within(worth(both), 3 * bound + 2 * eps));
    assert(mid == minus(m, d, both));
    assert(within(worth(mid), 2 * bound + 3 * eps));
    assert(within(worth(l1), bound + eps));
    assert(within(worth(m1), 2 * bound + 4 * eps));
    assert(within(worth(h1), 2 * bound + 2 * eps));
    assert(within(worth(low_mid), bound + 6 * eps));
    assert(e.output(sample, m) == plus(m, low_mid, h1));
}

/// Reconstruction up to rounding: in a rounding arithmetic and with every
/// gain at unity, the sample that comes out when `samples[k]` goes in is
/// worth what went in three samples earlier (or, for the first three, what
/// the history held at the start), give or take seven times the error of one
/// operation. The outputs of the two cascades at that step, and the sample
/// handed back, must be in the range where the arithmetic is that accurate.
pub proof fn lemma_reconstruction_up_to_rounding(
    e: EQSTATE,
    samples: Seq<u32>,
    k: int,
    m: Arith,
    worth: Worth,
    eps: int,
    bound: int,
    range: int,
)
    requires
        unit_gains(e),
        0 <= k < samples.len(),
        0 <= eps,
        0 <= bound,
        3 * bound + 6 * eps <= range,
        rounds_by(m, worth, eps, range),
        within(worth(run(e, samples.take(k), m).low_stages(samples[k], m).3), bound),
        within(worth(run(e, samples.take(k), m).high_stages(samples[k], m).3), bound),
        k >= 3 ==> within(worth(samples[k - 3]), bound),
        k < 3 ==> within(worth(e.history@[2 - k]), bound),
    ensures
        k >= 3 ==> near(worth(output_at(e, samples, k, m)), worth(samples[k - 3]), 7 * eps),
        k < 3 ==> near(worth(output_at(e, samples, k, m)), worth(e.history@[2 - k]), 7 * eps),
{
    let before = samples.take(k);
    let state = run(e, before, m);
    lemma_run_keeps_settings(e, before, m);
    lemma_delay_is_three_samples(e.history@, before);
    lemma_bands_add_up_to_rounding(state, samples[k], m, worth, eps, bound, range);
}

/// Products by a coefficient are rounded too: where the first factor is
/// worth between nought and twice unity and the second no more than `range`
/// in magnitude, the product is worth the product of what the factors are
/// worth, counted in units of what unity is worth, up to `eps`.
pub open spec fn rounds_products_by(m: Arith, worth: Worth, eps: int, range: int) -> bool {
    forall|a: u32, b: u32|
        0 <= worth(a) <= 2 * worth(UNITY_GAIN) && within(worth(b), range) ==> near(
            worth(#[trigger] times(m, a, b)) * worth(UNITY_GAIN),
            worth(a) * worth(b),
            eps * worth(UNITY_GAIN),
        )
}

/// A product of a coefficient between nought and two by a value of no more
/// than `size` is worth no more than twice `size`, and one rounding.
proof fn lemma_product_is_bounded(
    m: Arith,
    worth: Worth,
    eps: int,
    range: int,
    coeff: u32,
    value: u32,
    size: int,
)
    requires
        0 <= eps,
        0 <= size <= range,
        0 < worth(UNITY_GAIN),
        rounds_products_by(m, worth, eps, range),
        0 <= worth(coeff) <= 2 * worth(UNITY_GAIN),
        within(worth(value), size),
    ensures
        within(worth(times(m, coeff, value)), 2 * size + eps),
{
    let one = worth(UNITY_GAIN);
    let c = worth(coeff);
    let v = worth(value);
    let p = worth(times(m, coeff, value));
    assert(near(p * one, c * v, eps * one));
    assert(-(2 * size) * one <= c * v <= (2 * size) * one) by (nonlinear_arith)
        requires
            0 <= c <= 2 * one,
            -size <= v <= size,
            0 <= size,
    ;
    assert(-(2 * size + eps) <= p <= 2 * size + eps) by (nonlinear_arith)
        requires
            0 < one,
            -(eps * one) <= p * one - c * v <= eps * one,
            -(2 * size) * one <= c * v <= (2 * size) * one,
    ;
}

/// One step of a stage with a coefficient between nought and two: from a
/// state of no more than `a` and an input of no more than `b`, the new state
/// is worth no more than `3a + 2b` and six roundings, bias or no bias.
proof fn lemma_stage_is_bounded(
    m: Arith,
    worth: Worth,
    eps: int,
    range: int,
    state: u32,
    coeff: u32,
    input: u32,
    a: int,
    b: int,
)
    requires
        0 <= eps,
        0 <= a,
        0 <= b,
        0 < worth(UNITY_GAIN),
        3 * a + 2 * b + 6 * eps <= range,
        rounds_by(m, worth, eps, range),
        rounds_products_by(m, worth, eps, range),
        within(worth(VSA), eps),
        0 <= worth(coeff) <= 2 * worth(UNITY_GAIN),
        within(worth(state), a),
        within(worth(input), b),
    ensures
        within(worth(pole(m, state, coeff, input)), 3 * a + 2 * b + 4 * eps),
        within(worth(biased_pole(m, state, coeff, input)), 3 * a + 2 * b + 6 * eps),
{
    let error = minus(m, input, state);
    assert(within(worth(error), a + b + eps));
    lemma_product_is_bounded(m, worth, eps, range, coeff, error, a + b + eps);
    let change = times(m, coeff, error);
    assert(within(worth(change), 2 * a + 2 * b + 3 * eps));
    let biased = plus(m, change, VSA);
    assert(within(worth(biased), 2 * a + 2 * b + 5 * eps));
}

/// With every gain at unity, the equaliser passes its input three samples
/// late up to rounding, whatever its state and its cutoffs are, as long as
/// they are of ordinary size. Counted in units of what unity is worth: the
/// sample, the delayed sample and the stages of both cascades are no more
/// than one in magnitude, and both coefficients lie between nought and two
/// (as they do for cutoffs below half the sample rate). In an arithmetic that
/// rounds sums, differences and products by no more than `eps` on values of
/// up to 183 and 234 times `eps`, and in which the bias is worth no more
/// than `eps`, what comes out is worth what went in three samples earlier,
/// give or take seven times `eps`.
pub proof fn lemma_unit_gains_pass_the_input_up_to_rounding(
    e: EQSTATE,
    sample: u32,
    m: Arith,
    worth: Worth,
    eps: int,
    range: int,
)
    requires
        unit_gains(e),
        0 <= eps,
        0 < worth(UNITY_GAIN),
        183 * worth(UNITY_GAIN) + 234 * eps <= range,
        rounds_by(m, worth, eps, range),
        rounds_products_by(m, worth, eps, range),
        within(worth(VSA), eps),
        0 <= worth(e.lf) <= 2 * worth(UNITY_GAIN),
        0 <= worth(e.hf) <= 2 * worth(UNITY_GAIN),
        within(worth(sample), worth(UNITY_GAIN)),
        within(worth(e.history.sdm3), worth(UNITY_GAIN)),
        within(worth(e.f1p0), worth(UNITY_GAIN)),
        within(worth(e.f1p1), worth(UNITY_GAIN)),
        within(worth(e.f1p2), worth(UNITY_GAIN)),
        within(worth(e.f1p3), worth(UNITY_GAIN)),
        within(worth(e.f2p0), worth(UNITY_GAIN)),
        within(worth(e.f2p1), worth(UNITY_GAIN)),
        within(worth(e.f2p2), worth(UNITY_GAIN)),
        within(worth(e.f2p3), worth(UNITY_GAIN)),
    ensures
        near(worth(e.output(sample, m)), worth(e.history.sdm3), 7 * eps),
{
    let one = worth(UNITY_GAIN);
    let low = e.low_stages(sample, m);
    lemma_stage_is_bounded(m, worth, eps, range, e.f1p0, e.lf, sample, one, one);
    lemma_stage_is_bounded(m, worth, eps, range, e.f1p1, e.lf, low.0, one, 5 * one + 6 * eps);
    lemma_stage_is_bounded(m, worth, eps, range, e.f1p2, e.lf, low.1, one, 13 * one + 16 * eps);
    lemma_stage_is_bounded(m, worth, eps, range, e.f1p3, e.lf, low.2, one, 29 * one + 36 * eps);
    let high = e.high_stages(sample, m);
    lemma_stage_is_bounded(m, worth, eps, range, e.f2p0, e.hf, sample, one, one);
    lemma_stage_is_bounded(m, worth, eps, range, e.f2p1, e.hf, high.0, one, 5 * one + 6 * eps);
    lemma_stage_is_bounded(m, worth, eps, range, e.f2p2, e.hf, high.1, one, 13 * one + 16 * eps);
    lemma_stage_is_bounded(m, worth, eps, range, e.f2p3, e.hf, high.2, one, 29 * one + 36 * eps);
    lemma_bands_add_up_to_rounding(e, sample, m, worth, eps, 61 * one + 76 * eps, range);
}

} // verus!
