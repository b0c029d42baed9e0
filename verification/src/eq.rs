//! A three-band equaliser. Two cascades of four one-pole low-pass filters
//! split the signal: the first gives the low band, the complement of the
//! second the high band, and what neither holds is the mid band. Each band has
//! its own gain. The unfiltered signal is delayed by three samples before the
//! bands are taken from it, so that all three line up with the cascades.

use crate::arith::{
    computes, minus, over, plus, sine, times, total, Arith, Op, EPSILON, PI, SILENCE, TWO,
    UNITY_GAIN,
};
use crate::history::{shifted, History};
use vstd::prelude::*;

verus! {

/// The pattern of 880.0: the cutoff of the low band after `init`, in Hz.
pub const LOWFREQ: u32 = 0x445c_0000;

/// The pattern of 5000.0: the cutoff of the high band after `init`, in Hz.
pub const HIGHFREQ: u32 = 0x459c_4000;

/// The bias that the first stage of each cascade adds with every sample, so
/// that in silence its state does not decay into the denormal range.
pub const VSA: u32 = EPSILON;

/// The recursion coefficient of a one-pole filter with its cutoff at
/// `frequency`: `2 * sin(pi * (frequency / samplerate))`.
pub open spec fn coefficient(m: Arith, frequency: u32, samplerate: u32) -> u32 {
    times(m, TWO, sine(m, times(m, PI, over(m, frequency, samplerate))))
}

/// One step of a one-pole low-pass: `state + coeff * (input - state)`.
pub open spec fn pole(m: Arith, state: u32, coeff: u32, input: u32) -> u32 {
    plus(m, state, times(m, coeff, minus(m, input, state)))
}

/// One step of the first stage of a cascade, which adds the bias:
/// `state + (coeff * (input - state) + VSA)`.
pub open spec fn biased_pole(m: Arith, state: u32, coeff: u32, input: u32) -> u32 {
    plus(m, state, plus(m, times(m, coeff, minus(m, input, state)), VSA))
}

/// The state of the equaliser. Every field is a pattern.
#[derive(Clone, Copy, Debug)]
pub struct EQSTATE {
    /// Coefficient of the low cascade.
    pub lf: u32,
    /// The four stages of the low cascade, first to last.
    pub f1p0: u32,
    pub f1p1: u32,
    pub f1p2: u32,
    pub f1p3: u32,
    /// Coefficient of the high cascade.
    pub hf: u32,
    /// The four stages of the high cascade, first to last.
    pub f2p0: u32,
    pub f2p1: u32,
    pub f2p2: u32,
    pub f2p3: u32,
    /// The last three input samples.
    pub history: History,
    /// Gain of the low band.
    pub lg: u32,
    /// Gain of the mid band.
    pub mg: u32,
    /// Gain of the high band.
    pub hg: u32,
    /// Sample rate, in Hz.
    pub sr: u32,
}

impl EQSTATE {
    /// The low cascade's stages after `sample` has gone in.
    pub open spec fn low_stages(self, sample: u32, m: Arith) -> (u32, u32, u32, u32) {
        let first = biased_pole(m, self.f1p0, self.lf, sample);
        let second = pole(m, self.f1p1, self.lf, first);
        let third = pole(m, self.f1p2, self.lf, second);
        let fourth = pole(m, self.f1p3, self.lf, third);
        (first, second, third, fourth)
    }

    /// The high cascade's stages after `sample` has gone in.
    pub open spec fn high_stages(self, sample: u32, m: Arith) -> (u32, u32, u32, u32) {
        let first = biased_pole(m, self.f2p0, self.hf, sample);
        let second = pole(m, self.f2p1, self.hf, first);
        let third = pole(m, self.f2p2, self.hf, second);
        let fourth = pole(m, self.f2p3, self.hf, third);
        (first, second, third, fourth)
    }

    /// The low band of the sample that now comes out, before its gain: the
    /// last stage of the low cascade.
    pub open spec fn low_band(self, sample: u32, m: Arith) -> u32 {
        self.low_stages(sample, m).3
    }

    /// The high band, before its gain: the delayed input less the last stage
    /// of the high cascade.
    pub open spec fn high_band(self, sample: u32, m: Arith) -> u32 {
        minus(m, self.history.sdm3, self.high_stages(sample, m).3)
    }

    /// The mid band, before its gain: the delayed input less the two other
    /// bands.
    pub open spec fn mid_band(self, sample: u32, m: Arith) -> u32 {
        minus(
            m,
            self.history.sdm3,
            plus(m, self.high_band(sample, m), self.low_band(sample, m)),
        )
    }

    /// The sample that comes out when `sample` goes in: the three bands, each
    /// times its gain, summed low, mid, high.
    pub open spec fn output(self, sample: u32, m: Arith) -> u32 {
        plus(
            m,
            plus(
                m,
                times(m, self.low_band(sample, m), self.lg),
                times(m, self.mid_band(sample, m), self.mg),
            ),
            times(m, self.high_band(sample, m), self.hg),
        )
    }

    /// The equaliser after `sample` has gone in: both cascades have moved on,
    /// and the history has taken the sample. Coefficients, gains and sample
    /// rate are as before.
    pub open spec fn processed(self, sample: u32, m: Arith) -> EQSTATE {
        let low = self.low_stages(sample, m);
        let high = self.high_stages(sample, m);
        EQSTATE {
            f1p0: low.0,
            f1p1: low.1,
            f1p2: low.2,
            f1p3: low.3,
            f2p0: high.0,
            f2p1: high.1,
            f2p2: high.2,
            f2p3: high.3,
            history: History {
                sdm1: sample,
                sdm2: self.history.sdm1,
                sdm3: self.history.sdm2,
            },
            ..self
        }
    }
}

impl Default for EQSTATE {
    /// An equaliser at rest: filters and history silent, every gain at
    /// unity. Coefficients and sample rate are zero until `init` sets them.
    fn default() -> (eq: Self)
        ensures
            eq == (EQSTATE {
                lf: SILENCE,
                f1p0: SILENCE,
                f1p1: SILENCE,
                f1p2: SILENCE,
                f1p3: SILENCE,
                hf: SILENCE,
                f2p0: SILENCE,
                f2p1: SILENCE,
                f2p2: SILENCE,
                f2p3: SILENCE,
                history: History { sdm1: SILENCE, sdm2: SILENCE, sdm3: SILENCE },
                lg: UNITY_GAIN,
                mg: UNITY_GAIN,
                hg: UNITY_GAIN,
                sr: SILENCE,
            }),
    {
        EQSTATE {
            lf: SILENCE,
            f1p0: SILENCE,
            f1p1: SILENCE,
            f1p2: SILENCE,
            f1p3: SILENCE,
            hf: SILENCE,
            f2p0: SILENCE,
            f2p1: SILENCE,
            f2p2: SILENCE,
            f2p3: SILENCE,
            history: History::new(),
            lg: UNITY_GAIN,
            mg: UNITY_GAIN,
            hg: UNITY_GAIN,
            sr: SILENCE,
        }
    }
}

impl EQSTATE {
    /// Takes the sample rate, sets every gain to unity and the two cutoffs to
    /// `LOWFREQ` and `HIGHFREQ`. The filters and the history keep their state.
    pub fn init<F: Fn(Op, u32, u32) -> u32>(&mut self, samplerate: u32, unit: &F)
        requires
            total(unit),
        ensures
            forall|m: Arith| #[trigger]
                computes(unit, m) ==> *final(self) == (EQSTATE {
                    sr: samplerate,
                    lg: UNITY_GAIN,
                    mg: UNITY_GAIN,
                    hg: UNITY_GAIN,
                    hf: coefficient(m, HIGHFREQ, samplerate),
                    lf: coefficient(m, LOWFREQ, samplerate),
                    ..*old(self)
                }),
            *final(self) == (EQSTATE {
                sr: samplerate,
                lg: UNITY_GAIN,
                mg: UNITY_GAIN,
                hg: UNITY_GAIN,
                hf: final(self).hf,
                lf: final(self).lf,
                ..*old(self)
            }),
    {
        self.sr = samplerate;

        self.lg = UNITY_GAIN;
        self.mg = UNITY_GAIN;
        self.hg = UNITY_GAIN;

        self.set_highband_frequency(HIGHFREQ, unit);
        self.set_lowband_frequency(LOWFREQ, unit);
    }

    /// Puts the cutoff of the low band at `frequency`. Nothing is checked: at
    /// or above half the sample rate the filter is unstable.
    pub fn set_lowband_frequency<F: Fn(Op, u32, u32) -> u32>(&mut self, frequency: u32, unit: &F)
        requires
            total(unit),
        ensures
            forall|m: Arith| #[trigger]
                computes(unit, m) ==> *final(self) == (EQSTATE {
                    lf: coefficient(m, frequency, old(self).sr),
                    ..*old(self)
                }),
            *final(self) == (EQSTATE { lf: final(self).lf, ..*old(self) }),
    {
        self.lf = self.calculate_bandpass_frequency(frequency, unit);
    }

    /// Puts the cutoff of the high band at `frequency`. Nothing is checked: at
    /// or above half the sample rate the filter is unstable.
    pub fn set_highband_frequency<F: Fn(Op, u32, u32) -> u32>(&mut self, frequency: u32, unit: &F)
        requires
            total(unit),
        ensures
            forall|m: Arith| #[trigger]
                computes(unit, m) ==> *final(self) == (EQSTATE {
                    hf: coefficient(m, frequency, old(self).sr),
                    ..*old(self)
                }),
            *final(self) == (EQSTATE { hf: final(self).hf, ..*old(self) }),
    {
        self.hf = self.calculate_bandpass_frequency(frequency, unit);
    }

    /// The coefficient for a cutoff at `frequency`, at this equaliser's sample
    /// rate.
    pub fn calculate_bandpass_frequency<F: Fn(Op, u32, u32) -> u32>(
        &self,
        frequency: u32,
        unit: &F,
    ) -> (coeff: u32)
        requires
            total(unit),
        ensures
            forall|m: Arith| #[trigger]
                computes(unit, m) ==> coeff == coefficient(m, frequency, self.sr),
    {
        let ratio: u32 = unit(Op::Div, frequency, self.sr);
        let angle: u32 = unit(Op::Mul, PI, ratio);
        let sin: u32 = unit(Op::Sin, angle, SILENCE);
        unit(Op::Mul, TWO, sin)
    }

    /// One sample through the equaliser: `sample` goes in, and in its place
    /// comes the equalised sample that went in three samples earlier. The
    /// reference handed back is `sample` itself.
    pub fn process_3band<'a, F: Fn(Op, u32, u32) -> u32>(
        &'a mut self,
        sample: &'a mut u32,
        unit: &F,
    ) -> (out: &'a mut u32)
        requires
            total(unit),
        ensures
            forall|m: Arith| #[trigger]
                computes(unit, m) ==> {
                    &&& *final(self) == old(self).processed(*old(sample), m)
                    &&& *out == old(self).output(*old(sample), m)
                },
            *final(sample) == *final(out),
            final(self).history@ == shifted(old(self).history@, *old(sample)),
            final(self).lf == old(self).lf,
            final(self).hf == old(self).hf,
            final(self).lg == old(self).lg,
            final(self).mg == old(self).mg,
            final(self).hg == old(self).hg,
            final(self).sr == old(self).sr,
    {
        let input: u32 = *sample;

        self.f1p0 = step_biased(self.f1p0, self.lf, input, unit);
        self.f1p1 = step(self.f1p1, self.lf, self.f1p0, unit);
        self.f1p2 = step(self.f1p2, self.lf, self.f1p1, unit);
        self.f1p3 = step(self.f1p3, self.lf, self.f1p2, unit);

        let l: u32 = self.f1p3;

        self.f2p0 = step_biased(self.f2p0, self.hf, input, unit);
        self.f2p1 = step(self.f2p1, self.hf, self.f2p0, unit);
        self.f2p2 = step(self.f2p2, self.hf, self.f2p1, unit);
        self.f2p3 = step(self.f2p3, self.hf, self.f2p2, unit);

        let delayed: u32 = self.history.delayed();
        let h: u32 = unit(Op::Sub, delayed, self.f2p3);

        let both: u32 = unit(Op::Add, h, l);
        let mid: u32 = unit(Op::Sub, delayed, both);

        let l: u32 = unit(Op::Mul, l, self.lg);
        let mid: u32 = unit(Op::Mul, mid, self.mg);
        let h: u32 = unit(Op::Mul, h, self.hg);

        self.history.shift(input);

        let low_mid: u32 = unit(Op::Add, l, mid);
        *sample = unit(Op::Add, low_mid, h);

        sample
    }
}

/// One step of a one-pole low-pass.
fn step<F: Fn(Op, u32, u32) -> u32>(state: u32, coeff: u32, input: u32, unit: &F) -> (next: u32)
    requires
        total(unit),
    ensures
        forall|m: Arith| #[trigger] computes(unit, m) ==> next == pole(m, state, coeff, input),
{
    let error: u32 = unit(Op::Sub, input, state);
    let change: u32 = unit(Op::Mul, coeff, error);
    unit(Op::Add, state, change)
}

/// One step of the first stage of a cascade.
fn step_biased<F: Fn(Op, u32, u32) -> u32>(
    state: u32,
    coeff: u32,
    input: u32,
    unit: &F,
) -> (next: u32)
    requires
        total(unit),
    ensures
        forall|m: Arith| #[trigger]
            computes(unit, m) ==> next == biased_pole(m, state, coeff, input),
{
    let error: u32 = unit(Op::Sub, input, state);
    let change: u32 = unit(Op::Mul, coeff, error);
    let biased: u32 = unit(Op::Add, change, VSA);
    unit(Op::Add, state, biased)
}

} // verus!
