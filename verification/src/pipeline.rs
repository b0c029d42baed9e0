//! The signal path of one sample: through the equaliser, then through the
//! tape loop.

use crate::arith::{computes, plus, total, Arith, Op};
use crate::eq::EQSTATE;
use crate::history::shifted;
use crate::tapeloop::{Tape, TAPESTATE};
use crate::transport::Transport;
use vstd::prelude::*;

verus! {

impl Tape {
    /// This tape after one sample has passed: the head has moved as `mode`
    /// says and, unless the transport is idle, `sample` has been recorded
    /// with `gain` onto the slot then under the head.
    pub open spec fn passed(self, mode: Transport, sample: u32, gain: u32, m: Arith) -> Tape {
        if mode is Idle {
            self
        } else {
            self.advanced(mode).recorded(m, sample, Some(gain))
        }
    }

    /// What comes out when `sample` passes: with the transport idle the
    /// sample itself; else the sample plus what the slot under the head holds
    /// once the sample has been recorded there.
    pub open spec fn heard(self, mode: Transport, sample: u32, gain: u32, m: Arith) -> u32 {
        if mode is Idle {
            sample
        } else {
            plus(m, sample, self.passed(mode, sample, gain, m).slot())
        }
    }
}

/// One sample through equaliser and tape loop. The sample is equalised;
/// the head moves as `mode` says; then, unless the transport is idle, the
/// equalised sample is recorded with `gain` onto the slot under the head, and
/// what that slot then holds is added to the sample: the new material is
/// heard at once, and again each time the head comes round. With the
/// transport idle the tape is not touched, and need not have been sized.
pub fn process_sample<F: Fn(Op, u32, u32) -> u32>(
    es: &mut EQSTATE,
    tape: &mut TAPESTATE,
    mode: Transport,
    sample: &mut u32,
    gain: u32,
    unit: &F,
)
    requires
        old(tape)@.inv(),
        !(mode is Idle) ==> old(tape)@.ready(),
        total(unit),
    ensures
        forall|m: Arith| #[trigger]
            computes(unit, m) ==> {
                let equalised = old(es).output(*old(sample), m);
                &&& *final(es) == old(es).processed(*old(sample), m)
                &&& final(tape)@ == old(tape)@.passed(mode, equalised, gain, m)
                &&& *final(sample) == old(tape)@.heard(mode, equalised, gain, m)
            },
        final(tape)@.inv(),
        old(tape)@.ready() ==> final(tape)@.ready(),
        mode is Idle ==> final(tape)@ == old(tape)@,
        !(mode is Idle) ==> final(tape)@ == old(tape)@.advanced(mode).stored(final(tape)@.slot()),
        final(es).history@ == shifted(old(es).history@, *old(sample)),
{
    es.process_3band(sample, unit);

    tape.advance(mode);

    if mode.is_engaged() {
        tape.to_buffer(*sample, Some(gain), unit);
        *sample = unit(Op::Add, *sample, tape.from_buffer());
    }
}

} // verus!
