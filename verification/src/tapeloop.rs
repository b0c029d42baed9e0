//! A single-head tape loop: a fixed store of samples with one head that both
//! records and plays, and that wraps at the end of the loop.
//!
//! The loop stores samples as patterns, moves over them and silences them.
//! Recording adds to what a slot holds, by the arithmetic unit that the caller
//! hands in.

use crate::arith::{computes, plus, times, total, Arith, Op, SILENCE, UNITY_GAIN};
use vstd::prelude::*;

verus! {

/// Longest loop, in seconds. The store holds this many seconds of samples.
pub const MAX_TAPE_LENGTH: usize = 60;

/// Greatest speed factor, and the number of steps of one fast-forward.
pub const MAX_TAPE_SPEED: usize = 2;

/// Loop lengths are given in microseconds.
pub const MICROS_PER_SECOND: u64 = 1_000_000;

/// Shortest loop length that is kept: one second.
pub const MIN_LENGTH_MICROS: u64 = 1_000_000;

/// Longest loop length that is kept: `MAX_TAPE_LENGTH` seconds.
pub const MAX_LENGTH_MICROS: u64 = 60_000_000;

/// Speeds are given in thousandths: 1000 is normal speed.
pub const MIN_SPEED_PERMILLE: u32 = 100;

/// `MAX_TAPE_SPEED` in thousandths.
pub const MAX_SPEED_PERMILLE: u32 = 2000;

/// `x` brought into `lo ..= hi`.
pub open spec fn clamp(x: int, lo: int, hi: int) -> int
    recommends
        lo <= hi,
{
    if x < lo {
        lo
    } else if x > hi {
        hi
    } else {
        x
    }
}

/// Index of the last slot of the loop: the loop length in samples, kept
/// between one second of samples and the last slot of the store.
pub open spec fn loop_samples(length: nat, samplerate: nat, capacity: nat) -> nat {
    clamp(
        (length * samplerate) as int / (MICROS_PER_SECOND as int),
        samplerate as int,
        capacity - 1,
    ) as nat
}

/// The head after one step forward on a loop whose last slot is `end`.
pub open spec fn next_index(head: nat, end: nat) -> nat {
    if head >= end {
        0
    } else {
        head + 1
    }
}

/// The head after one step backward on a loop whose last slot is `end`.
pub open spec fn prev_index(head: nat, end: nat) -> nat {
    if head == 0 {
        end
    } else {
        (head - 1) as nat
    }
}

/// The head after `steps` steps forward.
pub open spec fn next_index_n(head: nat, end: nat, steps: nat) -> nat
    decreases steps,
{
    if steps == 0 {
        head
    } else {
        next_index(next_index_n(head, end, (steps - 1) as nat), end)
    }
}

/// The gain that recording uses: the one given, or unity.
pub open spec fn gain_or_unity(gain: Option<u32>) -> u32 {
    match gain {
        Some(g) => g,
        None => UNITY_GAIN,
    }
}

/// What a tape loop is, mathematically.
pub struct Tape {
    /// Samples per second.
    pub samplerate: nat,
    /// Requested loop length, in microseconds.
    pub length: nat,
    /// Speed, in thousandths. Kept for display; the head does not read it.
    pub speed: nat,
    /// The store, one pattern per slot.
    pub buffer: Seq<u32>,
    /// The slot under the head.
    pub head: nat,
}

impl Tape {
    /// Number of slots in the store.
    pub open spec fn capacity(self) -> nat {
        self.buffer.len()
    }

    /// The store holds `MAX_TAPE_LENGTH` seconds of samples at the sample
    /// rate: it has been sized by `init`.
    pub open spec fn sized(self) -> bool {
        self.buffer.len() == MAX_TAPE_LENGTH * self.samplerate
    }

    /// Index of the last slot of the loop.
    pub open spec fn loop_samples(self) -> nat {
        loop_samples(self.length, self.samplerate, self.capacity())
    }

    /// The head is inside the loop.
    pub open spec fn within_loop(self) -> bool {
        self.head <= self.loop_samples()
    }

    /// Holds of every tape loop, from construction on: the head is over a
    /// slot, length and speed are within their limits, and once the store has
    /// been sized the head is inside the loop.
    pub open spec fn inv(self) -> bool {
        &&& 1 <= self.samplerate
        &&& self.head < self.buffer.len()
        &&& MIN_LENGTH_MICROS <= self.length <= MAX_LENGTH_MICROS
        &&& MIN_SPEED_PERMILLE <= self.speed <= MAX_SPEED_PERMILLE
        &&& self.sized() ==> self.within_loop()
    }

    /// Holds once the store has been sized for its sample rate: the head is
    /// inside the loop and can be moved.
    pub open spec fn ready(self) -> bool {
        &&& self.inv()
        &&& self.sized()
        &&& self.within_loop()
    }

    /// The pattern under the head.
    pub open spec fn slot(self) -> u32 {
        self.buffer[self.head as int]
    }

    /// This tape with the head at `head`.
    pub open spec fn with_head(self, head: nat) -> Tape {
        Tape { head, ..self }
    }

    /// This tape after one step of play.
    pub open spec fn played(self) -> Tape {
        self.with_head(next_index(self.head, self.loop_samples()))
    }

    /// This tape after one step in reverse.
    pub open spec fn reversed(self) -> Tape {
        self.with_head(prev_index(self.head, self.loop_samples()))
    }

    /// This tape after `steps` steps of play.
    pub open spec fn played_n(self, steps: nat) -> Tape {
        self.with_head(next_index_n(self.head, self.loop_samples(), steps))
    }

    /// This tape after one fast-forward.
    pub open spec fn fast_forwarded(self) -> Tape {
        self.played_n(MAX_TAPE_SPEED as nat)
    }

    /// This tape with `pattern` in the slot under the head.
    pub open spec fn stored(self, pattern: u32) -> Tape {
        Tape { buffer: self.buffer.update(self.head as int, pattern), ..self }
    }

    /// This tape after `sample` has been recorded with `gain`: the slot under
    /// the head holds what it held plus the sample times the gain (unity
    /// where none is given).
    pub open spec fn recorded(self, m: Arith, sample: u32, gain: Option<u32>) -> Tape {
        self.stored(plus(m, self.slot(), times(m, sample, gain_or_unity(gain))))
    }

    /// This tape with its loop length set to `len` microseconds, brought into
    /// one second to `MAX_TAPE_LENGTH` seconds. Where that leaves the head
    /// beyond the end of the loop, the head goes to the start of the loop.
    pub open spec fn with_length(self, len: int) -> Tape {
        let resized = Tape {
            length: clamp(len, MIN_LENGTH_MICROS as int, MAX_LENGTH_MICROS as int) as nat,
            ..self
        };
        if self.ready() && self.head > resized.loop_samples() {
            resized.with_head(0)
        } else {
            resized
        }
    }

    /// This tape with silence in every slot of the store.
    pub open spec fn cleared(self) -> Tape {
        Tape { buffer: Seq::new(self.buffer.len(), |i: int| SILENCE), ..self }
    }
}

/// A tape loop.
pub struct TAPESTATE {
    samplerate: usize,
    length: u64,
    speed: u32,
    buffer: Vec<u32>,
    current_sample_idx: usize,
}

impl View for TAPESTATE {
    type V = Tape;

    closed spec fn view(&self) -> Tape {
        Tape {
            samplerate: self.samplerate as nat,
            length: self.length as nat,
            speed: self.speed as nat,
            buffer: self.buffer@,
            head: self.current_sample_idx as nat,
        }
    }
}

impl Default for TAPESTATE {
    /// A loop of six seconds at normal speed over one second of silence at
    /// 44.1 kHz. Its store is not yet sized for the longest loop: `init` does
    /// that.
    fn default() -> (tape: Self)
        ensures
            tape@.samplerate == 44100,
            tape@.length == 6_000_000,
            tape@.speed == 1000,
            tape@.buffer == Seq::new(44100, |i: int| SILENCE),
            tape@.head == 0,
            tape@.inv(),
            !tape@.ready(),
    {
        TAPESTATE {
            samplerate: 44100,
            length: 6_000_000,
            speed: 1000,
            buffer: vec![SILENCE; 44100],
            current_sample_idx: 0,
        }
    }
}

impl Clone for TAPESTATE {
    /// A second tape loop with the same settings, the same recorded material
    /// and the head over the same slot.
    fn clone(&self) -> (copy: Self)
        ensures
            copy@ == self@,
    {
        let buffer = self.buffer.clone();
        TAPESTATE {
            samplerate: self.samplerate,
            length: self.length,
            speed: self.speed,
            buffer,
            current_sample_idx: self.current_sample_idx,
        }
    }
}

impl TAPESTATE {
    /// Sizes the store for `samplerate` samples per second, silent, and puts
    /// the head at its start. Length and speed stay as they are.
    pub fn init(&mut self, samplerate: usize)
        requires
            old(self)@.inv(),
            1 <= samplerate,
            MAX_TAPE_LENGTH * samplerate <= usize::MAX,
        ensures
            final(self)@ == (Tape {
                samplerate: samplerate as nat,
                buffer: Seq::new((MAX_TAPE_LENGTH * samplerate) as nat, |i: int| SILENCE),
                head: 0,
                ..old(self)@
            }),
            final(self)@.ready(),
    {
        self.samplerate = samplerate;
        self.current_sample_idx = 0;
        self.buffer = vec![SILENCE; MAX_TAPE_LENGTH * samplerate];
        assert(self.buffer@ =~= Seq::new(
            (MAX_TAPE_LENGTH * samplerate) as nat,
            |i: int| SILENCE,
        ));
    }

    /// Samples per second.
    pub fn samplerate(&self) -> (r: usize)
        ensures
            r == self@.samplerate,
    {
        self.samplerate
    }

    /// Number of slots in the store.
    pub fn capacity(&self) -> (r: usize)
        ensures
            r == self@.capacity(),
    {
        self.buffer.len()
    }

    /// The slot under the head.
    pub fn current_sample_idx(&self) -> (r: usize)
        ensures
            r == self@.head,
    {
        self.current_sample_idx
    }

    /// The requested loop length, in microseconds.
    pub fn tape_length(&self) -> (r: u64)
        ensures
            r == self@.length,
    {
        self.length
    }

    /// The speed, in thousandths.
    pub fn tape_speed(&self) -> (r: u32)
        ensures
            r == self@.speed,
    {
        self.speed
    }

    /// Whether the store has been sized for its sample rate, so that the head
    /// is inside the loop and can be moved.
    pub fn is_ready(&self) -> (r: bool)
        requires
            self@.inv(),
        ensures
            r == self@.ready(),
    {
        let slots: usize = self.buffer.len();
        match MAX_TAPE_LENGTH.checked_mul(self.samplerate) {
            Some(wanted) => slots == wanted,
            None => false,
        }
    }

    /// Index of the last slot of the loop.
    pub fn end_of_loop(&self) -> (end: usize)
        requires
            self@.ready(),
        ensures
            end == self@.loop_samples(),
            self@.samplerate <= end <= self@.capacity() - 1,
            self@.head <= end,
    {
        self.last_slot()
    }

    /// Index of the last slot of the loop, wherever the head is.
    fn last_slot(&self) -> (end: usize)
        requires
            1 <= self@.samplerate,
            self@.sized(),
            MIN_LENGTH_MICROS <= self@.length <= MAX_LENGTH_MICROS,
        ensures
            end == self@.loop_samples(),
            self@.samplerate <= end <= self@.capacity() - 1,
    {
        let rate: u128 = self.samplerate as u128;
        let micros: u128 = self.length as u128;
        assert(micros * rate <= 60_000_000 * rate) by (nonlinear_arith)
            requires
                micros <= 60_000_000,
                0 <= rate,
        ;
        let scaled: u128 = micros * rate / 1_000_000;
        let last: usize = self.buffer.len() - 1;
        if scaled < rate {
            self.samplerate
        } else if scaled > last as u128 {
            last
        } else {
            scaled as usize
        }
    }

    /// Puts the head on slot `idx` of the loop.
    pub fn set_current_sample_idx(&mut self, idx: usize)
        requires
            old(self)@.ready(),
            idx <= old(self)@.loop_samples(),
        ensures
            final(self)@ == old(self)@.with_head(idx as nat),
            final(self)@.ready(),
    {
        proof {
            assert(self@.loop_samples() <= self@.capacity() - 1);
        }
        self.current_sample_idx = idx;
    }

    /// One step of play: the head moves to the next slot, or from the end of
    /// the loop to the start.
    pub fn inc_sample_idx(&mut self)
        requires
            old(self)@.ready(),
        ensures
            final(self)@ == old(self)@.played(),
            final(self)@.ready(),
    {
        if self.current_sample_idx >= self.end_of_loop() {
            self.current_sample_idx = 0;
        } else {
            self.current_sample_idx += 1;
        }
    }

    /// One step in reverse: the head moves to the slot before, or from the
    /// start to the end of the loop.
    pub fn dec_sample_idx(&mut self)
        requires
            old(self)@.ready(),
        ensures
            final(self)@ == old(self)@.reversed(),
            final(self)@.ready(),
    {
        if self.current_sample_idx == 0 {
            self.current_sample_idx = self.end_of_loop();
        } else {
            self.current_sample_idx -= 1;
        }
    }

    /// `MAX_TAPE_SPEED` steps of play in a row.
    pub fn fast_forward(&mut self)
        requires
            old(self)@.ready(),
        ensures
            final(self)@ == old(self)@.fast_forwarded(),
            final(self)@.ready(),
    {
        let mut done: usize = 0;
        while done < MAX_TAPE_SPEED
            invariant
                done <= MAX_TAPE_SPEED,
                self@.ready(),
                self@ == old(self)@.played_n(done as nat),
            decreases MAX_TAPE_SPEED - done,
        {
            self.inc_sample_idx();
            done += 1;
        }
    }

    /// Records `sample` onto the slot under the head: the sample times the
    /// gain (unity where none is given) is added to what the slot holds, so
    /// that new material is laid over old. No other slot changes, and the head
    /// stays where it is.
    pub fn to_buffer<F: Fn(Op, u32, u32) -> u32>(
        &mut self,
        sample: u32,
        gain: Option<u32>,
        unit: &F,
    )
        requires
            old(self)@.inv(),
            total(unit),
        ensures
            forall|m: Arith| #[trigger]
                computes(unit, m) ==> final(self)@ == old(self)@.recorded(m, sample, gain),
            final(self)@ == old(self)@.stored(final(self)@.slot()),
            final(self)@.inv(),
            old(self)@.ready() ==> final(self)@.ready(),
    {
        let gain: u32 = match gain {
            Some(g) => g,
            None => UNITY_GAIN,
        };
        let scaled: u32 = unit(Op::Mul, sample, gain);
        let mixed: u32 = unit(Op::Add, self.buffer[self.current_sample_idx], scaled);
        self.buffer.set(self.current_sample_idx, mixed);
    }

    /// The pattern under the head.
    pub fn from_buffer(&self) -> (pattern: u32)
        requires
            self@.inv(),
        ensures
            pattern == self@.slot(),
    {
        self.buffer[self.current_sample_idx]
    }

    /// Sets the loop length to `len` microseconds, brought into one second to
    /// `MAX_TAPE_LENGTH` seconds. What is recorded stays where it is. Where a
    /// shorter loop would leave the head beyond its end, the head goes to the
    /// start of the loop; else it stays where it is.
    pub fn set_tape_length(&mut self, len: u64)
        requires
            old(self)@.inv(),
        ensures
            final(self)@ == old(self)@.with_length(len as int),
            final(self)@.length == clamp(
                len as int,
                MIN_LENGTH_MICROS as int,
                MAX_LENGTH_MICROS as int,
            ),
            final(self)@.samplerate == old(self)@.samplerate,
            final(self)@.speed == old(self)@.speed,
            final(self)@.buffer == old(self)@.buffer,
            final(self)@.head == (if old(self)@.ready()
                && old(self)@.head > final(self)@.loop_samples() {
                0
            } else {
                old(self)@.head
            }),
            final(self)@.inv(),
            old(self)@.ready() ==> final(self)@.ready(),
    {
        let sized: bool = self.is_ready();
        self.length = if len < MIN_LENGTH_MICROS {
            MIN_LENGTH_MICROS
        } else if len > MAX_LENGTH_MICROS {
            MAX_LENGTH_MICROS
        } else {
            len
        };
        if sized && self.current_sample_idx > self.last_slot() {
            self.current_sample_idx = 0;
        }
    }

    /// Sets the speed to `speed` thousandths, brought into a tenth of normal
    /// speed to `MAX_TAPE_SPEED` times normal speed. The speed is kept for
    /// display and automation; the head moves one slot per step whatever it is.
    pub fn set_tape_speed(&mut self, speed: u32)
        requires
            old(self)@.inv(),
        ensures
            final(self)@ == (Tape {
                speed: clamp(
                    speed as int,
                    MIN_SPEED_PERMILLE as int,
                    MAX_SPEED_PERMILLE as int,
                ) as nat,
                ..old(self)@
            }),
            final(self)@.inv(),
            old(self)@.ready() ==> final(self)@.ready(),
    {
        self.speed = if speed < MIN_SPEED_PERMILLE {
            MIN_SPEED_PERMILLE
        } else if speed > MAX_SPEED_PERMILLE {
            MAX_SPEED_PERMILLE
        } else {
            speed
        };
    }

    /// Silences every slot of the store, inside the loop and outside it,
    /// without resizing the store or moving the head.
    pub fn clear(&mut self)
        requires
            old(self)@.inv(),
        ensures
            final(self)@ == old(self)@.cleared(),
            final(self)@.inv(),
            old(self)@.ready() ==> final(self)@.ready(),
    {
        let slots: usize = self.buffer.len();
        let mut i: usize = 0;
        while i < slots
            invariant
                i <= slots,
                slots == self.buffer.len(),
                self.buffer.len() == old(self).buffer.len(),
                self.samplerate == old(self).samplerate,
                self.length == old(self).length,
                self.speed == old(self).speed,
                self.current_sample_idx == old(self).current_sample_idx,
                forall|k: int| 0 <= k < i ==> self.buffer@[k] == SILENCE,
            decreases slots - i,
        {
            self.buffer.set(i, SILENCE);
            i += 1;
        }
        assert(self.buffer@ =~= Seq::new(old(self).buffer@.len(), |k: int| SILENCE));
    }

    /// Where the head stands in the loop, as a fraction between nought and
    /// one: the slot under the head over the index of the loop's last slot,
    /// which is never zero.
    pub fn current_position_percent(&self) -> (position: (usize, usize))
        requires
            self@.ready(),
        ensures
            position.0 == self@.head,
            position.1 == self@.loop_samples(),
            position.1 >= 1,
            position.0 <= position.1,
    {
        (self.current_sample_idx, self.end_of_loop())
    }
}

} // verus!
