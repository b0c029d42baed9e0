//! What holds of every tape loop, whatever has been recorded on it.

use crate::arith::{plus, times, Arith, SILENCE, UNITY_GAIN};
use crate::tapeloop::{
    clamp, gain_or_unity, next_index_n, Tape, MAX_LENGTH_MICROS, MAX_SPEED_PERMILLE,
    MAX_TAPE_LENGTH, MICROS_PER_SECOND, MIN_LENGTH_MICROS, MIN_SPEED_PERMILLE,
};
use crate::transport::Transport;
use vstd::prelude::*;

verus! {

/// The loop's last slot lies between one second of samples and the last slot
/// of the store, and is never slot 0.
pub proof fn lemma_loop_samples_bounds(t: Tape)
    requires
        t.ready(),
    ensures
        t.samplerate <= t.loop_samples() <= t.capacity() - 1,
        1 <= t.loop_samples(),
{
}

/// A loop of `seconds` whole seconds, shorter than the longest, ends at slot
/// `seconds * samplerate`; the longest loop ends at the last slot of the store.
pub proof fn lemma_whole_seconds(t: Tape, seconds: nat)
    requires
        t.ready(),
        1 <= seconds <= MAX_TAPE_LENGTH,
        t.length == seconds * MICROS_PER_SECOND,
    ensures
        seconds < MAX_TAPE_LENGTH ==> t.loop_samples() == seconds * t.samplerate,
        seconds == MAX_TAPE_LENGTH ==> t.loop_samples() == t.capacity() - 1,
{
    let rate = t.samplerate as int;
    let secs = seconds as int;
    assert((secs * 1_000_000) * rate == (secs * rate) * 1_000_000) by (nonlinear_arith);
    assert(secs * rate >= rate) by (nonlinear_arith)
        requires
            secs >= 1,
            rate >= 0,
    ;
    if seconds < MAX_TAPE_LENGTH {
        assert(secs * rate <= 60 * rate - 1) by (nonlinear_arith)
            requires
                secs <= 59,
                rate >= 1,
        ;
    }
}

/// Asking for a loop of one second or less gives a loop of one second of
/// samples, not a shorter one.
pub proof fn lemma_short_loop_is_one_second(t: Tape, requested: nat)
    requires
        t.ready(),
        requested <= MIN_LENGTH_MICROS,
        t.length == clamp(requested as int, MIN_LENGTH_MICROS as int, MAX_LENGTH_MICROS as int),
    ensures
        t.loop_samples() == t.samplerate,
{
    lemma_whole_seconds(t, 1);
}

/// The head is inside the loop after every change of the loop's length: a
/// head that the new loop still holds stays where it is, and one that a
/// shorter loop would leave beyond its end goes to the start. Nothing else
/// but the length changes.
pub proof fn lemma_length_keeps_head_inside(t: Tape, len: int)
    requires
        t.inv(),
    ensures
        t.with_length(len).inv(),
        t.ready() ==> t.with_length(len).ready() && t.with_length(len).within_loop(),
        t.with_length(len).length == clamp(
            len,
            MIN_LENGTH_MICROS as int,
            MAX_LENGTH_MICROS as int,
        ),
        t.with_length(len).head == t.head || t.with_length(len).head == 0,
        t.with_length(len).head == t.head <==> t.head == 0 || !t.ready() || t.head
            <= t.with_length(len).loop_samples(),
        t.with_length(len).buffer == t.buffer,
        t.with_length(len).samplerate == t.samplerate,
        t.with_length(len).speed == t.speed,
{
}

/// The head is inside the loop, and so over a slot of the store, after every
/// operation on a tape whose store has been sized: a move of the head, a
/// recording, a clear, a new length and a new speed.
pub proof fn lemma_head_is_always_inside(
    t: Tape,
    mode: Transport,
    pattern: u32,
    len: int,
    speed: nat,
)
    requires
        t.ready(),
        MIN_SPEED_PERMILLE <= speed <= MAX_SPEED_PERMILLE,
    ensures
        t.within_loop() && t.head < t.capacity(),
        t.advanced(mode).ready(),
        t.stored(pattern).ready(),
        t.cleared().ready(),
        t.with_length(len).ready(),
        (Tape { speed, ..t }).ready(),
{
    lemma_advance_keeps_head_in_loop(t, mode);
    lemma_length_keeps_head_inside(t, len);
}

/// Making the loop longer does not move its end back, so a head inside the
/// loop stays where it is.
pub proof fn lemma_longer_loop_keeps_head_inside(t: Tape, length: nat)
    requires
        t.ready(),
        t.length <= length <= MAX_LENGTH_MICROS,
    ensures
        t.loop_samples() <= (Tape { length, ..t }).loop_samples(),
        (Tape { length, ..t }).within_loop(),
        t.with_length(length as int) == (Tape { length, ..t }),
{
    let rate = t.samplerate as int;
    let shorter = t.length as int;
    let longer = length as int;
    assert(shorter * rate <= longer * rate) by (nonlinear_arith)
        requires
            shorter <= longer,
            0 <= rate,
    ;
    vstd::arithmetic::div_mod::lemma_div_is_ordered(shorter * rate, longer * rate, 1_000_000);
}

/// Nothing but `init` resizes the store: moving the head, recording, clearing
/// and changing the settings all leave it with as many slots as it had.
pub proof fn lemma_capacity_is_fixed(
    t: Tape,
    mode: Transport,
    pattern: u32,
    length: nat,
    speed: nat,
)
    requires
        t.inv(),
    ensures
        t.advanced(mode).capacity() == t.capacity(),
        t.stored(pattern).capacity() == t.capacity(),
        t.cleared().capacity() == t.capacity(),
        (Tape { length, ..t }).capacity() == t.capacity(),
        (Tape { speed, ..t }).capacity() == t.capacity(),
{
}

/// Moving the head changes neither the store nor the settings, so the loop
/// ends where it did.
pub proof fn lemma_advance_keeps_store(t: Tape, mode: Transport)
    ensures
        t.advanced(mode).buffer == t.buffer,
        t.advanced(mode).samplerate == t.samplerate,
        t.advanced(mode).length == t.length,
        t.advanced(mode).speed == t.speed,
        t.advanced(mode).loop_samples() == t.loop_samples(),
{
}

/// However the head moves, it stays inside the loop, and so over a slot of
/// the store.
pub proof fn lemma_advance_keeps_head_in_loop(t: Tape, mode: Transport)
    requires
        t.ready(),
    ensures
        t.advanced(mode).ready(),
        t.advanced(mode).within_loop(),
        t.advanced(mode).head <= t.loop_samples() < t.capacity(),
{
    reveal_with_fuel(next_index_n, 3);
}

/// A step in reverse from the start of the loop lands on its end, and a step
/// of play from its end lands on the start.
pub proof fn lemma_wrap(t: Tape)
    ensures
        t.head == 0 ==> t.reversed().head == t.loop_samples(),
        t.head >= t.loop_samples() ==> t.played().head == 0,
{
}

/// Inside the loop, play and reverse undo each other.
pub proof fn lemma_reverse_mirrors_play(t: Tape)
    requires
        t.within_loop(),
    ensures
        t.played().reversed() == t,
        t.reversed().played() == t,
{
}

/// A fast-forward is two steps of play.
pub proof fn lemma_fast_forward_is_two_steps(t: Tape)
    ensures
        t.fast_forwarded() == t.played().played(),
{
    reveal_with_fuel(next_index_n, 3);
}

/// Steps of play add up.
pub proof fn lemma_steps_add(head: nat, end: nat, first: nat, second: nat)
    ensures
        next_index_n(head, end, first + second) == next_index_n(
            next_index_n(head, end, first),
            end,
            second,
        ),
    decreases second,
{
    if second > 0 {
        lemma_steps_add(head, end, first, (second - 1) as nat);
    }
}

/// While the end of the loop is not passed, each step of play moves the head
/// one slot on.
pub proof fn lemma_steps_within_loop(head: nat, end: nat, steps: nat)
    requires
        head + steps <= end,
    ensures
        next_index_n(head, end, steps) == head + steps,
    decreases steps,
{
    if steps > 0 {
        lemma_steps_within_loop(head, end, (steps - 1) as nat);
    }
}

/// From inside the loop, as many steps of play as the loop has slots (one
/// more than the index of its last slot) bring the head back to where it was,
/// over the same recorded material.
pub proof fn lemma_play_period(t: Tape)
    requires
        t.within_loop(),
    ensures
        t.played_n(t.loop_samples() + 1) == t,
{
    let end = t.loop_samples();
    let to_end = (end - t.head) as nat;
    lemma_steps_within_loop(t.head, end, to_end);
    lemma_steps_add(t.head, end, to_end, 1);
    reveal_with_fuel(next_index_n, 2);
    lemma_steps_within_loop(0, end, t.head);
    lemma_steps_add(t.head, end, to_end + 1, t.head);
}

/// After a clear every slot of the store is silent: wherever the head is put
/// and however it is then moved, what is read is silence.
pub proof fn lemma_clear_silences_every_slot(t: Tape, head: nat, mode: Transport)
    requires
        t.inv(),
        head < t.capacity(),
    ensures
        t.cleared().inv(),
        t.ready() ==> t.cleared().ready(),
        forall|i: int| 0 <= i < t.capacity() ==> t.cleared().buffer[i] == SILENCE,
        t.cleared().with_head(head).slot() == SILENCE,
        t.ready() && head <= t.loop_samples() ==> t.cleared().with_head(head).advanced(
            mode,
        ).slot() == SILENCE,
{
    if t.ready() && head <= t.loop_samples() {
        let moved = t.cleared().with_head(head);
        lemma_advance_keeps_head_in_loop(moved, mode);
        lemma_advance_keeps_store(moved, mode);
    }
}

/// Clearing twice is clearing once.
pub proof fn lemma_clear_is_idempotent(t: Tape)
    ensures
        t.cleared().cleared() == t.cleared(),
{
}

/// Recording does not move the head: what is recorded next without a step in
/// between lands on the same slot, over what was recorded first, and a read
/// gives what was recorded last.
pub proof fn lemma_record_stays_on_slot(t: Tape, first: u32, second: u32)
    requires
        t.inv(),
    ensures
        t.stored(first).head == t.head,
        t.stored(first).slot() == first,
        t.stored(first).stored(second).slot() == second,
        t.stored(first).stored(second) == t.stored(second),
        forall|i: int|
            0 <= i < t.capacity() && i != t.head ==> t.stored(first).buffer[i] == t.buffer[i],
{
    assert(t.stored(first).stored(second).buffer =~= t.stored(second).buffer);
}

/// Overdub: two recordings on one slot, with no step between them, add up.
/// The second is added to what the first one left.
pub proof fn lemma_overdub(t: Tape, m: Arith, sample: u32, gain: Option<u32>)
    requires
        t.inv(),
    ensures
        t.recorded(m, sample, gain).inv(),
        t.recorded(m, sample, gain).head == t.head,
        t.recorded(m, sample, gain).slot() == plus(
            m,
            t.slot(),
            times(m, sample, gain_or_unity(gain)),
        ),
        t.recorded(m, sample, gain).recorded(m, sample, gain).slot() == plus(
            m,
            plus(m, t.slot(), times(m, sample, gain_or_unity(gain))),
            times(m, sample, gain_or_unity(gain)),
        ),
{
}

/// What is recorded comes round: after as many steps of play as the loop has
/// slots, the head is back over the slot that was recorded on, and what is
/// read there is what the recording left.
pub proof fn lemma_recording_comes_round(t: Tape, m: Arith, sample: u32, gain: Option<u32>)
    requires
        t.inv(),
        t.within_loop(),
    ensures
        t.recorded(m, sample, gain).played_n(t.loop_samples() + 1) == t.recorded(m, sample, gain),
        t.recorded(m, sample, gain).played_n(t.loop_samples() + 1).slot() == plus(
            m,
            t.slot(),
            times(m, sample, gain_or_unity(gain)),
        ),
{
    lemma_play_period(t.recorded(m, sample, gain));
}

/// In an arithmetic where adding to silence and scaling by unity change
/// nothing, a sample recorded twice at unity gain onto a silent slot leaves
/// the slot holding the sample plus itself.
pub proof fn lemma_overdub_on_silence_doubles(t: Tape, m: Arith, sample: u32, gain: Option<u32>)
    requires
        t.inv(),
        t.slot() == SILENCE,
        gain_or_unity(gain) == UNITY_GAIN,
        forall|a: u32| #[trigger] plus(m, SILENCE, a) == a,
        forall|a: u32| #[trigger] times(m, a, UNITY_GAIN) == a,
    ensures
        t.recorded(m, sample, gain).slot() == sample,
        t.recorded(m, sample, gain).recorded(m, sample, gain).slot() == plus(m, sample, sample),
{
    lemma_overdub(t, m, sample, gain);
}

/// In an arithmetic where silence times any gain is silence and adding
/// silence changes nothing, recording silence leaves the tape as it was:
/// what was recorded before stays.
pub proof fn lemma_recording_silence_keeps_the_tape(t: Tape, m: Arith, gain: Option<u32>)
    requires
        t.inv(),
        forall|g: u32| #[trigger] times(m, SILENCE, g) == SILENCE,
        forall|a: u32| #[trigger] plus(m, a, SILENCE) == a,
    ensures
        t.recorded(m, SILENCE, gain) == t,
{
    assert(t.recorded(m, SILENCE, gain).buffer =~= t.buffer);
}

/// With the transport idle a sample passes the tape unchanged and leaves no
/// trace; in every other mode it is recorded where the head has moved to, and
/// comes out with what that slot then holds added to it.
pub proof fn lemma_pass(t: Tape, mode: Transport, sample: u32, gain: u32, m: Arith)
    requires
        t.ready(),
    ensures
        mode is Idle ==> t.passed(mode, sample, gain, m) == t && t.heard(mode, sample, gain, m)
            == sample,
        !(mode is Idle) ==> {
            let moved = t.advanced(mode);
            &&& t.passed(mode, sample, gain, m).head == moved.head
            &&& t.passed(mode, sample, gain, m).slot() == plus(
                m,
                moved.slot(),
                times(m, sample, gain),
            )
            &&& t.heard(mode, sample, gain, m) == plus(
                m,
                sample,
                plus(m, moved.slot(), times(m, sample, gain)),
            )
        },
        t.passed(mode, sample, gain, m).ready(),
{
    lemma_advance_keeps_head_in_loop(t, mode);
}

/// The speed is a setting that nothing reads: a tape moves, records and plays
/// the same at every speed.
pub proof fn lemma_speed_moves_nothing(t: Tape, speed: nat, mode: Transport, pattern: u32)
    ensures
        (Tape { speed, ..t }).loop_samples() == t.loop_samples(),
        (Tape { speed, ..t }).advanced(mode) == (Tape { speed, ..t.advanced(mode) }),
        (Tape { speed, ..t }).stored(pattern) == (Tape { speed, ..t.stored(pattern) }),
        (Tape { speed, ..t }).slot() == t.slot(),
{
}

} // verus!
