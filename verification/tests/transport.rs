use miso_paste::{Transport, TAPESTATE};

fn ready_tape() -> TAPESTATE {
    let mut tape = TAPESTATE::default();
    tape.init(8000);
    tape.set_tape_length(1_000_000);
    tape
}

#[test]
fn reverse_goes_before_fast_forward_before_play() {
    assert_eq!(Transport::select(false, false, false), Transport::Idle);
    assert_eq!(Transport::select(false, false, true), Transport::Play);
    assert_eq!(Transport::select(false, true, false), Transport::FastForward);
    assert_eq!(Transport::select(false, true, true), Transport::FastForward);
    assert_eq!(Transport::select(true, false, false), Transport::Reverse);
    assert_eq!(Transport::select(true, false, true), Transport::Reverse);
    assert_eq!(Transport::select(true, true, false), Transport::Reverse);
    assert_eq!(Transport::select(true, true, true), Transport::Reverse);
}

#[test]
fn only_idle_is_not_engaged() {
    assert!(!Transport::Idle.is_engaged());
    assert!(Transport::Play.is_engaged());
    assert!(Transport::Reverse.is_engaged());
    assert!(Transport::FastForward.is_engaged());
}

#[test]
fn advance_moves_as_the_mode_says() {
    let mut tape = ready_tape();
    tape.advance(Transport::Idle);
    assert_eq!(tape.current_sample_idx(), 0);
    tape.advance(Transport::Play);
    assert_eq!(tape.current_sample_idx(), 1);
    tape.advance(Transport::FastForward);
    assert_eq!(tape.current_sample_idx(), 3);
    tape.advance(Transport::Reverse);
    assert_eq!(tape.current_sample_idx(), 2);
    tape.advance(Transport::Idle);
    assert_eq!(tape.current_sample_idx(), 2);
}

#[test]
fn advance_wraps_at_both_ends() {
    let mut tape = ready_tape();
    tape.advance(Transport::Reverse);
    assert_eq!(tape.current_sample_idx(), 8000);
    tape.advance(Transport::Play);
    assert_eq!(tape.current_sample_idx(), 0);
    tape.advance(Transport::Reverse);
    tape.advance(Transport::FastForward);
    assert_eq!(tape.current_sample_idx(), 1);
}
