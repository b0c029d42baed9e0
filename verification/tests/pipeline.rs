use miso_paste::arith::{Op, SILENCE, UNITY_GAIN};
use miso_paste::eq::EQSTATE;
use miso_paste::pipeline::process_sample;
use miso_paste::{Transport, TAPESTATE};

fn single_precision(op: Op, a: u32, b: u32) -> u32 {
    let (x, y) = (f32::from_bits(a), f32::from_bits(b));
    let r = match op {
        Op::Add => x + y,
        Op::Sub => x - y,
        Op::Mul => x * y,
        Op::Div => x / y,
        Op::Sin => x.sin(),
    };
    r.to_bits()
}

/// Integers modulo 2^32 with unity standing for one: an exact arithmetic.
fn modular(op: Op, a: u32, b: u32) -> u32 {
    match op {
        Op::Add => a.wrapping_add(b),
        Op::Sub => a.wrapping_sub(b),
        Op::Mul => {
            if b == UNITY_GAIN {
                a
            } else {
                0
            }
        }
        Op::Div => 0,
        Op::Sin => 0,
    }
}

fn stages() -> (EQSTATE, TAPESTATE) {
    let mut es = EQSTATE::default();
    es.init(44100.0f32.to_bits(), &single_precision);
    let mut tape = TAPESTATE::default();
    tape.init(8000);
    tape.set_tape_length(1_000_000);
    (es, tape)
}

/// Runs `input` through both stages and collects what comes out.
fn run(
    es: &mut EQSTATE,
    tape: &mut TAPESTATE,
    mode: Transport,
    gain: f32,
    input: &[f32],
) -> Vec<f32> {
    let mut out = Vec::new();
    for &x in input {
        let mut sample = x.to_bits();
        process_sample(es, tape, mode, &mut sample, gain.to_bits(), &single_precision);
        out.push(f32::from_bits(sample));
    }
    out
}

fn close(a: f32, b: f32) -> bool {
    (a - b).abs() < 1e-6
}

#[test]
fn idle_transport_leaves_the_tape_alone() {
    let (mut es, mut tape) = stages();
    let out = run(&mut es, &mut tape, Transport::Idle, 1.0, &[1.0, 0.0, 0.0, 0.0, 0.0]);
    assert_eq!(tape.current_sample_idx(), 0);
    assert_eq!(tape.from_buffer(), SILENCE);
    // Only the equaliser has acted: the impulse comes out three samples late.
    assert!(close(out[0], 0.0) && close(out[1], 0.0) && close(out[2], 0.0));
    assert!(close(out[3], 1.0));
    assert!(close(out[4], 0.0));
}

#[test]
fn idle_output_is_the_equalised_sample() {
    let (mut es, mut tape) = stages();
    let mut alone = es;
    for x in [0.25f32, -0.5, 0.75, 1.0, -1.0, 0.125] {
        let mut through = x.to_bits();
        process_sample(
            &mut es,
            &mut tape,
            Transport::Idle,
            &mut through,
            0.5f32.to_bits(),
            &single_precision,
        );
        let mut expected = x.to_bits();
        alone.process_3band(&mut expected, &single_precision);
        assert_eq!(through, expected);
    }
}

#[test]
fn played_sample_is_recorded_and_heard_at_once() {
    let (mut es, mut tape) = stages();
    let out = run(&mut es, &mut tape, Transport::Play, 0.5, &[0.0, 0.0, 0.0, 1.0, 0.0, 0.0, 0.0]);
    // The impulse leaves the equaliser with the seventh sample; the tape
    // records half of it and adds that to what is heard.
    assert_eq!(tape.current_sample_idx(), 7);
    assert!(close(out[6], 1.5));
    assert!(close(f32::from_bits(tape.from_buffer()), 0.5));
    for k in 0..6 {
        assert!(close(out[k], 0.0));
    }
}

#[test]
fn recording_comes_back_after_one_traversal() {
    let (mut es, mut tape) = stages();
    let mut input = vec![0.0f32; 8001 + 8];
    input[0] = 1.0;
    let out = run(&mut es, &mut tape, Transport::Play, 1.0, &input);
    // Heard at once, with the recording on top of the signal ...
    assert!(close(out[3], 2.0));
    // ... and again, the recording alone, one traversal of the loop later.
    assert!(close(out[3 + 8001], 1.0));
    for k in 4..(3 + 8001) {
        assert!(close(out[k], 0.0));
    }
}

#[test]
fn second_pass_is_laid_over_the_first() {
    let (mut es, mut tape) = stages();
    let mut input = vec![0.0f32; 8001 + 8];
    input[0] = 0.5;
    input[8001] = 0.25;
    let out = run(&mut es, &mut tape, Transport::Play, 1.0, &input);
    assert!(close(out[3], 1.0));
    // 0.25 of signal, over a slot that then holds 0.5 + 0.25.
    assert!(close(out[3 + 8001], 1.0));
    assert!(close(f32::from_bits(tape.from_buffer()), 0.0));
}

#[test]
fn pipeline_order_is_equalise_move_record_read_sum() {
    // With exact arithmetic and unity gains everywhere, every value can be
    // followed by hand.
    let mut es = EQSTATE::default();
    let mut tape = TAPESTATE::default();
    tape.init(8000);
    tape.set_tape_length(1_000_000);
    let input = [10u32, 20, 30, 40, 50, 60];
    let mut out = Vec::new();
    for x in input {
        let mut sample = x;
        process_sample(&mut es, &mut tape, Transport::Play, &mut sample, UNITY_GAIN, &modular);
        out.push(sample);
    }
    // Equalised: 0, 0, 0, 10, 20, 30. Recorded on slots 1..=6, each heard on
    // top of itself.
    assert_eq!(out, vec![0, 0, 0, 20, 40, 60]);
    assert_eq!(tape.current_sample_idx(), 6);
    assert_eq!(tape.from_buffer(), 30);
    tape.dec_sample_idx();
    assert_eq!(tape.from_buffer(), 20);
    tape.dec_sample_idx();
    assert_eq!(tape.from_buffer(), 10);
    tape.dec_sample_idx();
    assert_eq!(tape.from_buffer(), 0);

    // In reverse over the same slots, idle gain: the recording is heard.
    let mut heard = Vec::new();
    for _ in 0..3 {
        let mut sample = 0u32;
        process_sample(&mut es, &mut tape, Transport::Reverse, &mut sample, 0, &modular);
        heard.push(sample);
    }
    // Equalised input is 40, 50, 60 (the history runs on); the gain 0 is not
    // unity, so nothing is added to the slots 2, 1, 0, which hold 0, 0, 0.
    assert_eq!(heard, vec![40, 50, 60]);
}

#[test]
fn fast_forward_records_on_every_second_slot() {
    let mut es = EQSTATE::default();
    let mut tape = TAPESTATE::default();
    tape.init(8000);
    tape.set_tape_length(1_000_000);
    for x in [1u32, 2, 3, 4, 5, 6] {
        let mut sample = x;
        process_sample(
            &mut es,
            &mut tape,
            Transport::FastForward,
            &mut sample,
            UNITY_GAIN,
            &modular,
        );
    }
    assert_eq!(tape.current_sample_idx(), 12);
    let mut slots = Vec::new();
    for _ in 0..7 {
        slots.push(tape.from_buffer());
        tape.dec_sample_idx();
    }
    assert_eq!(slots, vec![3, 0, 2, 0, 1, 0, 0]);
}

#[test]
fn single_precision_pipeline_matches_plain_arithmetic() {
    // The equaliser at rest passes its input three samples late (up to the
    // bias), so the tape's part can be followed in plain single precision.
    let mut es = EQSTATE::default();
    let mut tape = TAPESTATE::default();
    tape.init(100);
    tape.set_tape_length(1_000_000);
    let mut store = vec![0.0f32; 6000];
    let mut head = 0usize;
    let end = 100usize;
    let gain = 0.7f32;
    let mut seed = 7u32;
    for step in 0..1000 {
        seed = seed.wrapping_mul(1664525).wrapping_add(1013904223);
        let x = (seed >> 8) as f32 / (1u32 << 23) as f32 - 1.0;
        let mode = match (seed >> 3) % 4 {
            0 => Transport::Idle,
            1 => Transport::Play,
            2 => Transport::Reverse,
            _ => Transport::FastForward,
        };

        let mut alone = es;
        let mut equalised = x.to_bits();
        alone.process_3band(&mut equalised, &single_precision);
        let equalised = f32::from_bits(equalised);

        let mut sample = x.to_bits();
        process_sample(&mut es, &mut tape, mode, &mut sample, gain.to_bits(), &single_precision);

        match mode {
            Transport::Idle => {}
            Transport::Play => head = if head >= end { 0 } else { head + 1 },
            Transport::Reverse => head = if head == 0 { end } else { head - 1 },
            Transport::FastForward => {
                for _ in 0..2 {
                    head = if head >= end { 0 } else { head + 1 };
                }
            }
        }
        let mut expected = equalised;
        if mode != Transport::Idle {
            store[head] += equalised * gain;
            expected += store[head];
        }

        assert_eq!(tape.current_sample_idx(), head, "step {step}");
        assert_eq!(sample, expected.to_bits(), "step {step}");
        assert_eq!(tape.from_buffer(), store[head].to_bits(), "step {step}");
    }
}

#[test]
fn idle_sample_passes_a_tape_that_was_never_sized() {
    let mut es = EQSTATE::default();
    let mut tape = TAPESTATE::default();
    assert!(!tape.is_ready());
    let mut out = Vec::new();
    for x in [10u32, 20, 30, 40, 50] {
        let mut sample = x;
        process_sample(&mut es, &mut tape, Transport::Idle, &mut sample, UNITY_GAIN, &modular);
        out.push(sample);
    }
    assert_eq!(out, vec![0, 0, 0, 10, 20]);
    assert_eq!(tape.current_sample_idx(), 0);
    assert_eq!(tape.from_buffer(), SILENCE);
}
