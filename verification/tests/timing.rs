use pong::timing::FrameTimer;
use pong::STEP_MICROS;

#[test]
fn one_step_runs_for_33ms_and_the_excess_carries_over() {
    // 33 ms against a 60 Hz target: one 16.666 ms step, about 16.3 ms banked
    let mut t = FrameTimer::new();
    let steps = t.begin_frame(33_000);
    assert_eq!(steps, 1);
    assert_eq!(t.acc_micros, 16_334);
}

#[test]
fn zero_elapsed_runs_zero_steps_and_keeps_the_bank() {
    let mut t = FrameTimer::new();
    assert_eq!(t.begin_frame(10_000), 0);
    assert_eq!(t.acc_micros, 10_000);
    assert_eq!(t.begin_frame(0), 0);
    assert_eq!(t.acc_micros, 10_000);
}

#[test]
fn an_exact_step_leaves_nothing_banked() {
    let mut t = FrameTimer::new();
    assert_eq!(t.begin_frame(STEP_MICROS), 1);
    assert_eq!(t.acc_micros, 0);
}

#[test]
fn banked_time_completes_a_step() {
    let mut t = FrameTimer::new();
    assert_eq!(t.begin_frame(10_000), 0);
    assert_eq!(t.begin_frame(10_000), 1);
    assert_eq!(t.acc_micros, 3_334);
}

#[test]
fn a_long_frame_pays_many_steps() {
    let mut t = FrameTimer::new();
    // one second is sixty steps and a small remainder of 40 microseconds
    assert_eq!(t.begin_frame(1_000_000), 60);
    assert_eq!(t.acc_micros, 1_000_000 - 60 * STEP_MICROS);
}

#[test]
fn no_time_is_lost_across_frames() {
    let mut t = FrameTimer::new();
    let elapsed = [7_000u64, 33_000, 0, 16_666, 12_345, 100_000];
    let mut paid = 0u64;
    let mut total = 0u64;
    for e in elapsed {
        total += e;
        paid += t.begin_frame(e);
    }
    assert_eq!(paid * STEP_MICROS + t.acc_micros, total);
}
