//! The chip emulator: commits, aging, rendering and the fractional clock.
use oxdz::mixer::paula::Paula;
use oxdz::mixer::paula::BLEP_SIZE;
use oxdz::mixer::paula::MAX_BLEPS;
use oxdz::mixer::paula::PAULA_HZ;

#[test]
fn fresh_channel_renders_silence() {
    let p = Paula::new(44100);
    assert_eq!(p.output_sample(0), 0);
    assert_eq!(p.output_sample(1), 0);
}

#[test]
fn render_is_pure_between_state_changes() {
    let mut p = Paula::new(44100);
    p.input_sample(1000);
    p.do_clock(37);
    let a = p.output_sample(0);
    let b = p.output_sample(0);
    assert_eq!(a, b);
    let c = p.output_sample(1);
    let d = p.output_sample(1);
    assert_eq!(c, d);
}

#[test]
fn constant_level_converges_to_that_level() {
    let mut p = Paula::new(44100);
    p.input_sample(5120);
    // Feed the same level while the clock advances past the whole
    // correction window.
    let mut elapsed: i32 = 0;
    while elapsed < BLEP_SIZE as i32 {
        p.input_sample(5120);
        p.do_clock(80);
        elapsed += 80;
    }
    assert_eq!(p.active_bleps, 0);
    assert_eq!(p.output_sample(0), 5120);
    assert_eq!(p.output_sample(1), 5120);
}

#[test]
fn unchanged_commit_adds_no_correction() {
    let mut p = Paula::new(44100);
    p.input_sample(100);
    assert_eq!(p.active_bleps, 1);
    p.input_sample(100);
    assert_eq!(p.active_bleps, 1);
}

#[test]
fn first_sample_after_step_holds_old_level() {
    // The correction table starts at full scale, so the instant after a
    // commit still renders the previous level.
    let mut p = Paula::new(44100);
    p.input_sample(1000);
    assert_eq!(p.output_sample(0), 0);
}

#[test]
fn correction_list_truncates_at_capacity() {
    let mut p = Paula::new(96000);
    let mut level: i16 = 0;
    for _ in 0..(MAX_BLEPS + 10) {
        level += 10;
        p.input_sample(level);
        assert!(p.active_bleps <= MAX_BLEPS);
    }
    assert_eq!(p.active_bleps, MAX_BLEPS);
    assert!(p.overflows > 0);
}

#[test]
fn corrections_age_and_retire_in_order() {
    let mut p = Paula::new(44100);
    p.input_sample(100);
    p.do_clock(1000);
    p.input_sample(200);
    assert_eq!(p.active_bleps, 2);
    assert_eq!(p.bleps[0].age, 0);
    assert_eq!(p.bleps[1].age, 1000);
    // Another 1100 cycles retire the older correction alone.
    p.do_clock(1100);
    assert_eq!(p.active_bleps, 1);
    assert_eq!(p.bleps[0].age, 1100);
}

#[test]
fn whole_window_retires_everything() {
    let mut p = Paula::new(44100);
    p.input_sample(-1234);
    p.input_sample(1234);
    p.do_clock(BLEP_SIZE as i32);
    assert_eq!(p.active_bleps, 0);
    assert_eq!(p.output_sample(0), 1234);
}

#[test]
fn fractional_clock_tracks_the_rate_ratio_exactly() {
    let rate: u32 = 44100;
    let mut p = Paula::new(rate);
    let mut total: u64 = 0;
    for _ in 0..rate {
        total += p.next_cycles() as u64;
    }
    // One second of output consumes exactly one second of chip clock.
    assert_eq!(total, PAULA_HZ as u64);
    assert_eq!(p.remainder, 0);
}

#[test]
fn output_saturates_to_sixteen_bits() {
    let mut p = Paula::new(44100);
    p.input_sample(32767);
    p.do_clock(BLEP_SIZE as i32);
    assert_eq!(p.output_sample(0), 32767);
    p.input_sample(-32768);
    p.do_clock(BLEP_SIZE as i32);
    assert_eq!(p.output_sample(0), -32768);
}
