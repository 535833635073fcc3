//! More effect semantics: oscillators, offsets, fine slides and delays.
use oxdz::format::protracker::ModEvent;
use oxdz::format::protracker::ModOrders;
use oxdz::format::protracker::ModPatterns;
use oxdz::module::Instrument;
use oxdz::module::Module;
use oxdz::module::Sample;
use oxdz::player::Player;

fn make_module(events: &[(usize, usize, ModEvent)]) -> Module {
    let mut data = vec![ModEvent { note: 0, ins: 0, fxt: 0, fxp: 0 }; 256];
    for &(row, c, ev) in events {
        data[row * 4 + c] = ev;
    }
    Module {
        title: String::from("test"),
        chn: 1,
        instrument: vec![Instrument { num: 1, name: String::from("one"), volume: 64 }],
        sample: vec![
            Sample {
                num: 1,
                name: String::from("flat"),
                size: 60000,
                rate_hz: 8287,
                loop_start: 0,
                loop_end: 0,
                has_loop: false,
                data: vec![80i8; 60000],
            },
        ],
        orders: ModOrders { song: 0, pos: 0, rstpos: 0, orders: vec![0, 0] },
        patterns: ModPatterns { num: 1, data },
        player: String::from("nt11"),
    }
}

const C3: u8 = 25;

#[test]
fn vibrato_swings_the_period_by_the_sine_table() {
    // Rate 2 advances the phase 8 steps per tick; depth 8 scales the
    // table value by 8/128.
    let module = make_module(&[(0, 0, ModEvent { note: C3, ins: 1, fxt: 0x4, fxp: 0x28 })]);
    let mut player = Player::find(&module, 44100, "nt11", "").unwrap();
    player.start();
    let mut periods = Vec::new();
    for _ in 0..6 {
        player.play_frame();
        periods.push(player.virt.mixer.voices[0].period);
    }
    assert_eq!(periods, vec![214, 214, 217, 220, 222, 225]);
}

#[test]
fn tremolo_swings_the_volume_register_only() {
    let module = make_module(&[
        (0, 0, ModEvent { note: C3, ins: 1, fxt: 0xc, fxp: 0x20 }),
        (1, 0, ModEvent { note: 0, ins: 0, fxt: 0x7, fxp: 0x44 }),
    ]);
    let mut player = Player::find(&module, 44100, "nt11", "").unwrap();
    player.start();
    for _ in 0..6 {
        player.play_frame();
    }
    let mut vols = Vec::new();
    for _ in 0..6 {
        player.play_frame();
        vols.push(player.virt.mixer.voices[0].volume);
    }
    assert_eq!(vols, vec![32, 32, 38, 43, 46, 47]);
}

#[test]
fn sample_offset_moves_the_start_of_the_voice() {
    let module = make_module(&[(0, 0, ModEvent { note: C3, ins: 1, fxt: 0x9, fxp: 0x02 })]);
    let mut player = Player::find(&module, 44100, "nt11", "").unwrap();
    player.start();
    player.play_frame();
    // Offset 2 starts 512 bytes in; rendering one tick advances further.
    assert!(player.virt.mixer.voices[0].pos >= 512);
}

#[test]
fn fine_volume_slides_step_once_at_tick_zero() {
    let module = make_module(&[
        (0, 0, ModEvent { note: C3, ins: 1, fxt: 0xc, fxp: 0x10 }),
        (1, 0, ModEvent { note: 0, ins: 0, fxt: 0xe, fxp: 0xa3 }),
        (2, 0, ModEvent { note: 0, ins: 0, fxt: 0xe, fxp: 0xb5 }),
    ]);
    let mut player = Player::find(&module, 44100, "nt11", "").unwrap();
    player.start();
    for _ in 0..6 {
        player.play_frame();
    }
    assert_eq!(player.virt.mixer.voices[0].volume, 16);
    for _ in 0..6 {
        player.play_frame();
    }
    // One EA3 step: 16 + 3, applied once for the whole row.
    assert_eq!(player.virt.mixer.voices[0].volume, 19);
    for _ in 0..6 {
        player.play_frame();
    }
    // One EB5 step: 19 - 5.
    assert_eq!(player.virt.mixer.voices[0].volume, 14);
}

#[test]
fn pattern_delay_repeats_the_row_without_rereading_notes() {
    let module = make_module(&[(0, 0, ModEvent { note: 0, ins: 0, fxt: 0xe, fxp: 0xe1 })]);
    let mut player = Player::find(&module, 44100, "nt11", "").unwrap();
    player.start();
    let mut rows = Vec::new();
    for _ in 0..3 {
        for _ in 0..6 {
            player.play_frame();
        }
        rows.push(player.row());
    }
    // The row is held once more before the transport moves on.
    assert_eq!(rows, vec![0, 1, 2]);
}

#[test]
fn filter_effect_selects_the_response_curve() {
    let module = make_module(&[(0, 0, ModEvent { note: 0, ins: 0, fxt: 0xe, fxp: 0x00 })]);
    let mut player = Player::find(&module, 44100, "nt11", "").unwrap();
    player.start();
    assert!(!player.virt.mixer.filter);
    player.play_frame();
    assert!(player.virt.mixer.filter);
}
