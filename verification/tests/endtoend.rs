//! End-to-end rendering: a one-row song through sequencer, virtual
//! channels and chip emulator.
use oxdz::format::protracker::ModEvent;
use oxdz::format::protracker::ModOrders;
use oxdz::format::protracker::ModPatterns;
use oxdz::module::Instrument;
use oxdz::module::Module;
use oxdz::module::Sample;
use oxdz::player::samples_per_tick;
use oxdz::player::Player;

fn one_note_module() -> Module {
    let mut data = vec![ModEvent { note: 0, ins: 0, fxt: 0, fxp: 0 }; 256];
    // Row 0, channel 0: note C-3 with instrument 1, no effect.
    data[0] = ModEvent { note: 25, ins: 1, fxt: 0, fxp: 0 };
    Module {
        title: String::from("one note"),
        chn: 1,
        instrument: vec![Instrument { num: 1, name: String::from("flat"), volume: 64 }],
        sample: vec![
            Sample {
                num: 1,
                name: String::from("flat"),
                size: 60000,
                rate_hz: 8287,
                loop_start: 0,
                loop_end: 0,
                has_loop: false,
                data: vec![80i8; 60000],
            },
        ],
        orders: ModOrders { song: 0, pos: 0, rstpos: 0, orders: vec![0] },
        patterns: ModPatterns { num: 1, data },
        player: String::from("nt11"),
    }
}

#[test]
fn one_row_renders_one_upward_transition_then_steady_output() {
    let module = one_note_module();
    let mut player = Player::find(&module, 44100, "nt11", "").unwrap();
    player.start();

    let spt = samples_per_tick(44100, 125);
    assert_eq!(spt, 882);

    let mut buffer: Vec<i16> = Vec::new();
    for _ in 0..6 {
        let frame = player.play_frame();
        assert_eq!(frame.len(), spt);
        buffer.extend_from_slice(&frame);
    }
    // The full row is speed ticks of samples_per_tick samples each.
    assert_eq!(buffer.len(), 6 * spt);

    // The steady level: the flat sample byte scaled by the full volume.
    let steady: i16 = 80 * 64;
    // Output starts at the old level, silence.
    assert_eq!(buffer[0], 0);
    // After the correction window has decayed the output sits exactly on
    // the committed level, with no oscillation for the rest of the row.
    for i in 100..buffer.len() {
        assert_eq!(buffer[i], steady);
    }
    // The transition happens near the start: the output rises from the
    // old level to the new one and never leaves the band the band-limited
    // step can reach.
    let mut rises = 0;
    for i in 1..100 {
        if buffer[i] > buffer[i - 1] {
            rises += 1;
        }
        assert!(buffer[i] >= 0);
        assert!(buffer[i] <= steady + 100);
    }
    assert!(rises > 0);
}

#[test]
fn rendering_at_another_rate_scales_the_frame() {
    let module = one_note_module();
    let mut player = Player::find(&module, 96000, "nt11", "").unwrap();
    player.start();
    let frame = player.play_frame();
    assert_eq!(frame.len(), samples_per_tick(96000, 125));
    assert_eq!(frame.len(), 5 * 96000 / 250);
}

#[test]
fn unsupported_rate_is_rejected_at_construction() {
    let module = one_note_module();
    assert!(Player::find(&module, 1000, "nt11", "").is_err());
    assert!(Player::find(&module, 1000000, "nt11", "").is_err());
    assert!(Player::find(&module, 4000, "nt11", "").is_ok());
    assert!(Player::find(&module, 96000, "nt11", "").is_ok());
}

#[test]
fn reset_rewinds_the_transport() {
    let module = one_note_module();
    let mut player = Player::find(&module, 44100, "nt11", "").unwrap();
    player.start();
    for _ in 0..20 {
        player.play_frame();
    }
    player.reset();
    let s = player.snapshot();
    assert_eq!((s.pos, s.row, s.speed, s.tempo), (0, 0, 6, 125));
}
