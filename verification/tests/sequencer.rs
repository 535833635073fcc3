//! The sequencer: timing, arpeggio, pattern break and effect memory.
use oxdz::format::protracker::ModEvent;
use oxdz::format::protracker::ModOrders;
use oxdz::format::protracker::ModPatterns;
use oxdz::module::Instrument;
use oxdz::module::Module;
use oxdz::module::Sample;
use oxdz::player::Player;

fn flat_sample(len: usize, value: i8) -> Sample {
    Sample {
        num: 1,
        name: String::from("flat"),
        size: len as u32,
        rate_hz: 8287,
        loop_start: 0,
        loop_end: 0,
        has_loop: false,
        data: vec![value; len],
    }
}

fn empty_event() -> ModEvent {
    ModEvent { note: 0, ins: 0, fxt: 0, fxp: 0 }
}

/// A one-pattern module with the given channel count and events placed at
/// (row, channel).
fn make_module(chn: usize, events: &[(usize, usize, ModEvent)]) -> Module {
    let mut data = vec![empty_event(); 256];
    for &(row, c, ev) in events {
        data[row * 4 + c] = ev;
    }
    Module {
        title: String::from("test"),
        chn,
        instrument: vec![Instrument { num: 1, name: String::from("one"), volume: 64 }],
        sample: vec![flat_sample(60000, 80)],
        orders: ModOrders { song: 0, pos: 0, rstpos: 0, orders: vec![0, 0] },
        patterns: ModPatterns { num: 1, data },
        player: String::from("nt11"),
    }
}

// Note C-3 sits at index 24 of the period table, so its 1-based number is
// 25 and its period 214.
const C3: u8 = 25;

#[test]
fn arpeggio_cycles_base_plus_four_plus_seven() {
    let module = make_module(1, &[(0, 0, ModEvent { note: C3, ins: 1, fxt: 0x0, fxp: 0x47 })]);
    let mut player = Player::find(&module, 44100, "nt11", "").unwrap();
    player.start();

    let mut periods = Vec::new();
    for _ in 0..6 {
        player.play_frame();
        periods.push(player.virt.mixer.voices[0].period);
    }
    // Ticks 0,1,2 sound C-3, C-3 + 4 semitones, C-3 + 7 semitones, and the
    // pattern repeats on ticks 3,4,5 within the row.
    assert_eq!(periods, vec![214, 170, 143, 214, 170, 143]);
}

#[test]
fn pattern_break_reaches_the_named_row_of_the_next_position() {
    // A break to row 10 on row 5: the next row processed is row 10 of the
    // following position, not row 6 of the current one.
    let module = make_module(1, &[(5, 0, ModEvent { note: 0, ins: 0, fxt: 0xd, fxp: 0x10 })]);
    let mut player = Player::find(&module, 44100, "nt11", "").unwrap();
    player.start();

    // Rows 0..=4 take 5 * 6 ticks; the 31st tick is tick 0 of row 5, where
    // the break is read and, at the row's end, applied.
    for _ in 0..30 {
        player.play_frame();
        assert_eq!(player.position(), 0);
    }
    player.play_frame();
    assert_eq!(player.position(), 1);
    assert_eq!(player.row(), 10);
}

#[test]
fn position_jump_is_deferred_to_the_row_end() {
    let module = make_module(1, &[(0, 0, ModEvent { note: 0, ins: 0, fxt: 0xb, fxp: 0x01 })]);
    let mut player = Player::find(&module, 44100, "nt11", "").unwrap();
    player.start();
    player.play_frame();
    assert_eq!(player.position(), 1);
    assert_eq!(player.row(), 0);
}

#[test]
fn speed_effect_sets_ticks_per_row() {
    let module = make_module(1, &[(0, 0, ModEvent { note: 0, ins: 0, fxt: 0xf, fxp: 3 })]);
    let mut player = Player::find(&module, 44100, "nt11", "").unwrap();
    player.start();
    player.play_frame();
    let snap = player.snapshot();
    assert_eq!(snap.speed, 3);
    assert_eq!(snap.tempo, 125);
}

#[test]
fn tempo_effect_sets_tempo_at_the_threshold() {
    // The canonical threshold: a parameter of 32 or more is a tempo.
    let module = make_module(1, &[(0, 0, ModEvent { note: 0, ins: 0, fxt: 0xf, fxp: 0x20 })]);
    let mut player = Player::find(&module, 44100, "nt11", "").unwrap();
    player.start();
    player.play_frame();
    let snap = player.snapshot();
    assert_eq!(snap.speed, 6);
    assert_eq!(snap.tempo, 32);
}

#[test]
fn volume_change_is_clamped_to_the_register_range() {
    let module = make_module(1, &[(0, 0, ModEvent { note: C3, ins: 1, fxt: 0xc, fxp: 0x7f })]);
    let mut player = Player::find(&module, 44100, "nt11", "").unwrap();
    player.start();
    player.play_frame();
    assert_eq!(player.virt.mixer.voices[0].volume, 64);
}

#[test]
fn volume_slide_down_stops_at_zero() {
    let module = make_module(
        1,
        &[
            (0, 0, ModEvent { note: C3, ins: 1, fxt: 0xc, fxp: 0x05 }),
            (1, 0, ModEvent { note: 0, ins: 0, fxt: 0xa, fxp: 0x02 }),
        ],
    );
    let mut player = Player::find(&module, 44100, "nt11", "").unwrap();
    player.start();
    for _ in 0..6 {
        player.play_frame();
    }
    // Row 1: volume 5 slides down by 2 per tick and stops exactly at 0.
    let mut vols = Vec::new();
    for _ in 0..6 {
        player.play_frame();
        vols.push(player.virt.mixer.voices[0].volume);
    }
    assert_eq!(vols, vec![5, 3, 1, 0, 0, 0]);
}

#[test]
fn portamento_up_clamps_at_the_top_of_the_range() {
    let module = make_module(
        1,
        &[(0, 0, ModEvent { note: 35, ins: 1, fxt: 0x1, fxp: 0x08 })],
    );
    // Note 35 is period 120; sliding up 8 per tick hits the 113 clamp.
    let mut player = Player::find(&module, 44100, "nt11", "").unwrap();
    player.start();
    let mut periods = Vec::new();
    for _ in 0..3 {
        player.play_frame();
        periods.push(player.virt.mixer.voices[0].period);
    }
    assert_eq!(periods, vec![120, 113, 113]);
}

#[test]
fn tone_portamento_stops_exactly_at_the_target() {
    let module = make_module(
        1,
        &[
            (0, 0, ModEvent { note: C3, ins: 1, fxt: 0, fxp: 0 }),
            (1, 0, ModEvent { note: 27, ins: 0, fxt: 0x3, fxp: 0x09 }),
        ],
    );
    // Note 27 is period 190: the glide from 214 toward 190 moves 9 per
    // tick and lands exactly on 190.
    let mut player = Player::find(&module, 44100, "nt11", "").unwrap();
    player.start();
    for _ in 0..6 {
        player.play_frame();
    }
    let mut periods = Vec::new();
    for _ in 0..6 {
        player.play_frame();
        periods.push(player.virt.mixer.voices[0].period);
    }
    assert_eq!(periods, vec![205, 196, 190, 190, 190, 190]);
}

#[test]
fn note_cut_silences_at_the_named_tick() {
    let module = make_module(1, &[(0, 0, ModEvent { note: C3, ins: 1, fxt: 0xe, fxp: 0xc2 })]);
    let mut player = Player::find(&module, 44100, "nt11", "").unwrap();
    player.start();
    player.play_frame();
    assert_eq!(player.virt.mixer.voices[0].volume, 64);
    player.play_frame();
    assert_eq!(player.virt.mixer.voices[0].volume, 64);
    player.play_frame();
    assert_eq!(player.virt.mixer.voices[0].volume, 0);
}

#[test]
fn pattern_loop_repeats_the_marked_row() {
    let module = make_module(
        1,
        &[
            (0, 0, ModEvent { note: 0, ins: 0, fxt: 0xe, fxp: 0x60 }),
            (1, 0, ModEvent { note: 0, ins: 0, fxt: 0xe, fxp: 0x62 }),
        ],
    );
    let mut player = Player::find(&module, 44100, "nt11", "").unwrap();
    player.start();
    // Row 0 marks the loop start; row 1 jumps back twice before falling
    // through: rows processed run 0,1,0,1,0,1,2.
    let mut rows = Vec::new();
    for _ in 0..7 {
        for _ in 0..6 {
            player.play_frame();
        }
        rows.push(player.row());
    }
    assert_eq!(rows, vec![1, 0, 1, 0, 1, 2, 3]);
}

#[test]
fn set_finetune_changes_the_period_row() {
    let module = make_module(1, &[(0, 0, ModEvent { note: C3, ins: 1, fxt: 0xe, fxp: 0x51 })]);
    let mut player = Player::find(&module, 44100, "nt11", "").unwrap();
    player.start();
    player.play_frame();
    // Finetune row 1 maps C-3 to period 213 instead of 214.
    assert_eq!(player.virt.mixer.voices[0].period, 213);
}

#[test]
fn transport_snapshot_follows_ticks() {
    let module = make_module(1, &[]);
    let mut player = Player::find(&module, 44100, "nt11", "").unwrap();
    player.start();
    player.play_frame();
    let s = player.snapshot();
    assert_eq!((s.pos, s.row, s.frame), (0, 1, 0));
    player.play_frame();
    assert_eq!(player.tick(), 1);
}

#[test]
fn song_end_restarts_at_the_restart_position() {
    let module = make_module(1, &[]);
    let mut player = Player::find(&module, 44100, "nt11", "").unwrap();
    player.start();
    // Two positions of 64 rows each; the step past the last position
    // rewinds to the restart position.
    for _ in 0..(64 * 6) {
        player.play_frame();
    }
    assert_eq!(player.position(), 1);
    for _ in 0..(64 * 6) {
        player.play_frame();
    }
    assert_eq!(player.position(), 0);
    assert_eq!(player.row(), 0);
}

#[test]
fn square_vibrato_uses_the_full_excursion() {
    let module = make_module(
        1,
        &[
            (0, 0, ModEvent { note: C3, ins: 1, fxt: 0xe, fxp: 0x42 }),
            (1, 0, ModEvent { note: 0, ins: 0, fxt: 0x4, fxp: 0x18 }),
        ],
    );
    let mut player = Player::find(&module, 44100, "nt11", "").unwrap();
    player.start();
    for _ in 0..7 {
        player.play_frame();
    }
    // Square waveform: the excursion is the full 255 scaled by depth 8,
    // added to the stored period while the phase sits in the first half.
    player.play_frame();
    assert_eq!(player.virt.mixer.voices[0].period, 214 + 255 * 8 / 128);
}

#[test]
fn tone_portamento_skips_the_instrument_latch() {
    // An instrument named together with a tone-portamento command is not
    // latched: the voice keeps its sample binding and its default-volume
    // write does not happen.
    let module = make_module(
        1,
        &[
            (0, 0, ModEvent { note: C3, ins: 1, fxt: 0xc, fxp: 0x20 }),
            (1, 0, ModEvent { note: 27, ins: 1, fxt: 0x3, fxp: 0x04 }),
        ],
    );
    let mut player = Player::find(&module, 44100, "nt11", "").unwrap();
    player.start();
    for _ in 0..6 {
        player.play_frame();
    }
    assert_eq!(player.virt.mixer.voices[0].volume, 32);
    player.play_frame();
    // Row 1: the glide starts, and the volume stays at 32 instead of the
    // instrument's default 64.
    assert_eq!(player.virt.mixer.voices[0].volume, 32);
    assert_eq!(player.virt.mixer.voices[0].period, 210);
}

#[test]
fn reset_blanks_the_channel_effect_memory() {
    let module = make_module(
        1,
        &[(0, 0, ModEvent { note: C3, ins: 1, fxt: 0x4, fxp: 0x28 })],
    );
    let mut player = Player::find(&module, 44100, "nt11", "").unwrap();
    player.start();
    for _ in 0..12 {
        player.play_frame();
    }
    player.reset();
    // Every channel record returns to its initial zero state.
    let st = player.mod_player.state[0];
    assert_eq!(st.n_period, 0);
    assert_eq!(st.n_vibratocmd, 0);
    assert_eq!(st.n_vibratopos, 0);
    assert_eq!(st.n_volume, 0);
    assert_eq!(st.n_cmd, 0);
}
