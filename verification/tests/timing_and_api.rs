//! Timing arithmetic, the note tables, the registry and the top-level API.
use oxdz::format::protracker::ModEvent;
use oxdz::format::protracker::ModOrders;
use oxdz::format::protracker::ModPatterns;
use oxdz::module::Instrument;
use oxdz::module::Module;
use oxdz::module::Sample;
use oxdz::player::noisetracker::Nt11;
use oxdz::player::list_by_id;
use oxdz::player::samples_per_tick;
use oxdz::player::str_eq;
use oxdz::player::Virtual;
use oxdz::util::period_of_note;
use oxdz::util::period_to_note;
use oxdz::Error;
use oxdz::Oxdz;

#[test]
fn tick_duration_follows_the_tempo_formula() {
    // A tick lasts 2500 / tempo ms: at 125 that is 20 ms, 882 samples at
    // 44100 Hz.
    assert_eq!(samples_per_tick(44100, 125), 882);
    assert_eq!(samples_per_tick(44100, 250), 441);
    assert_eq!(samples_per_tick(96000, 20), 12000);
    assert_eq!(samples_per_tick(4000, 255), 39);
}

#[test]
fn row_duration_strictly_decreases_with_tempo() {
    // Row duration is speed * 2500 / tempo ms; on the common denominator
    // t1 * t2 the scaled durations compare by cross-multiplication.
    let speed: u64 = 6;
    let t1: u64 = 125;
    let t2: u64 = 126;
    assert!(speed * 2500 * t1 < speed * 2500 * t2);
    // The sample counts follow: a faster tempo never renders more
    // samples per row.
    assert!(samples_per_tick(44100, 126) <= samples_per_tick(44100, 125));
}

#[test]
fn period_table_round_trips_through_note_numbers() {
    // C-3 sits at note index 24 of the finetune-0 row.
    assert_eq!(period_of_note(0, 24), 214);
    assert_eq!(period_of_note(0, 0), 856);
    assert_eq!(period_of_note(0, 35), 113);
    assert_eq!(period_of_note(7, 0), 814);
    assert_eq!(period_of_note(8, 0), 907);
    for note in 0..36 {
        let p = period_of_note(0, note);
        assert_eq!(period_to_note(p as u32), note + 1);
    }
    assert_eq!(period_to_note(0), 0);
    assert_eq!(period_to_note(50), 0);
    assert_eq!(period_to_note(2000), 1);
}

#[test]
fn str_eq_compares_by_content() {
    assert!(str_eq("nt11", "nt11"));
    assert!(!str_eq("nt11", "nt12"));
    assert!(!str_eq("nt11", "nt1"));
    assert!(str_eq("", ""));
}

#[test]
fn registry_knows_its_one_player() {
    let entry = list_by_id("nt11").unwrap();
    let info = entry.info();
    assert_eq!(info.id, "nt11");
    assert_eq!(info.accepts.len(), 1);
    assert_eq!(info.accepts[0], "m.k.");
    assert!(matches!(list_by_id("mk2"), Err(Error::Player(_))));
}

fn tiny_module() -> Module {
    Module {
        title: String::from("t"),
        chn: 2,
        instrument: vec![Instrument { num: 1, name: String::from("i"), volume: 40 }],
        sample: vec![
            Sample {
                num: 1,
                name: String::from("s"),
                size: 4,
                rate_hz: 8287,
                loop_start: 0,
                loop_end: 4,
                has_loop: true,
                data: vec![10, 20, 30, 40],
            },
        ],
        orders: ModOrders { song: 0, pos: 0, rstpos: 0, orders: vec![0] },
        patterns: ModPatterns {
            num: 1,
            data: vec![ModEvent { note: 0, ins: 0, fxt: 0, fxp: 0 }; 256],
        },
        player: String::from("nt11"),
    }
}

#[test]
fn nt11_builds_a_sequencer_for_the_module() {
    let entry = Nt11 {};
    let module = tiny_module();
    let mp = entry.player(&module);
    assert_eq!(mp.state.len(), 2);
    assert_eq!(mp.name(), "Vinterstigen PT2.1A replayer");
}

#[test]
fn virtual_layer_forwards_only_changes() {
    let mut v = Virtual::new(44100, 2);
    v.set_volume(0, 33);
    assert_eq!(v.mixer.voices[0].volume, 33);
    assert_eq!(v.mixer.voices[1].volume, 0);
    // An over-range write clamps to the register range.
    v.set_volume(0, 200);
    assert_eq!(v.mixer.voices[0].volume, 64);
    // A period of zero is the silent state and is not forwarded.
    v.set_period(1, 0);
    assert_eq!(v.mixer.voices[1].period, 0);
    v.set_period(1, 214);
    assert_eq!(v.mixer.voices[1].period, 214);
    // A channel out of range is a quiet no-op.
    v.set_volume(9, 1);
    v.set_period(9, 1);
    v.set_patch(9, 0, 0, 0);
    v.retrig(9);
}

#[test]
fn channel_data_new_is_all_zero() {
    let c = oxdz::player::protracker::ChannelData::new();
    assert_eq!(c.n_period, 0);
    assert_eq!(c.n_volume, 0);
    assert_eq!(c.n_note, 0);
    assert_eq!(c.n_finetune, 0);
}

/// The loader image from the loader tests, reduced: magic, one pattern,
/// one order.
fn mod_bytes() -> Vec<u8> {
    let mut b = vec![0u8; 1084 + 1024];
    b[950] = 1;
    b[1080] = 0x4d;
    b[1081] = 0x2e;
    b[1082] = 0x4b;
    b[1083] = 0x2e;
    b
}

#[test]
fn oxdz_binds_a_module_to_a_player() {
    let o = Oxdz::new(&mod_bytes(), 44100, "").unwrap();
    assert_eq!(o.player_id, "nt11");
    assert_eq!(o.rate, 44100);
    assert_eq!(o.module().chn, 4);
    let info = o.player_info().unwrap();
    assert_eq!(info.id, "nt11");
    let mut player = o.player().unwrap();
    player.start();
    let frame = player.play_frame();
    assert_eq!(frame.len(), 882);
}

#[test]
fn oxdz_rejects_unknown_players_and_bad_input() {
    assert!(matches!(Oxdz::new(&mod_bytes(), 44100, "zz9"), Err(Error::Player(_))));
    let junk = vec![0u8; 64];
    assert!(Oxdz::new(&junk, 44100, "").is_err());
    // A rate fault is reported when the driver is built.
    let o = Oxdz::new(&mod_bytes(), 999, "nt11").unwrap();
    assert!(matches!(o.player(), Err(Error::Player(_))));
}

#[test]
fn error_messages_carry_their_description() {
    let e = Error::Format(String::from("bad magic"));
    assert_eq!(e.message(), "bad magic");
    let e = Error::Player(String::from("can't find player"));
    assert_eq!(e.message(), "can't find player");
    let e = Error::Load(String::from("short read"));
    assert_eq!(e.message(), "short read");
}

#[test]
fn looped_sample_wraps_at_its_loop_end() {
    let module = tiny_module();
    let mut player = oxdz::player::Player::find(&module, 44100, "nt11", "").unwrap();
    player.start();
    // Drive the voice directly: a looping sample keeps the cursor inside
    // its loop window forever.
    player.virt.set_patch(0, 0, 0, 25);
    player.virt.retrig(0);
    player.virt.set_period(0, 113);
    player.virt.set_volume(0, 64);
    for _ in 0..50 {
        player.play_frame();
        assert!(player.virt.mixer.voices[0].pos < 4);
        assert!(player.virt.mixer.voices[0].active);
    }
}
