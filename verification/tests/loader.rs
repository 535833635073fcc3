//! The MOD loader: probe, headers, orders, patterns and sample data.
use oxdz::format::protracker::Mod;
use oxdz::format::load;
use oxdz::Error;

/// A minimal one-pattern module image: title, 31 instrument headers, the
/// order list, the magic, one pattern, and sample data for instrument 1.
fn mod_image() -> Vec<u8> {
    let mut b = vec![0u8; 1084 + 1024];
    // Title.
    for (i, c) in b"hello song".iter().enumerate() {
        b[i] = *c;
    }
    // Instrument 1: name, size 4 words, volume 64, loop start 0, loop
    // size 1 (no loop).
    let ofs = 20;
    for (i, c) in b"first".iter().enumerate() {
        b[ofs + i] = *c;
    }
    b[ofs + 22] = 0;
    b[ofs + 23] = 4; // size: 4 words = 8 bytes
    b[ofs + 25] = 64;
    b[ofs + 28] = 0;
    b[ofs + 29] = 1;
    // Instrument 2 declares a volume past the register range.
    b[20 + 30 + 25] = 200;
    // Song length 2, restart 0, orders [0, 0].
    b[950] = 2;
    b[951] = 0;
    b[952] = 0;
    b[953] = 0;
    // Magic "M.K.".
    b[1080] = 0x4d;
    b[1081] = 0x2e;
    b[1082] = 0x4b;
    b[1083] = 0x2e;
    // First cell of pattern 0: period 214 (C-3), instrument 1, effect C40.
    b[1084] = 0x00; // instrument high nibble 0, period high 0x0
    b[1085] = 214u32 as u8; // period low byte: 214 = 0xd6
    b[1086] = 0x1c; // instrument low nibble 1, effect 0xc
    b[1087] = 0x40;
    // Sample data for instrument 1: 8 bytes.
    b.extend_from_slice(&[1, 2, 3, 4, 5, 6, 7, 8]);
    b
}

#[test]
fn probe_accepts_the_magic_and_rejects_others() {
    let loader = Mod::new();
    let b = mod_image();
    assert!(loader.probe(&b).is_ok());

    let mut bad = mod_image();
    bad[1080] = 0x58;
    assert!(matches!(loader.probe(&bad), Err(Error::Format(_))));

    let short = vec![0u8; 100];
    assert!(matches!(loader.probe(&short), Err(Error::Format(_))));
}

#[test]
fn load_reads_title_and_instruments() {
    let loader = Mod::new();
    let m = loader.load(&mod_image()).unwrap();
    assert_eq!(m.title, "hello song..........");
    assert_eq!(m.chn, 4);
    assert_eq!(m.instrument.len(), 31);
    assert_eq!(m.instrument[0].volume, 64);
    assert_eq!(m.instrument[0].num, 1);
    assert!(m.instrument[0].name.starts_with("first"));
    // The out-of-range volume is clamped into the register range.
    assert_eq!(m.instrument[1].volume, 64);
}

#[test]
fn load_reads_orders_and_patterns() {
    let loader = Mod::new();
    let m = loader.load(&mod_image()).unwrap();
    assert_eq!(m.orders.num(), 2);
    assert_eq!(m.orders.current(), 0);
    assert_eq!(m.patterns.num(), 1);
    assert_eq!(m.patterns.rows(0), 64);
    assert_eq!(m.patterns.rows(1), 0);
    let e = m.patterns.event(0, 0, 0);
    assert_eq!(e.note, 25); // period 214 is C-3, note index 24, 1-based 25
    assert_eq!(e.ins, 1);
    assert_eq!(e.fxt, 0xc);
    assert_eq!(e.fxp, 0x40);
    // Out-of-range lookups read as silence.
    let silent = m.patterns.event(7, 0, 0);
    assert_eq!((silent.note, silent.ins, silent.fxt, silent.fxp), (0, 0, 0, 0));
}

#[test]
fn load_reads_sample_data() {
    let loader = Mod::new();
    let m = loader.load(&mod_image()).unwrap();
    assert_eq!(m.sample[0].size, 8);
    assert_eq!(m.sample[0].data, vec![1, 2, 3, 4, 5, 6, 7, 8]);
    assert!(!m.sample[0].has_loop);
    assert_eq!(m.sample[1].data.len(), 0);
}

#[test]
fn load_rejects_truncated_pattern_data() {
    let loader = Mod::new();
    let mut b = mod_image();
    b.truncate(1500);
    assert!(matches!(loader.load(&b), Err(Error::Load(_))));
}

#[test]
fn format_load_dispatches_on_the_probe() {
    let m = load(&mod_image(), "").unwrap();
    assert_eq!(m.player, "nt11");
    let mut bad = mod_image();
    bad[1083] = 0;
    assert!(load(&bad, "").is_err());
}

#[test]
fn orders_navigation_clamps_at_the_ends() {
    let loader = Mod::new();
    let mut m = loader.load(&mod_image()).unwrap();
    assert_eq!(m.orders.pattern(), 0);
    assert_eq!(m.orders.next(), 1);
    assert_eq!(m.orders.next(), 1);
    assert_eq!(m.orders.prev(), 0);
    assert_eq!(m.orders.prev(), 0);
    assert_eq!(m.orders.set(5), 1);
    assert_eq!(m.orders.restart(), 0);
    assert_eq!(m.orders.current_song(), 0);
    assert_eq!(m.orders.set_song(3), 0);
}
