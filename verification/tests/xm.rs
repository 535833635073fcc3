//! The extended-module headers: song, sample, instrument and pattern.
use oxdz::format::xm::InstrHeaderTyp;
use oxdz::format::xm::PatternHeaderTyp;
use oxdz::format::xm::SampleHeaderTyp;
use oxdz::format::xm::SongHeaderTyp;
use oxdz::format::xm::TonTyp;
use oxdz::format::xm::XmData;
use oxdz::module::Sample;

fn put16(b: &mut [u8], ofs: usize, v: u16) {
    b[ofs] = (v & 0xff) as u8;
    b[ofs + 1] = (v >> 8) as u8;
}

fn song_image(len: u16) -> Vec<u8> {
    let mut b = vec![0u8; 80 + len as usize];
    for (i, c) in b"Extended Module: ".iter().enumerate() {
        b[i] = *c;
    }
    for (i, c) in b"my song".iter().enumerate() {
        b[17 + i] = *c;
    }
    put16(&mut b, 58, 0x0104);
    put16(&mut b, 64, len);
    put16(&mut b, 66, 1); // restart
    put16(&mut b, 68, 8); // channels
    put16(&mut b, 70, 3); // patterns
    put16(&mut b, 72, 5); // instruments
    put16(&mut b, 74, 1); // flags
    put16(&mut b, 76, 6); // default speed
    put16(&mut b, 78, 125); // default tempo
    for i in 0..len as usize {
        b[80 + i] = (i % 3) as u8;
    }
    b
}

#[test]
fn song_header_reads_counts_and_order_table() {
    let h = SongHeaderTyp::from_slice(&song_image(4)).unwrap();
    assert_eq!(h.ver, 0x0104);
    assert_eq!(h.len, 4);
    assert_eq!(h.rep_s, 1);
    assert_eq!(h.ant_chn, 8);
    assert_eq!(h.ant_ptn, 3);
    assert_eq!(h.ant_instrs, 5);
    assert_eq!(h.flags, 1);
    assert_eq!(h.def_tempo, 6);
    assert_eq!(h.def_speed, 125);
    assert_eq!(h.song_tab, vec![0, 1, 2, 0]);
}

#[test]
fn song_header_rejects_a_short_order_table() {
    let mut b = song_image(4);
    b.truncate(82);
    assert!(SongHeaderTyp::from_slice(&b).is_err());
}

#[test]
fn sample_header_reads_its_forty_bytes() {
    let mut b = vec![0u8; 40];
    b[0] = 100; // len = 100
    b[4] = 10; // rep_s
    b[8] = 20; // rep_l
    b[12] = 48; // vol
    b[13] = 0xf0; // fine = -16
    b[14] = 4; // typ: 16-bit
    b[15] = 128; // pan
    b[16] = 0xff; // rel_ton = -1
    let h = SampleHeaderTyp::from_slice(&b).unwrap();
    assert_eq!(h.len, 100);
    assert_eq!(h.rep_s, 10);
    assert_eq!(h.rep_l, 20);
    assert_eq!(h.vol, 48);
    assert_eq!(h.fine, -16);
    assert_eq!(h.typ, 4);
    assert_eq!(h.pan, 128);
    assert_eq!(h.rel_ton, -1);
    assert!(SampleHeaderTyp::from_slice(&b[..39]).is_err());
    let blank = SampleHeaderTyp::new();
    assert_eq!((blank.len, blank.vol, blank.typ), (0, 0, 0));
}

#[test]
fn instrument_header_without_samples_is_only_its_header() {
    let mut b = vec![0u8; 29];
    b[0] = 29; // instr_size
    for (i, c) in b"piano".iter().enumerate() {
        b[4 + i] = *c;
    }
    b[26] = 0;
    put16(&mut b, 27, 0);
    let (ins, ofs) = InstrHeaderTyp::from_slice(&b).unwrap();
    assert_eq!(ins.ant_samp, 0);
    assert_eq!(ins.samp.len(), 0);
    assert_eq!(ofs, 29);
    let blank = InstrHeaderTyp::new();
    assert_eq!(blank.ant_samp, 0);
}

#[test]
fn instrument_header_reads_envelopes_and_sample_headers() {
    // Header of 263 bytes (instr_size), one sample of 6 bytes.
    let mut b = vec![0u8; 263 + 40 + 6];
    b[0] = 7;
    b[1] = 1; // instr_size = 263
    put16(&mut b, 27, 1); // one sample
    for i in 0..96 {
        b[33 + i] = i as u8;
    }
    b[225] = 3; // env_vp_ant
    b[235] = 2; // vib_typ
    b[237] = 9; // vib_depth
    put16(&mut b, 239, 0x1234); // fade_out
    // Sample header at 263: len 6, vol 32, typ 0.
    b[263] = 6;
    b[263 + 12] = 32;
    let (ins, ofs) = InstrHeaderTyp::from_slice(&b).unwrap();
    assert_eq!(ins.ant_samp, 1);
    assert_eq!(ins.ta.len(), 96);
    assert_eq!(ins.ta[95], 95);
    assert_eq!(ins.env_vp.len(), 24);
    assert_eq!(ins.env_vp_ant, 3);
    assert_eq!(ins.vib_typ, 2);
    assert_eq!(ins.vib_depth, 9);
    assert_eq!(ins.fade_out, 0x1234);
    assert_eq!(ins.samp.len(), 1);
    assert_eq!(ins.samp[0].vol, 32);
    assert_eq!(ofs, 263 + 40 + 6);
}

fn pattern_image() -> Vec<u8> {
    // Header: size, type, two rows, one channel; then cells.
    let mut b = vec![0u8; 9];
    b[0] = 9;
    put16(&mut b, 5, 2); // patt_len = 2 rows
    // Row 0: a packed cell with note and effect parameter only.
    b.push(0x80 | 0x01 | 0x10);
    b.push(49); // ton
    b.push(7); // eff parameter
    // Row 1: an unpacked cell.
    b.extend_from_slice(&[10, 2, 3, 4, 5]);
    b
}

#[test]
fn pattern_reads_packed_and_plain_cells() {
    let p = PatternHeaderTyp::from_slice(0, &pattern_image(), 1).unwrap();
    assert_eq!(p.patt_len, 2);
    assert_eq!(p.data().len(), 2);
    let e0 = p.event(0, 0);
    assert_eq!((e0.ton, e0.instr, e0.vol, e0.eff_typ, e0.eff), (49, 0, 0, 0, 7));
    let e1 = p.event(1, 0);
    assert_eq!((e1.ton, e1.instr, e1.vol, e1.eff_typ, e1.eff), (10, 2, 3, 4, 5));
}

#[test]
fn pattern_rejects_truncated_cells() {
    let mut b = pattern_image();
    b.truncate(11);
    assert!(PatternHeaderTyp::from_slice(0, &b, 1).is_err());
}

#[test]
fn ton_typ_new_is_the_empty_cell() {
    let t = TonTyp::new();
    assert_eq!((t.ton, t.instr, t.vol, t.eff_typ, t.eff), (0, 0, 0, 0, 0));
}

#[test]
fn xm_data_answers_from_its_header() {
    let header = SongHeaderTyp::from_slice(&song_image(3)).unwrap();
    let p0 = PatternHeaderTyp::from_slice(0, &pattern_image(), 1).unwrap();
    let p1 = PatternHeaderTyp::from_slice(1, &pattern_image(), 1).unwrap();
    let p2 = PatternHeaderTyp::from_slice(2, &pattern_image(), 1).unwrap();
    let xm = XmData {
        header,
        instruments: Vec::new(),
        patterns: vec![p0, p1, p2],
        samples: vec![
            Sample {
                num: 1,
                name: String::from("s"),
                size: 0,
                rate_hz: 8287,
                loop_start: 0,
                loop_end: 0,
                has_loop: false,
                data: Vec::new(),
            },
        ],
    };
    assert_eq!(xm.title(), "my song.............");
    assert_eq!(xm.patterns(), 3);
    assert_eq!(xm.len(), 3);
    assert_eq!(xm.pattern_in_position(0), Some(0));
    assert_eq!(xm.pattern_in_position(2), Some(2));
    assert_eq!(xm.pattern_in_position(3), None);
    assert_eq!(xm.next_position(7), 0);
    assert_eq!(xm.prev_position(7), 0);
    assert_eq!(xm.rows(0), 2);
    assert_eq!(xm.rows(9), 0);
    assert_eq!(xm.instruments().len(), 0);
    assert_eq!(xm.samples().len(), 1);
    let mut buf = Vec::new();
    assert_eq!(xm.pattern_data(0, 0, &mut buf), 0);
}
