//! The sequencer / effect state machine: it advances one tick per call,
//! reads pattern events at row boundaries, runs trigger-time effects
//! there and per-tick effects on every tick, and drives the virtual
//! channel registers.
use vstd::prelude::*;
use crate::module::Module;
use crate::player::PlayerData;
use crate::player::spec_same_chip;
use crate::player::spec_same_cursor;
use crate::player::spec_same_volume;
use crate::format::protracker::ModEvent;
use crate::player::spec_same_patch;
use crate::player::Virtual;
use crate::util::period_of_note;
use crate::util::spec_period;

verus! {

/// Waveform table for vibrato and tremolo: half a sine, 32 steps, 0..=255.
pub const VIBRATO_TABLE: [u8; 32] = [
    0, 24, 49, 74, 97, 120, 141, 161, 180, 197, 212, 224, 235, 244, 250, 253,
    255, 253, 250, 244, 235, 224, 212, 197, 180, 161, 141, 120, 97, 74, 49, 24,
];

/// Per-channel effect memory, one record per channel.
#[derive(Clone, Copy)]
pub struct ChannelData {
    pub n_note: u8,
    pub n_cmd: u8,
    pub n_cmdlo: u8,
    pub n_period: u16,
    pub n_finetune: u8,
    pub n_volume: u8,
    pub n_toneportdirec: i8,
    pub n_toneportspeed: u8,
    pub n_wantedperiod: u16,
    pub n_vibratocmd: u8,
    pub n_vibratopos: u8,
    pub n_tremolocmd: u8,
    pub n_tremolopos: u8,
    pub n_wavecontrol: u8,
    pub n_glissfunk: u8,
    pub n_sampleoffset: u8,
    pub n_pattpos: u8,
    pub n_loopcount: u8,
    pub n_funkoffset: u8,
    pub n_wavestart: u32,
    pub n_reallength: u16,
}

impl ChannelData {
    /// Register values a channel record may hold.
    pub open spec fn wf(self) -> bool {
        &&& self.n_volume <= 64
        &&& self.n_finetune < 16
        &&& self.n_note <= 36
        &&& self.n_period <= 1023
        &&& self.n_wantedperiod <= 1023
        &&& self.n_pattpos < 64
    }

    /// A channel at rest: everything zero.
    pub fn new() -> (r: ChannelData)
        ensures
            r.wf(),
            r == spec_blank_channel(),
    {
        ChannelData {
            n_note: 0,
            n_cmd: 0,
            n_cmdlo: 0,
            n_period: 0,
            n_finetune: 0,
            n_volume: 0,
            n_toneportdirec: 0,
            n_toneportspeed: 0,
            n_wantedperiod: 0,
            n_vibratocmd: 0,
            n_vibratopos: 0,
            n_tremolocmd: 0,
            n_tremolopos: 0,
            n_wavecontrol: 0,
            n_glissfunk: 0,
            n_sampleoffset: 0,
            n_pattpos: 0,
            n_loopcount: 0,
            n_funkoffset: 0,
            n_wavestart: 0,
            n_reallength: 0,
        }
    }
}

/// The all-zero channel record.
pub open spec fn spec_blank_channel() -> ChannelData {
    ChannelData {
        n_note: 0,
        n_cmd: 0,
        n_cmdlo: 0,
        n_period: 0,
        n_finetune: 0,
        n_volume: 0,
        n_toneportdirec: 0,
        n_toneportspeed: 0,
        n_wantedperiod: 0,
        n_vibratocmd: 0,
        n_vibratopos: 0,
        n_tremolocmd: 0,
        n_tremolopos: 0,
        n_wavecontrol: 0,
        n_glissfunk: 0,
        n_sampleoffset: 0,
        n_pattpos: 0,
        n_loopcount: 0,
        n_funkoffset: 0,
        n_wavestart: 0,
        n_reallength: 0,
    }
}

impl Default for ChannelData {
    /// The all-zero record.
    fn default() -> (r: Self)
        ensures
            r == spec_blank_channel(),
    {
        ChannelData::new()
    }
}


/// The record after one portamento-up step of `step`: the period falls,
/// clamped at the top of the pitch range, 113.
pub open spec fn spec_porta_up_step(st: ChannelData, step: int) -> ChannelData {
    ChannelData {
        n_period: (if st.n_period - step < 113 {
            113int
        } else {
            st.n_period - step
        }) as u16,
        ..st
    }
}

/// The record after one portamento-down step of `step`: the period rises,
/// clamped at the bottom of the pitch range, 856.
pub open spec fn spec_porta_down_step(st: ChannelData, step: int) -> ChannelData {
    ChannelData {
        n_period: (if st.n_period + step > 856 {
            856int
        } else {
            st.n_period + step
        }) as u16,
        ..st
    }
}

/// The record after one glide step toward the latched target: the period
/// moves by the latched speed and stops exactly at the target, which is
/// then cleared.
pub open spec fn spec_tone_glide(st: ChannelData) -> ChannelData {
    if st.n_wantedperiod == 0 {
        st
    } else {
        let stepped: int = if st.n_toneportdirec > 0 {
            if st.n_period - st.n_toneportspeed <= st.n_wantedperiod {
                st.n_wantedperiod as int
            } else {
                st.n_period - st.n_toneportspeed
            }
        } else {
            if st.n_period + st.n_toneportspeed >= st.n_wantedperiod {
                st.n_wantedperiod as int
            } else {
                st.n_period + st.n_toneportspeed
            }
        };
        ChannelData {
            n_period: stepped as u16,
            n_wantedperiod: if stepped == st.n_wantedperiod {
                0
            } else {
                st.n_wantedperiod
            },
            ..st
        }
    }
}

/// The record after a tone-portamento tick: a nonzero parameter replaces
/// the latched glide speed and is consumed, then one glide step runs.
pub open spec fn spec_tone_porta(st: ChannelData) -> ChannelData {
    spec_tone_glide(
        ChannelData {
            n_toneportspeed: if st.n_cmdlo != 0 {
                st.n_cmdlo
            } else {
                st.n_toneportspeed
            },
            n_cmdlo: 0,
            ..st
        },
    )
}

/// The record after one volume-slide tick: the high nibble slides up,
/// else the low nibble slides down, clamped to the register range.
pub open spec fn spec_volume_slide(st: ChannelData) -> ChannelData {
    let up = (st.n_cmdlo >> 4) as int;
    let down = (st.n_cmdlo & 0x0f) as int;
    ChannelData {
        n_volume: (if up != 0 {
            if st.n_volume + up > 64 {
                64int
            } else {
                st.n_volume + up
            }
        } else {
            if st.n_volume - down < 0 {
                0int
            } else {
                st.n_volume - down
            }
        }) as u8,
        ..st
    }
}

/// The record after a volume change: the parameter, clamped to 64.
pub open spec fn spec_volume_change(st: ChannelData) -> ChannelData {
    ChannelData {
        n_volume: if st.n_cmdlo <= 64 {
            st.n_cmdlo
        } else {
            64
        },
        ..st
    }
}

/// The record after a sample-offset command: a nonzero parameter
/// refreshes the offset memory.
pub open spec fn spec_sample_offset_mem(st: ChannelData) -> ChannelData {
    ChannelData {
        n_sampleoffset: if st.n_cmdlo != 0 {
            st.n_cmdlo
        } else {
            st.n_sampleoffset
        },
        ..st
    }
}

/// The record after the vibrato memory refresh: nonzero parameter
/// nibbles replace the stored rate and depth nibbles.
pub open spec fn spec_vibrato_mem(st: ChannelData) -> ChannelData {
    let a = if st.n_cmdlo & 0xf0 != 0 {
        (st.n_vibratocmd & 0x0f) | (st.n_cmdlo & 0xf0)
    } else {
        st.n_vibratocmd
    };
    ChannelData {
        n_vibratocmd: if st.n_cmdlo & 0x0f != 0 {
            (a & 0xf0) | (st.n_cmdlo & 0x0f)
        } else {
            a
        },
        ..st
    }
}

/// The record after the vibrato phase advance: four steps per rate unit,
/// wrapping.
pub open spec fn spec_vibrato_phase(st: ChannelData) -> ChannelData {
    ChannelData {
        n_vibratopos: ((st.n_vibratopos + ((st.n_vibratocmd >> 2) & 0x3c)) % 256) as u8,
        ..st
    }
}

/// The record after one vibrato tick: memory refresh, then phase advance.
pub open spec fn spec_vibrato(st: ChannelData) -> ChannelData {
    spec_vibrato_phase(spec_vibrato_mem(st))
}

/// The record after one tremolo tick: memory refresh, then phase advance;
/// the stored volume is untouched.
pub open spec fn spec_tremolo(st: ChannelData) -> ChannelData {
    let a = if st.n_cmdlo & 0xf0 != 0 {
        (st.n_tremolocmd & 0x0f) | (st.n_cmdlo & 0xf0)
    } else {
        st.n_tremolocmd
    };
    let b = if st.n_cmdlo & 0x0f != 0 {
        (a & 0xf0) | (st.n_cmdlo & 0x0f)
    } else {
        a
    };
    ChannelData {
        n_tremolocmd: b,
        n_tremolopos: ((st.n_tremolopos + ((b >> 2) & 0x3c)) % 256) as u8,
        ..st
    }
}

/// The record after one fine-volume-up step.
pub open spec fn spec_fine_volume_up(st: ChannelData) -> ChannelData {
    ChannelData {
        n_volume: (if st.n_volume + (st.n_cmdlo & 0x0f) > 64 {
            64int
        } else {
            st.n_volume + (st.n_cmdlo & 0x0f)
        }) as u8,
        ..st
    }
}

/// The record after one fine-volume-down step.
pub open spec fn spec_fine_volume_down(st: ChannelData) -> ChannelData {
    ChannelData {
        n_volume: (if st.n_volume - (st.n_cmdlo & 0x0f) < 0 {
            0int
        } else {
            st.n_volume - (st.n_cmdlo & 0x0f)
        }) as u8,
        ..st
    }
}

/// The record after the pattern-loop bookkeeping at tick 0: parameter 0
/// remembers the row; otherwise the count starts at the parameter or
/// counts down, stopping at zero.
pub open spec fn spec_jump_loop_record(st: ChannelData, row: int) -> ChannelData {
    if st.n_cmdlo & 0x0f == 0 {
        ChannelData { n_pattpos: row as u8, ..st }
    } else if st.n_loopcount == 0 {
        ChannelData { n_loopcount: st.n_cmdlo & 0x0f, ..st }
    } else {
        ChannelData { n_loopcount: (st.n_loopcount - 1) as u8, ..st }
    }
}

/// The record after one tick of a numbered sub-effect. Sub-effects that
/// drive only the shared transport, the chip or the voice (filter,
/// retrigger, note delay, pattern delay) leave the record alone.
pub open spec fn spec_e_tick(st: ChannelData, frame: int, row: int) -> ChannelData {
    let sub = st.n_cmdlo >> 4;
    if sub == 0x1 {
        if frame != 0 {
            st
        } else {
            spec_porta_up_step(st, (st.n_cmdlo & 0x0f) as int)
        }
    } else if sub == 0x2 {
        if frame != 0 {
            st
        } else {
            spec_porta_down_step(st, (st.n_cmdlo & 0x0f) as int)
        }
    } else if sub == 0x3 {
        ChannelData { n_glissfunk: (st.n_glissfunk & 0xf0) | (st.n_cmdlo & 0x0f), ..st }
    } else if sub == 0x4 {
        ChannelData { n_wavecontrol: (st.n_wavecontrol & 0xf0) | (st.n_cmdlo & 0x0f), ..st }
    } else if sub == 0x5 {
        ChannelData { n_finetune: st.n_cmdlo & 0x0f, ..st }
    } else if sub == 0x6 {
        if frame != 0 {
            st
        } else {
            spec_jump_loop_record(st, row)
        }
    } else if sub == 0x7 {
        ChannelData { n_wavecontrol: (st.n_wavecontrol & 0x0f) | ((st.n_cmdlo & 0x0f) << 4), ..st }
    } else if sub == 0xa {
        if frame != 0 {
            st
        } else {
            spec_fine_volume_up(st)
        }
    } else if sub == 0xb {
        if frame != 0 {
            st
        } else {
            spec_fine_volume_down(st)
        }
    } else if sub == 0xc {
        if frame == st.n_cmdlo & 0x0f {
            ChannelData { n_volume: 0, ..st }
        } else {
            st
        }
    } else if sub == 0xf {
        if frame != 0 {
            st
        } else {
            ChannelData { n_glissfunk: (st.n_glissfunk & 0x0f) | ((st.n_cmdlo & 0x0f) << 4), ..st }
        }
    } else {
        st
    }
}

/// The record after one per-tick effect dispatch: the effect named by the
/// stored command, applied to the channel's own record. Effects that only
/// move a chip register (arpeggio, the oscillators' output) change no
/// record field beyond their own memory.
pub open spec fn spec_channel_tick(st: ChannelData, frame: int, row: int) -> ChannelData {
    let cmd = st.n_cmd;
    if cmd == 0 {
        st
    } else if cmd == 0x1 {
        spec_porta_up_step(st, st.n_cmdlo as int)
    } else if cmd == 0x2 {
        spec_porta_down_step(st, st.n_cmdlo as int)
    } else if cmd == 0x3 {
        spec_tone_porta(st)
    } else if cmd == 0x4 {
        spec_vibrato(st)
    } else if cmd == 0x5 {
        spec_volume_slide(spec_tone_glide(st))
    } else if cmd == 0x6 {
        spec_volume_slide(spec_vibrato_phase(st))
    } else if cmd == 0x7 {
        spec_tremolo(st)
    } else if cmd == 0xa {
        spec_volume_slide(st)
    } else if cmd == 0xe {
        spec_e_tick(st, frame, row)
    } else {
        st
    }
}


/// The record after the trigger-time dispatch: sample-offset memory, the
/// volume change and the numbered sub-effects touch the record; the
/// transport commands touch the shared state instead.
pub open spec fn spec_trigger_tick(st: ChannelData, frame: int, row: int) -> ChannelData {
    let cmd = st.n_cmd;
    if cmd == 0x9 {
        spec_sample_offset_mem(st)
    } else if cmd == 0xc {
        spec_volume_change(st)
    } else if cmd == 0xe {
        spec_e_tick(st, frame, row)
    } else {
        st
    }
}

/// How the numbered sub-effects may move the shared transport state:
/// only the pattern loop latches an in-pattern break, and only the
/// pattern delay arms the repeat counter.
pub open spec fn spec_e_transport(a: ModPlayer, b: ModPlayer, st: ChannelData, frame: int) -> bool {
    let sub = st.n_cmdlo >> 4;
    &&& b.mt_jump_pos == a.mt_jump_pos
    &&& b.mt_jump_set == a.mt_jump_set
    &&& b.mt_pos_jump_flag == a.mt_pos_jump_flag
    &&& b.mt_patt_del_time_2 == a.mt_patt_del_time_2
    &&& (sub != 0x6 ==> b.mt_pbreak_flag == a.mt_pbreak_flag && b.mt_pbreak_pos
        == a.mt_pbreak_pos)
    &&& (sub == 0x6 ==> ({
        let jumps = frame == 0 && st.n_cmdlo & 0x0f != 0 && st.n_loopcount != 1;
        &&& (jumps ==> b.mt_pbreak_flag && b.mt_pbreak_pos == st.n_pattpos)
        &&& (!jumps ==> b.mt_pbreak_flag == a.mt_pbreak_flag && b.mt_pbreak_pos
            == a.mt_pbreak_pos)
    }))
    &&& (sub != 0xe ==> b.mt_patt_del_time == a.mt_patt_del_time)
    &&& (sub == 0xe ==> ({
        let sets = frame == 0 && a.mt_patt_del_time_2 == 0;
        &&& (sets ==> b.mt_patt_del_time == (st.n_cmdlo & 0x0f) + 1)
        &&& (!sets ==> b.mt_patt_del_time == a.mt_patt_del_time)
    }))
}

/// How one per-tick dispatch may move the shared transport state: only
/// through the numbered sub-effects.
pub open spec fn spec_tick_transport(a: ModPlayer, b: ModPlayer, st: ChannelData, frame: int) -> bool {
    if st.n_cmd == 0xe {
        spec_e_transport(a, b, st, frame)
    } else {
        spec_same_transport(a, b)
    }
}

/// The break row a pattern-break parameter names: two decimal digits,
/// falling back to 0 past the last row.
pub open spec fn spec_break_row(parm: u8) -> int {
    let row = 10 * ((parm >> 4) as int) + ((parm & 0x0f) as int);
    if row <= 63 {
        row
    } else {
        0
    }
}

/// How one trigger-time dispatch may move the shared transport state:
/// a position jump latches its target, a pattern break its row, and the
/// sub-effects move it as on any tick.
pub open spec fn spec_trigger_transport(a: ModPlayer, b: ModPlayer, st: ChannelData, frame: int) -> bool {
    let cmd = st.n_cmd;
    if cmd == 0xb {
        &&& b.mt_jump_set
        &&& b.mt_jump_pos == st.n_cmdlo
        &&& b.mt_pbreak_pos == 0
        &&& b.mt_pos_jump_flag
        &&& b.mt_pbreak_flag == a.mt_pbreak_flag
        &&& b.mt_patt_del_time == a.mt_patt_del_time
        &&& b.mt_patt_del_time_2 == a.mt_patt_del_time_2
    } else if cmd == 0xd {
        &&& b.mt_pbreak_pos == spec_break_row(st.n_cmdlo)
        &&& b.mt_pos_jump_flag
        &&& b.mt_jump_pos == a.mt_jump_pos
        &&& b.mt_jump_set == a.mt_jump_set
        &&& b.mt_pbreak_flag == a.mt_pbreak_flag
        &&& b.mt_patt_del_time == a.mt_patt_del_time
        &&& b.mt_patt_del_time_2 == a.mt_patt_del_time_2
    } else if cmd == 0xe {
        spec_e_transport(a, b, st, frame)
    } else {
        spec_same_transport(a, b)
    }
}

/// How one trigger-time dispatch may move the global transport: only a
/// speed/tempo command touches it, at the canonical threshold 32.
pub open spec fn spec_trigger_data(d0: PlayerData, d1: PlayerData, st: ChannelData) -> bool {
    if st.n_cmd == 0xf {
        let p = st.n_cmdlo;
        &&& (p == 0 ==> d1 == d0)
        &&& (1 <= p < 32 ==> d1 == (PlayerData { speed: p as usize, frame: 0, ..d0 }))
        &&& (p >= 32 ==> d1 == (PlayerData { tempo: p as usize, ..d0 }))
    } else {
        d1 == d0
    }
}

/// First note index whose period at finetune `ft` does not exceed
/// `period`; the last index when the period lies below the whole row.
pub open spec fn spec_find_index_from(ft: int, period: int, i: int) -> int
    decreases 36 - i,
{
    if i >= 35 {
        35
    } else if spec_period(ft, i) <= period {
        i
    } else {
        spec_find_index_from(ft, period, i + 1)
    }
}

/// Find the note index nearest a period within a finetune row.
pub fn find_note_index(ft: usize, period: u16) -> (r: usize)
    requires
        ft < 16,
    ensures
        r == spec_find_index_from(ft as int, period as int, 0),
        r <= 35,
{
    let mut i: usize = 0;
    while i < 35 && period_of_note(ft, i) > period
        invariant
            ft < 16,
            i <= 35,
            spec_find_index_from(ft as int, period as int, 0) == spec_find_index_from(
                ft as int,
                period as int,
                i as int,
            ),
        decreases 35 - i,
    {
        i = i + 1;
    }
    i
}

/// The vibrato or tremolo excursion for a waveform selector, a table
/// phase and a depth: the table value for the phase, scaled by the depth.
pub open spec fn spec_wave_value(wave: int, pos: int) -> int {
    let idx = (pos / 4) % 32;
    if wave % 4 == 0 {
        VIBRATO_TABLE[idx] as int
    } else if wave % 4 == 1 {
        if pos >= 128 {
            255 - 8 * idx
        } else {
            8 * idx
        }
    } else {
        255
    }
}

/// Table value of the channel's vibrato waveform at its phase.
fn wave_value(wave: u8, pos: u8) -> (r: u32)
    ensures
        r == spec_wave_value((wave & 0x03) as int, pos as int),
        r <= 255,
{
    let idx: usize = ((pos as usize) / 4) % 32;
    let w = wave & 0x03;
    proof {
        assert((wave & 0x03) < 4) by (bit_vector);
        assert((wave & 0x03) as int % 4 == (wave & 0x03) as int);
    }
    if w == 0 {
        VIBRATO_TABLE[idx] as u32
    } else if w == 1 {
        if pos >= 128 {
            255 - 8 * idx as u32
        } else {
            8 * idx as u32
        }
    } else {
        255
    }
}

/// The sequencer: per-channel effect memory and the deferred row-end
/// actions shared by all channels.
pub struct ModPlayer {
    pub name: String,
    pub state: Vec<ChannelData>,
    pub mt_pbreak_pos: u8,
    pub mt_pos_jump_flag: bool,
    pub mt_pbreak_flag: bool,
    pub mt_low_mask: u8,
    pub mt_patt_del_time: u8,
    pub mt_patt_del_time_2: u8,
    pub mt_jump_pos: u8,
    pub mt_jump_set: bool,
}

/// Every channel record in range and the latched break row in its
/// pattern.
pub open spec fn spec_channels_wf(p: ModPlayer) -> bool {
    &&& forall|c: int| 0 <= c < p.state@.len() ==> (#[trigger] p.state@[c]).wf()
    &&& p.mt_pbreak_pos < 64
}

/// The shared transport bookkeeping (deferred break, jump, delay) is the
/// same in both states.
pub open spec fn spec_same_transport(a: ModPlayer, b: ModPlayer) -> bool {
    &&& b.mt_pbreak_pos == a.mt_pbreak_pos
    &&& b.mt_pos_jump_flag == a.mt_pos_jump_flag
    &&& b.mt_pbreak_flag == a.mt_pbreak_flag
    &&& b.mt_patt_del_time == a.mt_patt_del_time
    &&& b.mt_patt_del_time_2 == a.mt_patt_del_time_2
    &&& b.mt_jump_pos == a.mt_jump_pos
    &&& b.mt_jump_set == a.mt_jump_set
}


/// Whether any event of the row drives the shared transport: a position
/// jump, a pattern break, a speed or tempo change, a pattern loop or a
/// pattern delay.
pub open spec fn spec_row_touches_transport(module: &Module, pat: int, row: int, nch: int) -> bool {
    exists|c: int|
        0 <= c < nch && ({
            let e = #[trigger] module.patterns.spec_event(pat, row, c);
            let cmd = e.fxt & 0x0f;
            ||| cmd == 0xb
            ||| cmd == 0xd
            ||| cmd == 0xf
            ||| (cmd == 0xe && (e.fxp >> 4 == 0x6 || e.fxp >> 4 == 0xe))
        })
}


/// The break row the row's events defer to: the last pattern break wins;
/// no break is the sentinel value below every row.
pub open spec fn spec_row_break(module: &Module, pat: int, row: int, n: int) -> int
    decreases n,
{
    if n <= 0 {
        -1
    } else {
        let e = module.patterns.spec_event(pat, row, n - 1);
        if e.fxt & 0x0f == 0xd {
            spec_break_row(e.fxp)
        } else {
            spec_row_break(module, pat, row, n - 1)
        }
    }
}

/// Whether any event of the row would redirect or defer a pattern break:
/// a position jump, a pattern loop or a pattern delay.
pub open spec fn spec_row_redirects(module: &Module, pat: int, row: int, nch: int) -> bool {
    exists|c: int|
        0 <= c < nch && ({
            let e = #[trigger] module.patterns.spec_event(pat, row, c);
            let cmd = e.fxt & 0x0f;
            ||| cmd == 0xb
            ||| (cmd == 0xe && (e.fxp >> 4 == 0x6 || e.fxp >> 4 == 0xe))
        })
}

/// Whether a row event's effect writes the volume register during the
/// row-boundary dispatch itself: the volume change, or a fine volume
/// slide or note cut among the sub-effects.
pub open spec fn spec_trigger_touches_volume(e: ModEvent) -> bool {
    let cmd = e.fxt & 0x0f;
    ||| cmd == 0xc
    ||| (cmd == 0xe && (e.fxp >> 4 == 0xa || e.fxp >> 4 == 0xb || e.fxp >> 4 == 0xc))
}

/// What a row boundary establishes for channel `c`, relating its event to
/// the channel record (`fin`) and its voice before and after (`v0`,
/// `v1`): the effect command is latched; outside tone portamento a named
/// instrument binds the voice and carries its default volume in (unless a
/// volume effect on the same row intervenes), and a note sets the stored
/// and sounding period from the period table under the channel's
/// finetune; under tone portamento the voice's cursor keeps running
/// untouched, the note becoming only the glide target.
pub open spec fn spec_row_latch(
    module: &Module,
    pat: int,
    row: int,
    c: int,
    fin: ChannelData,
    v0: crate::mixer::Voice,
    v1: crate::mixer::Voice,
) -> bool {
    let e = module.patterns.spec_event(pat, row, c);
    let cmd = e.fxt & 0x0f;
    let tone = cmd == 0x3 || cmd == 0x5;
    &&& fin.n_cmd == cmd
    &&& (1 <= e.ins <= module.instrument@.len() && !tone ==> ({
        &&& v1.smp == e.ins - 1
        &&& v1.has_patch
        &&& (!spec_trigger_touches_volume(e) ==> v1.volume == module.instrument@[e.ins
            - 1].volume && fin.n_volume == module.instrument@[e.ins - 1].volume)
    }))
    &&& (1 <= e.note <= 36 && !tone ==> ({
        &&& fin.n_note == e.note
        &&& (!(cmd == 0xe && (e.fxp >> 4 == 0x1 || e.fxp >> 4 == 0x2)) ==> fin.n_period
            == spec_period(fin.n_finetune as int, e.note - 1))
        &&& fin.n_period > 0
        &&& v1.period == fin.n_period
    }))
    &&& (1 <= e.note <= 36 && tone ==> v1.pos == v0.pos && v1.active == v0.active)
}

impl ModPlayer {
    /// Well-formed channel records, and the portamento mask at its rest
    /// value; the mask leaves that value only inside a fine slide.
    pub open spec fn wf(self) -> bool {
        &&& spec_channels_wf(self)
        &&& self.mt_low_mask == 0xff
    }

    /// A sequencer for the module's channel count.
    pub fn new(module: &Module) -> (r: ModPlayer)
        ensures
            r.wf(),
            r.state@.len() == module.chn,
            forall|c: int| 0 <= c < module.chn ==> (#[trigger] r.state@[c]) == spec_blank_channel(),
            r.mt_pbreak_pos == 0,
            !r.mt_pos_jump_flag,
            !r.mt_pbreak_flag,
            r.mt_low_mask == 0xff,
            r.mt_patt_del_time == 0,
            r.mt_patt_del_time_2 == 0,
            !r.mt_jump_set,
            r.mt_jump_pos == 0,
    {
        ModPlayer::new_with_channels(module.chn)
    }

    /// A sequencer for `chn` channels, all at rest.
    pub fn new_with_channels(chn: usize) -> (r: ModPlayer)
        ensures
            r.wf(),
            r.state@.len() == chn,
            forall|c: int| 0 <= c < chn ==> (#[trigger] r.state@[c]) == spec_blank_channel(),
            r.mt_pbreak_pos == 0,
            !r.mt_pos_jump_flag,
            !r.mt_pbreak_flag,
            r.mt_low_mask == 0xff,
            r.mt_patt_del_time == 0,
            r.mt_patt_del_time_2 == 0,
            !r.mt_jump_set,
            r.mt_jump_pos == 0,
    {
        let mut state: Vec<ChannelData> = Vec::new();
        let mut i: usize = 0;
        while i < chn
            invariant
                i <= chn,
                state@.len() == i,
                forall|c: int| 0 <= c < i ==> (#[trigger] state@[c]).wf(),
                forall|c: int| 0 <= c < i ==> (#[trigger] state@[c]) == spec_blank_channel(),
            decreases chn - i,
        {
            state.push(ChannelData::new());
            i = i + 1;
        }
        ModPlayer {
            name: String::from_str("Vinterstigen PT2.1A replayer"),
            state,
            mt_pbreak_pos: 0,
            mt_pos_jump_flag: false,
            mt_pbreak_flag: false,
            mt_low_mask: 0xff,
            mt_patt_del_time: 0,
            mt_patt_del_time_2: 0,
            mt_jump_pos: 0,
            mt_jump_set: false,
        }
    }

    /// The replayer's display name.
    pub fn name(&self) -> (r: &str)
        ensures
            r@ == self.name@,
    {
        self.name.as_str()
    }

    /// Return the sequencer to its initial state: every channel's effect
    /// memory blanked and the shared deferred-action state cleared.
    /// Calling it twice is the same as calling it once.
    pub fn reset(&mut self)
        requires
            old(self).wf(),
        ensures
            final(self).wf(),
            final(self).state@.len() == old(self).state@.len(),
            forall|c: int|
                0 <= c < old(self).state@.len() ==> (#[trigger] final(self).state@[c])
                    == spec_blank_channel(),
            final(self).mt_pbreak_pos == 0,
            !final(self).mt_pos_jump_flag,
            !final(self).mt_pbreak_flag,
            final(self).mt_low_mask == 0xff,
            final(self).mt_patt_del_time == 0,
            final(self).mt_patt_del_time_2 == 0,
            !final(self).mt_jump_set,
            final(self).mt_jump_pos == 0,
    {
        let n = self.state.len();
        let mut i: usize = 0;
        while i < n
            invariant
                i <= n,
                self.state@.len() == n,
                forall|c: int|
                    0 <= c < i ==> (#[trigger] self.state@[c]) == spec_blank_channel(),
            decreases n - i,
        {
            self.state[i] = ChannelData::new();
            i = i + 1;
        }
        self.mt_pbreak_pos = 0;
        self.mt_pos_jump_flag = false;
        self.mt_pbreak_flag = false;
        self.mt_low_mask = 0xff;
        self.mt_patt_del_time = 0;
        self.mt_patt_del_time_2 = 0;
        self.mt_jump_pos = 0;
        self.mt_jump_set = false;
    }

    /// Keep the hardware period register at the channel's stored period.
    fn per_nop(&self, chn: usize, virt: &mut Virtual)
        requires
            old(virt).wf(),
            chn < self.state@.len(),
        ensures
            final(virt).wf(),
            final(virt).spec_channels() == old(virt).spec_channels(),
            final(virt).mixer.rate == old(virt).mixer.rate,
            spec_same_chip(*old(virt), *final(virt)),
            spec_same_patch(*old(virt), *final(virt)),
            spec_same_cursor(*old(virt), *final(virt)),
            spec_same_volume(*old(virt), *final(virt)),
            (chn < old(virt).spec_channels() && self.state@[chn as int].n_period > 0) ==> final(virt).mixer.voices@[chn as int].period == self.state@[chn as int].n_period,
            forall|c: int|
                0 <= c < old(virt).spec_channels() && c != chn ==> final(virt).mixer.voices@[c]
                    == old(virt).mixer.voices@[c],
    {
        let p = self.state[chn].n_period;
        virt.set_period(chn, p);
    }

    /// Arpeggio: on ticks 1 and 2 of each three-tick group the sounding
    /// pitch moves up by the two parameter nibbles' semitone counts; on
    /// tick 0 it returns to the base note. The stored period is left
    /// untouched.
    fn mt_arpeggio(&self, chn: usize, data: &PlayerData, virt: &mut Virtual)
        requires
            old(virt).wf(),
            chn < self.state@.len(),
            self.state@[chn as int].wf(),
        ensures
            final(virt).wf(),
            final(virt).spec_channels() == old(virt).spec_channels(),
            final(virt).mixer.rate == old(virt).mixer.rate,
            chn < old(virt).spec_channels() ==> ({
                let st = self.state@[chn as int];
                let tick = data.frame % 3;
                let shift: int = if tick == 1 {
                    (st.n_cmdlo >> 4) as int
                } else {
                    (st.n_cmdlo & 0x0f) as int
                };
                let base = spec_find_index_from(st.n_finetune as int, st.n_period as int, 0);
                let target: int = if base + shift <= 35 {
                    base + shift
                } else {
                    35
                };
                final(virt).mixer.voices@[chn as int].period == (if tick == 0 {
                    if st.n_period > 0 {
                        st.n_period as int
                    } else {
                        old(virt).mixer.voices@[chn as int].period as int
                    }
                } else {
                    spec_period(st.n_finetune as int, target)
                })
            }),
            spec_same_chip(*old(virt), *final(virt)),
            spec_same_patch(*old(virt), *final(virt)),
            spec_same_cursor(*old(virt), *final(virt)),
            spec_same_volume(*old(virt), *final(virt)),
            forall|c: int|
                0 <= c < old(virt).spec_channels() && c != chn ==> final(virt).mixer.voices@[c]
                    == old(virt).mixer.voices@[c],
    {
        let st = self.state[chn];
        let tick = data.frame % 3;
        if tick == 0 {
            virt.set_period(chn, st.n_period);
        } else {
            let shift: usize = if tick == 1 {
                (st.n_cmdlo >> 4) as usize
            } else {
                (st.n_cmdlo & 0x0f) as usize
            };
            let ft = st.n_finetune as usize;
            let base = find_note_index(ft, st.n_period);
            let target = if base + shift <= 35 {
                base + shift
            } else {
                35
            };
            let p = period_of_note(ft, target);
            proof {
                assert(spec_period(ft as int, target as int) > 0);
            }
            virt.set_period(chn, p);
        }
    }

    /// Portamento up: subtract the parameter (masked for the fine
    /// variant) from the period each tick, clamping at the top of the
    /// pitch range, period 113.
    fn mt_porta_up(&mut self, chn: usize, virt: &mut Virtual)
        requires
            spec_channels_wf(*old(self)),
            old(virt).wf(),
            chn < old(self).state@.len(),
        ensures
            spec_channels_wf(*final(self)),
            final(virt).wf(),
            final(virt).spec_channels() == old(virt).spec_channels(),
            final(virt).mixer.rate == old(virt).mixer.rate,
            final(self).state@.len() == old(self).state@.len(),
            final(self).mt_low_mask == 0xff,
            spec_same_transport(*old(self), *final(self)),
            final(self).state@[chn as int] == spec_porta_up_step(
                old(self).state@[chn as int],
                (old(self).state@[chn as int].n_cmdlo & old(self).mt_low_mask) as int,
            ),
            forall|c: int|
                0 <= c < old(self).state@.len() && c != chn ==> final(self).state@[c] == old(self).state@[c],
            spec_same_chip(*old(virt), *final(virt)),
            spec_same_patch(*old(virt), *final(virt)),
            spec_same_cursor(*old(virt), *final(virt)),
            spec_same_volume(*old(virt), *final(virt)),
            forall|c: int|
                0 <= c < old(virt).spec_channels() && c != chn ==> final(virt).mixer.voices@[c]
                    == old(virt).mixer.voices@[c],
    {
        let step = (self.state[chn].n_cmdlo & self.mt_low_mask) as i32;
        self.mt_low_mask = 0xff;
        let cur = self.state[chn].n_period as i32;
        let mut np = cur - step;
        if np < 113 {
            np = 113;
        }
        let mut st = self.state[chn];
        st.n_period = np as u16;
        self.state[chn] = st;
        let p = np as u16;
        virt.set_period(chn, p);
    }

    /// Portamento down: add the (masked) parameter to the period each
    /// tick, clamping at the bottom of the pitch range, period 856.
    fn mt_porta_down(&mut self, chn: usize, virt: &mut Virtual)
        requires
            spec_channels_wf(*old(self)),
            old(virt).wf(),
            chn < old(self).state@.len(),
        ensures
            spec_channels_wf(*final(self)),
            final(virt).wf(),
            final(virt).spec_channels() == old(virt).spec_channels(),
            final(virt).mixer.rate == old(virt).mixer.rate,
            final(self).state@.len() == old(self).state@.len(),
            final(self).mt_low_mask == 0xff,
            spec_same_transport(*old(self), *final(self)),
            final(self).state@[chn as int] == spec_porta_down_step(
                old(self).state@[chn as int],
                (old(self).state@[chn as int].n_cmdlo & old(self).mt_low_mask) as int,
            ),
            forall|c: int|
                0 <= c < old(self).state@.len() && c != chn ==> final(self).state@[c] == old(self).state@[c],
            spec_same_chip(*old(virt), *final(virt)),
            spec_same_patch(*old(virt), *final(virt)),
            spec_same_cursor(*old(virt), *final(virt)),
            spec_same_volume(*old(virt), *final(virt)),
            forall|c: int|
                0 <= c < old(virt).spec_channels() && c != chn ==> final(virt).mixer.voices@[c]
                    == old(virt).mixer.voices@[c],
    {
        let step = (self.state[chn].n_cmdlo & self.mt_low_mask) as i32;
        self.mt_low_mask = 0xff;
        let cur = self.state[chn].n_period as i32;
        let mut np = cur + step;
        if np > 856 {
            np = 856;
        }
        let mut st = self.state[chn];
        st.n_period = np as u16;
        self.state[chn] = st;
        let p = np as u16;
        virt.set_period(chn, p);
    }

    /// Fine portamento up: a single portamento step, taken at tick 0 only,
    /// using the low parameter nibble.
    fn mt_fine_porta_up(&mut self, chn: usize, data: &PlayerData, virt: &mut Virtual)
        requires
            old(self).wf(),
            old(virt).wf(),
            chn < old(self).state@.len(),
        ensures
            final(self).wf(),
            final(virt).wf(),
            final(virt).spec_channels() == old(virt).spec_channels(),
            final(virt).mixer.rate == old(virt).mixer.rate,
            final(self).state@.len() == old(self).state@.len(),
            data.frame != 0 ==> *final(self) == *old(self),
            final(self).state@[chn as int].n_cmd == old(self).state@[chn as int].n_cmd,
            forall|c: int|
                0 <= c < old(self).state@.len() && c != chn ==> final(self).state@[c] == old(self).state@[c],
            spec_same_chip(*old(virt), *final(virt)),
            spec_same_patch(*old(virt), *final(virt)),
            spec_same_transport(*old(self), *final(self)),
            data.frame == 0 ==> final(self).state@[chn as int] == spec_porta_up_step(
                old(self).state@[chn as int],
                (old(self).state@[chn as int].n_cmdlo & 0x0f) as int,
            ),
            spec_same_cursor(*old(virt), *final(virt)),
            spec_same_volume(*old(virt), *final(virt)),
            forall|c: int|
                0 <= c < old(virt).spec_channels() && c != chn ==> final(virt).mixer.voices@[c]
                    == old(virt).mixer.voices@[c],
    {
        if data.frame != 0 {
            return ;
        }
        self.mt_low_mask = 0x0f;
        self.mt_porta_up(chn, virt);
    }

    /// Fine portamento down: a single step at tick 0, low nibble only.
    fn mt_fine_porta_down(&mut self, chn: usize, data: &PlayerData, virt: &mut Virtual)
        requires
            old(self).wf(),
            old(virt).wf(),
            chn < old(self).state@.len(),
        ensures
            final(self).wf(),
            final(virt).wf(),
            final(virt).spec_channels() == old(virt).spec_channels(),
            final(virt).mixer.rate == old(virt).mixer.rate,
            final(self).state@.len() == old(self).state@.len(),
            data.frame != 0 ==> *final(self) == *old(self),
            final(self).state@[chn as int].n_cmd == old(self).state@[chn as int].n_cmd,
            forall|c: int|
                0 <= c < old(self).state@.len() && c != chn ==> final(self).state@[c] == old(self).state@[c],
            spec_same_chip(*old(virt), *final(virt)),
            spec_same_patch(*old(virt), *final(virt)),
            spec_same_transport(*old(self), *final(self)),
            data.frame == 0 ==> final(self).state@[chn as int] == spec_porta_down_step(
                old(self).state@[chn as int],
                (old(self).state@[chn as int].n_cmdlo & 0x0f) as int,
            ),
            spec_same_cursor(*old(virt), *final(virt)),
            spec_same_volume(*old(virt), *final(virt)),
            forall|c: int|
                0 <= c < old(virt).spec_channels() && c != chn ==> final(virt).mixer.voices@[c]
                    == old(virt).mixer.voices@[c],
    {
        if data.frame != 0 {
            return ;
        }
        self.mt_low_mask = 0x0f;
        self.mt_porta_down(chn, virt);
    }

    /// Latch the glide target for tone portamento: the period of the new
    /// note under the channel's finetune, with the direction toward it;
    /// a target equal to the current period clears the glide.
    fn mt_set_tone_porta(&mut self, chn: usize, note: u8)
        requires
            old(self).wf(),
            chn < old(self).state@.len(),
            1 <= note <= 36,
        ensures
            final(self).wf(),
            final(self).state@.len() == old(self).state@.len(),
            ({
                let st = old(self).state@[chn as int];
                let target = spec_period(st.n_finetune as int, note - 1);
                let fin = final(self).state@[chn as int];
                &&& (target == st.n_period ==> fin == (ChannelData {
                    n_wantedperiod: 0,
                    n_toneportdirec: 0,
                    ..st
                }))
                &&& (target != st.n_period ==> fin == (ChannelData {
                    n_wantedperiod: target as u16,
                    n_toneportdirec: if target < st.n_period {
                        1i8
                    } else {
                        -1i8
                    },
                    ..st
                }))
                &&& forall|c: int|
                    0 <= c < old(self).state@.len() && c != chn ==> final(self).state@[c] == old(self).state@[c]
            }),
            spec_same_transport(*old(self), *final(self)),
    {
        let mut st = self.state[chn];
        let target = period_of_note(st.n_finetune as usize, (note - 1) as usize);
        proof {
            assert(spec_period(st.n_finetune as int, note - 1) <= 1023);
        }
        if target == st.n_period {
            st.n_wantedperiod = 0;
            st.n_toneportdirec = 0;
        } else if target < st.n_period {
            st.n_wantedperiod = target;
            st.n_toneportdirec = 1;
        } else {
            st.n_wantedperiod = target;
            st.n_toneportdirec = -1;
        }
        self.state[chn] = st;
    }

    /// Drop any pending glide.
    fn mt_clear_tone_porta(&mut self, chn: usize)
        requires
            old(self).wf(),
            chn < old(self).state@.len(),
        ensures
            final(self).wf(),
            final(self).state@.len() == old(self).state@.len(),
            final(self).state@[chn as int] == (ChannelData {
                n_wantedperiod: 0,
                ..old(self).state@[chn as int]
            }),
            forall|c: int|
                0 <= c < old(self).state@.len() && c != chn ==> final(self).state@[c] == old(self).state@[c],
            spec_same_transport(*old(self), *final(self)),
    {
        let mut st = self.state[chn];
        st.n_wantedperiod = 0;
        self.state[chn] = st;
    }

    /// Tone portamento: a nonzero parameter replaces the latched glide
    /// speed and is consumed; then the period steps toward the latched
    /// target by that speed, stopping exactly at the target.
    fn mt_tone_portamento(&mut self, chn: usize, virt: &mut Virtual)
        requires
            old(self).wf(),
            old(virt).wf(),
            chn < old(self).state@.len(),
        ensures
            final(self).wf(),
            final(virt).wf(),
            final(virt).spec_channels() == old(virt).spec_channels(),
            final(virt).mixer.rate == old(virt).mixer.rate,
            final(self).state@.len() == old(self).state@.len(),
            ({
                let st = old(self).state@[chn as int];
                let eff: int = if st.n_cmdlo != 0 {
                    st.n_cmdlo as int
                } else {
                    st.n_toneportspeed as int
                };
                let fin = final(self).state@[chn as int];
                &&& fin.n_toneportspeed == eff
                &&& fin.n_cmdlo == 0
                &&& (st.n_wantedperiod == 0 ==> fin == (ChannelData {
                    n_toneportspeed: eff as u8,
                    n_cmdlo: 0,
                    ..st
                }))
                &&& (st.n_wantedperiod != 0 ==> ({
                    let stepped: int = if st.n_toneportdirec > 0 {
                        if st.n_period - eff <= st.n_wantedperiod {
                            st.n_wantedperiod as int
                        } else {
                            st.n_period - eff
                        }
                    } else {
                        if st.n_period + eff >= st.n_wantedperiod {
                            st.n_wantedperiod as int
                        } else {
                            st.n_period + eff
                        }
                    };
                    let arrived = stepped == st.n_wantedperiod;
                    fin == (ChannelData {
                        n_period: stepped as u16,
                        n_wantedperiod: if arrived {
                            0
                        } else {
                            st.n_wantedperiod
                        },
                        n_toneportspeed: eff as u8,
                        n_cmdlo: 0,
                        ..st
                    })
                }))
                &&& forall|c: int|
                    0 <= c < old(self).state@.len() && c != chn ==> final(self).state@[c] == old(self).state@[c]
            }),
            spec_same_chip(*old(virt), *final(virt)),
            spec_same_patch(*old(virt), *final(virt)),
            spec_same_transport(*old(self), *final(self)),
            final(self).state@[chn as int] == spec_tone_porta(old(self).state@[chn as int]),
            spec_same_cursor(*old(virt), *final(virt)),
            forall|c: int|
                0 <= c < old(virt).spec_channels() && c != chn ==> final(virt).mixer.voices@[c]
                    == old(virt).mixer.voices@[c],
    {
        let mut st = self.state[chn];
        if st.n_cmdlo != 0 {
            st.n_toneportspeed = st.n_cmdlo;
            st.n_cmdlo = 0;
        }
        self.state[chn] = st;
        self.mt_tone_port_no_change(chn, virt);
    }

    /// The glide step itself, leaving the latched speed memory alone.
    fn mt_tone_port_no_change(&mut self, chn: usize, virt: &mut Virtual)
        requires
            old(self).wf(),
            old(virt).wf(),
            chn < old(self).state@.len(),
        ensures
            final(self).wf(),
            final(virt).wf(),
            final(virt).spec_channels() == old(virt).spec_channels(),
            final(virt).mixer.rate == old(virt).mixer.rate,
            final(self).state@.len() == old(self).state@.len(),
            ({
                let st = old(self).state@[chn as int];
                let fin = final(self).state@[chn as int];
                &&& (st.n_wantedperiod == 0 ==> *final(self) == *old(self))
                &&& (st.n_wantedperiod != 0 ==> ({
                    let stepped: int = if st.n_toneportdirec > 0 {
                        if st.n_period - st.n_toneportspeed <= st.n_wantedperiod {
                            st.n_wantedperiod as int
                        } else {
                            st.n_period - st.n_toneportspeed
                        }
                    } else {
                        if st.n_period + st.n_toneportspeed >= st.n_wantedperiod {
                            st.n_wantedperiod as int
                        } else {
                            st.n_period + st.n_toneportspeed
                        }
                    };
                    let arrived = stepped == st.n_wantedperiod;
                    fin == (ChannelData {
                        n_period: stepped as u16,
                        n_wantedperiod: if arrived {
                            0
                        } else {
                            st.n_wantedperiod
                        },
                        ..st
                    })
                }))
                &&& forall|c: int|
                    0 <= c < old(self).state@.len() && c != chn ==> final(self).state@[c] == old(self).state@[c]
            }),
            spec_same_chip(*old(virt), *final(virt)),
            spec_same_patch(*old(virt), *final(virt)),
            spec_same_transport(*old(self), *final(self)),
            final(self).state@[chn as int] == spec_tone_glide(old(self).state@[chn as int]),
            spec_same_cursor(*old(virt), *final(virt)),
            forall|c: int|
                0 <= c < old(virt).spec_channels() && c != chn ==> final(virt).mixer.voices@[c]
                    == old(virt).mixer.voices@[c],
    {
        let st0 = self.state[chn];
        if st0.n_wantedperiod == 0 {
            return ;
        }
        let mut st = st0;
        let speed = st.n_toneportspeed as i32;
        let wanted = st.n_wantedperiod as i32;
        let cur = st.n_period as i32;
        let mut np: i32;
        if st.n_toneportdirec > 0 {
            np = cur - speed;
            if np <= wanted {
                np = wanted;
            }
        } else {
            np = cur + speed;
            if np >= wanted {
                np = wanted;
            }
        }
        st.n_period = np as u16;
        if np == wanted {
            st.n_wantedperiod = 0;
        }
        self.state[chn] = st;
        let mut shown = np as u16;
        if st.n_glissfunk & 0x0f != 0 {
            let idx = find_note_index(st.n_finetune as usize, shown);
            shown = period_of_note(st.n_finetune as usize, idx);
        }
        virt.set_period(chn, shown);
    }

    /// Vibrato: refresh the rate/depth memory from nonzero parameter
    /// nibbles, then swing the sounding period around the stored one by
    /// the waveform value scaled by the depth, and advance the phase by
    /// four steps per rate unit.
    fn mt_vibrato(&mut self, chn: usize, virt: &mut Virtual)
        requires
            old(self).wf(),
            old(virt).wf(),
            chn < old(self).state@.len(),
        ensures
            final(self).wf(),
            final(virt).wf(),
            final(virt).spec_channels() == old(virt).spec_channels(),
            final(virt).mixer.rate == old(virt).mixer.rate,
            final(self).state@.len() == old(self).state@.len(),
            final(self).state@[chn as int].n_period == old(self).state@[chn as int].n_period,
            final(self).state@[chn as int].n_cmd == old(self).state@[chn as int].n_cmd,
            final(self).state@[chn as int].n_cmdlo == old(self).state@[chn as int].n_cmdlo,
            forall|c: int|
                0 <= c < old(self).state@.len() && c != chn ==> final(self).state@[c] == old(self).state@[c],
            spec_same_chip(*old(virt), *final(virt)),
            spec_same_patch(*old(virt), *final(virt)),
            spec_same_transport(*old(self), *final(self)),
            final(self).state@[chn as int] == spec_vibrato(old(self).state@[chn as int]),
            spec_same_cursor(*old(virt), *final(virt)),
            forall|c: int|
                0 <= c < old(virt).spec_channels() && c != chn ==> final(virt).mixer.voices@[c]
                    == old(virt).mixer.voices@[c],
    {
        let st0 = self.state[chn];
        let parm = st0.n_cmdlo;
        let mut st = st0;
        if parm & 0xf0 != 0 {
            st.n_vibratocmd = (st.n_vibratocmd & 0x0f) | (parm & 0xf0);
        }
        if parm & 0x0f != 0 {
            st.n_vibratocmd = (st.n_vibratocmd & 0xf0) | (parm & 0x0f);
        }
        self.state[chn] = st;
        self.mt_vibrato_2(chn, virt);
    }

    /// The vibrato oscillator itself, without refreshing the memory: the
    /// sounding period swings around the stored one by the waveform value
    /// at the phase, scaled by the depth; the phase then advances by four
    /// steps per rate unit.
    fn mt_vibrato_2(&mut self, chn: usize, virt: &mut Virtual)
        requires
            old(self).wf(),
            old(virt).wf(),
            chn < old(self).state@.len(),
        ensures
            final(self).wf(),
            final(virt).wf(),
            final(virt).spec_channels() == old(virt).spec_channels(),
            final(virt).mixer.rate == old(virt).mixer.rate,
            final(self).state@.len() == old(self).state@.len(),
            final(self).state@[chn as int] == (ChannelData {
                n_vibratopos: ((old(self).state@[chn as int].n_vibratopos + ((old(self).state@[chn as int].n_vibratocmd >> 2) & 0x3c)) % 256) as u8,
                ..old(self).state@[chn as int]
            }),
            chn < old(virt).spec_channels() ==> ({
                let st = old(self).state@[chn as int];
                let delta = spec_wave_value((st.n_wavecontrol & 0x03) as int, st.n_vibratopos as int)
                    * ((st.n_vibratocmd & 0x0f) as int) / 128;
                let swung: int = if st.n_vibratopos >= 128 {
                    st.n_period - delta
                } else {
                    st.n_period + delta
                };
                let shown: int = if swung < 0 {
                    0
                } else if swung > 65535 {
                    65535
                } else {
                    swung
                };
                final(virt).mixer.voices@[chn as int].period == (if shown > 0 {
                    shown
                } else {
                    old(virt).mixer.voices@[chn as int].period as int
                })
            }),
            forall|c: int|
                0 <= c < old(self).state@.len() && c != chn ==> final(self).state@[c] == old(self).state@[c],
            spec_same_chip(*old(virt), *final(virt)),
            spec_same_patch(*old(virt), *final(virt)),
            spec_same_transport(*old(self), *final(self)),
            final(self).state@[chn as int] == spec_vibrato_phase(old(self).state@[chn as int]),
            spec_same_cursor(*old(virt), *final(virt)),
            forall|c: int|
                0 <= c < old(virt).spec_channels() && c != chn ==> final(virt).mixer.voices@[c]
                    == old(virt).mixer.voices@[c],
    {
        let mut st = self.state[chn];
        let depth = (st.n_vibratocmd & 0x0f) as u32;
        let value = wave_value(st.n_wavecontrol, st.n_vibratopos);
        proof {
            assert(value * depth <= 65025) by (nonlinear_arith)
                requires
                    value <= 255,
                    depth <= 255,
            ;
        }
        let delta = (value * depth / 128) as i32;
        let base = st.n_period as i32;
        let mut shown: i32 = if st.n_vibratopos >= 128 {
            base - delta
        } else {
            base + delta
        };
        if shown < 0 {
            shown = 0;
        }
        if shown > 65535 {
            shown = 65535;
        }
        virt.set_period(chn, shown as u16);
        let rate = (st.n_vibratocmd >> 2) & 0x3c;
        st.n_vibratopos = (((st.n_vibratopos as u32) + (rate as u32)) % 256) as u8;
        self.state[chn] = st;
    }

    /// Tremolo: like vibrato, on the volume register instead of the
    /// period; the stored volume is left untouched, and the register
    /// swing is clamped into the volume range.
    fn mt_tremolo(&mut self, chn: usize, virt: &mut Virtual)
        requires
            old(self).wf(),
            old(virt).wf(),
            chn < old(self).state@.len(),
        ensures
            final(self).wf(),
            final(virt).wf(),
            final(virt).spec_channels() == old(virt).spec_channels(),
            final(virt).mixer.rate == old(virt).mixer.rate,
            final(self).state@.len() == old(self).state@.len(),
            final(self).state@[chn as int].n_volume == old(self).state@[chn as int].n_volume,
            final(self).state@[chn as int].n_period == old(self).state@[chn as int].n_period,
            final(self).state@[chn as int].n_cmd == old(self).state@[chn as int].n_cmd,
            chn < old(virt).spec_channels() ==> ({
                let st = final(self).state@[chn as int];
                let delta = spec_wave_value(
                    ((st.n_wavecontrol >> 4) & 0x03) as int,
                    old(self).state@[chn as int].n_tremolopos as int,
                ) * ((st.n_tremolocmd & 0x0f) as int) / 64;
                let swung: int = if old(self).state@[chn as int].n_tremolopos >= 128 {
                    st.n_volume - delta
                } else {
                    st.n_volume + delta
                };
                let shown: int = if swung < 0 {
                    0
                } else if swung > 64 {
                    64
                } else {
                    swung
                };
                final(virt).mixer.voices@[chn as int].volume == shown
            }),
            forall|c: int|
                0 <= c < old(self).state@.len() && c != chn ==> final(self).state@[c] == old(self).state@[c],
            spec_same_chip(*old(virt), *final(virt)),
            spec_same_patch(*old(virt), *final(virt)),
            spec_same_transport(*old(self), *final(self)),
            final(self).state@[chn as int] == spec_tremolo(old(self).state@[chn as int]),
            spec_same_cursor(*old(virt), *final(virt)),
            forall|c: int|
                0 <= c < old(virt).spec_channels() && c != chn ==> final(virt).mixer.voices@[c]
                    == old(virt).mixer.voices@[c],
    {
        let st0 = self.state[chn];
        let parm = st0.n_cmdlo;
        let mut st = st0;
        if parm & 0xf0 != 0 {
            st.n_tremolocmd = (st.n_tremolocmd & 0x0f) | (parm & 0xf0);
        }
        if parm & 0x0f != 0 {
            st.n_tremolocmd = (st.n_tremolocmd & 0xf0) | (parm & 0x0f);
        }
        let depth = (st.n_tremolocmd & 0x0f) as u32;
        let value = wave_value(st.n_wavecontrol >> 4, st.n_tremolopos);
        proof {
            assert(value * depth <= 65025) by (nonlinear_arith)
                requires
                    value <= 255,
                    depth <= 255,
            ;
        }
        let delta = (value * depth / 64) as i32;
        let base = st.n_volume as i32;
        let mut vol: i32 = if st.n_tremolopos >= 128 {
            base - delta
        } else {
            base + delta
        };
        if vol < 0 {
            vol = 0;
        }
        if vol > 64 {
            vol = 64;
        }
        virt.set_volume(chn, vol as usize);
        let rate = (st.n_tremolocmd >> 2) & 0x3c;
        st.n_tremolopos = (((st.n_tremolopos as u32) + (rate as u32)) % 256) as u8;
        self.state[chn] = st;
    }

    /// Volume slide: the high nibble slides up, else the low nibble
    /// slides down, clamped to the register range.
    fn mt_volume_slide(&mut self, chn: usize, virt: &mut Virtual)
        requires
            old(self).wf(),
            old(virt).wf(),
            chn < old(self).state@.len(),
        ensures
            final(self).wf(),
            final(virt).wf(),
            final(virt).spec_channels() == old(virt).spec_channels(),
            final(virt).mixer.rate == old(virt).mixer.rate,
            final(self).state@.len() == old(self).state@.len(),
            ({
                let st = old(self).state@[chn as int];
                let up = (st.n_cmdlo >> 4) as int;
                let down = (st.n_cmdlo & 0x0f) as int;
                let nv: int = if up != 0 {
                    if st.n_volume + up > 64 {
                        64
                    } else {
                        st.n_volume + up
                    }
                } else {
                    if st.n_volume - down < 0 {
                        0
                    } else {
                        st.n_volume - down
                    }
                };
                &&& final(self).state@[chn as int] == (ChannelData { n_volume: nv as u8, ..st })
                &&& forall|c: int|
                    0 <= c < old(self).state@.len() && c != chn ==> final(self).state@[c] == old(self).state@[c]
            }),
            spec_same_chip(*old(virt), *final(virt)),
            spec_same_patch(*old(virt), *final(virt)),
            spec_same_transport(*old(self), *final(self)),
            final(self).state@[chn as int] == spec_volume_slide(old(self).state@[chn as int]),
            spec_same_cursor(*old(virt), *final(virt)),
            forall|c: int|
                0 <= c < old(virt).spec_channels() && c != chn ==> final(virt).mixer.voices@[c]
                    == old(virt).mixer.voices@[c],
    {
        let mut st = self.state[chn];
        let up = st.n_cmdlo >> 4;
        let down = st.n_cmdlo & 0x0f;
        if up != 0 {
            let nv = st.n_volume as u32 + up as u32;
            st.n_volume = if nv > 64 {
                64
            } else {
                nv as u8
            };
        } else {
            let cur = st.n_volume as i32 - down as i32;
            st.n_volume = if cur < 0 {
                0
            } else {
                cur as u8
            };
        }
        self.state[chn] = st;
        let v = st.n_volume as usize;
        virt.set_volume(chn, v);
    }

    /// Tone portamento combined with a volume slide.
    fn mt_tone_plus_vol_slide(&mut self, chn: usize, virt: &mut Virtual)
        requires
            old(self).wf(),
            old(virt).wf(),
            chn < old(self).state@.len(),
        ensures
            final(self).wf(),
            final(virt).wf(),
            final(virt).spec_channels() == old(virt).spec_channels(),
            final(virt).mixer.rate == old(virt).mixer.rate,
            final(self).state@.len() == old(self).state@.len(),
            final(self).state@[chn as int].n_cmd == old(self).state@[chn as int].n_cmd,
            forall|c: int|
                0 <= c < old(self).state@.len() && c != chn ==> final(self).state@[c] == old(self).state@[c],
            spec_same_chip(*old(virt), *final(virt)),
            spec_same_patch(*old(virt), *final(virt)),
            spec_same_transport(*old(self), *final(self)),
            final(self).state@[chn as int] == spec_volume_slide(
                spec_tone_glide(old(self).state@[chn as int]),
            ),
            spec_same_cursor(*old(virt), *final(virt)),
            forall|c: int|
                0 <= c < old(virt).spec_channels() && c != chn ==> final(virt).mixer.voices@[c]
                    == old(virt).mixer.voices@[c],
    {
        self.mt_tone_port_no_change(chn, virt);
        self.mt_volume_slide(chn, virt);
    }

    /// Vibrato combined with a volume slide.
    fn mt_vibrato_plus_vol_slide(&mut self, chn: usize, virt: &mut Virtual)
        requires
            old(self).wf(),
            old(virt).wf(),
            chn < old(self).state@.len(),
        ensures
            final(self).wf(),
            final(virt).wf(),
            final(virt).spec_channels() == old(virt).spec_channels(),
            final(virt).mixer.rate == old(virt).mixer.rate,
            final(self).state@.len() == old(self).state@.len(),
            final(self).state@[chn as int].n_cmd == old(self).state@[chn as int].n_cmd,
            forall|c: int|
                0 <= c < old(self).state@.len() && c != chn ==> final(self).state@[c] == old(self).state@[c],
            spec_same_chip(*old(virt), *final(virt)),
            spec_same_patch(*old(virt), *final(virt)),
            spec_same_transport(*old(self), *final(self)),
            final(self).state@[chn as int] == spec_volume_slide(
                spec_vibrato_phase(old(self).state@[chn as int]),
            ),
            spec_same_cursor(*old(virt), *final(virt)),
            forall|c: int|
                0 <= c < old(virt).spec_channels() && c != chn ==> final(virt).mixer.voices@[c]
                    == old(virt).mixer.voices@[c],
    {
        self.mt_vibrato_2(chn, virt);
        self.mt_volume_slide(chn, virt);
    }

    /// Sample offset: a nonzero parameter refreshes the memory; the voice
    /// starts 256 bytes per unit into its sample.
    fn mt_sample_offset(&mut self, chn: usize, virt: &mut Virtual)
        requires
            old(self).wf(),
            old(virt).wf(),
            chn < old(self).state@.len(),
        ensures
            final(self).wf(),
            final(virt).wf(),
            final(virt).spec_channels() == old(virt).spec_channels(),
            final(virt).mixer.rate == old(virt).mixer.rate,
            final(self).state@.len() == old(self).state@.len(),
            ({
                let st = old(self).state@[chn as int];
                let mem: int = if st.n_cmdlo != 0 {
                    st.n_cmdlo as int
                } else {
                    st.n_sampleoffset as int
                };
                &&& final(self).state@[chn as int] == (ChannelData {
                    n_sampleoffset: mem as u8,
                    ..st
                })
                &&& forall|c: int|
                    0 <= c < old(self).state@.len() && c != chn ==> final(self).state@[c] == old(self).state@[c]
            }),
            spec_same_chip(*old(virt), *final(virt)),
            spec_same_patch(*old(virt), *final(virt)),
            spec_same_transport(*old(self), *final(self)),
            final(self).state@[chn as int] == spec_sample_offset_mem(
                old(self).state@[chn as int],
            ),
            chn < old(virt).spec_channels() ==> final(virt).mixer.voices@[chn as int].pos
                == 256 * spec_sample_offset_mem(old(self).state@[chn as int]).n_sampleoffset,
            spec_same_volume(*old(virt), *final(virt)),
            forall|c: int|
                0 <= c < old(virt).spec_channels() && c != chn ==> final(virt).mixer.voices@[c]
                    == old(virt).mixer.voices@[c],
    {
        let mut st = self.state[chn];
        if st.n_cmdlo != 0 {
            st.n_sampleoffset = st.n_cmdlo;
        }
        self.state[chn] = st;
        let offset = st.n_sampleoffset as usize * 256;
        virt.set_offset(chn, offset);
    }

    /// Position jump: defer a jump to the named position, breaking to its
    /// row 0.
    fn mt_position_jump(&mut self, chn: usize)
        requires
            old(self).wf(),
            chn < old(self).state@.len(),
        ensures
            final(self).wf(),
            final(self).state@ == old(self).state@,
            final(self).mt_jump_set,
            final(self).mt_jump_pos == old(self).state@[chn as int].n_cmdlo,
            final(self).mt_pbreak_pos == 0,
            final(self).mt_pos_jump_flag,
            final(self).mt_pbreak_flag == old(self).mt_pbreak_flag,
            final(self).mt_patt_del_time == old(self).mt_patt_del_time,
            final(self).mt_patt_del_time_2 == old(self).mt_patt_del_time_2,
    {
        let parm = self.state[chn].n_cmdlo;
        self.mt_jump_pos = parm;
        self.mt_jump_set = true;
        self.mt_pbreak_pos = 0;
        self.mt_pos_jump_flag = true;
    }

    /// Volume change: set the channel volume, clamped to the register
    /// range.
    fn mt_volume_change(&mut self, chn: usize, virt: &mut Virtual)
        requires
            old(self).wf(),
            old(virt).wf(),
            chn < old(self).state@.len(),
        ensures
            final(self).wf(),
            final(virt).wf(),
            final(virt).spec_channels() == old(virt).spec_channels(),
            final(virt).mixer.rate == old(virt).mixer.rate,
            final(self).state@.len() == old(self).state@.len(),
            ({
                let st = old(self).state@[chn as int];
                let nv: int = if st.n_cmdlo <= 64 {
                    st.n_cmdlo as int
                } else {
                    64
                };
                &&& final(self).state@[chn as int] == (ChannelData { n_volume: nv as u8, ..st })
                &&& forall|c: int|
                    0 <= c < old(self).state@.len() && c != chn ==> final(self).state@[c] == old(self).state@[c]
            }),
            spec_same_chip(*old(virt), *final(virt)),
            spec_same_patch(*old(virt), *final(virt)),
            spec_same_transport(*old(self), *final(self)),
            final(self).state@[chn as int] == spec_volume_change(old(self).state@[chn as int]),
            spec_same_cursor(*old(virt), *final(virt)),
            forall|c: int|
                0 <= c < old(virt).spec_channels() && c != chn ==> final(virt).mixer.voices@[c]
                    == old(virt).mixer.voices@[c],
    {
        let mut st = self.state[chn];
        st.n_volume = if st.n_cmdlo <= 64 {
            st.n_cmdlo
        } else {
            64
        };
        self.state[chn] = st;
        let v = st.n_volume as usize;
        virt.set_volume(chn, v);
    }

    /// Pattern break: defer a break to the decimal row named by the
    /// parameter in the next position; a row past 63 falls back to 0.
    fn mt_pattern_break(&mut self, chn: usize)
        requires
            old(self).wf(),
            chn < old(self).state@.len(),
        ensures
            final(self).wf(),
            final(self).state@ == old(self).state@,
            ({
                let parm = old(self).state@[chn as int].n_cmdlo;
                let row = 10 * ((parm >> 4) as int) + ((parm & 0x0f) as int);
                &&& final(self).mt_pbreak_pos == (if row <= 63 {
                    row
                } else {
                    0
                })
                &&& final(self).mt_pos_jump_flag
                &&& final(self).mt_jump_set == old(self).mt_jump_set
                &&& final(self).mt_jump_pos == old(self).mt_jump_pos
                &&& final(self).mt_pbreak_flag == old(self).mt_pbreak_flag
                &&& final(self).mt_patt_del_time == old(self).mt_patt_del_time
                &&& final(self).mt_patt_del_time_2 == old(self).mt_patt_del_time_2
            }),
    {
        let parm = self.state[chn].n_cmdlo;
        let row = 10 * ((parm >> 4) as u32) + ((parm & 0x0f) as u32);
        self.mt_pbreak_pos = if row <= 63 {
            row as u8
        } else {
            0
        };
        self.mt_pos_jump_flag = true;
    }

    /// Speed or tempo: a parameter under the canonical threshold 32 sets
    /// ticks per row, one at or above it sets the tempo; zero is ignored
    /// as a soft fault.
    fn mt_set_speed(&mut self, chn: usize, data: &mut PlayerData)
        requires
            old(self).wf(),
            old(data).wf(),
            chn < old(self).state@.len(),
        ensures
            final(self).wf(),
            final(data).wf(),
            *final(self) == *old(self),
            ({
                let parm = old(self).state@[chn as int].n_cmdlo;
                &&& (parm == 0 ==> *final(data) == *old(data))
                &&& (1 <= parm < 32 ==> *final(data) == (PlayerData {
                    speed: parm as usize,
                    frame: 0,
                    ..*old(data)
                }))
                &&& (parm >= 32 ==> *final(data) == (PlayerData {
                    tempo: parm as usize,
                    ..*old(data)
                }))
            }),
    {
        let parm = self.state[chn].n_cmdlo;
        if parm == 0 {
            return ;
        }
        if parm < 32 {
            data.speed = parm as usize;
            data.frame = 0;
        } else {
            data.tempo = parm as usize;
        }
    }

    /// Glissando control: keep the funk nibble, set the glissando nibble.
    fn mt_set_gliss_control(&mut self, chn: usize)
        requires
            old(self).wf(),
            chn < old(self).state@.len(),
        ensures
            final(self).wf(),
            final(self).state@.len() == old(self).state@.len(),
            final(self).state@[chn as int] == (ChannelData {
                n_glissfunk: (old(self).state@[chn as int].n_glissfunk & 0xf0) | (old(self).state@[chn as int].n_cmdlo & 0x0f),
                ..old(self).state@[chn as int]
            }),
            forall|c: int|
                0 <= c < old(self).state@.len() && c != chn ==> final(self).state@[c] == old(self).state@[c],
            spec_same_transport(*old(self), *final(self)),
    {
        let mut st = self.state[chn];
        st.n_glissfunk = (st.n_glissfunk & 0xf0) | (st.n_cmdlo & 0x0f);
        self.state[chn] = st;
    }

    /// Vibrato waveform control: the low wave-control nibble.
    fn mt_set_vibrato_control(&mut self, chn: usize)
        requires
            old(self).wf(),
            chn < old(self).state@.len(),
        ensures
            final(self).wf(),
            final(self).state@.len() == old(self).state@.len(),
            final(self).state@[chn as int] == (ChannelData {
                n_wavecontrol: (old(self).state@[chn as int].n_wavecontrol & 0xf0) | (old(self).state@[chn as int].n_cmdlo & 0x0f),
                ..old(self).state@[chn as int]
            }),
            forall|c: int|
                0 <= c < old(self).state@.len() && c != chn ==> final(self).state@[c] == old(self).state@[c],
            spec_same_transport(*old(self), *final(self)),
    {
        let mut st = self.state[chn];
        st.n_wavecontrol = (st.n_wavecontrol & 0xf0) | (st.n_cmdlo & 0x0f);
        self.state[chn] = st;
    }

    /// Set the channel finetune from the low parameter nibble.
    fn mt_set_finetune(&mut self, chn: usize)
        requires
            old(self).wf(),
            chn < old(self).state@.len(),
        ensures
            final(self).wf(),
            final(self).state@.len() == old(self).state@.len(),
            final(self).state@[chn as int] == (ChannelData {
                n_finetune: old(self).state@[chn as int].n_cmdlo & 0x0f,
                ..old(self).state@[chn as int]
            }),
            forall|c: int|
                0 <= c < old(self).state@.len() && c != chn ==> final(self).state@[c] == old(self).state@[c],
            spec_same_transport(*old(self), *final(self)),
    {
        let mut st = self.state[chn];
        let parmv: u8 = st.n_cmdlo;
        let ft = parmv & 0x0f;
        proof {
            assert(parmv & 0x0f < 16) by (bit_vector);
        }
        st.n_finetune = ft;
        self.state[chn] = st;
    }

    /// Pattern loop: parameter 0 remembers the current row; a nonzero
    /// parameter starts, or counts down, a jump back to it.
    fn mt_jump_loop(&mut self, chn: usize, data: &PlayerData)
        requires
            old(self).wf(),
            data.wf(),
            chn < old(self).state@.len(),
        ensures
            final(self).wf(),
            final(self).state@.len() == old(self).state@.len(),
            data.frame != 0 ==> *final(self) == *old(self),
            final(self).state@[chn as int].n_cmd == old(self).state@[chn as int].n_cmd,
            final(self).state@[chn as int].n_cmdlo == old(self).state@[chn as int].n_cmdlo,
            final(self).state@[chn as int].n_period == old(self).state@[chn as int].n_period,
            final(self).state@[chn as int].n_volume == old(self).state@[chn as int].n_volume,
            forall|c: int|
                0 <= c < old(self).state@.len() && c != chn ==> final(self).state@[c] == old(self).state@[c],
            data.frame == 0 ==> final(self).state@[chn as int] == spec_jump_loop_record(
                old(self).state@[chn as int],
                data.row as int,
            ),
            final(self).mt_patt_del_time == old(self).mt_patt_del_time,
            final(self).mt_patt_del_time_2 == old(self).mt_patt_del_time_2,
            final(self).mt_jump_pos == old(self).mt_jump_pos,
            final(self).mt_jump_set == old(self).mt_jump_set,
            final(self).mt_pos_jump_flag == old(self).mt_pos_jump_flag,
            final(self).mt_low_mask == old(self).mt_low_mask,
            ({
                let st = old(self).state@[chn as int];
                let jumps = data.frame == 0 && st.n_cmdlo & 0x0f != 0 && st.n_loopcount != 1;
                &&& (jumps ==> final(self).mt_pbreak_flag && final(self).mt_pbreak_pos
                    == st.n_pattpos)
                &&& (!jumps ==> final(self).mt_pbreak_flag == old(self).mt_pbreak_flag && final(self).mt_pbreak_pos == old(self).mt_pbreak_pos)
            }),
    {
        if data.frame != 0 {
            return ;
        }
        let mut st = self.state[chn];
        let parm = st.n_cmdlo & 0x0f;
        if parm == 0 {
            st.n_pattpos = data.row as u8;
            self.state[chn] = st;
            return ;
        }
        if st.n_loopcount == 0 {
            st.n_loopcount = parm;
        } else {
            st.n_loopcount = st.n_loopcount - 1;
            if st.n_loopcount == 0 {
                self.state[chn] = st;
                return ;
            }
        }
        self.mt_pbreak_pos = st.n_pattpos;
        self.mt_pbreak_flag = true;
        self.state[chn] = st;
    }

    /// Tremolo waveform control: the high wave-control nibble.
    fn mt_set_tremolo_control(&mut self, chn: usize)
        requires
            old(self).wf(),
            chn < old(self).state@.len(),
        ensures
            final(self).wf(),
            final(self).state@.len() == old(self).state@.len(),
            final(self).state@[chn as int] == (ChannelData {
                n_wavecontrol: (old(self).state@[chn as int].n_wavecontrol & 0x0f) | ((old(self).state@[chn as int].n_cmdlo & 0x0f) << 4),
                ..old(self).state@[chn as int]
            }),
            forall|c: int|
                0 <= c < old(self).state@.len() && c != chn ==> final(self).state@[c] == old(self).state@[c],
            spec_same_transport(*old(self), *final(self)),
    {
        let mut st = self.state[chn];
        st.n_wavecontrol = (st.n_wavecontrol & 0x0f) | ((st.n_cmdlo & 0x0f) << 4);
        self.state[chn] = st;
    }

    /// Retrigger: restart the voice every `parm` ticks; parameter 0 is
    /// ignored.
    fn mt_retrig_note(&mut self, chn: usize, data: &PlayerData, virt: &mut Virtual)
        requires
            old(self).wf(),
            old(virt).wf(),
            chn < old(self).state@.len(),
        ensures
            final(self).wf(),
            final(virt).wf(),
            final(virt).spec_channels() == old(virt).spec_channels(),
            final(virt).mixer.rate == old(virt).mixer.rate,
            *final(self) == *old(self),
            spec_same_chip(*old(virt), *final(virt)),
            spec_same_patch(*old(virt), *final(virt)),
            data.frame == 0 ==> *final(virt) == *old(virt),
            spec_same_volume(*old(virt), *final(virt)),
            forall|c: int|
                0 <= c < old(virt).spec_channels() && c != chn ==> final(virt).mixer.voices@[c]
                    == old(virt).mixer.voices@[c],
    {
        let parm = (self.state[chn].n_cmdlo & 0x0f) as usize;
        if parm == 0 {
            return ;
        }
        if data.frame % parm == 0 && data.frame != 0 {
            virt.retrig(chn);
        }
    }

    /// Fine volume up: one slide step at tick 0 only.
    fn mt_volume_fine_up(&mut self, chn: usize, data: &PlayerData, virt: &mut Virtual)
        requires
            old(self).wf(),
            old(virt).wf(),
            chn < old(self).state@.len(),
        ensures
            final(self).wf(),
            final(virt).wf(),
            final(virt).spec_channels() == old(virt).spec_channels(),
            final(virt).mixer.rate == old(virt).mixer.rate,
            final(self).state@.len() == old(self).state@.len(),
            data.frame != 0 ==> *final(self) == *old(self),
            data.frame == 0 ==> ({
                let st = old(self).state@[chn as int];
                let up = (st.n_cmdlo & 0x0f) as int;
                let nv: int = if st.n_volume + up > 64 {
                    64
                } else {
                    st.n_volume + up
                };
                &&& final(self).state@[chn as int] == (ChannelData { n_volume: nv as u8, ..st })
                &&& forall|c: int|
                    0 <= c < old(self).state@.len() && c != chn ==> final(self).state@[c] == old(self).state@[c]
            }),
            spec_same_chip(*old(virt), *final(virt)),
            spec_same_patch(*old(virt), *final(virt)),
            spec_same_transport(*old(self), *final(self)),
            spec_same_cursor(*old(virt), *final(virt)),
            forall|c: int|
                0 <= c < old(virt).spec_channels() && c != chn ==> final(virt).mixer.voices@[c]
                    == old(virt).mixer.voices@[c],
    {
        if data.frame != 0 {
            return ;
        }
        let mut st = self.state[chn];
        let nv = st.n_volume as u32 + (st.n_cmdlo & 0x0f) as u32;
        st.n_volume = if nv > 64 {
            64
        } else {
            nv as u8
        };
        self.state[chn] = st;
        let v = st.n_volume as usize;
        virt.set_volume(chn, v);
    }

    /// Fine volume down: one slide step at tick 0 only.
    fn mt_volume_fine_down(&mut self, chn: usize, data: &PlayerData, virt: &mut Virtual)
        requires
            old(self).wf(),
            old(virt).wf(),
            chn < old(self).state@.len(),
        ensures
            final(self).wf(),
            final(virt).wf(),
            final(virt).spec_channels() == old(virt).spec_channels(),
            final(virt).mixer.rate == old(virt).mixer.rate,
            final(self).state@.len() == old(self).state@.len(),
            data.frame != 0 ==> *final(self) == *old(self),
            data.frame == 0 ==> ({
                let st = old(self).state@[chn as int];
                let down = (st.n_cmdlo & 0x0f) as int;
                let nv: int = if st.n_volume - down < 0 {
                    0
                } else {
                    st.n_volume - down
                };
                &&& final(self).state@[chn as int] == (ChannelData { n_volume: nv as u8, ..st })
                &&& forall|c: int|
                    0 <= c < old(self).state@.len() && c != chn ==> final(self).state@[c] == old(self).state@[c]
            }),
            spec_same_chip(*old(virt), *final(virt)),
            spec_same_patch(*old(virt), *final(virt)),
            spec_same_transport(*old(self), *final(self)),
            spec_same_cursor(*old(virt), *final(virt)),
            forall|c: int|
                0 <= c < old(virt).spec_channels() && c != chn ==> final(virt).mixer.voices@[c]
                    == old(virt).mixer.voices@[c],
    {
        if data.frame != 0 {
            return ;
        }
        let mut st = self.state[chn];
        let down = st.n_cmdlo & 0x0f;
        let cur = st.n_volume as i32 - down as i32;
        st.n_volume = if cur < 0 {
            0
        } else {
            cur as u8
        };
        self.state[chn] = st;
        let v = st.n_volume as usize;
        virt.set_volume(chn, v);
    }

    /// Note cut: silence the channel when the tick reaches the parameter.
    fn mt_note_cut(&mut self, chn: usize, data: &PlayerData, virt: &mut Virtual)
        requires
            old(self).wf(),
            old(virt).wf(),
            chn < old(self).state@.len(),
        ensures
            final(self).wf(),
            final(virt).wf(),
            final(virt).spec_channels() == old(virt).spec_channels(),
            final(virt).mixer.rate == old(virt).mixer.rate,
            final(self).state@.len() == old(self).state@.len(),
            data.frame != old(self).state@[chn as int].n_cmdlo & 0x0f ==> *final(self) == *old(self),
            data.frame == old(self).state@[chn as int].n_cmdlo & 0x0f ==> final(self).state@[chn as int] == (ChannelData {
                n_volume: 0,
                ..old(self).state@[chn as int]
            }),
            final(self).state@[chn as int].n_cmd == old(self).state@[chn as int].n_cmd,
            forall|c: int|
                0 <= c < old(self).state@.len() && c != chn ==> final(self).state@[c] == old(self).state@[c],
            spec_same_chip(*old(virt), *final(virt)),
            spec_same_patch(*old(virt), *final(virt)),
            spec_same_transport(*old(self), *final(self)),
            spec_same_cursor(*old(virt), *final(virt)),
            forall|c: int|
                0 <= c < old(virt).spec_channels() && c != chn ==> final(virt).mixer.voices@[c]
                    == old(virt).mixer.voices@[c],
    {
        let mut st = self.state[chn];
        if data.frame != (st.n_cmdlo & 0x0f) as usize {
            return ;
        }
        st.n_volume = 0;
        self.state[chn] = st;
        virt.set_volume(chn, 0);
    }

    /// Note delay: hold the row's note back until the tick reaches the
    /// parameter, then trigger it.
    fn mt_note_delay(&mut self, chn: usize, data: &PlayerData, virt: &mut Virtual)
        requires
            old(self).wf(),
            old(virt).wf(),
            chn < old(self).state@.len(),
        ensures
            final(self).wf(),
            final(virt).wf(),
            final(virt).spec_channels() == old(virt).spec_channels(),
            final(virt).mixer.rate == old(virt).mixer.rate,
            *final(self) == *old(self),
            spec_same_chip(*old(virt), *final(virt)),
            spec_same_patch(*old(virt), *final(virt)),
            !(data.frame == (old(self).state@[chn as int].n_cmdlo & 0x0f) && old(
                self,
            ).state@[chn as int].n_note != 0) ==> *final(virt) == *old(virt),
            spec_same_volume(*old(virt), *final(virt)),
            forall|c: int|
                0 <= c < old(virt).spec_channels() && c != chn ==> final(virt).mixer.voices@[c]
                    == old(virt).mixer.voices@[c],
    {
        let st = self.state[chn];
        if data.frame != (st.n_cmdlo & 0x0f) as usize {
            return ;
        }
        if st.n_note == 0 {
            return ;
        }
        virt.retrig(chn);
        let p = st.n_period;
        virt.set_period(chn, p);
    }

    /// Pattern delay: repeat the current row the given number of extra
    /// times; set at tick 0 and only when no repeat is already running.
    fn mt_pattern_delay(&mut self, chn: usize, data: &PlayerData)
        requires
            old(self).wf(),
            chn < old(self).state@.len(),
        ensures
            final(self).wf(),
            final(self).state@ == old(self).state@,
            (data.frame == 0 && old(self).mt_patt_del_time_2 == 0) ==> final(self).mt_patt_del_time == (old(self).state@[chn as int].n_cmdlo & 0x0f) + 1,
            !(data.frame == 0 && old(self).mt_patt_del_time_2 == 0) ==> *final(self) == *old(self),
            final(self).mt_pbreak_pos == old(self).mt_pbreak_pos,
            final(self).mt_pbreak_flag == old(self).mt_pbreak_flag,
            final(self).mt_pos_jump_flag == old(self).mt_pos_jump_flag,
            final(self).mt_jump_pos == old(self).mt_jump_pos,
            final(self).mt_jump_set == old(self).mt_jump_set,
            final(self).mt_patt_del_time_2 == old(self).mt_patt_del_time_2,
            final(self).mt_low_mask == old(self).mt_low_mask,
    {
        if data.frame != 0 {
            return ;
        }
        if self.mt_patt_del_time_2 != 0 {
            return ;
        }
        let parmv: u8 = self.state[chn].n_cmdlo;
        let parm = parmv & 0x0f;
        proof {
            assert(parmv & 0x0f < 16) by (bit_vector);
        }
        self.mt_patt_del_time = parm + 1;
    }

    /// Funk repeat: remember the speed nibble; the sample inversion it
    /// commands on real hardware is not modelled.
    fn mt_funk_it(&mut self, chn: usize, data: &PlayerData)
        requires
            old(self).wf(),
            chn < old(self).state@.len(),
        ensures
            final(self).wf(),
            final(self).state@.len() == old(self).state@.len(),
            data.frame != 0 ==> *final(self) == *old(self),
            final(self).state@[chn as int] == (ChannelData {
                n_glissfunk: final(self).state@[chn as int].n_glissfunk,
                ..old(self).state@[chn as int]
            }),
            forall|c: int|
                0 <= c < old(self).state@.len() && c != chn ==> final(self).state@[c] == old(self).state@[c],
            spec_same_transport(*old(self), *final(self)),
            data.frame == 0 ==> final(self).state@[chn as int] == (ChannelData {
                n_glissfunk: (old(self).state@[chn as int].n_glissfunk & 0x0f) | ((old(self).state@[chn as int].n_cmdlo & 0x0f) << 4),
                ..old(self).state@[chn as int]
            }),
    {
        if data.frame != 0 {
            return ;
        }
        let mut st = self.state[chn];
        st.n_glissfunk = (st.n_glissfunk & 0x0f) | ((st.n_cmdlo & 0x0f) << 4);
        self.state[chn] = st;
    }

    /// The filter switch: an even parameter turns the filtered response
    /// on, an odd one selects the plain response.
    fn mt_filter_on_off(&mut self, chn: usize, virt: &mut Virtual)
        requires
            old(self).wf(),
            old(virt).wf(),
            chn < old(self).state@.len(),
        ensures
            final(self).wf(),
            final(virt).wf(),
            final(virt).spec_channels() == old(virt).spec_channels(),
            final(virt).mixer.rate == old(virt).mixer.rate,
            *final(self) == *old(self),
            final(virt).mixer.filter == (old(self).state@[chn as int].n_cmdlo & 0x01 == 0),
            spec_same_chip(*old(virt), *final(virt)),
            spec_same_patch(*old(virt), *final(virt)),
            spec_same_cursor(*old(virt), *final(virt)),
            spec_same_volume(*old(virt), *final(virt)),
            forall|c: int|
                0 <= c < old(virt).spec_channels() ==> final(virt).mixer.voices@[c] == old(virt).mixer.voices@[c],
    {
        let parm = self.state[chn].n_cmdlo;
        virt.set_filter(parm & 0x01 == 0);
    }

    /// Dispatch the numbered sub-effects.
    fn mt_e_commands(&mut self, chn: usize, data: &mut PlayerData, virt: &mut Virtual)
        requires
            old(self).wf(),
            old(data).wf(),
            old(virt).wf(),
            chn < old(self).state@.len(),
        ensures
            final(self).wf(),
            final(data).wf(),
            final(virt).wf(),
            final(virt).spec_channels() == old(virt).spec_channels(),
            final(virt).mixer.rate == old(virt).mixer.rate,
            final(self).state@.len() == old(self).state@.len(),
            *final(data) == *old(data),
            final(self).state@[chn as int].n_cmd == old(self).state@[chn as int].n_cmd,
            forall|c: int|
                0 <= c < old(self).state@.len() && c != chn ==> final(self).state@[c] == old(self).state@[c],
            final(self).state@[chn as int] == spec_e_tick(
                old(self).state@[chn as int],
                old(data).frame as int,
                old(data).row as int,
            ),
            spec_same_chip(*old(virt), *final(virt)),
            spec_same_patch(*old(virt), *final(virt)),
            spec_e_transport(
                *old(self),
                *final(self),
                old(self).state@[chn as int],
                old(data).frame as int,
            ),
            ({
                let sub = old(self).state@[chn as int].n_cmdlo >> 4;
                (sub != 0xa && sub != 0xb && sub != 0xc) ==> spec_same_volume(
                    *old(virt),
                    *final(virt),
                )
            }),
            forall|c: int|
                0 <= c < old(virt).spec_channels() && c != chn ==> final(virt).mixer.voices@[c]
                    == old(virt).mixer.voices@[c],
    {
        let sub = self.state[chn].n_cmdlo >> 4;
        match sub {
            0x0 => self.mt_filter_on_off(chn, virt),
            0x1 => self.mt_fine_porta_up(chn, data, virt),
            0x2 => self.mt_fine_porta_down(chn, data, virt),
            0x3 => self.mt_set_gliss_control(chn),
            0x4 => self.mt_set_vibrato_control(chn),
            0x5 => self.mt_set_finetune(chn),
            0x6 => self.mt_jump_loop(chn, data),
            0x7 => self.mt_set_tremolo_control(chn),
            0x9 => self.mt_retrig_note(chn, data, virt),
            0xa => self.mt_volume_fine_up(chn, data, virt),
            0xb => self.mt_volume_fine_down(chn, data, virt),
            0xc => self.mt_note_cut(chn, data, virt),
            0xd => self.mt_note_delay(chn, data, virt),
            0xe => self.mt_pattern_delay(chn, data),
            0xf => self.mt_funk_it(chn, data),
            _ => {},
        }
        proof {
            assert forall|c: int|
                0 <= c < old(self).state@.len() && c != chn implies self.state@[c] == old(self).state@[c] by {
                assert(old(self).state@[c] == old(self).state@[c]);
                assert(self.state@[c] == self.state@[c]);
            }
        }
    }

    /// Per-tick effect dispatch: the effects that run on every tick of a
    /// row, including tick 0.
    fn mt_check_efx(&mut self, chn: usize, data: &mut PlayerData, virt: &mut Virtual)
        requires
            old(self).wf(),
            old(data).wf(),
            old(virt).wf(),
            chn < old(self).state@.len(),
        ensures
            final(self).wf(),
            final(data).wf(),
            final(virt).wf(),
            final(virt).spec_channels() == old(virt).spec_channels(),
            final(virt).mixer.rate == old(virt).mixer.rate,
            final(self).state@.len() == old(self).state@.len(),
            *final(data) == *old(data),
            final(self).state@[chn as int].n_cmd == old(self).state@[chn as int].n_cmd,
            forall|c: int|
                0 <= c < old(self).state@.len() && c != chn ==> final(self).state@[c] == old(self).state@[c],
            final(self).state@[chn as int] == spec_channel_tick(
                old(self).state@[chn as int],
                old(data).frame as int,
                old(data).row as int,
            ),
            spec_same_chip(*old(virt), *final(virt)),
            spec_same_patch(*old(virt), *final(virt)),
            spec_tick_transport(
                *old(self),
                *final(self),
                old(self).state@[chn as int],
                old(data).frame as int,
            ),
            old(self).state@[chn as int].n_cmd != 0xe ==> spec_same_cursor(
                *old(virt),
                *final(virt),
            ),
            forall|c: int|
                0 <= c < old(virt).spec_channels() && c != chn ==> final(virt).mixer.voices@[c]
                    == old(virt).mixer.voices@[c],
    {
        let cmd = self.state[chn].n_cmd;
        let parm = self.state[chn].n_cmdlo;
        proof {
            assert(parm & 0xff == parm) by (bit_vector);
        }
        if cmd == 0 && parm == 0 {
            self.per_nop(chn, virt);
            return ;
        }
        match cmd {
            0x0 => self.mt_arpeggio(chn, data, virt),
            0x1 => self.mt_porta_up(chn, virt),
            0x2 => self.mt_porta_down(chn, virt),
            0x3 => self.mt_tone_portamento(chn, virt),
            0x4 => self.mt_vibrato(chn, virt),
            0x5 => self.mt_tone_plus_vol_slide(chn, virt),
            0x6 => self.mt_vibrato_plus_vol_slide(chn, virt),
            0x7 => self.mt_tremolo(chn, virt),
            0xa => self.mt_volume_slide(chn, virt),
            0xe => self.mt_e_commands(chn, data, virt),
            _ => {},
        }
        proof {
            assert forall|c: int|
                0 <= c < old(self).state@.len() && c != chn implies self.state@[c] == old(self).state@[c] by {
                assert(old(self).state@[c] == old(self).state@[c]);
                assert(self.state@[c] == self.state@[c]);
            }
        }
    }

    /// Trigger-time effect dispatch: the commands resolved once, at the
    /// row boundary, followed by the period register refresh.
    fn mt_check_more_efx(&mut self, chn: usize, data: &mut PlayerData, virt: &mut Virtual)
        requires
            old(self).wf(),
            old(data).wf(),
            old(virt).wf(),
            chn < old(self).state@.len(),
        ensures
            final(self).wf(),
            final(data).wf(),
            final(virt).wf(),
            final(virt).spec_channels() == old(virt).spec_channels(),
            final(virt).mixer.rate == old(virt).mixer.rate,
            final(self).state@.len() == old(self).state@.len(),
            final(data).pos == old(data).pos,
            final(data).row == old(data).row,
            final(self).state@[chn as int].n_cmd == old(self).state@[chn as int].n_cmd,
            forall|c: int|
                0 <= c < old(self).state@.len() && c != chn ==> final(self).state@[c] == old(self).state@[c],
            final(self).state@[chn as int] == spec_trigger_tick(
                old(self).state@[chn as int],
                old(data).frame as int,
                old(data).row as int,
            ),
            spec_same_chip(*old(virt), *final(virt)),
            spec_same_patch(*old(virt), *final(virt)),
            spec_trigger_transport(
                *old(self),
                *final(self),
                old(self).state@[chn as int],
                old(data).frame as int,
            ),
            spec_trigger_data(*old(data), *final(data), old(self).state@[chn as int]),
            ({
                let st = old(self).state@[chn as int];
                let sub = st.n_cmdlo >> 4;
                (st.n_cmd != 0xc && !(st.n_cmd == 0xe && (sub == 0xa || sub == 0xb || sub
                    == 0xc))) ==> spec_same_volume(*old(virt), *final(virt))
            }),
            ({
                let nst = spec_trigger_tick(
                    old(self).state@[chn as int],
                    old(data).frame as int,
                    old(data).row as int,
                );
                (chn < old(virt).spec_channels() && nst.n_period > 0)
                    ==> final(virt).mixer.voices@[chn as int].period == nst.n_period
            }),
            forall|c: int|
                0 <= c < old(virt).spec_channels() && c != chn ==> final(virt).mixer.voices@[c]
                    == old(virt).mixer.voices@[c],
    {
        let cmd = self.state[chn].n_cmd;
        match cmd {
            0x9 => self.mt_sample_offset(chn, virt),
            0xb => self.mt_position_jump(chn),
            0xd => self.mt_pattern_break(chn),
            0xe => self.mt_e_commands(chn, data, virt),
            0xf => self.mt_set_speed(chn, data),
            0xc => self.mt_volume_change(chn, virt),
            _ => {},
        }
        self.per_nop(chn, virt);
    }


    /// A row boundary: read the event at (position, row, channel) for
    /// every channel. Outside tone portamento, a named instrument and its
    /// default volume are latched and a note is converted to a period
    /// under the channel's finetune and retriggers the voice; under tone
    /// portamento neither happens: the note only becomes the glide
    /// target. The trigger-time effects then run for the channel.
    #[verifier::rlimit(100)]
    fn mt_get_new_note(&mut self, data: &mut PlayerData, module: &Module, virt: &mut Virtual)
        requires
            old(self).wf(),
            old(data).wf(),
            old(virt).wf(),
            module.wf(),
            old(self).state@.len() == module.chn,
            old(virt).spec_channels() == module.chn,
        ensures
            final(self).wf(),
            final(data).wf(),
            final(virt).wf(),
            final(virt).spec_channels() == old(virt).spec_channels(),
            final(virt).mixer.rate == old(virt).mixer.rate,
            final(self).state@.len() == old(self).state@.len(),
            final(data).pos == old(data).pos,
            final(data).row == old(data).row,
            final(data).frame == old(data).frame || final(data).frame == 0,
            spec_same_chip(*old(virt), *final(virt)),
            forall|c: int|
                0 <= c < old(self).state@.len() ==> (#[trigger] final(self).state@[c]).n_cmd
                    == (module.patterns.spec_event(
                    module.orders.spec_pattern_at(old(data).pos as int),
                    old(data).row as int,
                    c,
                ).fxt & 0x0f),
            forall|c: int|
                0 <= c < old(self).state@.len() ==> spec_row_latch(
                    module,
                    module.orders.spec_pattern_at(old(data).pos as int),
                    old(data).row as int,
                    c,
                    #[trigger] final(self).state@[c],
                    old(virt).mixer.voices@[c],
                    final(virt).mixer.voices@[c],
                ),
            !spec_row_touches_transport(
                module,
                module.orders.spec_pattern_at(old(data).pos as int),
                old(data).row as int,
                module.chn as int,
            ) ==> (spec_same_transport(*old(self), *final(self)) && final(data).speed == old(
                data,
            ).speed && final(data).tempo == old(data).tempo && final(data).frame == old(
                data,
            ).frame),
            ({
                let pat = module.orders.spec_pattern_at(old(data).pos as int);
                let brk = spec_row_break(module, pat, old(data).row as int, module.chn as int);
                (!spec_row_redirects(module, pat, old(data).row as int, module.chn as int) && brk
                    != -1) ==> ({
                    &&& final(self).mt_pbreak_pos == brk
                    &&& final(self).mt_pos_jump_flag
                    &&& final(self).mt_pbreak_flag == old(self).mt_pbreak_flag
                    &&& final(self).mt_jump_set == old(self).mt_jump_set
                    &&& final(self).mt_jump_pos == old(self).mt_jump_pos
                    &&& final(self).mt_patt_del_time == old(self).mt_patt_del_time
                    &&& final(self).mt_patt_del_time_2 == old(self).mt_patt_del_time_2
                })
            }),
    {
        let pat = if data.pos < module.orders.num() {
            module.orders.orders[data.pos] as usize
        } else {
            0
        };
        let nch = self.state.len();
        let mut chn: usize = 0;
        while chn < nch
            invariant
                self.wf(),
                data.wf(),
                virt.wf(),
                module.wf(),
                nch == module.chn,
                self.state@.len() == nch,
                virt.spec_channels() == old(virt).spec_channels(),
                virt.mixer.rate == old(virt).mixer.rate,
                data.pos == old(data).pos,
                data.row == old(data).row,
                data.frame == old(data).frame || data.frame == 0,
                spec_same_chip(*old(virt), *virt),
                chn <= nch,
                pat == module.orders.spec_pattern_at(old(data).pos as int),
                forall|c: int|
                    0 <= c < chn ==> (#[trigger] self.state@[c]).n_cmd == (
                    module.patterns.spec_event(pat as int, old(data).row as int, c).fxt & 0x0f),
                virt.mixer.voices@.len() == old(virt).mixer.voices@.len(),
                virt.spec_channels() == nch,
                forall|c: int|
                    chn <= c < nch ==> virt.mixer.voices@[c] == old(virt).mixer.voices@[c],
                !spec_row_touches_transport(module, pat as int, old(data).row as int, nch as int)
                    ==> (spec_same_transport(*old(self), *self) && data.speed == old(data).speed
                    && data.tempo == old(data).tempo && data.frame == old(data).frame),
                ({
                    let brk = spec_row_break(module, pat as int, old(data).row as int, chn as int);
                    (!spec_row_redirects(module, pat as int, old(data).row as int, nch as int)
                        && brk != -1) ==> ({
                        &&& self.mt_pbreak_pos == brk
                        &&& self.mt_pos_jump_flag
                        &&& self.mt_pbreak_flag == old(self).mt_pbreak_flag
                        &&& self.mt_jump_set == old(self).mt_jump_set
                        &&& self.mt_jump_pos == old(self).mt_jump_pos
                        &&& self.mt_patt_del_time == old(self).mt_patt_del_time
                        &&& self.mt_patt_del_time_2 == old(self).mt_patt_del_time_2
                    })
                }),
                ({
                    let brk = spec_row_break(module, pat as int, old(data).row as int, chn as int);
                    (!spec_row_redirects(module, pat as int, old(data).row as int, nch as int)
                        && brk == -1) ==> spec_same_transport(*old(self), *self)
                }),
                forall|c: int|
                    0 <= c < chn ==> spec_row_latch(
                        module,
                        pat as int,
                        old(data).row as int,
                        c,
                        #[trigger] self.state@[c],
                        old(virt).mixer.voices@[c],
                        virt.mixer.voices@[c],
                    ),
            decreases nch - chn,
        {
            let ghost voices0 = virt.mixer.voices@;
            let ghost states0 = self.state@;
            let event = module.patterns.event(pat, data.row, chn);
            let mut st = self.state[chn];
            st.n_cmd = event.fxt & 0x0f;
            st.n_cmdlo = event.fxp;
            self.state[chn] = st;
            let cmdv = event.fxt & 0x0f;
            let tone = cmdv == 0x3 || cmdv == 0x5;

            if event.ins != 0 && !tone {
                let idx = (event.ins - 1) as usize;
                if idx < module.instrument.len() {
                    let vol = module.instrument[idx].volume;
                    virt.set_patch(chn, idx, idx, event.note as usize);
                    virt.set_volume(chn, vol);
                    let mut st2 = self.state[chn];
                    st2.n_volume = vol as u8;
                    self.state[chn] = st2;
                }
            }
            let ghost latched_voices = virt.mixer.voices@;
            proof {
                if 1 <= event.ins <= module.instrument@.len() && !tone {
                    assert(latched_voices[chn as int].smp == event.ins - 1);
                    assert(latched_voices[chn as int].has_patch);
                    assert(latched_voices[chn as int].volume == module.instrument@[event.ins
                        - 1].volume);
                }
            }
            if event.note != 0 && event.note <= 36 {
                let mut st3 = self.state[chn];
                st3.n_note = event.note;
                let cmd = st3.n_cmd;
                let parm = st3.n_cmdlo;
                if cmd == 0xe && (parm >> 4) == 0x5 {
                    self.state[chn] = st3;
                    self.mt_set_finetune(chn);
                    st3 = self.state[chn];
                }
                if cmd == 0x3 || cmd == 0x5 {
                    self.state[chn] = st3;
                    self.mt_set_tone_porta(chn, event.note);
                    self.mt_check_efx(chn, data, virt);
                } else if cmd == 0x9 {
                    self.state[chn] = st3;
                    self.mt_check_more_efx(chn, data, virt);
                    self.trigger_note(chn, data, virt);
                    self.mt_check_more_efx(chn, data, virt);
                } else {
                    self.state[chn] = st3;
                    self.trigger_note(chn, data, virt);
                    self.mt_check_more_efx(chn, data, virt);
                }
            } else {
                self.mt_check_more_efx(chn, data, virt);
            }
            proof {
                if 1 <= event.ins <= module.instrument@.len() && !tone {
                    assert(virt.mixer.voices@[chn as int].smp == latched_voices[chn as int].smp);
                    assert(virt.mixer.voices@[chn as int].has_patch == latched_voices[chn
                        as int].has_patch);
                    if !spec_trigger_touches_volume(event) {
                        assert(virt.mixer.voices@[chn as int].volume == latched_voices[chn
                            as int].volume);
                    }
                }
                if !spec_row_redirects(module, pat as int, old(data).row as int, nch as int) {
                    assert(!({
                        let e = module.patterns.spec_event(pat as int, old(data).row as int, chn as int);
                        let cmd = e.fxt & 0x0f;
                        ||| cmd == 0xb
                        ||| (cmd == 0xe && (e.fxp >> 4 == 0x6 || e.fxp >> 4 == 0xe))
                    }));
                }
                if !spec_row_touches_transport(
                    module,
                    pat as int,
                    old(data).row as int,
                    nch as int,
                ) {
                    assert(!({
                        let e = module.patterns.spec_event(pat as int, old(data).row as int, chn as int);
                        let cmd = e.fxt & 0x0f;
                        ||| cmd == 0xb
                        ||| cmd == 0xd
                        ||| cmd == 0xf
                        ||| (cmd == 0xe && (e.fxp >> 4 == 0x6 || e.fxp >> 4 == 0xe))
                    }));
                }
                if 1 <= event.note <= 36 && !tone && !(cmdv == 0xe && (event.fxp >> 4 == 0x1
                    || event.fxp >> 4 == 0x2)) {
                    let ftv: u8 = if cmdv == 0xe && event.fxp >> 4 == 0x5 {
                        event.fxp & 0x0f
                    } else {
                        states0[chn as int].n_finetune
                    };
                    assert(self.state@[chn as int].n_finetune == ftv);
                    assert(self.state@[chn as int].n_period == spec_period(
                        ftv as int,
                        event.note - 1,
                    ));
                }
                assert(spec_row_latch(
                    module,
                    pat as int,
                    old(data).row as int,
                    chn as int,
                    self.state@[chn as int],
                    old(virt).mixer.voices@[chn as int],
                    virt.mixer.voices@[chn as int],
                ));
                assert forall|c: int| 0 <= c < chn implies spec_row_latch(
                    module,
                    pat as int,
                    old(data).row as int,
                    c,
                    #[trigger] self.state@[c],
                    old(virt).mixer.voices@[c],
                    virt.mixer.voices@[c],
                ) by {
                    assert(self.state@[c] == states0[c]);
                    assert(virt.mixer.voices@[c] == voices0[c]);
                }
            }
            chn = chn + 1;
        }
    }

    /// Apply the latched note: set the stored and sounding period from
    /// the period table under the channel's finetune and restart the
    /// voice, unless a note delay holds it back.
    fn trigger_note(&mut self, chn: usize, data: &PlayerData, virt: &mut Virtual)
        requires
            old(self).wf(),
            old(virt).wf(),
            chn < old(self).state@.len(),
        ensures
            final(self).wf(),
            final(virt).wf(),
            final(virt).spec_channels() == old(virt).spec_channels(),
            final(virt).mixer.rate == old(virt).mixer.rate,
            final(self).state@.len() == old(self).state@.len(),
            ({
                let st = old(self).state@[chn as int];
                (1 <= st.n_note <= 36) ==> final(self).state@[chn as int] == (ChannelData {
                    n_period: spec_period(st.n_finetune as int, st.n_note - 1) as u16,
                    ..st
                })
            }),
            (1 <= old(self).state@[chn as int].n_note <= 36) ==> 108 <= final(self).state@[chn as int].n_period <= 907,
            (1 <= old(self).state@[chn as int].n_note <= 36) ==> final(self).state@[chn
                as int].n_period == spec_period(
                old(self).state@[chn as int].n_finetune as int,
                old(self).state@[chn as int].n_note - 1,
            ),
            (!(1 <= old(self).state@[chn as int].n_note <= 36)) ==> *final(self) == *old(self),
            forall|c: int|
                0 <= c < old(self).state@.len() && c != chn ==> final(self).state@[c] == old(self).state@[c],
            spec_same_volume(*old(virt), *final(virt)),
            forall|c: int|
                0 <= c < old(virt).spec_channels() && c != chn ==> final(virt).mixer.voices@[c]
                    == old(virt).mixer.voices@[c],
            spec_same_chip(*old(virt), *final(virt)),
            spec_same_patch(*old(virt), *final(virt)),
            spec_same_transport(*old(self), *final(self)),
            final(self).mt_low_mask == old(self).mt_low_mask,
    {
        let st0 = self.state[chn];
        if st0.n_note == 0 || st0.n_note > 36 {
            return ;
        }
        let mut st = st0;
        let period = period_of_note(st.n_finetune as usize, (st.n_note - 1) as usize);
        proof {
            assert(spec_period(st.n_finetune as int, st.n_note - 1) <= 1023);
            assert(spec_period(st.n_finetune as int, st.n_note - 1) > 0);
        }
        st.n_period = period;
        self.state[chn] = st;
        let delayed = st.n_cmd == 0xe && (st.n_cmdlo >> 4) == 0xd;
        if !delayed {
            virt.retrig(chn);
            virt.set_period(chn, period);
        }
    }

    /// Advance the transport past a processed row: move to the next row,
    /// honour a running pattern delay, take a deferred in-pattern loop
    /// jump, and at the pattern's end or on a deferred jump move to the
    /// next position, starting at the deferred break row.
    fn advance_row(&mut self, data: &mut PlayerData, module: &Module)
        requires
            old(self).wf(),
            old(data).wf(),
            module.wf(),
        ensures
            final(self).wf(),
            final(data).wf(),
            final(self).state@ == old(self).state@,
            !final(self).mt_pos_jump_flag,
            !final(self).mt_pbreak_flag,
            ({
                let brk = old(self).mt_pbreak_flag;
                let jump = old(self).mt_pos_jump_flag;
                let delayed = old(self).mt_patt_del_time != 0 || old(self).mt_patt_del_time_2 > 1;
                (!brk && !jump && !delayed && old(data).row < 63) ==> (final(data).row == old(data).row + 1 && final(data).pos == old(data).pos)
            }),
            (old(self).mt_pos_jump_flag && !old(self).mt_jump_set && !old(self).mt_pbreak_flag)
                ==> (final(data).row == old(self).mt_pbreak_pos && final(data).pos == (if old(data).pos + 1 < module.orders.orders@.len()
                || old(data).pos + 1 >= 128 {
                ((old(data).pos + 1) % 128) as int
            } else {
                old(self).spec_restart_pos(module) as int
            })),
            final(data).speed == old(data).speed,
            final(data).tempo == old(data).tempo,
            final(data).frame == old(data).frame,
    {
        let mut next_row: usize = if data.row + 1 < 64 {
            data.row + 1
        } else {
            64
        };
        if self.mt_patt_del_time != 0 {
            self.mt_patt_del_time_2 = self.mt_patt_del_time;
            self.mt_patt_del_time = 0;
        }
        if self.mt_patt_del_time_2 != 0 {
            self.mt_patt_del_time_2 = self.mt_patt_del_time_2 - 1;
            if self.mt_patt_del_time_2 != 0 {
                next_row = data.row;
            }
        }
        if self.mt_pbreak_flag {
            self.mt_pbreak_flag = false;
            next_row = self.mt_pbreak_pos as usize;
            self.mt_pbreak_pos = 0;
        }
        if next_row >= 64 || self.mt_pos_jump_flag {
            next_row = self.mt_pbreak_pos as usize;
            self.mt_pbreak_pos = 0;
            self.mt_pos_jump_flag = false;
            let target: usize = if self.mt_jump_set {
                self.mt_jump_pos as usize
            } else {
                data.pos + 1
            };
            self.mt_jump_set = false;
            self.mt_jump_pos = 0;
            let wrapped = target % 128;
            let nord = module.orders.num();
            data.pos = if wrapped < nord {
                wrapped
            } else {
                let r = module.orders.rstpos;
                if r < 128 {
                    r
                } else {
                    0
                }
            };
        }
        data.row = next_row;
    }

    /// The restart position the order list prescribes.
    pub open spec fn spec_restart_pos(self, module: &Module) -> int {
        if module.orders.rstpos < 128 {
            module.orders.rstpos as int
        } else {
            0
        }
    }

    /// Advance one tick. The tick counter wraps at the current speed;
    /// the wrap is a row boundary, where new notes are read (unless a
    /// pattern delay repeats the row) and the row advances with all
    /// deferred jumps applied; on every other tick only the per-tick
    /// effects run.
    pub fn play(&mut self, data: &mut PlayerData, module: &Module, virt: &mut Virtual)
        requires
            old(self).wf(),
            old(data).wf(),
            old(virt).wf(),
            module.wf(),
            old(self).state@.len() == module.chn,
            old(virt).spec_channels() == module.chn,
        ensures
            final(self).wf(),
            final(data).wf(),
            final(virt).wf(),
            final(virt).spec_channels() == old(virt).spec_channels(),
            final(virt).mixer.rate == old(virt).mixer.rate,
            final(self).state@.len() == old(self).state@.len(),
            old(data).frame + 1 < old(data).speed ==> (final(data).frame == old(data).frame + 1
                && final(data).row == old(data).row && final(data).pos == old(data).pos && final(data).speed == old(data).speed && final(data).tempo == old(data).tempo),
            old(data).frame + 1 >= old(data).speed ==> final(data).frame == 0,
            spec_same_chip(*old(virt), *final(virt)),
            old(data).frame + 1 < old(data).speed ==> (spec_same_patch(*old(virt), *final(virt))
                && (forall|c: int|
                0 <= c < old(self).state@.len() ==> (#[trigger] final(self).state@[c])
                    == spec_channel_tick(
                    old(self).state@[c],
                    old(data).frame + 1,
                    old(data).row as int,
                ))),
            (old(data).frame + 1 >= old(data).speed && old(self).mt_patt_del_time_2 != 0) ==> (
            spec_same_patch(*old(virt), *final(virt)) && (forall|c: int|
                0 <= c < old(self).state@.len() ==> (#[trigger] final(self).state@[c])
                    == spec_channel_tick(old(self).state@[c], 0, old(data).row as int))),
            (old(data).frame + 1 >= old(data).speed && old(self).mt_patt_del_time_2 == 0)
                ==> forall|c: int|
                0 <= c < old(self).state@.len() ==> spec_row_latch(
                    module,
                    module.orders.spec_pattern_at(old(data).pos as int),
                    old(data).row as int,
                    c,
                    #[trigger] final(self).state@[c],
                    old(virt).mixer.voices@[c],
                    final(virt).mixer.voices@[c],
                ),
            (old(data).frame + 1 >= old(data).speed && old(self).mt_patt_del_time_2 == 0
                && old(self).mt_patt_del_time == 0 && !old(self).mt_pos_jump_flag && !old(
                self,
            ).mt_pbreak_flag && !spec_row_touches_transport(
                module,
                module.orders.spec_pattern_at(old(data).pos as int),
                old(data).row as int,
                module.chn as int,
            ) && old(data).row < 63) ==> (final(data).row == old(data).row + 1 && final(data).pos
                == old(data).pos && final(data).speed == old(data).speed && final(data).tempo
                == old(data).tempo),
            ({
                let pat = module.orders.spec_pattern_at(old(data).pos as int);
                let brk = spec_row_break(module, pat, old(data).row as int, module.chn as int);
                (old(data).frame + 1 >= old(data).speed && old(self).mt_patt_del_time_2 == 0
                    && old(self).mt_patt_del_time == 0 && !old(self).mt_pos_jump_flag && !old(
                    self,
                ).mt_pbreak_flag && !old(self).mt_jump_set && !spec_row_redirects(
                    module,
                    pat,
                    old(data).row as int,
                    module.chn as int,
                ) && brk != -1) ==> (final(data).row == brk && final(data).pos == (if old(
                    data,
                ).pos + 1 < module.orders.orders@.len() || old(data).pos + 1 >= 128 {
                    ((old(data).pos + 1) % 128) as int
                } else {
                    old(self).spec_restart_pos(module) as int
                }))
            }),
    {
        if data.frame + 1 < data.speed {
            data.frame = data.frame + 1;
            let nch = self.state.len();
            let mut chn: usize = 0;
            let ghost entry_data = *data;
            while chn < nch
                invariant
                    self.wf(),
                    data.wf(),
                    virt.wf(),
                    nch == old(self).state@.len(),
                    self.state@.len() == nch,
                    virt.spec_channels() == old(virt).spec_channels(),
                    virt.mixer.rate == old(virt).mixer.rate,
                    *data == entry_data,
                    entry_data.frame == old(data).frame + 1,
                    entry_data.row == old(data).row,
                    chn <= nch,
                    spec_same_patch(*old(virt), *virt),
                    spec_same_chip(*old(virt), *virt),
                    forall|c: int|
                        0 <= c < chn ==> (#[trigger] self.state@[c]) == spec_channel_tick(
                            old(self).state@[c],
                            entry_data.frame as int,
                            entry_data.row as int,
                        ),
                    forall|c: int| chn <= c < nch ==> self.state@[c] == old(self).state@[c],
                decreases nch - chn,
            {
                self.mt_check_efx(chn, data, virt);
                chn = chn + 1;
            }
        } else {
            data.frame = 0;
            if self.mt_patt_del_time_2 == 0 {
                self.mt_get_new_note(data, module, virt);
            } else {
                let nch = self.state.len();
                let mut chn: usize = 0;
                let ghost entry_data = *data;
                while chn < nch
                    invariant
                        self.wf(),
                        data.wf(),
                        virt.wf(),
                        nch == old(self).state@.len(),
                        self.state@.len() == nch,
                        virt.spec_channels() == old(virt).spec_channels(),
                        virt.mixer.rate == old(virt).mixer.rate,
                        *data == entry_data,
                        entry_data.frame == 0,
                        entry_data.row == old(data).row,
                        chn <= nch,
                        spec_same_patch(*old(virt), *virt),
                        spec_same_chip(*old(virt), *virt),
                        forall|c: int|
                            0 <= c < chn ==> (#[trigger] self.state@[c]) == spec_channel_tick(
                                old(self).state@[c],
                                0,
                                entry_data.row as int,
                            ),
                        forall|c: int| chn <= c < nch ==> self.state@[c] == old(self).state@[c],
                    decreases nch - chn,
                {
                    self.mt_check_efx(chn, data, virt);
                    chn = chn + 1;
                }
            }
            self.advance_row(data, module);
        }
    }
}

} // verus!
