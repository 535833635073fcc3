//! The extended-module format headers: the song header, instrument and
//! sample headers, and patterns of packed cells.
use vstd::prelude::*;
use vstd::slice::slice_index_get;
use crate::module::Sample;
use crate::module::sample_equiv;
use crate::util::read_string;
use crate::util::read8;
use crate::util::read8i;
use crate::util::read16l;
use crate::util::read32l;
use crate::util::spec_text;
use crate::Error;

verus! {

/// The song header: counts, defaults and the order table.
pub struct SongHeaderTyp {
    pub sig: String,
    pub name: String,
    pub prog_name: String,
    pub ver: u16,
    pub header_size: u32,
    pub len: u16,
    pub rep_s: u16,
    pub ant_chn: u16,
    pub ant_ptn: u16,
    pub ant_instrs: u16,
    pub flags: u16,
    pub def_tempo: u16,
    pub def_speed: u16,
    pub song_tab: Vec<u8>,
}

impl SongHeaderTyp {
    /// Decode the song header: signature, names, the counts at their
    /// fixed offsets, then `len` order-table bytes.
    pub fn from_slice(b: &[u8]) -> (r: Result<SongHeaderTyp, Error>)
        ensures
            r is Ok <==> b@.len() >= 80 + 256 * b@[65] + b@[64],
            r matches Ok(h) ==> ({
                &&& h.ver == 256 * b@[59] + b@[58]
                &&& h.len == 256 * b@[65] + b@[64]
                &&& h.rep_s == 256 * b@[67] + b@[66]
                &&& h.ant_chn == 256 * b@[69] + b@[68]
                &&& h.ant_ptn == 256 * b@[71] + b@[70]
                &&& h.ant_instrs == 256 * b@[73] + b@[72]
                &&& h.flags == 256 * b@[75] + b@[74]
                &&& h.def_tempo == 256 * b@[77] + b@[76]
                &&& h.def_speed == 256 * b@[79] + b@[78]
                &&& h.song_tab@.len() == h.len
                &&& forall|i: int| 0 <= i < h.len ==> h.song_tab@[i] == b@[80 + i]
                &&& h.name@ == spec_text(b@, 17, 20)
            }),
            r matches Err(e) ==> e is Load,
    {
        let sig = match read_string(b, 0, 17) {
            Ok(s) => s,
            Err(e) => {
                return Err(e);
            },
        };
        let name = match read_string(b, 17, 20) {
            Ok(s) => s,
            Err(e) => {
                return Err(e);
            },
        };
        let prog_name = match read_string(b, 38, 20) {
            Ok(s) => s,
            Err(e) => {
                return Err(e);
            },
        };
        let ver = match read16l(b, 58) {
            Ok(v) => v,
            Err(e) => {
                return Err(e);
            },
        };
        let header_size = match read32l(b, 60) {
            Ok(v) => v,
            Err(e) => {
                return Err(e);
            },
        };
        let len = match read16l(b, 64) {
            Ok(v) => v,
            Err(e) => {
                return Err(e);
            },
        };
        let rep_s = match read16l(b, 66) {
            Ok(v) => v,
            Err(e) => {
                return Err(e);
            },
        };
        let ant_chn = match read16l(b, 68) {
            Ok(v) => v,
            Err(e) => {
                return Err(e);
            },
        };
        let ant_ptn = match read16l(b, 70) {
            Ok(v) => v,
            Err(e) => {
                return Err(e);
            },
        };
        let ant_instrs = match read16l(b, 72) {
            Ok(v) => v,
            Err(e) => {
                return Err(e);
            },
        };
        let flags = match read16l(b, 74) {
            Ok(v) => v,
            Err(e) => {
                return Err(e);
            },
        };
        let def_tempo = match read16l(b, 76) {
            Ok(v) => v,
            Err(e) => {
                return Err(e);
            },
        };
        let def_speed = match read16l(b, 78) {
            Ok(v) => v,
            Err(e) => {
                return Err(e);
            },
        };
        let mut song_tab: Vec<u8> = Vec::new();
        let mut i: usize = 0;
        while i < len as usize
            invariant
                i <= len,
                b@.len() >= 80 + i,
                len == 256 * b@[65] + b@[64],
                song_tab@.len() == i,
                forall|j: int| 0 <= j < i ==> song_tab@[j] == b@[80 + j],
            decreases len - i,
        {
            let v = match read8(b, 80 + i) {
                Ok(v) => v,
                Err(e) => {
                    return Err(e);
                },
            };
            song_tab.push(v);
            i = i + 1;
        }
        proof {
            assert(name@ =~= spec_text(b@, 17, 20));
        }
        Ok(
            SongHeaderTyp {
                sig,
                name,
                prog_name,
                ver,
                header_size,
                len,
                rep_s,
                ant_chn,
                ant_ptn,
                ant_instrs,
                flags,
                def_tempo,
                def_speed,
                song_tab,
            },
        )
    }
}

/// One sample header: size, loop, volume, tuning and panning.
pub struct SampleHeaderTyp {
    pub len: i32,
    pub rep_s: i32,
    pub rep_l: i32,
    pub vol: u8,
    pub fine: i8,
    pub typ: u8,
    pub pan: u8,
    pub rel_ton: i8,
    pub skrap: u8,
    pub name: String,
}

/// The byte length of a sample's data: negative declared lengths count
/// as empty, 16-bit samples take two bytes per frame.
pub open spec fn spec_xm_sample_bytes(b: Seq<u8>, ofs: int) -> int {
    let len = spec_i32_le(b, ofs);
    let typ = b[ofs + 14];
    if len <= 0 {
        0
    } else if typ & 4 != 0 {
        2 * len
    } else {
        len
    }
}

/// The signed 32-bit little-endian word at `ofs`.
pub open spec fn spec_i32_le(b: Seq<u8>, ofs: int) -> int {
    (0x1000000 * b[ofs + 3] + 0x10000 * b[ofs + 2] + 256 * b[ofs + 1] + b[ofs]) as u32 as i32 as int
}

impl SampleHeaderTyp {
    /// A blank sample header.
    pub fn new() -> (r: SampleHeaderTyp)
        ensures
            r.len == 0,
            r.vol == 0,
            r.typ == 0,
    {
        SampleHeaderTyp {
            len: 0,
            rep_s: 0,
            rep_l: 0,
            vol: 0,
            fine: 0,
            typ: 0,
            pan: 0,
            rel_ton: 0,
            skrap: 0,
            name: String::new(),
        }
    }

    /// Decode one 40-byte sample header.
    pub fn from_slice(b: &[u8]) -> (r: Result<SampleHeaderTyp, Error>)
        ensures
            r is Ok <==> b@.len() >= 40,
            r matches Ok(h) ==> ({
                &&& h.len == spec_i32_le(b@, 0)
                &&& h.rep_s == spec_i32_le(b@, 4)
                &&& h.rep_l == spec_i32_le(b@, 8)
                &&& h.vol == b@[12]
                &&& h.fine == b@[13] as i8
                &&& h.typ == b@[14]
                &&& h.pan == b@[15]
                &&& h.rel_ton == b@[16] as i8
                &&& h.name@ == spec_text(b@, 18, 22)
            }),
            r matches Err(e) ==> e is Load,
    {
        let len = match read32l(b, 0) {
            Ok(v) => v as i32,
            Err(e) => {
                return Err(e);
            },
        };
        let rep_s = match read32l(b, 4) {
            Ok(v) => v as i32,
            Err(e) => {
                return Err(e);
            },
        };
        let rep_l = match read32l(b, 8) {
            Ok(v) => v as i32,
            Err(e) => {
                return Err(e);
            },
        };
        let vol = match read8(b, 12) {
            Ok(v) => v,
            Err(e) => {
                return Err(e);
            },
        };
        let fine = match read8i(b, 13) {
            Ok(v) => v,
            Err(e) => {
                return Err(e);
            },
        };
        let typ = match read8(b, 14) {
            Ok(v) => v,
            Err(e) => {
                return Err(e);
            },
        };
        let pan = match read8(b, 15) {
            Ok(v) => v,
            Err(e) => {
                return Err(e);
            },
        };
        let rel_ton = match read8i(b, 16) {
            Ok(v) => v,
            Err(e) => {
                return Err(e);
            },
        };
        let skrap = match read8(b, 17) {
            Ok(v) => v,
            Err(e) => {
                return Err(e);
            },
        };
        let name = match read_string(b, 18, 22) {
            Ok(s) => s,
            Err(e) => {
                return Err(e);
            },
        };
        proof {
            assert(name@ =~= spec_text(b@, 18, 22));
        }
        Ok(SampleHeaderTyp { len, rep_s, rep_l, vol, fine, typ, pan, rel_ton, skrap, name })
    }
}

/// One instrument header with its envelopes and sample headers.
pub struct InstrHeaderTyp {
    pub instr_size: u32,
    pub name: String,
    pub typ: u8,
    pub ant_samp: u16,
    pub sample_size: i32,
    pub ta: Vec<u8>,
    pub env_vp: Vec<[i16; 2]>,
    pub env_pp: Vec<[i16; 2]>,
    pub env_vp_ant: u8,
    pub env_pp_ant: u8,
    pub env_v_sust: u8,
    pub env_v_rep_s: u8,
    pub env_v_rep_e: u8,
    pub env_p_sust: u8,
    pub env_p_rep_s: u8,
    pub env_p_rep_e: u8,
    pub env_v_typ: u8,
    pub env_p_typ: u8,
    pub vib_typ: u8,
    pub vib_sweep: u8,
    pub vib_depth: u8,
    pub vib_rate: u8,
    pub fade_out: u16,
    pub samp: Vec<SampleHeaderTyp>,
}

/// Where sample header `k` of an instrument starts: the first at the
/// instrument's declared header size, each next one past the previous
/// header and its sample data.
pub open spec fn spec_xm_samp_ofs(b: Seq<u8>, k: int) -> int
    decreases k,
{
    if k <= 0 {
        (0x1000000 * b[3] + 0x10000 * b[2] + 256 * b[1] + b[0]) as int
    } else {
        spec_xm_samp_ofs(b, k - 1) + 40 + spec_xm_sample_bytes(b, spec_xm_samp_ofs(b, k - 1))
    }
}

impl InstrHeaderTyp {
    /// A blank instrument header.
    pub fn new() -> (r: InstrHeaderTyp)
        ensures
            r.ant_samp == 0,
            r.samp@.len() == 0,
            r.env_vp@.len() == 0,
            r.env_pp@.len() == 0,
            r.ta@.len() == 0,
    {
        InstrHeaderTyp {
            instr_size: 0,
            name: String::new(),
            typ: 0,
            ant_samp: 0,
            sample_size: 0,
            ta: Vec::new(),
            env_vp: Vec::new(),
            env_pp: Vec::new(),
            env_vp_ant: 0,
            env_pp_ant: 0,
            env_v_sust: 0,
            env_v_rep_s: 0,
            env_v_rep_e: 0,
            env_p_sust: 0,
            env_p_rep_s: 0,
            env_p_rep_e: 0,
            env_v_typ: 0,
            env_p_typ: 0,
            vib_typ: 0,
            vib_sweep: 0,
            vib_depth: 0,
            vib_rate: 0,
            fade_out: 0,
            samp: Vec::new(),
        }
    }

    /// Decode one instrument header and, when it declares samples, its
    /// envelope block and every sample header, each at the offset the
    /// previous sample's data ends. Hands back the offset past the last
    /// sample's data.
    pub fn from_slice(b: &[u8]) -> (r: Result<(InstrHeaderTyp, usize), Error>)
        ensures
            r matches Ok(p) ==> ({
                let ins = p.0;
                &&& ins.instr_size == 0x1000000 * b@[3] + 0x10000 * b@[2] + 256 * b@[1] + b@[0]
                &&& ins.name@ == spec_text(b@, 4, 22)
                &&& ins.typ == b@[26]
                &&& ins.ant_samp == 256 * b@[28] + b@[27]
                &&& (ins.ant_samp == 0 ==> p.1 == ins.instr_size && ins.samp@.len() == 0)
                &&& (ins.ant_samp > 0 ==> ({
                    &&& b@.len() >= 241
                    &&& ins.ta@.len() == 96
                    &&& forall|i: int| 0 <= i < 96 ==> ins.ta@[i] == b@[33 + i]
                    &&& ins.env_vp@.len() == 24
                    &&& ins.env_vp_ant == b@[225]
                    &&& ins.env_pp_ant == b@[226]
                    &&& ins.env_v_sust == b@[227]
                    &&& ins.env_v_rep_s == b@[228]
                    &&& ins.env_v_rep_e == b@[229]
                    &&& ins.env_p_sust == b@[230]
                    &&& ins.env_p_rep_s == b@[231]
                    &&& ins.env_p_rep_e == b@[232]
                    &&& ins.env_v_typ == b@[233]
                    &&& ins.env_p_typ == b@[234]
                    &&& ins.vib_typ == b@[235]
                    &&& ins.vib_sweep == b@[236]
                    &&& ins.vib_depth == b@[237]
                    &&& ins.vib_rate == b@[238]
                    &&& ins.fade_out == 256 * b@[240] + b@[239]
                    &&& ins.samp@.len() == ins.ant_samp
                    &&& p.1 == spec_xm_samp_ofs(b@, ins.ant_samp as int)
                    &&& forall|k: int|
                        0 <= k < ins.ant_samp ==> spec_xm_samp_header_ok(
                            b@,
                            #[trigger] ins.samp@[k],
                            k,
                        )
                }))
            }),
            r matches Err(e) ==> e is Load,
    {
        let _len_fits: usize = b.len();
        let instr_size = match read32l(b, 0) {
            Ok(v) => v,
            Err(e) => {
                return Err(e);
            },
        };
        let name = match read_string(b, 4, 22) {
            Ok(s) => s,
            Err(e) => {
                return Err(e);
            },
        };
        proof {
            assert(name@ =~= spec_text(b@, 4, 22));
        }
        let typ = match read8(b, 26) {
            Ok(v) => v,
            Err(e) => {
                return Err(e);
            },
        };
        let ant_samp = match read16l(b, 27) {
            Ok(v) => v,
            Err(e) => {
                return Err(e);
            },
        };

        let mut ins = Self::new();
        ins.instr_size = instr_size;
        ins.name = name;
        ins.typ = typ;
        ins.ant_samp = ant_samp;
        let mut ofs: usize = instr_size as usize;

        if ant_samp > 0 {
            let sample_size = match read32l(b, 29) {
                Ok(v) => v as i32,
                Err(e) => {
                    return Err(e);
                },
            };
            if b.len() < 241 {
                return Err(Error::Load(String::from_str("short instrument header")));
            }
            let mut ta: Vec<u8> = Vec::new();
            let mut i: usize = 0;
            while i < 96
                invariant
                    b@.len() >= 241,
                    i <= 96,
                    ta@.len() == i,
                    forall|j: int| 0 <= j < i ==> ta@[j] == b@[33 + j],
                decreases 96 - i,
            {
                ta.push(*slice_index_get(b, 33 + i));
                i = i + 1;
            }
            let mut env_vp: Vec<[i16; 2]> = Vec::new();
            let mut i: usize = 0;
            while i < 12
                invariant
                    b@.len() >= 241,
                    i <= 12,
                    env_vp@.len() == i,
                decreases 12 - i,
            {
                let x = match read16l(b, 129 + 4 * i) {
                    Ok(v) => v as i16,
                    Err(e) => {
                        return Err(e);
                    },
                };
                let y = match read16l(b, 129 + 4 * i + 2) {
                    Ok(v) => v as i16,
                    Err(e) => {
                        return Err(e);
                    },
                };
                env_vp.push([x, y]);
                i = i + 1;
            }
            let mut i: usize = 0;
            while i < 12
                invariant
                    b@.len() >= 241,
                    i <= 12,
                    env_vp@.len() == 12 + i,
                decreases 12 - i,
            {
                let x = match read16l(b, 177 + 4 * i) {
                    Ok(v) => v as i16,
                    Err(e) => {
                        return Err(e);
                    },
                };
                let y = match read16l(b, 177 + 4 * i + 2) {
                    Ok(v) => v as i16,
                    Err(e) => {
                        return Err(e);
                    },
                };
                env_vp.push([x, y]);
                i = i + 1;
            }
            let fade_out = match read16l(b, 239) {
                Ok(v) => v,
                Err(e) => {
                    return Err(e);
                },
            };

            if ofs > b.len() {
                return Err(Error::Load(String::from_str("short instrument data")));
            }
            let ant = ant_samp as usize;
            let mut samp: Vec<SampleHeaderTyp> = Vec::new();
            let mut k: usize = 0;
            while k < ant
                invariant
                    b@.len() >= 241,
                    b@.len() <= usize::MAX,
                    k <= ant,
                    samp@.len() == k,
                    ofs == spec_xm_samp_ofs(b@, k as int),
                    ofs <= b@.len(),
                    forall|j: int|
                        0 <= j < k ==> spec_xm_samp_header_ok(b@, #[trigger] samp@[j], j),
                decreases ant - k,
            {
                if b.len() < 40 || ofs > b.len() - 40 {
                    return Err(Error::Load(String::from_str("short sample header")));
                }
                let sl = vstd::slice::slice_subrange(b, ofs, b.len());
                let sh = match SampleHeaderTyp::from_slice(sl) {
                    Ok(s) => s,
                    Err(e) => {
                        return Err(e);
                    },
                };
                proof {
                    assert forall|j: int| 0 <= j < 40 implies sl@[j] == b@[ofs + j] by {}
                }
                let width: usize = if sh.typ & 4 != 0 {
                    2
                } else {
                    1
                };
                let bytes: usize = if sh.len > 0 {
                    (sh.len as usize) * width
                } else {
                    0
                };
                if bytes > b.len() - (ofs + 40) {
                    return Err(Error::Load(String::from_str("short sample data")));
                }
                samp.push(sh);
                ofs = ofs + 40 + bytes;
                k = k + 1;
            }
            ins.sample_size = sample_size;
            ins.ta = ta;
            ins.env_vp = env_vp;
            ins.env_vp_ant = *slice_index_get(b, 225);
            ins.env_pp_ant = *slice_index_get(b, 226);
            ins.env_v_sust = *slice_index_get(b, 227);
            ins.env_v_rep_s = *slice_index_get(b, 228);
            ins.env_v_rep_e = *slice_index_get(b, 229);
            ins.env_p_sust = *slice_index_get(b, 230);
            ins.env_p_rep_s = *slice_index_get(b, 231);
            ins.env_p_rep_e = *slice_index_get(b, 232);
            ins.env_v_typ = *slice_index_get(b, 233);
            ins.env_p_typ = *slice_index_get(b, 234);
            ins.vib_typ = *slice_index_get(b, 235);
            ins.vib_sweep = *slice_index_get(b, 236);
            ins.vib_depth = *slice_index_get(b, 237);
            ins.vib_rate = *slice_index_get(b, 238);
            ins.fade_out = fade_out;
            ins.samp = samp;
        }
        Ok((ins, ofs))
    }
}

/// Sample header `k` of an instrument, held as `s`, decodes the bytes at
/// its offset.
pub open spec fn spec_xm_samp_header_ok(b: Seq<u8>, s: SampleHeaderTyp, k: int) -> bool {
    let ofs = spec_xm_samp_ofs(b, k);
    &&& s.len == spec_i32_le(b, ofs)
    &&& s.vol == b[ofs + 12]
    &&& s.typ == b[ofs + 14]
    &&& s.pan == b[ofs + 15]
}

/// One pattern cell: note, instrument, volume column, effect and
/// parameter.
#[derive(Clone, Copy, PartialEq, Eq, Structural)]
pub struct TonTyp {
    pub ton: u8,
    pub instr: u8,
    pub vol: u8,
    pub eff_typ: u8,
    pub eff: u8,
}

impl TonTyp {
    /// The empty cell.
    pub fn new() -> (r: TonTyp)
        ensures
            r.ton == 0 && r.instr == 0 && r.vol == 0 && r.eff_typ == 0 && r.eff == 0,
    {
        TonTyp { ton: 0, instr: 0, vol: 0, eff_typ: 0, eff: 0 }
    }
}

/// One pattern: its header and its unpacked cells.
pub struct PatternHeaderTyp {
    pub pattern_header_size: i32,
    pub typ: u8,
    pub patt_len: u16,
    pub data_len: u16,
    pub num_chn: usize,
    pub data: Vec<TonTyp>,
}

/// The cell at `ofs` and the offset past it. A cell with the high bit of
/// its first byte set carries only the fields its flag bits name; any
/// other cell is five plain bytes.
pub open spec fn spec_xm_ton(b: Seq<u8>, ofs: int) -> (TonTyp, int) {
    let t = b[ofs];
    if t & 0x80 != 0 {
        let o1 = ofs + 1;
        let ton: u8 = if t & 0x01 != 0 {
            b[o1]
        } else {
            0
        };
        let o2: int = if t & 0x01 != 0 {
            o1 + 1
        } else {
            o1
        };
        let instr: u8 = if t & 0x02 != 0 {
            b[o2]
        } else {
            0
        };
        let o3: int = if t & 0x02 != 0 {
            o2 + 1
        } else {
            o2
        };
        let vol: u8 = if t & 0x04 != 0 {
            b[o3]
        } else {
            0
        };
        let o4: int = if t & 0x04 != 0 {
            o3 + 1
        } else {
            o3
        };
        let eff_typ: u8 = if t & 0x08 != 0 {
            b[o4]
        } else {
            0
        };
        let o5: int = if t & 0x08 != 0 {
            o4 + 1
        } else {
            o4
        };
        let eff: u8 = if t & 0x10 != 0 {
            b[o5]
        } else {
            0
        };
        let o6: int = if t & 0x10 != 0 {
            o5 + 1
        } else {
            o5
        };
        (TonTyp { ton, instr, vol, eff_typ, eff }, o6)
    } else {
        (TonTyp { ton: b[ofs], instr: b[ofs + 1], vol: b[ofs + 2], eff_typ: b[ofs + 3], eff: b[ofs + 4] }, ofs + 5)
    }
}

/// Where cell `k` of a pattern starts.
pub open spec fn spec_xm_ton_ofs(b: Seq<u8>, k: int) -> int
    decreases k,
{
    if k <= 0 {
        9
    } else {
        spec_xm_ton(b, spec_xm_ton_ofs(b, k - 1)).1
    }
}

/// Read one cell.
fn read_ton(b: &[u8], ofs: usize) -> (r: Result<(TonTyp, usize), Error>)
    requires
        ofs <= b@.len(),
        b@.len() <= usize::MAX,
    ensures
        r matches Ok(p) ==> p.0 == spec_xm_ton(b@, ofs as int).0 && p.1 == spec_xm_ton(
            b@,
            ofs as int,
        ).1 && ofs < p.1 <= b@.len(),
        r matches Err(e) ==> e is Load,
    {
    let t = match read8(b, ofs) {
        Ok(v) => v,
        Err(e) => {
            return Err(e);
        },
    };
    if t & 0x80 != 0 {
        let mut e = TonTyp::new();
        let mut o = ofs + 1;
        if t & 0x01 != 0 {
            e.ton = match read8(b, o) {
                Ok(v) => v,
                Err(er) => {
                    return Err(er);
                },
            };
            o = o + 1;
        }
        if t & 0x02 != 0 {
            e.instr = match read8(b, o) {
                Ok(v) => v,
                Err(er) => {
                    return Err(er);
                },
            };
            o = o + 1;
        }
        if t & 0x04 != 0 {
            e.vol = match read8(b, o) {
                Ok(v) => v,
                Err(er) => {
                    return Err(er);
                },
            };
            o = o + 1;
        }
        if t & 0x08 != 0 {
            e.eff_typ = match read8(b, o) {
                Ok(v) => v,
                Err(er) => {
                    return Err(er);
                },
            };
            o = o + 1;
        }
        if t & 0x10 != 0 {
            e.eff = match read8(b, o) {
                Ok(v) => v,
                Err(er) => {
                    return Err(er);
                },
            };
            o = o + 1;
        }
        Ok((e, o))
    } else {
        let ton = match read8(b, ofs) {
            Ok(v) => v,
            Err(er) => {
                return Err(er);
            },
        };
        let instr = match read8(b, ofs + 1) {
            Ok(v) => v,
            Err(er) => {
                return Err(er);
            },
        };
        let vol = match read8(b, ofs + 2) {
            Ok(v) => v,
            Err(er) => {
                return Err(er);
            },
        };
        let eff_typ = match read8(b, ofs + 3) {
            Ok(v) => v,
            Err(er) => {
                return Err(er);
            },
        };
        let eff = match read8(b, ofs + 4) {
            Ok(v) => v,
            Err(er) => {
                return Err(er);
            },
        };
        Ok((TonTyp { ton, instr, vol, eff_typ, eff }, ofs + 5))
    }
}

impl PatternHeaderTyp {
    /// Decode one pattern: its header, then one cell per row and channel
    /// in row-major order, packed or plain.
    pub fn from_slice(_num: usize, b: &[u8], num_chn: usize) -> (r: Result<
        PatternHeaderTyp,
        Error,
    >)
        requires
            num_chn <= 64,
        ensures
            r matches Ok(p) ==> ({
                &&& p.patt_len == 256 * b@[6] + b@[5]
                &&& p.num_chn == num_chn
                &&& p.data@.len() == p.patt_len * num_chn
                &&& forall|k: int|
                    0 <= k < p.data@.len() ==> (#[trigger] p.data@[k]) == spec_xm_ton(
                        b@,
                        spec_xm_ton_ofs(b@, k),
                    ).0
            }),
            r matches Err(e) ==> e is Load,
    {
        let pattern_header_size = match read32l(b, 0) {
            Ok(v) => v as i32,
            Err(e) => {
                return Err(e);
            },
        };
        let typ = match read8(b, 4) {
            Ok(v) => v,
            Err(e) => {
                return Err(e);
            },
        };
        let patt_len = match read16l(b, 5) {
            Ok(v) => v,
            Err(e) => {
                return Err(e);
            },
        };
        let data_len = match read16l(b, 7) {
            Ok(v) => v,
            Err(e) => {
                return Err(e);
            },
        };
        proof {
            assert((patt_len as int) * (num_chn as int) <= 0xffff * 64) by (nonlinear_arith)
                requires
                    0 <= patt_len <= 0xffff,
                    0 <= num_chn <= 64,
            ;
        }
        let total: usize = patt_len as usize * num_chn;
        let _len_fits: usize = b.len();
        let mut data: Vec<TonTyp> = Vec::new();
        let mut ofs: usize = 9;
        let mut k: usize = 0;
        while k < total
            invariant
                b@.len() >= 9,
                b@.len() <= usize::MAX,
                k <= total,
                total == (256 * b@[6] + b@[5]) * num_chn,
                data@.len() == k,
                ofs == spec_xm_ton_ofs(b@, k as int),
                ofs <= b@.len(),
                forall|j: int|
                    0 <= j < k ==> (#[trigger] data@[j]) == spec_xm_ton(
                        b@,
                        spec_xm_ton_ofs(b@, j),
                    ).0,
            decreases total - k,
        {
            let (e, next) = match read_ton(b, ofs) {
                Ok(p) => p,
                Err(er) => {
                    return Err(er);
                },
            };
            data.push(e);
            ofs = next;
            k = k + 1;
        }
        Ok(PatternHeaderTyp { pattern_header_size, typ, patt_len, data_len, num_chn, data })
    }

    /// The unpacked cells, row-major.
    pub fn data(&self) -> (r: &Vec<TonTyp>)
        ensures
            r@ == self.data@,
    {
        &self.data
    }

    /// The cell at a row and channel.
    pub fn event(&self, row: i16, chn: usize) -> (r: &TonTyp)
        requires
            0 <= row,
            self.num_chn <= 64,
            row * self.num_chn + chn < self.data@.len(),
        ensures
            *r == self.data@[row * self.num_chn + chn],
    {
        let _len_fits: usize = self.data.len();
        proof {
            assert((row as int) * (self.num_chn as int) <= 0x7fff * 64) by (nonlinear_arith)
                requires
                    0 <= row <= 0x7fff,
                    0 <= self.num_chn <= 64,
            ;
        }
        let idx: usize = (row as usize) * self.num_chn + chn;
        &self.data[idx]
    }
}

/// A fully parsed song in this format.
pub struct XmData {
    pub header: SongHeaderTyp,
    pub instruments: Vec<InstrHeaderTyp>,
    pub patterns: Vec<PatternHeaderTyp>,
    pub samples: Vec<Sample>,
}

impl XmData {
    /// The song title.
    pub fn title(&self) -> (r: &str)
        ensures
            r@ == self.header.name@,
    {
        self.header.name.as_str()
    }

    /// How many patterns the song declares.
    pub fn patterns(&self) -> (r: usize)
        ensures
            r == self.header.ant_ptn,
    {
        self.header.ant_ptn as usize
    }

    /// How many positions the song plays.
    pub fn len(&self) -> (r: usize)
        ensures
            r == self.header.len,
    {
        self.header.len as usize
    }

    /// The pattern at a play position, when the position exists.
    pub fn pattern_in_position(&self, pos: usize) -> (r: Option<usize>)
        requires
            self.header.song_tab@.len() == self.header.len,
        ensures
            pos >= self.header.len <==> r is None,
            r matches Some(p) ==> p == self.header.song_tab@[pos as int],
    {
        if pos >= self.header.len as usize {
            None
        } else {
            Some(self.header.song_tab[pos] as usize)
        }
    }

    /// This format drives position changes through the sequencer alone.
    pub fn next_position(&self, _pos: usize) -> (r: usize)
        ensures
            r == 0,
    {
        0
    }

    /// This format drives position changes through the sequencer alone.
    pub fn prev_position(&self, _pos: usize) -> (r: usize)
        ensures
            r == 0,
    {
        0
    }

    /// The instrument names, in order.
    pub fn instruments(&self) -> (r: Vec<String>)
        ensures
            r@.len() == self.instruments@.len(),
    {
        let mut names: Vec<String> = Vec::new();
        let mut i: usize = 0;
        while i < self.instruments.len()
            invariant
                i <= self.instruments@.len(),
                names@.len() == i,
            decreases self.instruments@.len() - i,
        {
            names.push(self.instruments[i].name.clone());
            i = i + 1;
        }
        names
    }

    /// Rows in a pattern: its declared length, 0 past the end.
    pub fn rows(&self, pat: usize) -> (r: usize)
        requires
            self.patterns@.len() >= self.header.ant_ptn,
        ensures
            r == if pat < self.header.ant_ptn {
                self.patterns@[pat as int].patt_len as int
            } else {
                0int
            },
    {
        if pat >= self.header.ant_ptn as usize {
            0
        } else {
            self.patterns[pat].patt_len as usize
        }
    }

    /// Raw pattern export is not part of this reader.
    pub fn pattern_data(&self, _pat: usize, _num: usize, _buffer: &mut Vec<u8>) -> (r: usize)
        ensures
            r == 0,
    {
        0
    }

    /// A copy of the sample list.
    pub fn samples(&self) -> (r: Vec<Sample>)
        ensures
            r@.len() == self.samples@.len(),
            forall|i: int|
                0 <= i < self.samples@.len() ==> sample_equiv(#[trigger] r@[i], self.samples@[i]),
    {
        let mut out: Vec<Sample> = Vec::new();
        let mut i: usize = 0;
        while i < self.samples.len()
            invariant
                i <= self.samples@.len(),
                out@.len() == i,
                forall|j: int|
                    0 <= j < i ==> sample_equiv(#[trigger] out@[j], self.samples@[j]),
            decreases self.samples@.len() - i,
        {
            out.push(self.samples[i].clone());
            i = i + 1;
        }
        out
    }
}

} // verus!
