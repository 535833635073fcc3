//! The Protracker MOD loader: 31 instrument headers, an order list, 64-row
//! four-channel patterns of packed events, then raw sample data.
use vstd::prelude::*;
use vstd::slice::slice_index_get;
use vstd::slice::slice_subrange;
use crate::module::Instrument;
use crate::module::Module;
use crate::module::Sample;
use crate::util::period_to_note;
use crate::util::read_string;
use crate::util::read8;
use crate::util::read16b;
use crate::util::read32b;
use crate::util::slice_at;
use crate::util::spec_period_to_note;
use crate::Error;

verus! {

/// One pattern cell: note (1-based, 0 none), instrument (1-based, 0 none),
/// effect command and parameter.
#[derive(Clone, Copy, PartialEq, Eq, Structural)]
pub struct ModEvent {
    pub note: u8,
    pub ins: u8,
    pub fxt: u8,
    pub fxp: u8,
}

/// The silent cell used where no pattern data exists.
pub open spec fn spec_empty_event() -> ModEvent {
    ModEvent { note: 0, ins: 0, fxt: 0, fxp: 0 }
}

/// The cell encoded by four bytes at `ofs`.
pub open spec fn spec_mod_event(b: Seq<u8>, ofs: int) -> ModEvent {
    ModEvent {
        note: spec_period_to_note(
            ((((b[ofs] & 0x0f) as u32) << 8) | (b[ofs + 1] as u32)) as int,
        ) as u8,
        ins: (b[ofs] & 0xf0) | ((b[ofs + 2] & 0xf0) >> 4),
        fxt: b[ofs + 2] & 0x0f,
        fxp: b[ofs + 3],
    }
}

impl ModEvent {
    /// Decode one cell from the four bytes heading the input.
    pub fn from_slice(b: &[u8]) -> (r: ModEvent)
        requires
            b@.len() >= 4,
        ensures
            r == spec_mod_event(b@, 0),
    {
        let b0 = *slice_index_get(b, 0);
        let b1 = *slice_index_get(b, 1);
        let b2 = *slice_index_get(b, 2);
        let b3 = *slice_index_get(b, 3);
        let period: u32 = (((b0 & 0x0f) as u32) << 8) | (b1 as u32);
        let note = period_to_note(period);
        proof {
            crate::util::lemma_note_index_range(period as int, 0);
        }
        ModEvent { note: note as u8, ins: (b0 & 0xf0) | ((b2 & 0xf0) >> 4), fxt: b2 & 0x0f, fxp: b3 }
    }

    /// Whether the cell names an instrument.
    pub fn has_ins(&self) -> (r: bool)
        ensures
            r == (self.ins != 0),
    {
        self.ins != 0
    }

    /// Whether the cell carries a note.
    pub fn has_note(&self) -> (r: bool)
        ensures
            r == (self.note != 0),
    {
        self.note != 0
    }
}

/// All patterns of a module, flattened: pattern, then row, then channel.
pub struct ModPatterns {
    pub num: usize,
    pub data: Vec<ModEvent>,
}

impl ModPatterns {
    /// Every pattern holds 64 rows of 4 channels.
    pub open spec fn wf(self) -> bool {
        &&& self.data@.len() == self.num * 256
        &&& self.num <= 256
    }

    /// The cell at (pattern, row, channel); out-of-range indices read as
    /// silence, never as a fault.
    pub open spec fn spec_event(self, pat: int, row: int, chn: int) -> ModEvent {
        if 0 <= pat < self.num && 0 <= row < 64 && 0 <= chn < 4 {
            self.data@[pat * 256 + row * 4 + chn]
        } else {
            spec_empty_event()
        }
    }

    /// Decode `num` patterns from their packed bytes.
    pub fn from_slice(num: usize, b: &[u8]) -> (r: Result<ModPatterns, Error>)
        requires
            num <= 256,
        ensures
            r is Ok <==> b@.len() >= 1024 * num,
            r matches Ok(p) ==> p.wf() && p.num == num && forall|k: int|
                0 <= k < num * 256 ==> p.data@[k] == spec_mod_event(b@, 4 * k),
            r matches Err(e) ==> e is Load,
    {
        if b.len() < 1024 * num {
            return Err(Error::Load(String::from_str("short pattern data")));
        }
        let total: usize = num * 256;
        let mut data: Vec<ModEvent> = Vec::new();
        let mut k: usize = 0;
        while k < total
            invariant
                total == num * 256,
                num <= 256,
                b@.len() >= 1024 * num,
                k <= total,
                data@.len() == k,
                forall|j: int| 0 <= j < k ==> data@[j] == spec_mod_event(b@, 4 * j),
            decreases total - k,
        {
            let sl = slice_subrange(b, 4 * k, 4 * k + 4);
            let ev = ModEvent::from_slice(sl);
            proof {
                assert(sl@[0] == b@[4 * (k as int)]);
                assert(sl@[1] == b@[4 * (k as int) + 1]);
                assert(sl@[2] == b@[4 * (k as int) + 2]);
                assert(sl@[3] == b@[4 * (k as int) + 3]);
            }
            data.push(ev);
            k = k + 1;
        }
        Ok(ModPatterns { num, data })
    }

    /// How many patterns there are.
    pub fn num(&self) -> (r: usize)
        ensures
            r == self.num,
    {
        self.num
    }

    /// Rows in a pattern: 64 for a real pattern, 0 past the end.
    pub fn rows(&self, pat: usize) -> (r: usize)
        ensures
            r == if pat < self.num {
                64int
            } else {
                0int
            },
    {
        if pat >= self.num {
            0
        } else {
            64
        }
    }

    /// Read the cell at (pattern, row, channel), silence when out of range.
    pub fn event(&self, pat: usize, row: usize, chn: usize) -> (r: ModEvent)
        requires
            self.wf(),
        ensures
            r == self.spec_event(pat as int, row as int, chn as int),
    {
        if pat < self.num && row < 64 && chn < 4 {
            self.data[pat * 256 + row * 4 + chn]
        } else {
            ModEvent { note: 0, ins: 0, fxt: 0, fxp: 0 }
        }
    }
}

impl Clone for ModPatterns {
    fn clone(&self) -> (res: Self)
        ensures
            res.num == self.num,
            res.data@ == self.data@,
    {
        let mut data: Vec<ModEvent> = Vec::new();
        let mut i: usize = 0;
        while i < self.data.len()
            invariant
                i <= self.data@.len(),
                data@ == self.data@.subrange(0, i as int),
            decreases self.data@.len() - i,
        {
            data.push(self.data[i]);
            proof {
                assert(data@ =~= self.data@.subrange(0, i + 1));
            }
            i = i + 1;
        }
        proof {
            assert(data@ =~= self.data@);
        }
        ModPatterns { num: self.num, data }
    }
}

/// The play order: a list of pattern numbers, a position cursor and the
/// restart position.
pub struct ModOrders {
    pub song: usize,
    pub pos: usize,
    pub rstpos: usize,
    pub orders: Vec<u8>,
}

/// Largest pattern number among the first `n` order entries.
pub open spec fn spec_max_order(s: Seq<u8>, n: int) -> int
    decreases n,
{
    if n <= 0 {
        0
    } else if s[n - 1] as int > spec_max_order(s, n - 1) {
        s[n - 1] as int
    } else {
        spec_max_order(s, n - 1)
    }
}

impl ModOrders {
    /// The cursor and restart position address a real entry whenever the
    /// list is not empty.
    pub open spec fn wf(self) -> bool {
        if self.orders@.len() == 0 {
            self.pos == 0 && self.rstpos == 0
        } else {
            self.pos < self.orders@.len() && self.rstpos < self.orders@.len()
        }
    }

    /// The pattern number at position `p`, 0 past the end.
    pub open spec fn spec_pattern_at(self, p: int) -> int {
        if 0 <= p < self.orders@.len() {
            self.orders@[p] as int
        } else {
            0
        }
    }

    /// Build the order list; a restart byte past the end falls back to 0.
    pub fn from_slice(r: u8, o: &[u8]) -> (res: ModOrders)
        ensures
            res.wf(),
            res.orders@ == o@,
            res.song == 0,
            res.pos == 0,
            res.rstpos == if (r as int) < o@.len() {
                r as int
            } else {
                0int
            },
    {
        let mut rst = r as usize;
        if rst >= o.len() {
            rst = 0;
        }
        let mut orders: Vec<u8> = Vec::new();
        let mut i: usize = 0;
        while i < o.len()
            invariant
                i <= o@.len(),
                orders@ == o@.subrange(0, i as int),
            decreases o@.len() - i,
        {
            orders.push(*slice_index_get(o, i));
            proof {
                assert(orders@ =~= o@.subrange(0, i + 1));
            }
            i = i + 1;
        }
        proof {
            assert(orders@ =~= o@);
        }
        ModOrders { song: 0, pos: 0, rstpos: rst, orders }
    }

    /// One more than the largest pattern number named anywhere in the
    /// order list, so that every named pattern exists; 0 for an empty list.
    pub fn patterns(&self) -> (r: usize)
        ensures
            r == if self.orders@.len() == 0 {
                0int
            } else {
                spec_max_order(self.orders@, self.orders@.len() as int) + 1
            },
            r <= 256,
    {
        let mut num: usize = 0;
        let mut i: usize = 0;
        while i < self.orders.len()
            invariant
                i <= self.orders@.len(),
                num == spec_max_order(self.orders@, i as int),
                num <= 255,
            decreases self.orders@.len() - i,
        {
            let v = self.orders[i];
            if v as usize > num {
                num = v as usize;
            }
            i = i + 1;
        }
        if self.orders.len() == 0 {
            0
        } else {
            num + 1
        }
    }

    /// How many positions the song has.
    pub fn num(&self) -> (r: usize)
        ensures
            r == self.orders@.len(),
    {
        self.orders.len()
    }

    /// Rewind to the restart position.
    pub fn restart(&mut self) -> (r: usize)
        requires
            old(self).wf(),
        ensures
            final(self).wf(),
            *final(self) == (ModOrders { pos: old(self).rstpos, ..*old(self) }),
            r == old(self).rstpos,
    {
        let p = self.rstpos;
        self.pos = p;
        self.pos
    }

    /// The current position.
    pub fn current(&self) -> (r: usize)
        ensures
            r == self.pos,
    {
        self.pos
    }

    /// The pattern number at the current position.
    pub fn pattern(&self) -> (r: usize)
        requires
            self.wf(),
        ensures
            r == self.spec_pattern_at(self.pos as int),
    {
        if self.pos < self.orders.len() {
            self.orders[self.pos] as usize
        } else {
            0
        }
    }

    /// Move the cursor to `p`, clamped to the list.
    pub fn set(&mut self, p: usize) -> (r: usize)
        requires
            old(self).wf(),
        ensures
            final(self).wf(),
            final(self).orders@ == old(self).orders@,
            final(self).rstpos == old(self).rstpos,
            final(self).song == old(self).song,
            final(self).pos == if old(self).orders@.len() == 0 {
                0int
            } else if (p as int) < old(self).orders@.len() {
                p as int
            } else {
                old(self).orders@.len() - 1
            },
            r == final(self).pos,
    {
        if self.orders.len() == 0 {
            self.pos = 0;
        } else if p < self.orders.len() {
            self.pos = p;
        } else {
            self.pos = self.orders.len() - 1;
        }
        self.pos
    }

    /// Step forward one position, staying on the last one.
    pub fn next(&mut self) -> (r: usize)
        requires
            old(self).wf(),
        ensures
            final(self).wf(),
            final(self).orders@ == old(self).orders@,
            final(self).rstpos == old(self).rstpos,
            final(self).song == old(self).song,
            final(self).pos == if old(self).pos + 1 < old(self).orders@.len() {
                old(self).pos + 1
            } else {
                old(self).pos as int
            },
            r == final(self).pos,
    {
        let n = self.orders.len();
        if self.pos + 1 < n {
            self.pos = self.pos + 1;
        }
        self.pos
    }

    /// Step back one position, staying on the first one.
    pub fn prev(&mut self) -> (r: usize)
        requires
            old(self).wf(),
        ensures
            final(self).wf(),
            final(self).orders@ == old(self).orders@,
            final(self).rstpos == old(self).rstpos,
            final(self).song == old(self).song,
            final(self).pos == if old(self).pos > 0 {
                old(self).pos - 1
            } else {
                0int
            },
            r == final(self).pos,
    {
        if self.pos > 0 {
            self.pos = self.pos - 1;
        }
        self.pos
    }

    /// The single sub-song this format has.
    pub fn current_song(&self) -> (r: usize)
        ensures
            r == 0,
    {
        0
    }

    /// Sub-song selection is not part of this format.
    pub fn set_song(&mut self, _s: usize) -> (r: usize)
        ensures
            *final(self) == *old(self),
            r == 0,
    {
        0
    }
}

impl Clone for ModOrders {
    fn clone(&self) -> (res: Self)
        ensures
            res.song == self.song,
            res.pos == self.pos,
            res.rstpos == self.rstpos,
            res.orders@ == self.orders@,
    {
        let mut orders: Vec<u8> = Vec::new();
        let mut i: usize = 0;
        while i < self.orders.len()
            invariant
                i <= self.orders@.len(),
                orders@ == self.orders@.subrange(0, i as int),
            decreases self.orders@.len() - i,
        {
            orders.push(self.orders[i]);
            proof {
                assert(orders@ =~= self.orders@.subrange(0, i + 1));
            }
            i = i + 1;
        }
        proof {
            assert(orders@ =~= self.orders@);
        }
        ModOrders { song: self.song, pos: self.pos, rstpos: self.rstpos, orders }
    }
}


/// How many patterns the order list demands loaded: one more than the
/// largest named pattern, none for an empty list.
pub open spec fn spec_pat_count(b: Seq<u8>) -> int {
    if b[950] == 0 {
        0
    } else {
        spec_max_order(b.subrange(952, 952 + b[950]), b[950] as int) + 1
    }
}

/// Where the sample data of a loadable input begins.
pub open spec fn spec_data_start(b: Seq<u8>) -> int {
    1084 + 1024 * spec_pat_count(b)
}

/// The size in bytes of sample `i`, as its header declares it.
pub open spec fn spec_sample_size(b: Seq<u8>, i: int) -> int {
    2 * (256 * b[20 + i * 30 + 22] + b[20 + i * 30 + 23])
}

/// The bytes of samples before sample `i`.
pub open spec fn spec_sizes_sum(b: Seq<u8>, i: int) -> int
    decreases i,
{
    if i <= 0 {
        0
    } else {
        spec_sizes_sum(b, i - 1) + spec_sample_size(b, i - 1)
    }
}

/// Sample sizes accumulate monotonically.
pub proof fn lemma_sizes_sum_mono(b: Seq<u8>, i: int, j: int)
    requires
        0 <= i <= j,
    ensures
        spec_sizes_sum(b, i) <= spec_sizes_sum(b, j),
    decreases j - i,
{
    if i < j {
        lemma_sizes_sum_mono(b, i, j - 1);
    }
}

/// Sample `i`, held as `s`, holds exactly its declared bytes of `b`.
pub open spec fn spec_sample_data_ok(b: Seq<u8>, s: Sample, i: int) -> bool {
    &&& s.data@.len() == spec_sample_size(b, i)
    &&& forall|j: int|
        0 <= j < s.data@.len() ==> s.data@[j] == b[spec_data_start(b) + spec_sizes_sum(b, i)
            + j] as i8
}

/// What a successful load yields from input `b`: the title text, 31
/// instrument headers with register-range volumes, the order list, every
/// pattern the orders name, and (when the input carries them all) each
/// sample's data bytes.
pub open spec fn spec_loaded_module(b: Seq<u8>, m: Module) -> bool {
    &&& m.wf()
    &&& m.chn == 4
    &&& m.title@ == crate::util::spec_text(b, 0, 20)
    &&& m.instrument@.len() == 31
    &&& m.sample@.len() == 31
    &&& forall|i: int|
        0 <= i < 31 ==> (#[trigger] m.instrument@[i]).volume == (if b[20 + i * 30 + 25] <= 64 {
            b[20 + i * 30 + 25] as int
        } else {
            64int
        })
    &&& forall|i: int| 0 <= i < 31 ==> (#[trigger] m.sample@[i]).size == spec_sample_size(b, i)
    &&& m.orders.orders@ == b.subrange(952, 952 + b[950])
    &&& m.orders.pos == 0
    &&& m.orders.song == 0
    &&& m.orders.rstpos == (if (b[951] as int) < b[950] {
        b[951] as int
    } else {
        0int
    })
    &&& m.patterns.num == spec_pat_count(b)
    &&& forall|k: int|
        0 <= k < m.patterns.num * 256 ==> m.patterns.data@[k] == spec_mod_event(b, 1084 + 4 * k)
    &&& (b.len() >= spec_data_start(b) + spec_sizes_sum(b, 31) ==> forall|i: int|
        0 <= i < 31 ==> spec_sample_data_ok(b, #[trigger] m.sample@[i], i))
    &&& m.player@ == "nt11"@
}

/// Whether the input is long enough and carries the format magic.
pub open spec fn spec_probe_ok(b: Seq<u8>) -> bool {
    &&& b.len() >= 1084
    &&& 0x1000000 * b[1080] + 0x10000 * b[1081] + 256 * b[1082] + b[1083] == 0x4d2e4b2e
}

/// The loader for this format.
pub struct Mod {
    pub name: String,
}

impl Mod {
    /// A loader instance carrying its display name.
    pub fn new() -> (r: Mod)
        ensures
            r.name@ == "Protracker MOD"@,
    {
        Mod { name: String::from_str("Protracker MOD") }
    }

    /// The loader's display name.
    pub fn name(&self) -> (r: &str)
        ensures
            r@ == self.name@,
    {
        self.name.as_str()
    }

    /// Accept exactly the inputs that carry the format magic.
    pub fn probe(&self, b: &[u8]) -> (r: Result<(), Error>)
        ensures
            r is Ok <==> spec_probe_ok(b@),
            r matches Err(e) ==> e is Format,
    {
        if b.len() < 1084 {
            return Err(Error::Format(String::from_str("file too short")));
        }
        match read32b(b, 1080) {
            Ok(v) => {
                if v == 0x4d2e4b2e {
                    Ok(())
                } else {
                    Err(Error::Format(String::from_str("bad magic")))
                }
            },
            Err(_) => Err(Error::Format(String::from_str("file too short"))),
        }
    }

    /// Read the header of instrument `i`: its name, sample size in bytes,
    /// default volume (clamped into the register range) and loop bounds.
    /// The sample's data stays empty here; the loop flag is settled when
    /// the data arrives.
    #[verifier::rlimit(50)]
    pub fn load_instrument(&self, b: &[u8], m: Module, i: usize) -> (r: Result<Module, Error>)
        requires
            i < 31,
            b@.len() >= 952,
        ensures
            r matches Ok(m2) ==> ({
                let ofs = 20 + i * 30;
                &&& m2.chn == m.chn
                &&& m2.orders == m.orders
                &&& m2.patterns == m.patterns
                &&& m2.title@ == m.title@
                &&& m2.player@ == m.player@
                &&& m2.instrument@.len() == m.instrument@.len() + 1
                &&& m2.instrument@.subrange(0, m.instrument@.len() as int) == m.instrument@
                &&& m2.sample@.len() == m.sample@.len() + 1
                &&& m2.sample@.subrange(0, m.sample@.len() as int) == m.sample@
                &&& ({
                    let ins = m2.instrument@[m.instrument@.len() as int];
                    let smp = m2.sample@[m.sample@.len() as int];
                    &&& ins.num == i + 1
                    &&& ins.wf()
                    &&& ins.volume == if b@[ofs + 25] <= 64 {
                        b@[ofs + 25] as int
                    } else {
                        64int
                    }
                    &&& smp.num == i + 1
                    &&& smp.size == 2 * (256 * b@[ofs + 22] + b@[ofs + 23])
                    &&& smp.rate_hz == 8287
                    &&& smp.loop_start == 2 * (256 * b@[ofs + 26] + b@[ofs + 27])
                    &&& smp.loop_end == smp.loop_start + 2 * (256 * b@[ofs + 28] + b@[ofs + 29])
                    &&& smp.has_loop == (256 * b@[ofs + 28] + b@[ofs + 29] > 1 && smp.loop_end
                        >= 4)
                    &&& smp.data@.len() == 0
                })
            }),
            r is Ok,
    {
        let ofs = 20 + i * 30;
        let mut ins = Instrument::new();
        let mut smp = Sample::new();

        ins.num = i + 1;
        smp.num = i + 1;
        let name = match read_string(b, ofs, 22) {
            Ok(s) => s,
            Err(e) => {
                return Err(e);
            },
        };
        smp.name = name.clone();
        ins.name = name;

        let size_words = match read16b(b, ofs + 22) {
            Ok(v) => v,
            Err(e) => {
                return Err(e);
            },
        };
        smp.size = size_words as u32 * 2;
        smp.rate_hz = 8287;
        let vol = match read8(b, ofs + 25) {
            Ok(v) => v,
            Err(e) => {
                return Err(e);
            },
        };
        ins.volume = if vol <= 64 {
            vol as usize
        } else {
            64
        };
        let loop_start_words = match read16b(b, ofs + 26) {
            Ok(v) => v,
            Err(e) => {
                return Err(e);
            },
        };
        smp.loop_start = loop_start_words as u32 * 2;
        let loop_size = match read16b(b, ofs + 28) {
            Ok(v) => v,
            Err(e) => {
                return Err(e);
            },
        };
        smp.loop_end = smp.loop_start + loop_size as u32 * 2;
        smp.has_loop = loop_size > 1 && smp.loop_end >= 4;

        let mut m = m;
        m.instrument.push(ins);
        m.sample.push(smp);
        Ok(m)
    }

    /// Load a whole module: title, 31 instrument headers, the order list,
    /// every pattern the orders name, then each sample's data, truncated
    /// at the end of the input and with loop bounds clamped into the data.
    #[verifier::rlimit(80)]
    pub fn load(&self, b: &[u8]) -> (r: Result<Module, Error>)
        ensures
            r is Ok <==> (b@.len() >= 952 + b@[950] && b@.len() >= 1084 + 1024 * spec_pat_count(
                b@,
            )),
            r matches Ok(m) ==> spec_loaded_module(b@, m),
    {
        let title = match read_string(b, 0, 20) {
            Ok(t) => t,
            Err(e) => {
                return Err(e);
            },
        };
        proof {
            assert(title@ =~= crate::util::spec_text(b@, 0, 20));
        }
        let len_byte = match read8(b, 950) {
            Ok(v) => v,
            Err(e) => {
                return Err(e);
            },
        };
        let ord_slice = match slice_at(b, 952, len_byte as usize) {
            Ok(s) => s,
            Err(e) => {
                return Err(e);
            },
        };
        let rst = match read8(b, 951) {
            Ok(v) => v,
            Err(e) => {
                return Err(e);
            },
        };
        let mut m = Module {
            title,
            chn: 4,
            instrument: Vec::new(),
            sample: Vec::new(),
            orders: ModOrders { song: 0, pos: 0, rstpos: 0, orders: Vec::new() },
            patterns: ModPatterns { num: 0, data: Vec::new() },
            player: String::from_str("nt11"),
        };
        let mut i: usize = 0;
        while i < 31
            invariant
                b@.len() >= 952 + b@[950],
                m.chn == 4,
                m.title@ == crate::util::spec_text(b@, 0, 20),
                m.player@ == "nt11"@,
                m.orders.orders@.len() == 0,
                m.orders.pos == 0,
                m.orders.song == 0,
                m.orders.rstpos == 0,
                m.patterns.num == 0,
                m.patterns.data@.len() == 0,
                i <= 31,
                m.instrument@.len() == i,
                m.sample@.len() == i,
                forall|j: int|
                    0 <= j < i ==> (#[trigger] m.instrument@[j]).volume == (if b@[20 + j * 30
                        + 25] <= 64 {
                        b@[20 + j * 30 + 25] as int
                    } else {
                        64int
                    }),
                forall|j: int| 0 <= j < i ==> (#[trigger] m.instrument@[j]).wf(),
                forall|j: int|
                    0 <= j < i ==> (#[trigger] m.sample@[j]).size == spec_sample_size(b@, j),
                forall|j: int|
                    0 <= j < i ==> ({
                        let smp = #[trigger] m.sample@[j];
                        &&& smp.data@.len() == 0
                        &&& smp.loop_start == 2 * (256 * b@[20 + j * 30 + 26] + b@[20 + j * 30
                            + 27])
                        &&& smp.loop_end == smp.loop_start + 2 * (256 * b@[20 + j * 30 + 28]
                            + b@[20 + j * 30 + 29])
                        &&& smp.has_loop == (256 * b@[20 + j * 30 + 28] + b@[20 + j * 30 + 29] > 1
                            && smp.loop_end >= 4)
                    }),
            decreases 31 - i,
        {
            let ghost prev = m;
            m = match self.load_instrument(b, m, i) {
                Ok(m2) => m2,
                Err(e) => {
                    return Err(e);
                },
            };
            proof {
                assert forall|j: int| 0 <= j < i implies m.instrument@[j] == prev.instrument@[j] by {
                    assert(m.instrument@.subrange(0, prev.instrument@.len() as int)[j]
                        == m.instrument@[j]);
                }
                assert forall|j: int| 0 <= j < i implies m.sample@[j] == prev.sample@[j] by {
                    assert(m.sample@.subrange(0, prev.sample@.len() as int)[j] == m.sample@[j]);
                }
            }
            i = i + 1;
        }
        let ord = ModOrders::from_slice(rst, ord_slice);
        let pat = ord.patterns();
        let pat_bytes: usize = 1024 * pat;
        let pat_slice = match slice_at(b, 1084, pat_bytes) {
            Ok(s) => s,
            Err(e) => {
                return Err(e);
            },
        };
        let pats = match ModPatterns::from_slice(pat, pat_slice) {
            Ok(p) => p,
            Err(e) => {
                return Err(e);
            },
        };
        m.orders = ord;
        m.patterns = pats;

        let ghost fits = b@.len() >= spec_data_start(b@) + spec_sizes_sum(b@, 31);
        let mut ofs: usize = 1084 + pat_bytes;
        let mut i: usize = 0;
        while i < 31
            invariant
                b@.len() >= 952 + b@[950],
                b@.len() >= 1084 + 1024 * spec_pat_count(b@),
                m.chn == 4,
                m.title@ == crate::util::spec_text(b@, 0, 20),
                m.player@ == "nt11"@,
                m.instrument@.len() == 31,
                m.sample@.len() == 31,
                m.orders.wf(),
                m.orders.orders@ == b@.subrange(952, 952 + b@[950]),
                m.orders.pos == 0,
                m.orders.song == 0,
                m.orders.rstpos == (if (b@[951] as int) < b@[950] {
                    b@[951] as int
                } else {
                    0int
                }),
                m.patterns.wf(),
                m.patterns.num == spec_pat_count(b@),
                forall|k: int|
                    0 <= k < m.patterns.num * 256 ==> m.patterns.data@[k] == spec_mod_event(
                        b@,
                        1084 + 4 * k,
                    ),
                forall|j: int|
                    0 <= j < 31 ==> (#[trigger] m.instrument@[j]).volume == (if b@[20 + j * 30
                        + 25] <= 64 {
                        b@[20 + j * 30 + 25] as int
                    } else {
                        64int
                    }),
                forall|j: int| 0 <= j < 31 ==> (#[trigger] m.instrument@[j]).wf(),
                forall|j: int|
                    0 <= j < 31 ==> (#[trigger] m.sample@[j]).size == spec_sample_size(b@, j),
                i <= 31,
                forall|j: int| 0 <= j < i ==> (#[trigger] m.sample@[j]).wf(),
                forall|j: int| i <= j < 31 ==> (#[trigger] m.sample@[j]).data@.len() == 0,
                ofs <= b@.len(),
                fits == (b@.len() >= spec_data_start(b@) + spec_sizes_sum(b@, 31)),
                fits ==> ofs == spec_data_start(b@) + spec_sizes_sum(b@, i as int),
                fits ==> forall|j: int|
                    0 <= j < i ==> spec_sample_data_ok(b@, #[trigger] m.sample@[j], j),
            decreases 31 - i,
        {
            let sz = m.sample[i].size as usize;
            let avail = b.len() - ofs;
            let take = if sz <= avail {
                sz
            } else {
                avail
            };
            proof {
                if fits {
                    lemma_sizes_sum_mono(b@, i + 1, 31);
                    assert(take == sz);
                }
            }
            let mut data: Vec<i8> = Vec::new();
            let mut j: usize = 0;
            while j < take
                invariant
                    ofs + take <= b@.len(),
                    b@.len() <= usize::MAX,
                    j <= take,
                    data@.len() == j,
                    forall|jj: int| 0 <= jj < j ==> data@[jj] == b@[ofs + jj] as i8,
                decreases take - j,
            {
                data.push(*slice_index_get(b, ofs + j) as i8);
                j = j + 1;
            }
            let old_s = &m.sample[i];
            let dlen = data.len() as u32;
            let le = if old_s.loop_end <= dlen {
                old_s.loop_end
            } else {
                dlen
            };
            let has = old_s.has_loop && old_s.loop_start < le;
            let updated = Sample {
                num: old_s.num,
                name: old_s.name.clone(),
                size: old_s.size,
                rate_hz: old_s.rate_hz,
                loop_start: old_s.loop_start,
                loop_end: le,
                has_loop: has,
                data,
            };
            let ghost before = m.sample@;
            m.sample[i] = updated;
            proof {
                if fits {
                    assert(spec_sample_data_ok(b@, m.sample@[i as int], i as int));
                    assert forall|j: int|
                        0 <= j < i implies spec_sample_data_ok(
                        b@,
                        #[trigger] m.sample@[j],
                        j,
                    ) by {
                        assert(m.sample@[j] == before[j]);
                    }
                }
            }
            ofs = ofs + take;
            i = i + 1;
        }
        Ok(m)
    }
}

} // verus!
