//! The loaded-song data model: instruments, samples and the module that
//! binds them to its orders and patterns.
use vstd::prelude::*;
use crate::format::protracker::ModOrders;
use crate::format::protracker::ModPatterns;
use crate::MAX_CHANNELS;

verus! {

/// One instrument: its display name and default volume.
pub struct Instrument {
    pub num: usize,
    pub name: String,
    pub volume: usize,
}

/// One sample: its size, native rate, loop bounds and PCM data.
pub struct Sample {
    pub num: usize,
    pub name: String,
    pub size: u32,
    pub rate_hz: u32,
    pub loop_start: u32,
    pub loop_end: u32,
    pub has_loop: bool,
    pub data: Vec<i8>,
}

/// A fully loaded song.
pub struct Module {
    pub title: String,
    pub chn: usize,
    pub instrument: Vec<Instrument>,
    pub sample: Vec<Sample>,
    pub orders: ModOrders,
    pub patterns: ModPatterns,
    pub player: String,
}

/// Same instrument up to string identity.
pub open spec fn instrument_equiv(a: Instrument, b: Instrument) -> bool {
    &&& a.num == b.num
    &&& a.name@ == b.name@
    &&& a.volume == b.volume
}

/// Same sample up to string identity.
pub open spec fn sample_equiv(a: Sample, b: Sample) -> bool {
    &&& a.num == b.num
    &&& a.name@ == b.name@
    &&& a.size == b.size
    &&& a.rate_hz == b.rate_hz
    &&& a.loop_start == b.loop_start
    &&& a.loop_end == b.loop_end
    &&& a.has_loop == b.has_loop
    &&& a.data@ == b.data@
}

/// Same module content up to string identity.
pub open spec fn module_equiv(a: Module, b: Module) -> bool {
    &&& a.title@ == b.title@
    &&& a.chn == b.chn
    &&& a.instrument@.len() == b.instrument@.len()
    &&& forall|i: int|
        0 <= i < a.instrument@.len() ==> instrument_equiv(
            #[trigger] a.instrument@[i],
            b.instrument@[i],
        )
    &&& a.sample@.len() == b.sample@.len()
    &&& forall|i: int|
        0 <= i < a.sample@.len() ==> sample_equiv(#[trigger] a.sample@[i], b.sample@[i])
    &&& a.orders.song == b.orders.song
    &&& a.orders.pos == b.orders.pos
    &&& a.orders.rstpos == b.orders.rstpos
    &&& a.orders.orders@ == b.orders.orders@
    &&& a.patterns.num == b.patterns.num
    &&& a.patterns.data@ == b.patterns.data@
    &&& a.player@ == b.player@
}

impl Instrument {
    /// A default volume in the register range.
    pub open spec fn wf(self) -> bool {
        self.volume <= 64
    }

    /// A blank instrument.
    pub fn new() -> (r: Instrument)
        ensures
            r.wf(),
            r.num == 0,
            r.volume == 0,
            r.name@.len() == 0,
    {
        Instrument { num: 0, name: String::new(), volume: 0 }
    }
}

impl Clone for Instrument {
    fn clone(&self) -> (res: Self)
        ensures
            instrument_equiv(res, *self),
    {
        Instrument { num: self.num, name: self.name.clone(), volume: self.volume }
    }
}

impl Sample {
    /// Loop bounds, when present, lie inside the data, and the data stays
    /// within the sizes the format can express.
    pub open spec fn wf(self) -> bool {
        &&& self.has_loop ==> self.loop_start < self.loop_end <= self.data@.len()
        &&& self.data@.len() <= 0x1000000
    }

    /// A blank sample.
    pub fn new() -> (r: Sample)
        ensures
            r.wf(),
            r.num == 0,
            r.size == 0,
            r.data@.len() == 0,
            !r.has_loop,
    {
        Sample {
            num: 0,
            name: String::new(),
            size: 0,
            rate_hz: 0,
            loop_start: 0,
            loop_end: 0,
            has_loop: false,
            data: Vec::new(),
        }
    }
}

impl Clone for Sample {
    fn clone(&self) -> (res: Self)
        ensures
            sample_equiv(res, *self),
    {
        Sample {
            num: self.num,
            name: self.name.clone(),
            size: self.size,
            rate_hz: self.rate_hz,
            loop_start: self.loop_start,
            loop_end: self.loop_end,
            has_loop: self.has_loop,
            data: clone_i8_vec(&self.data),
        }
    }
}

/// An element-for-element copy of sample data.
fn clone_i8_vec(v: &Vec<i8>) -> (r: Vec<i8>)
    ensures
        r@ == v@,
{
    let mut r: Vec<i8> = Vec::new();
    let mut i: usize = 0;
    while i < v.len()
        invariant
            i <= v@.len(),
            r@ == v@.subrange(0, i as int),
        decreases v@.len() - i,
    {
        r.push(v[i]);
        proof {
            assert(r@ =~= v@.subrange(0, i + 1));
        }
        i = i + 1;
    }
    proof {
        assert(r@ =~= v@);
    }
    r
}

impl Module {
    /// A playable module: a supported channel count, instruments with
    /// register-range volumes, samples with loops inside their data.
    pub open spec fn wf(self) -> bool {
        &&& 1 <= self.chn <= MAX_CHANNELS
        &&& forall|i: int| 0 <= i < self.instrument@.len() ==> (#[trigger] self.instrument@[i]).wf()
        &&& forall|i: int| 0 <= i < self.sample@.len() ==> (#[trigger] self.sample@[i]).wf()
        &&& self.patterns.wf()
        &&& self.orders.wf()
    }
}

impl Clone for Module {
    fn clone(&self) -> (res: Self)
        ensures
            module_equiv(res, *self),
    {
        Module {
            title: self.title.clone(),
            chn: self.chn,
            instrument: clone_instruments(&self.instrument),
            sample: clone_samples(&self.sample),
            orders: self.orders.clone(),
            patterns: self.patterns.clone(),
            player: self.player.clone(),
        }
    }
}

/// Copies of all instruments, content preserved.
fn clone_instruments(v: &Vec<Instrument>) -> (r: Vec<Instrument>)
    ensures
        r@.len() == v@.len(),
        forall|i: int| 0 <= i < v@.len() ==> instrument_equiv(#[trigger] r@[i], v@[i]),
{
    let mut r: Vec<Instrument> = Vec::new();
    let mut i: usize = 0;
    while i < v.len()
        invariant
            i <= v@.len(),
            r@.len() == i,
            forall|j: int| 0 <= j < i ==> instrument_equiv(#[trigger] r@[j], v@[j]),
        decreases v@.len() - i,
    {
        r.push(v[i].clone());
        i = i + 1;
    }
    r
}

/// Copies of all samples, content preserved.
fn clone_samples(v: &Vec<Sample>) -> (r: Vec<Sample>)
    ensures
        r@.len() == v@.len(),
        forall|i: int| 0 <= i < v@.len() ==> sample_equiv(#[trigger] r@[i], v@[i]),
{
    let mut r: Vec<Sample> = Vec::new();
    let mut i: usize = 0;
    while i < v.len()
        invariant
            i <= v@.len(),
            r@.len() == i,
            forall|j: int| 0 <= j < i ==> sample_equiv(#[trigger] r@[j], v@[j]),
        decreases v@.len() - i,
    {
        r.push(v[i].clone());
        i = i + 1;
    }
    r
}

/// Content-equal modules are well-formed together.
pub proof fn lemma_module_equiv_wf(a: Module, b: Module)
    requires
        module_equiv(a, b),
        b.wf(),
    ensures
        a.wf(),
{
}

} // verus!
