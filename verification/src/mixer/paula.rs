//! Chip emulator with band-limited step synthesis.
//!
//! Abrupt output-level changes are modelled as step corrections ("bleps"):
//! each carries the signed step magnitude and an age in chip-clock cycles.
//! Rendering subtracts, for every active correction, a windowed-sinc
//! integral table value picked by the correction's age and scaled by its
//! magnitude, reconstructing the band-limited version of the step.
use vstd::prelude::*;
use vstd::arithmetic::div_mod::lemma_fundamental_div_mod;
use vstd::arithmetic::div_mod::lemma_fundamental_div_mod_converse;
use vstd::arithmetic::div_mod::lemma_div_multiples_vanish;
use vstd::arithmetic::div_mod::lemma_multiply_divide_lt;
use crate::mixer::winsinc::spec_table;
use crate::mixer::winsinc::winsinc_at;
use crate::MAX_RATE;
use crate::MIN_RATE;

verus! {

/// Native chip clock rate in Hz.
pub const PAULA_HZ: u32 = 3546895;
/// Minimum spacing between register commits, in chip-clock cycles.
pub const MINIMUM_INTERVAL: usize = 16;
/// Binary scale of the fixed-point rendering domain.
pub const BLEP_SCALE: u32 = 17;
/// Length of a correction curve in chip-clock cycles.
pub const BLEP_SIZE: usize = 2048;
/// Capacity of the active-correction list.
pub const MAX_BLEPS: usize = 128;

/// One active step correction: signed magnitude and age in chip cycles.
#[derive(Clone, Copy)]
pub struct Blep {
    pub level: i32,
    pub age: u32,
}

/// One rendered chip channel.
pub struct Paula {
    /// Last committed output level.
    pub global_output_level: i16,
    /// How many corrections are active.
    pub active_bleps: usize,
    /// The corrections, newest first; only the first `active_bleps` count.
    pub bleps: Vec<Blep>,
    /// Fractional chip cycles carried between output samples, as a
    /// numerator over `rate`.
    pub remainder: u32,
    /// Output rate in Hz.
    pub rate: u32,
    /// How many corrections were truncated on commit (saturating).
    pub overflows: u64,
}

/// Sum of the table-scaled magnitudes of the first `n` corrections.
pub open spec fn correction_sum(bleps: Seq<Blep>, n: int, tab: int) -> int
    decreases n,
{
    if n <= 0 {
        0
    } else {
        correction_sum(bleps, n - 1, tab) + spec_table(tab, bleps[n - 1].age as int) * bleps[n
            - 1].level
    }
}

/// Saturation to the signed 16-bit output range.
pub open spec fn clamp16(v: int) -> int {
    if v < -32768 {
        -32768
    } else if v > 32767 {
        32767
    } else {
        v
    }
}

/// What a rendering returns: the held level promoted to fixed point, less
/// every active correction, shifted back and saturated.
pub open spec fn spec_output(p: Paula, tab: int) -> int {
    clamp16(
        (p.global_output_level * 131072 - correction_sum(p.bleps@, p.active_bleps as int, tab))
            / 131072,
    )
}

impl Paula {
    /// Well-formed chip channel state: the correction list is at full
    /// allocated length, the active prefix is ordered from newest to
    /// oldest, every active age lies inside the table, and every
    /// magnitude is a difference of two 16-bit levels.
    pub open spec fn wf(self) -> bool {
        &&& self.bleps@.len() == MAX_BLEPS
        &&& self.active_bleps <= MAX_BLEPS
        &&& MIN_RATE <= self.rate <= MAX_RATE
        &&& self.remainder < self.rate
        &&& forall|i: int|
            0 <= i < self.active_bleps ==> (#[trigger] self.bleps@[i].age) < BLEP_SIZE
        &&& forall|i: int|
            0 <= i < self.active_bleps ==> -65535 <= (#[trigger] self.bleps@[i].level) <= 65535
        &&& forall|i: int, j: int|
            0 <= i <= j < self.active_bleps ==> self.bleps@[i].age <= self.bleps@[j].age
    }

    /// A fresh channel at rest: level zero, no corrections, clock aligned.
    pub fn new(freq: u32) -> (r: Paula)
        requires
            MIN_RATE <= freq <= MAX_RATE,
        ensures
            r.wf(),
            r.global_output_level == 0,
            r.active_bleps == 0,
            r.remainder == 0,
            r.rate == freq,
            r.overflows == 0,
    {
        let mut bleps: Vec<Blep> = Vec::new();
        let mut i: usize = 0;
        while i < MAX_BLEPS
            invariant
                i <= MAX_BLEPS,
                bleps@.len() == i,
            decreases MAX_BLEPS - i,
        {
            bleps.push(Blep { level: 0, age: 0 });
            i = i + 1;
        }
        Paula {
            global_output_level: 0,
            active_bleps: 0,
            bleps,
            remainder: 0,
            rate: freq,
            overflows: 0,
        }
    }

    /// Commit an output level. A change inserts a correction of magnitude
    /// `sample - held` at age 0 in front of the others; a full list first
    /// drops its oldest entry, counted as an overflow. An unchanged level
    /// commits nothing.
    pub fn input_sample(&mut self, sample: i16)
        requires
            old(self).wf(),
        ensures
            final(self).wf(),
            final(self).rate == old(self).rate,
            final(self).remainder == old(self).remainder,
            sample == old(self).global_output_level ==> *final(self) == *old(self),
            sample != old(self).global_output_level ==> ({
                &&& final(self).global_output_level == sample
                &&& final(self).active_bleps == if old(self).active_bleps < MAX_BLEPS {
                    old(self).active_bleps + 1
                } else {
                    MAX_BLEPS as int
                }
                &&& final(self).bleps@[0].age == 0
                &&& final(self).bleps@[0].level == sample - old(self).global_output_level
                &&& forall|i: int|
                    1 <= i < final(self).active_bleps ==> final(self).bleps@[i] == old(self).bleps@[i - 1]
                &&& final(self).overflows == if old(self).active_bleps == MAX_BLEPS && old(self).overflows < u64::MAX {
                    old(self).overflows + 1
                } else {
                    old(self).overflows as int
                }
            }),
    {
        if sample != self.global_output_level {
            let mut act = self.active_bleps;
            if act > MAX_BLEPS - 1 {
                act = MAX_BLEPS - 1;
                if self.overflows < u64::MAX {
                    self.overflows = self.overflows + 1;
                }
            }
            let ghost prior = self.bleps@;
            let ghost ovf = self.overflows;
            let mut k = act;
            while k >= 1
                invariant
                    old(self).wf(),
                    self.global_output_level == old(self).global_output_level,
                    self.active_bleps == old(self).active_bleps,
                    self.rate == old(self).rate,
                    self.remainder == old(self).remainder,
                    self.overflows == ovf,
                    ovf == if old(self).active_bleps == MAX_BLEPS && old(self).overflows
                        < u64::MAX {
                        old(self).overflows + 1
                    } else {
                        old(self).overflows as int
                    },
                    k <= act,
                    act <= MAX_BLEPS - 1,
                    act <= old(self).active_bleps,
                    self.bleps@.len() == MAX_BLEPS,
                    forall|j: int| k < j <= act ==> self.bleps@[j] == prior[j - 1],
                    forall|j: int| 0 <= j <= k ==> self.bleps@[j] == prior[j],
                    prior == old(self).bleps@,
                decreases k,
            {
                let v = self.bleps[k - 1];
                self.bleps[k] = v;
                k = k - 1;
            }
            self.bleps[0] =
            Blep { level: sample as i32 - self.global_output_level as i32, age: 0 };
            self.active_bleps = act + 1;
            self.global_output_level = sample;
            proof {
                assert forall|i: int, j: int|
                    0 <= i <= j < self.active_bleps implies self.bleps@[i].age
                    <= self.bleps@[j].age by {
                    if 1 <= i {
                        assert(self.bleps@[i] == prior[i - 1]);
                        assert(self.bleps@[j] == prior[j - 1]);
                        assert(old(self).bleps@[i - 1].age <= old(self).bleps@[j - 1].age);
                    } else if 1 <= j {
                        assert(self.bleps@[j] == prior[j - 1]);
                        assert(old(self).bleps@[j - 1].age < BLEP_SIZE);
                    }
                }
                assert forall|i: int|
                    0 <= i < self.active_bleps implies (#[trigger] self.bleps@[i]).age
                    < BLEP_SIZE && -65535 <= self.bleps@[i].level <= 65535 by {
                    if 1 <= i {
                        assert(self.bleps@[i] == prior[i - 1]);
                        assert(old(self).bleps@[i - 1].age < BLEP_SIZE);
                        assert(-65535 <= old(self).bleps@[i - 1].level <= 65535);
                    }
                }
            }
        }
    }

    /// Age every active correction by `cycles` chip-clock cycles and retire
    /// the ones whose curve has fully decayed. The list is ordered oldest
    /// last, so retirement truncates at the first entry that ages out.
    pub fn do_clock(&mut self, cycles: i32)
        requires
            old(self).wf(),
            cycles <= 0x40000000,
        ensures
            final(self).wf(),
            final(self).global_output_level == old(self).global_output_level,
            final(self).rate == old(self).rate,
            final(self).remainder == old(self).remainder,
            final(self).overflows == old(self).overflows,
            cycles <= 0 ==> *final(self) == *old(self),
            cycles > 0 ==> ({
                &&& final(self).active_bleps <= old(self).active_bleps
                &&& forall|i: int|
                    0 <= i < final(self).active_bleps ==> (#[trigger] final(self).bleps@[i]).level
                        == old(self).bleps@[i].level && final(self).bleps@[i].age == old(self).bleps@[i].age + cycles
                &&& forall|i: int|
                    0 <= i < final(self).active_bleps ==> (#[trigger] old(self).bleps@[i].age)
                        + cycles < BLEP_SIZE
                &&& (final(self).active_bleps < old(self).active_bleps ==> old(self).bleps@[final(self).active_bleps as int].age + cycles >= BLEP_SIZE)
                &&& (cycles >= BLEP_SIZE ==> final(self).active_bleps == 0)
            }),
    {
        if cycles <= 0 {
            return ;
        }
        let c = cycles as u32;
        let mut i: usize = 0;
        while i < self.active_bleps
            invariant
                old(self).wf(),
                cycles > 0,
                cycles <= 0x40000000,
                c == cycles,
                i <= self.active_bleps,
                self.active_bleps <= old(self).active_bleps,
                self.bleps@.len() == MAX_BLEPS,
                self.global_output_level == old(self).global_output_level,
                self.rate == old(self).rate,
                self.remainder == old(self).remainder,
                self.overflows == old(self).overflows,
                forall|j: int|
                    0 <= j < i ==> (#[trigger] self.bleps@[j]).level == old(self).bleps@[j].level
                        && self.bleps@[j].age == old(self).bleps@[j].age + cycles,
                forall|j: int|
                    0 <= j < i ==> (#[trigger] old(self).bleps@[j].age) + cycles < BLEP_SIZE,
                forall|j: int| i <= j < MAX_BLEPS ==> self.bleps@[j] == old(self).bleps@[j],
                self.active_bleps < old(self).active_bleps ==> old(self).bleps@[self.active_bleps
                    as int].age + cycles >= BLEP_SIZE,
            decreases self.active_bleps - i,
        {
            let age = self.bleps[i].age;
            let new_age = age + c;
            if new_age >= 2048 {
                self.active_bleps = i;
            } else {
                let lv = self.bleps[i].level;
                self.bleps[i] = Blep { level: lv, age: new_age };
                i = i + 1;
            }
        }
        proof {
            if cycles >= BLEP_SIZE && self.active_bleps > 0 {
                assert(old(self).bleps@[0].age + cycles < BLEP_SIZE);
                assert(false);
            }
            assert forall|a: int, b: int|
                0 <= a <= b < self.active_bleps implies self.bleps@[a].age
                <= self.bleps@[b].age by {
                assert(old(self).bleps@[a].age <= old(self).bleps@[b].age);
            }
        }
    }

    /// Advance the fractional chip clock across one output sample; hands
    /// back the whole chip cycles consumed, carrying the exact fractional
    /// part so that the long-run cycle rate matches the rate ratio with no
    /// drift.
    pub fn next_cycles(&mut self) -> (c: u32)
        requires
            old(self).wf(),
        ensures
            final(self).wf(),
            final(self).global_output_level == old(self).global_output_level,
            final(self).active_bleps == old(self).active_bleps,
            final(self).bleps@ == old(self).bleps@,
            final(self).rate == old(self).rate,
            final(self).overflows == old(self).overflows,
            c == (old(self).remainder + PAULA_HZ) / (old(self).rate as int),
            final(self).remainder == (old(self).remainder + PAULA_HZ) % (old(self).rate as int),
            c < 888,
    {
        let sum = self.remainder + PAULA_HZ;
        let c = sum / self.rate;
        self.remainder = sum % self.rate;
        proof {
            lemma_multiply_divide_lt(sum as int, self.rate as int, 888);
        }
        c
    }

    /// Render one output sample from the current state: the held level in
    /// fixed point, less every active correction's table value scaled by
    /// its magnitude, shifted back and saturated to 16 bits.
    pub fn output_sample(&self, tabnum: usize) -> (r: i16)
        requires
            self.wf(),
            tabnum < 2,
        ensures
            r == spec_output(*self, tabnum as int),
    {
        let mut output: i64 = (self.global_output_level as i64) * 131072;
        let act = self.active_bleps;
        let mut i: usize = 0;
        while i < act
            invariant
                self.wf(),
                tabnum < 2,
                act == self.active_bleps,
                i <= act,
                output == self.global_output_level * 131072 - correction_sum(
                    self.bleps@,
                    i as int,
                    tabnum as int,
                ),
                -0x100000000i64 - i * 0x800000000000i64 <= output <= 0x100000000i64 + i
                    * 0x800000000000i64,
            decreases act - i,
        {
            let age = self.bleps[i].age;
            let t = winsinc_at(tabnum, age as usize);
            let lv = self.bleps[i].level;
            proof {
                assert((t as int) * (lv as int) <= 0x800000000000int && (t as int) * (lv as int)
                    >= -0x800000000000int) by (nonlinear_arith)
                    requires
                        -0x80000000 <= t <= 0x7fffffff,
                        -65535 <= lv <= 65535,
                ;
            }
            output = output - (t as i64) * (lv as i64);
            i = i + 1;
        }
        let biased: i64 = output + 144115188075855872i64;
        let bu: u64 = biased as u64;
        let qb: u64 = bu / 131072;
        let rb: u64 = bu % 131072;
        proof {
            lemma_fundamental_div_mod(bu as int, 131072);
            lemma_fundamental_div_mod_converse(
                output as int,
                131072,
                qb as int - 1099511627776,
                rb as int,
            );
        }
        let q: i64 = (qb as i64) - 1099511627776i64;
        if q < -32768 {
            -32768
        } else if q > 32767 {
            32767
        } else {
            q as i16
        }
    }
}

/// With no correction left alive, the rendered output is exactly the held
/// level: committing a constant level (a no-op) while the clock advances
/// past the correction window converges the output to that level.
pub proof fn lemma_converged_output(p: Paula, tab: int)
    requires
        p.wf(),
        p.active_bleps == 0,
    ensures
        spec_output(p, tab) == p.global_output_level,
{
    lemma_div_multiples_vanish(p.global_output_level as int, 131072);
}

/// Rendering is a pure function of the chip state: two renderings of one
/// state with no commit or clock advance between them agree.
pub proof fn lemma_render_pure(p: Paula, tab: int, r1: i16, r2: i16)
    requires
        r1 == spec_output(p, tab),
        r2 == spec_output(p, tab),
    ensures
        r1 == r2,
{
}

/// The active-correction list never exceeds its fixed capacity in any
/// well-formed state; a commit on a full list truncates rather than grows.
pub proof fn lemma_capacity_bound(p: Paula)
    requires
        p.wf(),
    ensures
        p.active_bleps <= MAX_BLEPS,
{
}




} // verus!
