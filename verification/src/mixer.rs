//! Audio synthesis: the chip emulator and the mixer that drives one chip
//! channel per module channel.
use vstd::prelude::*;
use vstd::arithmetic::div_mod::lemma_fundamental_div_mod;
use vstd::arithmetic::div_mod::lemma_mod_multiples_vanish;
use crate::mixer::paula::Paula;
use crate::mixer::paula::clamp16;
use crate::mixer::paula::spec_output;
use crate::mixer::paula::PAULA_HZ;
use crate::module::Sample;
use crate::MAX_RATE;
use crate::MIN_RATE;

pub mod paula;
pub mod winsinc;

verus! {

/// One playing voice: the chip channel and the sample-playback cursor that
/// feeds it level changes.
pub struct Voice {
    /// The chip channel this voice commits levels to.
    pub paula: Paula,
    /// Index of the sample being played.
    pub smp: usize,
    /// Whether a patch was ever set.
    pub has_patch: bool,
    /// Byte position inside the sample data.
    pub pos: usize,
    /// Chip cycles into the current fetch interval.
    pub frac: u32,
    /// Amiga period: half the fetch interval in chip cycles.
    pub period: u16,
    /// Volume, 0..=64.
    pub volume: u8,
    /// Whether the sample cursor still advances.
    pub active: bool,
}

/// The mixer: one voice per module channel and the response selector.
pub struct Mixer {
    pub rate: u32,
    pub voices: Vec<Voice>,
    /// Whether the filtered hardware response is selected.
    pub filter: bool,
}

impl Voice {
    /// A well-formed voice holds a well-formed chip channel and register
    /// values in range.
    pub open spec fn wf(self) -> bool {
        &&& self.paula.wf()
        &&& self.volume <= 64
        &&& self.active ==> self.frac < 0x20000
        &&& self.pos <= 0x1000000
    }

    /// A silent voice at rest.
    pub fn new(rate: u32) -> (r: Voice)
        requires
            MIN_RATE <= rate <= MAX_RATE,
        ensures
            r.wf(),
            !r.active,
            !r.has_patch,
            r.volume == 0,
            r.period == 0,
            r.smp == 0,
            r.pos == 0,
            r.paula.rate == rate,
            r.paula.global_output_level == 0,
            r.paula.active_bleps == 0,
    {
        Voice {
            paula: Paula::new(rate),
            smp: 0,
            has_patch: false,
            pos: 0,
            frac: 0,
            period: 0,
            volume: 0,
            active: false,
        }
    }
}

/// Reducing one addend modulo the divisor first does not change a sum's
/// remainder.
pub proof fn lemma_mod_shift(a: int, b: int, r: int)
    requires
        r > 0,
    ensures
        (a % r + b) % r == (a + b) % r,
{
    lemma_fundamental_div_mod(a, r);
    lemma_mod_multiples_vanish(a / r, a % r + b, r);
}

/// The saturated sum of the first `n` voices' rendered samples.
pub open spec fn spec_voice_mix(voices: Seq<Voice>, n: int, tab: int) -> int
    decreases n,
{
    if n <= 0 {
        0
    } else {
        spec_voice_mix(voices, n - 1, tab) + spec_output(voices[n - 1].paula, tab)
    }
}

/// The first `n` voices decide the first `n` terms of the mix.
pub proof fn lemma_voice_mix_prefix(a: Seq<Voice>, b: Seq<Voice>, n: int, tab: int)
    requires
        0 <= n <= a.len(),
        b.len() == a.len(),
        forall|i: int| 0 <= i < n ==> a[i] == b[i],
    ensures
        spec_voice_mix(a, n, tab) == spec_voice_mix(b, n, tab),
    decreases n,
{
    if n > 0 {
        lemma_voice_mix_prefix(a, b, n - 1, tab);
    }
}

/// Loop variant rank: an active voice outranks a stopped one.
pub open spec fn spec_active_rank(v: Voice) -> int {
    if v.active {
        1
    } else {
        0
    }
}

/// Render one output sample of one voice: consume the fractional clock,
/// step the sample cursor once per elapsed fetch interval committing each
/// fetched byte scaled by the volume, age the corrections, and render.
/// A voice pointing outside its data stops instead of faulting, and a
/// stopped voice holds its last level.
fn render_voice(voice: &mut Voice, samples: &Vec<Sample>, tabnum: usize) -> (r: i16)
    requires
        old(voice).wf(),
        tabnum < 2,
        forall|i: int| 0 <= i < samples@.len() ==> (#[trigger] samples@[i]).wf(),
    ensures
        final(voice).wf(),
        final(voice).paula.rate == old(voice).paula.rate,
        final(voice).volume == old(voice).volume,
        final(voice).period == old(voice).period,
        final(voice).smp == old(voice).smp,
        final(voice).has_patch == old(voice).has_patch,
        final(voice).paula.remainder == (old(voice).paula.remainder + PAULA_HZ) % (old(voice).paula.rate as int),
        r == spec_output(final(voice).paula, tabnum as int),
        (!old(voice).active || old(voice).period == 0) ==> ({
            &&& final(voice).active == old(voice).active
            &&& final(voice).pos == old(voice).pos
            &&& final(voice).paula.global_output_level == old(voice).paula.global_output_level
            &&& final(voice).paula.overflows == old(voice).paula.overflows
        }),
{
    let cycles = voice.paula.next_cycles();
    if voice.active && voice.period > 0 {
        let interval: u32 = 2 * voice.period as u32;
        if voice.smp >= samples.len() {
            voice.active = false;
        } else {
            voice.frac = voice.frac + cycles;
            while voice.active && voice.frac >= interval
                invariant
                    voice.paula.wf(),
                    voice.volume <= 64,
                    voice.pos <= 0x1000000,
                    interval == 2 * voice.period,
                    voice.period > 0,
                    voice.smp < samples@.len(),
                    forall|i: int| 0 <= i < samples@.len() ==> (#[trigger] samples@[i]).wf(),
                    voice.paula.rate == old(voice).paula.rate,
                    voice.paula.remainder == (old(voice).paula.remainder + PAULA_HZ) % (old(voice).paula.rate as int),
                    voice.volume == old(voice).volume,
                    voice.period == old(voice).period,
                    voice.smp == old(voice).smp,
                    voice.has_patch == old(voice).has_patch,
                decreases spec_active_rank(*voice), voice.frac,
            {
                voice.frac = voice.frac - interval;
                let s = &samples[voice.smp];
                let next = voice.pos + 1;
                if s.has_loop {
                    if next >= s.loop_end as usize || next >= s.data.len() {
                        voice.pos = s.loop_start as usize;
                    } else {
                        voice.pos = next;
                    }
                } else {
                    if next >= s.data.len() {
                        voice.active = false;
                    } else {
                        voice.pos = next;
                    }
                }
                if voice.active {
                    if voice.pos < s.data.len() {
                        let byte = s.data[voice.pos];
                        proof {
                            assert(-8192 <= (byte as int) * (voice.volume as int) <= 8192)
                                by (nonlinear_arith)
                                requires
                                    -128 <= byte <= 127,
                                    0 <= voice.volume <= 64,
                            ;
                        }
                        let level: i16 = (byte as i16) * (voice.volume as i16);
                        voice.paula.input_sample(level);
                    } else {
                        voice.active = false;
                    }
                }
            }
        }
    }
    voice.paula.do_clock(cycles as i32);
    voice.paula.output_sample(tabnum)
}

impl Mixer {
    /// All voices well-formed at the mixer's rate.
    pub open spec fn wf(self) -> bool {
        &&& MIN_RATE <= self.rate <= MAX_RATE
        &&& self.voices@.len() <= crate::MAX_CHANNELS
        &&& forall|i: int|
            0 <= i < self.voices@.len() ==> (#[trigger] self.voices@[i]).wf()
                && self.voices@[i].paula.rate == self.rate
    }

    /// A mixer with `chn` silent voices.
    pub fn new(rate: u32, chn: usize) -> (r: Mixer)
        requires
            MIN_RATE <= rate <= MAX_RATE,
            chn <= crate::MAX_CHANNELS,
        ensures
            r.wf(),
            r.rate == rate,
            r.voices@.len() == chn,
            !r.filter,
            forall|j: int|
                0 <= j < chn ==> ({
                    let v = #[trigger] r.voices@[j];
                    v.volume == 0 && v.period == 0 && !v.has_patch && !v.active && v.smp == 0
                }),
    {
        let mut voices: Vec<Voice> = Vec::new();
        let mut i: usize = 0;
        while i < chn
            invariant
                MIN_RATE <= rate <= MAX_RATE,
                i <= chn,
                voices@.len() == i,
                forall|j: int|
                    0 <= j < i ==> (#[trigger] voices@[j]).wf() && voices@[j].paula.rate == rate,
                forall|j: int|
                    0 <= j < i ==> ({
                        let v = #[trigger] voices@[j];
                        v.volume == 0 && v.period == 0 && !v.has_patch && !v.active && v.smp == 0
                    }),
            decreases chn - i,
        {
            voices.push(Voice::new(rate));
            i = i + 1;
        }
        Mixer { rate, voices, filter: false }
    }

    /// Latch a patch: the voice restarts on the named sample.
    pub fn set_patch(&mut self, chn: usize, smp: usize)
        requires
            old(self).wf(),
        ensures
            final(self).wf(),
            final(self).rate == old(self).rate,
            final(self).voices@.len() == old(self).voices@.len(),
            final(self).filter == old(self).filter,
            chn < old(self).voices@.len() ==> final(self).voices@[chn as int] == (Voice {
                smp,
                has_patch: true,
                ..old(self).voices@[chn as int]
            }),
            forall|c: int|
                0 <= c < old(self).voices@.len() && c != chn ==> final(self).voices@[c] == old(self).voices@[c],
            chn >= old(self).voices@.len() ==> *final(self) == *old(self),
    {
        if chn < self.voices.len() {
            let v = &mut self.voices[chn];
            v.smp = smp;
            v.has_patch = true;
        }
    }

    /// Restart the voice's sample cursor.
    pub fn retrig(&mut self, chn: usize)
        requires
            old(self).wf(),
        ensures
            final(self).wf(),
            final(self).rate == old(self).rate,
            final(self).voices@.len() == old(self).voices@.len(),
            final(self).filter == old(self).filter,
            chn < old(self).voices@.len() ==> final(self).voices@[chn as int] == (Voice {
                pos: 0,
                frac: 0,
                active: old(self).voices@[chn as int].has_patch,
                ..old(self).voices@[chn as int]
            }),
            forall|c: int|
                0 <= c < old(self).voices@.len() && c != chn ==> final(self).voices@[c] == old(self).voices@[c],
            chn >= old(self).voices@.len() ==> *final(self) == *old(self),
    {
        if chn < self.voices.len() {
            let v = &mut self.voices[chn];
            v.pos = 0;
            v.frac = 0;
            v.active = v.has_patch;
        }
    }

    /// Latch a volume, clamped into the register range.
    pub fn set_volume(&mut self, chn: usize, vol: usize)
        requires
            old(self).wf(),
        ensures
            final(self).wf(),
            final(self).rate == old(self).rate,
            final(self).voices@.len() == old(self).voices@.len(),
            final(self).filter == old(self).filter,
            chn < old(self).voices@.len() ==> final(self).voices@[chn as int] == (Voice {
                volume: if vol <= 64 {
                    vol as u8
                } else {
                    64
                },
                ..old(self).voices@[chn as int]
            }),
            forall|c: int|
                0 <= c < old(self).voices@.len() && c != chn ==> final(self).voices@[c] == old(self).voices@[c],
            chn >= old(self).voices@.len() ==> *final(self) == *old(self),
    {
        if chn < self.voices.len() {
            let v = &mut self.voices[chn];
            v.volume = if vol <= 64 {
                vol as u8
            } else {
                64
            };
        }
    }

    /// Latch a period.
    pub fn set_period(&mut self, chn: usize, period: u16)
        requires
            old(self).wf(),
        ensures
            final(self).wf(),
            final(self).rate == old(self).rate,
            final(self).voices@.len() == old(self).voices@.len(),
            final(self).filter == old(self).filter,
            chn < old(self).voices@.len() ==> final(self).voices@[chn as int] == (Voice {
                period,
                ..old(self).voices@[chn as int]
            }),
            forall|c: int|
                0 <= c < old(self).voices@.len() && c != chn ==> final(self).voices@[c] == old(self).voices@[c],
            chn >= old(self).voices@.len() ==> *final(self) == *old(self),
    {
        if chn < self.voices.len() {
            let v = &mut self.voices[chn];
            v.period = period;
        }
    }

    /// Move the sample cursor to a byte offset.
    pub fn set_offset(&mut self, chn: usize, offset: usize)
        requires
            old(self).wf(),
        ensures
            final(self).wf(),
            final(self).rate == old(self).rate,
            final(self).voices@.len() == old(self).voices@.len(),
            final(self).filter == old(self).filter,
            chn < old(self).voices@.len() ==> final(self).voices@[chn as int] == (Voice {
                pos: if offset <= 0x1000000 {
                    offset
                } else {
                    0x1000000
                },
                ..old(self).voices@[chn as int]
            }),
            forall|c: int|
                0 <= c < old(self).voices@.len() && c != chn ==> final(self).voices@[c] == old(self).voices@[c],
            chn >= old(self).voices@.len() ==> *final(self) == *old(self),
    {
        if chn < self.voices.len() {
            let v = &mut self.voices[chn];
            v.pos = if offset <= 0x1000000 {
                offset
            } else {
                0x1000000
            };
        }
    }

    /// Select the hardware response curve.
    pub fn set_filter(&mut self, on: bool)
        requires
            old(self).wf(),
        ensures
            final(self).wf(),
            final(self).rate == old(self).rate,
            final(self).voices@ == old(self).voices@,
            final(self).filter == on,
    {
        self.filter = on;
    }

    /// Render `n` output samples: every voice renders one sample per step
    /// and the voices are summed and saturated into one channel.
    pub fn mix(&mut self, samples: &Vec<Sample>, n: usize, out: &mut Vec<i16>)
        requires
            old(self).wf(),
            n <= crate::MAX_FRAMESIZE,
            forall|i: int| 0 <= i < samples@.len() ==> (#[trigger] samples@[i]).wf(),
        ensures
            final(self).wf(),
            final(self).rate == old(self).rate,
            final(self).voices@.len() == old(self).voices@.len(),
            final(self).filter == old(self).filter,
            forall|c: int|
                0 <= c < old(self).voices@.len() ==> ({
                    let v = #[trigger] final(self).voices@[c];
                    let o = old(self).voices@[c];
                    v.volume == o.volume && v.period == o.period && v.smp == o.smp && v.has_patch
                        == o.has_patch
                }),
            final(out)@.len() == old(out)@.len() + n,
            final(out)@.subrange(0, old(out)@.len() as int) == old(out)@,
            forall|c: int|
                0 <= c < old(self).voices@.len() ==> (#[trigger] final(self).voices@[c]).paula.rate
                    == old(self).voices@[c].paula.rate && final(self).voices@[c].paula.remainder
                    == (old(self).voices@[c].paula.remainder + n * PAULA_HZ) % (old(
                    self,
                ).voices@[c].paula.rate as int),
            n > 0 ==> final(out)@.last() == clamp16(
                spec_voice_mix(
                    final(self).voices@,
                    old(self).voices@.len() as int,
                    if old(self).filter {
                        1int
                    } else {
                        0int
                    },
                ),
            ),
    {
        let tabnum: usize = if self.filter {
            1
        } else {
            0
        };
        proof {
            assert forall|ci: int| 0 <= ci < self.voices@.len() implies ((
            #[trigger] self.voices@[ci]).paula.remainder as int) % (self.voices@[ci].paula.rate
                as int) == self.voices@[ci].paula.remainder by {
                vstd::arithmetic::div_mod::lemma_small_mod(
                    self.voices@[ci].paula.remainder as nat,
                    self.voices@[ci].paula.rate as nat,
                );
            }
        }
        let mut k: usize = 0;
        while k < n
            invariant
                self.wf(),
                tabnum < 2,
                n <= crate::MAX_FRAMESIZE,
                forall|i: int| 0 <= i < samples@.len() ==> (#[trigger] samples@[i]).wf(),
                self.rate == old(self).rate,
                self.voices@.len() == old(self).voices@.len(),
                self.filter == old(self).filter,
                forall|ci: int|
                    0 <= ci < old(self).voices@.len() ==> ({
                        let v = #[trigger] self.voices@[ci];
                        let o = old(self).voices@[ci];
                        v.volume == o.volume && v.period == o.period && v.smp == o.smp
                            && v.has_patch == o.has_patch
                    }),
                forall|ci: int|
                    0 <= ci < old(self).voices@.len() ==> (#[trigger] self.voices@[ci]).paula.rate
                        == old(self).voices@[ci].paula.rate && self.voices@[ci].paula.remainder
                        == (old(self).voices@[ci].paula.remainder + k * PAULA_HZ) % (old(
                        self,
                    ).voices@[ci].paula.rate as int),
                k > 0 ==> out@.last() == clamp16(
                    spec_voice_mix(self.voices@, old(self).voices@.len() as int, tabnum as int),
                ),
                k <= n,
                out@.len() == old(out)@.len() + k,
                out@.subrange(0, old(out)@.len() as int) == old(out)@,
            decreases n - k,
        {
            let mut sum: i32 = 0;
            let mut c: usize = 0;
            while c < self.voices.len()
                invariant
                    self.wf(),
                    tabnum < 2,
                    forall|i: int| 0 <= i < samples@.len() ==> (#[trigger] samples@[i]).wf(),
                    self.rate == old(self).rate,
                    self.voices@.len() == old(self).voices@.len(),
                    self.filter == old(self).filter,
                    forall|ci: int|
                        0 <= ci < old(self).voices@.len() ==> ({
                            let v = #[trigger] self.voices@[ci];
                            let o = old(self).voices@[ci];
                            v.volume == o.volume && v.period == o.period && v.smp == o.smp
                                && v.has_patch == o.has_patch
                        }),
                    c <= self.voices@.len(),
                    -32768 * c <= sum <= 32767 * c,
                    sum == spec_voice_mix(self.voices@, c as int, tabnum as int),
                    k < n,
                    forall|ci: int|
                        0 <= ci < old(self).voices@.len() ==> (
                        #[trigger] self.voices@[ci]).paula.rate
                            == old(self).voices@[ci].paula.rate
                            && self.voices@[ci].paula.remainder == (old(
                            self,
                        ).voices@[ci].paula.remainder + (if ci < c {
                            k + 1
                        } else {
                            k as int
                        }) * PAULA_HZ) % (old(self).voices@[ci].paula.rate as int),
                decreases self.voices@.len() - c,
            {
                let ghost pre_voices = self.voices@;
                let v = &mut self.voices[c];
                let s = render_voice(v, samples, tabnum);
                proof {
                    lemma_voice_mix_prefix(pre_voices, self.voices@, c as int, tabnum as int);
                    lemma_mod_shift(
                        old(self).voices@[c as int].paula.remainder + (k as int) * PAULA_HZ,
                        PAULA_HZ as int,
                        old(self).voices@[c as int].paula.rate as int,
                    );
                    assert(-32768 <= s <= 32767);
                    assert(sum + s >= -32768 * (c + 1) && sum + s <= 32767 * (c + 1))
                        by (nonlinear_arith)
                        requires
                            -32768 * c <= sum <= 32767 * c,
                            -32768 <= s <= 32767,
                            0 <= c < 0x10000000,
                    ;
                }
                sum = sum + s as i32;
                c = c + 1;
            }
            let clamped: i16 = if sum < -32768 {
                -32768
            } else if sum > 32767 {
                32767
            } else {
                sum as i16
            };
            let ghost prev_out = out@;
            out.push(clamped);
            proof {
                assert(out@.subrange(0, old(out)@.len() as int) =~= old(out)@);
            }
            k = k + 1;
        }
    }
}

} // verus!
