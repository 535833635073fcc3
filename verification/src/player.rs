//! Playback: transport state, the virtual channel layer, the player
//! registry and the frame-rendering driver.
use vstd::prelude::*;
use vstd::arithmetic::div_mod::lemma_multiply_divide_lt;
use vstd::arithmetic::div_mod::lemma_div_pos_is_pos;
use crate::mixer::Mixer;
use crate::module::Module;
use crate::player::protracker::ModPlayer;
use crate::Error;
use crate::MAX_FRAMESIZE;
use crate::MAX_RATE;
use crate::MIN_RATE;

pub mod protracker;
pub mod noisetracker;

verus! {

/// Global transport state: position in the order list, row, tick within
/// the row, ticks per row and tempo.
#[derive(Clone, Copy)]
pub struct PlayerData {
    pub pos: usize,
    pub row: usize,
    pub frame: usize,
    pub speed: usize,
    pub tempo: usize,
}

impl PlayerData {
    /// Transport invariant: the row lies in its pattern, the tick in its
    /// row, and speed and tempo in the ranges the effects can set.
    pub open spec fn wf(self) -> bool {
        &&& self.row < 64
        &&& 1 <= self.speed <= 31
        &&& 32 <= self.tempo <= 255
        &&& self.frame < self.speed
        &&& self.pos < 128
    }

    /// Transport at the start of a song: the first tick rendered is tick 0
    /// of row 0.
    pub fn new() -> (r: PlayerData)
        ensures
            r.wf(),
            r.pos == 0,
            r.row == 0,
            r.frame == 5,
            r.speed == 6,
            r.tempo == 125,
    {
        PlayerData { pos: 0, row: 0, frame: 5, speed: 6, tempo: 125 }
    }
}

/// A read-only snapshot of the transport handed to the driver.
#[derive(Clone, Copy)]
pub struct FrameInfo {
    pub pos: usize,
    pub row: usize,
    pub frame: usize,
    pub speed: usize,
    pub tempo: usize,
}

impl FrameInfo {
    /// An all-zero snapshot to fill in.
    pub fn new() -> (r: FrameInfo)
        ensures
            r.pos == 0 && r.row == 0 && r.frame == 0 && r.speed == 0 && r.tempo == 0,
    {
        FrameInfo { pos: 0, row: 0, frame: 0, speed: 0, tempo: 0 }
    }
}

/// What a registry entry says about its player.
pub struct PlayerInfo {
    pub id: String,
    pub name: String,
    pub description: String,
    pub author: String,
    pub accepts: Vec<String>,
}

/// Character-for-character string equality.
pub fn str_eq(a: &str, b: &str) -> (r: bool)
    ensures
        r == (a@ == b@),
{
    let la = a.unicode_len();
    let lb = b.unicode_len();
    if la != lb {
        proof {
            assert(a@.len() != b@.len());
        }
        return false;
    }
    let mut i: usize = 0;
    while i < la
        invariant
            la == a@.len(),
            la == b@.len(),
            i <= la,
            forall|j: int| 0 <= j < i ==> a@[j] == b@[j],
        decreases la - i,
    {
        if a.get_char(i) != b.get_char(i) {
            proof {
                assert(a@[i as int] != b@[i as int]);
            }
            return false;
        }
        i = i + 1;
    }
    proof {
        assert(a@ =~= b@);
    }
    true
}

/// Both states drive the same chip channels and neither has touched any
/// channel's synthesis state: every voice keeps its emulator state.
pub open spec fn spec_same_chip(a: Virtual, b: Virtual) -> bool {
    &&& b.mixer.voices@.len() == a.mixer.voices@.len()
    &&& forall|c: int|
        #![trigger a.mixer.voices@[c]]
        #![trigger b.mixer.voices@[c]]
        0 <= c < a.mixer.voices@.len() ==> b.mixer.voices@[c].paula == a.mixer.voices@[c].paula
}

/// No voice was bound to another sample: every voice keeps its sample
/// index and patch flag.
pub open spec fn spec_same_patch(a: Virtual, b: Virtual) -> bool {
    &&& b.mixer.voices@.len() == a.mixer.voices@.len()
    &&& forall|c: int|
        #![trigger a.mixer.voices@[c]]
        #![trigger b.mixer.voices@[c]]
        0 <= c < a.mixer.voices@.len() ==> b.mixer.voices@[c].smp == a.mixer.voices@[c].smp
            && b.mixer.voices@[c].has_patch == a.mixer.voices@[c].has_patch
}

/// No voice's sample cursor was moved: every voice keeps its position
/// and its running state.
pub open spec fn spec_same_cursor(a: Virtual, b: Virtual) -> bool {
    &&& b.mixer.voices@.len() == a.mixer.voices@.len()
    &&& forall|c: int|
        #![trigger a.mixer.voices@[c]]
        #![trigger b.mixer.voices@[c]]
        0 <= c < a.mixer.voices@.len() ==> b.mixer.voices@[c].pos == a.mixer.voices@[c].pos
            && b.mixer.voices@[c].active == a.mixer.voices@[c].active
}

/// No voice's volume register was written: every voice keeps its volume.
pub open spec fn spec_same_volume(a: Virtual, b: Virtual) -> bool {
    &&& b.mixer.voices@.len() == a.mixer.voices@.len()
    &&& forall|c: int|
        #![trigger a.mixer.voices@[c]]
        #![trigger b.mixer.voices@[c]]
        0 <= c < a.mixer.voices@.len() ==> b.mixer.voices@[c].volume
            == a.mixer.voices@[c].volume
}

/// The virtual channel layer: it latches the last value written to each
/// per-channel register and forwards only actual changes to the chip
/// emulator, performing no synthesis itself.
pub struct Virtual {
    pub last_patch: Vec<usize>,
    pub patch_set: Vec<bool>,
    pub last_volume: Vec<usize>,
    pub last_period: Vec<u16>,
    pub mixer: Mixer,
}

impl Virtual {
    /// Every latch mirrors its chip register.
    pub open spec fn wf(self) -> bool {
        &&& self.mixer.wf()
        &&& self.last_patch@.len() == self.mixer.voices@.len()
        &&& self.patch_set@.len() == self.mixer.voices@.len()
        &&& self.last_volume@.len() == self.mixer.voices@.len()
        &&& self.last_period@.len() == self.mixer.voices@.len()
        &&& forall|c: int|
            0 <= c < self.mixer.voices@.len() ==> (#[trigger] self.last_volume@[c])
                == self.mixer.voices@[c].volume
        &&& forall|c: int|
            0 <= c < self.mixer.voices@.len() ==> (#[trigger] self.last_period@[c])
                == self.mixer.voices@[c].period
        &&& forall|c: int|
            0 <= c < self.mixer.voices@.len() && self.patch_set@[c] ==> (
            #[trigger] self.last_patch@[c]) == self.mixer.voices@[c].smp
        &&& forall|c: int|
            0 <= c < self.mixer.voices@.len() ==> ((#[trigger] self.patch_set@[c])
                == self.mixer.voices@[c].has_patch)
    }

    /// How many channels the layer serves.
    pub open spec fn spec_channels(self) -> int {
        self.mixer.voices@.len() as int
    }

    /// A layer over `chn` silent chip channels.
    pub fn new(rate: u32, chn: usize) -> (r: Virtual)
        requires
            MIN_RATE <= rate <= MAX_RATE,
            chn <= crate::MAX_CHANNELS,
        ensures
            r.wf(),
            r.spec_channels() == chn,
            r.mixer.rate == rate,
    {
        let mixer = Mixer::new(rate, chn);
        let mut last_patch: Vec<usize> = Vec::new();
        let mut patch_set: Vec<bool> = Vec::new();
        let mut last_volume: Vec<usize> = Vec::new();
        let mut last_period: Vec<u16> = Vec::new();
        let mut i: usize = 0;
        while i < chn
            invariant
                i <= chn,
                last_patch@.len() == i,
                patch_set@.len() == i,
                last_volume@.len() == i,
                last_period@.len() == i,
                forall|c: int| 0 <= c < i ==> (#[trigger] last_volume@[c]) == 0,
                forall|c: int| 0 <= c < i ==> (#[trigger] last_period@[c]) == 0,
                forall|c: int| 0 <= c < i ==> !(#[trigger] patch_set@[c]),
            decreases chn - i,
        {
            last_patch.push(0);
            patch_set.push(false);
            last_volume.push(0);
            last_period.push(0);
            i = i + 1;
        }
        Virtual { last_patch, patch_set, last_volume, last_period, mixer }
    }

    /// Latch the patch for a channel; a change hands the chip the new
    /// sample index. The instrument and note numbers ride along for
    /// layers that key on them.
    pub fn set_patch(&mut self, chn: usize, _ins: usize, smp: usize, _note: usize)
        requires
            old(self).wf(),
        ensures
            final(self).wf(),
            final(self).spec_channels() == old(self).spec_channels(),
            final(self).mixer.rate == old(self).mixer.rate,
            chn < old(self).spec_channels() ==> final(self).mixer.voices@[chn as int].smp == smp,
            spec_same_chip(*old(self), *final(self)),
            spec_same_cursor(*old(self), *final(self)),
            spec_same_volume(*old(self), *final(self)),
            forall|c: int|
                0 <= c < old(self).spec_channels() && c != chn ==> final(self).mixer.voices@[c]
                    == old(self).mixer.voices@[c],
            chn < old(self).spec_channels() ==> final(self).mixer.voices@[chn as int].has_patch,
    {
        if chn < self.mixer.voices.len() {
            if !self.patch_set[chn] || self.last_patch[chn] != smp {
                self.mixer.set_patch(chn, smp);
                self.last_patch[chn] = smp;
                self.patch_set[chn] = true;
            }
        }
    }

    /// Latch a volume, clamped to the register range; a change reaches the
    /// chip.
    pub fn set_volume(&mut self, chn: usize, vol: usize)
        requires
            old(self).wf(),
        ensures
            final(self).wf(),
            final(self).spec_channels() == old(self).spec_channels(),
            final(self).mixer.rate == old(self).mixer.rate,
            chn < old(self).spec_channels() ==> final(self).mixer.voices@[chn as int].volume == (
            if vol <= 64 {
                vol as int
            } else {
                64int
            }),
            spec_same_chip(*old(self), *final(self)),
            spec_same_patch(*old(self), *final(self)),
            spec_same_cursor(*old(self), *final(self)),
            forall|c: int|
                0 <= c < old(self).spec_channels() && c != chn ==> final(self).mixer.voices@[c]
                    == old(self).mixer.voices@[c],
    {
        let v = if vol <= 64 {
            vol
        } else {
            64
        };
        if chn < self.mixer.voices.len() {
            if self.last_volume[chn] != v {
                self.mixer.set_volume(chn, v);
                self.last_volume[chn] = v;
            }
        }
    }

    /// Latch a period; a change reaches the chip. A zero period is the
    /// silent no-note state and is never forwarded.
    pub fn set_period(&mut self, chn: usize, period: u16)
        requires
            old(self).wf(),
        ensures
            final(self).wf(),
            final(self).spec_channels() == old(self).spec_channels(),
            final(self).mixer.rate == old(self).mixer.rate,
            chn < old(self).spec_channels() ==> final(self).mixer.voices@[chn as int].period == (
            if period > 0 {
                period as int
            } else {
                old(self).mixer.voices@[chn as int].period as int
            }),
            spec_same_chip(*old(self), *final(self)),
            spec_same_patch(*old(self), *final(self)),
            spec_same_cursor(*old(self), *final(self)),
            spec_same_volume(*old(self), *final(self)),
            forall|c: int|
                0 <= c < old(self).spec_channels() && c != chn ==> final(self).mixer.voices@[c]
                    == old(self).mixer.voices@[c],
    {
        if chn < self.mixer.voices.len() && period > 0 {
            if self.last_period[chn] != period {
                self.mixer.set_period(chn, period);
                self.last_period[chn] = period;
            }
        }
    }

    /// Move a channel's sample cursor to a byte offset.
    pub fn set_offset(&mut self, chn: usize, offset: usize)
        requires
            old(self).wf(),
        ensures
            final(self).wf(),
            final(self).spec_channels() == old(self).spec_channels(),
            final(self).mixer.rate == old(self).mixer.rate,
            spec_same_chip(*old(self), *final(self)),
            spec_same_patch(*old(self), *final(self)),
            chn < old(self).spec_channels() ==> final(self).mixer.voices@[chn as int].pos == (
            if offset <= 0x1000000 {
                offset as int
            } else {
                0x1000000int
            }),
            spec_same_volume(*old(self), *final(self)),
            forall|c: int|
                0 <= c < old(self).spec_channels() && c != chn ==> final(self).mixer.voices@[c]
                    == old(self).mixer.voices@[c],
    {
        self.mixer.set_offset(chn, offset);
        proof {
            assert forall|c: int| 0 <= c < self.mixer.voices@.len() implies ({
                &&& (#[trigger] self.last_volume@[c]) == self.mixer.voices@[c].volume
                &&& self.last_period@[c] == self.mixer.voices@[c].period
                &&& (self.patch_set@[c] ==> self.last_patch@[c] == self.mixer.voices@[c].smp)
            }) by {
                if c != chn {
                    assert(self.mixer.voices@[c] == old(self).mixer.voices@[c]);
                } else {
                    assert(self.mixer.voices@[c].volume == old(self).mixer.voices@[c].volume);
                    assert(self.mixer.voices@[c].period == old(self).mixer.voices@[c].period);
                    assert(self.mixer.voices@[c].smp == old(self).mixer.voices@[c].smp);
                }
            }
        }
    }

    /// Restart a channel's voice from the top of its sample.
    pub fn retrig(&mut self, chn: usize)
        requires
            old(self).wf(),
        ensures
            final(self).wf(),
            final(self).spec_channels() == old(self).spec_channels(),
            final(self).mixer.rate == old(self).mixer.rate,
            chn < old(self).spec_channels() ==> final(self).mixer.voices@[chn as int].pos == 0,
            spec_same_chip(*old(self), *final(self)),
            spec_same_patch(*old(self), *final(self)),
            spec_same_volume(*old(self), *final(self)),
            forall|c: int|
                0 <= c < old(self).spec_channels() && c != chn ==> final(self).mixer.voices@[c]
                    == old(self).mixer.voices@[c],
    {
        self.mixer.retrig(chn);
        proof {
            assert forall|c: int| 0 <= c < self.mixer.voices@.len() implies ({
                &&& (#[trigger] self.last_volume@[c]) == self.mixer.voices@[c].volume
                &&& self.last_period@[c] == self.mixer.voices@[c].period
                &&& (self.patch_set@[c] ==> self.last_patch@[c] == self.mixer.voices@[c].smp)
            }) by {
                if c != chn {
                    assert(self.mixer.voices@[c] == old(self).mixer.voices@[c]);
                } else {
                    assert(self.mixer.voices@[c].volume == old(self).mixer.voices@[c].volume);
                    assert(self.mixer.voices@[c].period == old(self).mixer.voices@[c].period);
                    assert(self.mixer.voices@[c].smp == old(self).mixer.voices@[c].smp);
                }
            }
        }
    }

    /// Select the chip's filtered or plain response.
    pub fn set_filter(&mut self, on: bool)
        requires
            old(self).wf(),
        ensures
            final(self).wf(),
            final(self).spec_channels() == old(self).spec_channels(),
            final(self).mixer.rate == old(self).mixer.rate,
            final(self).mixer.filter == on,
            spec_same_chip(*old(self), *final(self)),
            spec_same_patch(*old(self), *final(self)),
            spec_same_cursor(*old(self), *final(self)),
            spec_same_volume(*old(self), *final(self)),
            final(self).mixer.voices@ == old(self).mixer.voices@,
    {
        self.mixer.set_filter(on);
    }
}

/// Samples rendered for one tick: the tick lasts 2500 / tempo
/// milliseconds, so at `rate` Hz it spans rate * 2500 / (1000 * tempo)
/// = 5 * rate / (2 * tempo) samples.
pub fn samples_per_tick(rate: u32, tempo: u32) -> (r: usize)
    requires
        MIN_RATE <= rate <= MAX_RATE,
        20 <= tempo <= 255,
    ensures
        r == 5 * rate / (2 * tempo),
        1 <= r <= MAX_FRAMESIZE,
    {
    let n: u32 = 5 * rate;
    let d: u32 = 2 * tempo;
    let r = n / d;
    proof {
        lemma_multiply_divide_lt(n as int, d as int, 24001);
        lemma_div_pos_is_pos(n as int, d as int);
        vstd::arithmetic::div_mod::lemma_div_non_zero(n as int, d as int);
    }
    (r as usize)
}

/// Row duration strictly decreases as tempo rises, holding speed fixed.
/// A tick lasts 2500 / tempo milliseconds and a row lasts speed ticks, so
/// the row duration at tempo `t` is the ratio speed * 2500 / t. On the
/// common denominator t1 * t2 the two durations become the integers
/// compared here: the duration at the faster tempo `t2`, scaled, is
/// speed * 2500 * t1, and it is strictly below the scaled duration at
/// `t1`.
pub proof fn lemma_row_duration_strictly_decreases(speed: int, t1: int, t2: int)
    requires
        1 <= speed,
        1 <= t1 < t2,
    ensures
        speed * 2500 * t1 < speed * 2500 * t2,
{
    assert(speed * 2500 * t1 < speed * 2500 * t2) by (nonlinear_arith)
        requires
            1 <= speed,
            1 <= t1 < t2,
    ;
}

/// The frame-rendering driver: it owns the module, the transport, the
/// sequencer and the virtual channel layer, and renders one tick of audio
/// per call.
pub struct Player {
    pub module: Module,
    pub data: PlayerData,
    pub mod_player: ModPlayer,
    pub virt: Virtual,
    pub rate: u32,
}

impl Player {
    /// A playable driver state.
    pub open spec fn wf(self) -> bool {
        &&& self.module.wf()
        &&& self.data.wf()
        &&& self.mod_player.wf()
        &&& self.mod_player.state@.len() == self.module.chn
        &&& self.virt.wf()
        &&& self.virt.spec_channels() == self.module.chn
        &&& MIN_RATE <= self.rate <= MAX_RATE
    }

    /// Build a driver for a module at an output rate. A rate outside the
    /// supported bounds is a configuration fault and is rejected here,
    /// once; no later call can fail.
    pub fn find(module: &Module, rate: u32, _player_id: &str, _options: &str) -> (r: Result<
        Player,
        Error,
    >)
        requires
            module.wf(),
        ensures
            r is Ok <==> MIN_RATE <= rate <= MAX_RATE,
            r matches Ok(p) ==> p.wf() && p.rate == rate && crate::module::module_equiv(
                p.module,
                *module,
            ),
            r matches Err(e) ==> e is Player,
    {
        if rate < MIN_RATE || rate > MAX_RATE {
            return Err(Error::Player(String::from_str("unsupported sampling rate")));
        }
        let m = module.clone();
        proof {
            crate::module::lemma_module_equiv_wf(m, *module);
        }
        let chn = m.chn;
        Ok(
            Player {
                module: m,
                data: PlayerData::new(),
                mod_player: ModPlayer::new_with_channels(chn),
                virt: Virtual::new(rate, chn),
                rate,
            },
        )
    }

    /// Rewind playback to its initial state: the transport at the top of
    /// the song, every channel's effect memory blanked and every deferred
    /// action cleared. Calling it twice is the same as calling it once.
    pub fn start(&mut self)
        requires
            old(self).wf(),
        ensures
            final(self).wf(),
            final(self).data == (PlayerData { pos: 0, row: 0, frame: 5, speed: 6, tempo: 125 }),
            final(self).rate == old(self).rate,
            final(self).module == old(self).module,
            final(self).virt == old(self).virt,
            final(self).mod_player.state@.len() == old(self).mod_player.state@.len(),
            forall|c: int|
                0 <= c < old(self).mod_player.state@.len() ==> (#[trigger] final(self).mod_player.state@[c]) == crate::player::protracker::spec_blank_channel(),
            final(self).mod_player.mt_pbreak_pos == 0,
            !final(self).mod_player.mt_pos_jump_flag,
            !final(self).mod_player.mt_pbreak_flag,
            final(self).mod_player.mt_low_mask == 0xff,
            final(self).mod_player.mt_patt_del_time == 0,
            final(self).mod_player.mt_patt_del_time_2 == 0,
            !final(self).mod_player.mt_jump_set,
            final(self).mod_player.mt_jump_pos == 0,
    {
        self.data = PlayerData::new();
        self.mod_player.reset();
    }

    /// Restart playback from the beginning: the same initial state as
    /// `start`, idempotently.
    pub fn reset(&mut self)
        requires
            old(self).wf(),
        ensures
            final(self).wf(),
            final(self).data == (PlayerData { pos: 0, row: 0, frame: 5, speed: 6, tempo: 125 }),
            final(self).rate == old(self).rate,
            final(self).module == old(self).module,
            final(self).virt == old(self).virt,
            forall|c: int|
                0 <= c < old(self).mod_player.state@.len() ==> (#[trigger] final(self).mod_player.state@[c]) == crate::player::protracker::spec_blank_channel(),
            !final(self).mod_player.mt_pos_jump_flag,
            !final(self).mod_player.mt_pbreak_flag,
            final(self).mod_player.mt_patt_del_time == 0,
            final(self).mod_player.mt_patt_del_time_2 == 0,
    {
        self.start();
    }

    /// Advance one tick and render its audio: the sequencer consumes the
    /// tick, the virtual channels carry the register changes to the chip,
    /// and the chip renders exactly one tick's worth of samples at the
    /// tempo now in force.
    pub fn play_frame(&mut self) -> (r: Vec<i16>)
        requires
            old(self).wf(),
        ensures
            final(self).wf(),
            final(self).rate == old(self).rate,
            final(self).module == old(self).module,
            r@.len() == 5 * old(self).rate / (2 * final(self).data.tempo),
            old(self).data.frame + 1 < old(self).data.speed ==> (final(self).data.frame == old(self).data.frame + 1 && final(self).data.row == old(self).data.row && final(self).data.pos == old(self).data.pos && final(self).data.speed == old(self).data.speed
                && final(self).data.tempo == old(self).data.tempo),
            old(self).data.frame + 1 >= old(self).data.speed ==> final(self).data.frame == 0,
            forall|c: int|
                0 <= c < old(self).virt.mixer.voices@.len() ==> (#[trigger] final(self).virt.mixer.voices@[c]).paula.remainder == (old(self).virt.mixer.voices@[c].paula.remainder + r@.len() * crate::mixer::paula::PAULA_HZ)
                    % (old(self).virt.mixer.voices@[c].paula.rate as int),
            r@.len() > 0 ==> r@.last() == crate::mixer::paula::clamp16(
                crate::mixer::spec_voice_mix(
                    final(self).virt.mixer.voices@,
                    old(self).virt.mixer.voices@.len() as int,
                    if final(self).virt.mixer.filter {
                        1int
                    } else {
                        0int
                    },
                ),
            ),
    {
        self.mod_player.play(&mut self.data, &self.module, &mut self.virt);
        let ghost mid_voices = self.virt.mixer.voices@;
        proof {
            if old(self).data.frame + 1 >= old(self).data.speed {
                assert(self.data.frame == 0);
            }
        }
        let n = samples_per_tick(self.rate, self.data.tempo as u32);
        let mut buf: Vec<i16> = Vec::new();
        self.virt.mixer.mix(&self.module.sample, n, &mut buf);
        proof {
            assert forall|c: int| 0 <= c < old(self).virt.mixer.voices@.len() implies (
            #[trigger] self.virt.mixer.voices@[c]).paula.remainder == (old(
                self,
            ).virt.mixer.voices@[c].paula.remainder + buf@.len()
                * crate::mixer::paula::PAULA_HZ) % (old(
                self,
            ).virt.mixer.voices@[c].paula.rate as int) by {
                assert(mid_voices[c].paula == old(self).virt.mixer.voices@[c].paula);
            }
        }
        buf
    }

    /// The transport snapshot for the frame just rendered.
    pub fn snapshot(&self) -> (r: FrameInfo)
        ensures
            r.pos == self.data.pos,
            r.row == self.data.row,
            r.frame == self.data.frame,
            r.speed == self.data.speed,
            r.tempo == self.data.tempo,
    {
        FrameInfo {
            pos: self.data.pos,
            row: self.data.row,
            frame: self.data.frame,
            speed: self.data.speed,
            tempo: self.data.tempo,
        }
    }

    /// Fill a caller-held snapshot, as the driver loop does each frame.
    pub fn info(&self, fi: &mut FrameInfo)
        ensures
            final(fi).pos == self.data.pos,
            final(fi).row == self.data.row,
            final(fi).frame == self.data.frame,
            final(fi).speed == self.data.speed,
            final(fi).tempo == self.data.tempo,
    {
        *fi = self.snapshot();
    }

    /// The current order-list position.
    pub fn position(&self) -> (r: usize)
        ensures
            r == self.data.pos,
    {
        self.data.pos
    }

    /// The current row.
    pub fn row(&self) -> (r: usize)
        ensures
            r == self.data.row,
    {
        self.data.row
    }

    /// The current tick within the row.
    pub fn tick(&self) -> (r: usize)
        ensures
            r == self.data.frame,
    {
        self.data.frame
    }
}

/// Look a player up by its registry id.
pub fn list_by_id(id: &str) -> (r: Result<crate::player::noisetracker::Nt11, Error>)
    ensures
        r is Ok <==> id@ == "nt11"@,
        r matches Err(e) ==> e is Player,
{
    if str_eq(id, "nt11") {
        Ok(crate::player::noisetracker::Nt11 {  })
    } else {
        Err(Error::Player(String::from_str("can't find player")))
    }
}

} // verus!
