//! Tracker-module playback: a tick-accurate sequencer / effect state machine
//! driving a band-limited sample-playback chip emulator.
use vstd::prelude::*;

pub mod util;
pub mod mixer;
pub mod module;
pub mod format;
pub mod player;

pub use module::Module;
pub use player::FrameInfo;

verus! {

/// Highest supported output rate in Hz.
pub const MAX_RATE: u32 = 96000;
/// Lowest supported output rate in Hz.
pub const MIN_RATE: u32 = 4000;
/// Lowest supported tempo (BPM-style rate).
pub const MIN_BPM: u32 = 20;
/// Worst case for one frame's buffer: the slowest tempo at the highest
/// rate, with room for two interleaved output channels.
pub const MAX_FRAMESIZE: usize = 24000;
/// Highest note count a player handles.
pub const MAX_KEYS: usize = 128;
/// Highest channel count a module may declare.
pub const MAX_CHANNELS: usize = 64;
/// Highest sequence (sub-song) count.
pub const MAX_SEQUENCES: usize = 16;

/// Library error taxonomy: unsupported format, unplayable module, bad module data.
#[derive(Debug)]
pub enum Error {
    Format(String),
    Player(String),
    Load(String),
}

impl Error {
    /// The stored description.
    pub fn message(&self) -> (r: &str)
        ensures
            self matches Error::Format(s) ==> r@ == s@,
            self matches Error::Player(s) ==> r@ == s@,
            self matches Error::Load(s) ==> r@ == s@,
    {
        match self {
            Error::Format(s) => s.as_str(),
            Error::Player(s) => s.as_str(),
            Error::Load(s) => s.as_str(),
        }
    }
}

/// A loaded module bound to an output rate and a player choice.
pub struct Oxdz {
    pub module: module::Module,
    pub rate: u32,
    pub player_id: String,
}

impl Oxdz {
    /// Load a module and bind it to a player: the named one, or the
    /// module's own default when the name is empty. An unknown name or an
    /// unloadable input is rejected here.
    pub fn new(b: &[u8], rate: u32, player_id: &str) -> (r: Result<Oxdz, Error>)
        ensures
            r is Ok <==> (format::spec_loadable(b@) && (player_id@.len() == 0 || player_id@
                == "nt11"@)),
            r matches Ok(o) ==> ({
                &&& format::protracker::spec_loaded_module(b@, o.module)
                &&& o.rate == rate
                &&& o.player_id@ == if player_id@.len() == 0 {
                    "nt11"@
                } else {
                    player_id@
                }
            }),
    {
        let module = match format::load(b, player_id) {
            Ok(m) => m,
            Err(e) => {
                return Err(e);
            },
        };
        let id = if player_id.unicode_len() == 0 {
            module.player.clone()
        } else {
            String::from_str(player_id)
        };
        match player::list_by_id(id.as_str()) {
            Ok(_) => {},
            Err(e) => {
                return Err(e);
            },
        }
        Ok(Oxdz { module, rate, player_id: id })
    }

    /// The loaded module.
    pub fn module(&self) -> (r: &module::Module)
        ensures
            r == &self.module,
    {
        &self.module
    }

    /// What the bound player says about itself.
    pub fn player_info(&self) -> (r: Result<player::PlayerInfo, Error>)
        ensures
            r is Ok <==> self.player_id@ == "nt11"@,
            r matches Ok(info) ==> info.id@ == "nt11"@,
    {
        let entry = match player::list_by_id(self.player_id.as_str()) {
            Ok(en) => en,
            Err(e) => {
                return Err(e);
            },
        };
        Ok(entry.info())
    }

    /// A frame-rendering driver for the module at the bound rate. A rate
    /// outside the supported bounds is rejected here, once.
    pub fn player(&self) -> (r: Result<player::Player, Error>)
        requires
            self.module.wf(),
        ensures
            r is Ok <==> MIN_RATE <= self.rate <= MAX_RATE,
            r matches Ok(p) ==> p.wf() && p.rate == self.rate && module::module_equiv(
                p.module,
                self.module,
            ),
    {
        player::Player::find(&self.module, self.rate, self.player_id.as_str(), "")
    }
}

} // verus!

