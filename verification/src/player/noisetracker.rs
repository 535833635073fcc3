//! The registry entry for the bundled replayer.
use vstd::prelude::*;
use crate::module::Module;
use crate::player::PlayerInfo;
use crate::player::protracker::ModPlayer;

verus! {

/// The bundled tracker replayer's registry entry.
pub struct Nt11 {
}

impl Nt11 {
    /// What this entry offers.
    pub fn info(&self) -> (r: PlayerInfo)
        ensures
            r.id@ == "nt11"@,
            r.name@ == "Noiseplay11 NT V1.1 replayer"@,
            r.description@ == "A mod player based on the original Noisetracker V1.1 replayer"@,
            r.author@ == "Claudio Matsuoka"@,
            r.accepts@.len() == 1,
            r.accepts@[0]@ == "m.k."@,
    {
        let mut accepts: Vec<String> = Vec::new();
        accepts.push(String::from_str("m.k."));
        PlayerInfo {
            id: String::from_str("nt11"),
            name: String::from_str("Noiseplay11 NT V1.1 replayer"),
            description: String::from_str(
                "A mod player based on the original Noisetracker V1.1 replayer",
            ),
            author: String::from_str("Claudio Matsuoka"),
            accepts,
        }
    }

    /// The sequencer this entry plays a module with.
    pub fn player(&self, module: &Module) -> (r: ModPlayer)
        ensures
            r.wf(),
            r.state@.len() == module.chn,
    {
        ModPlayer::new(module)
    }
}

} // verus!
