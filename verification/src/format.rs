//! Module-format loaders and the probe that picks one.
use vstd::prelude::*;
use crate::module::Module;
use crate::Error;

pub mod protracker;
pub mod xm;

verus! {

/// Whether the probe and the loader accept the input.
pub open spec fn spec_loadable(b: Seq<u8>) -> bool {
    &&& protracker::spec_probe_ok(b)
    &&& b.len() >= 952 + b[950]
    &&& b.len() >= 1084 + 1024 * protracker::spec_pat_count(b)
}

/// Probe the input against the known formats and load it with the loader
/// that accepts it.
pub fn load(b: &[u8], _player_id: &str) -> (r: Result<Module, Error>)
    ensures
        r is Ok <==> spec_loadable(b@),
        r matches Ok(m) ==> protracker::spec_loaded_module(b@, m),
{
    let loader = protracker::Mod::new();
    match loader.probe(b) {
        Ok(_) => loader.load(b),
        Err(e) => Err(e),
    }
}

} // verus!
