//! An instance's own settings.
use vstd::prelude::*;

verus! {

/// A mod installed in an instance.
#[derive(Clone, Debug)]
pub struct Mod {
    pub id: String,
    pub version: String,
}

/// The settings of one instance: the version it runs, its name, its mods.
#[derive(Clone, Debug)]
pub struct Config {
    pub id: String,
    pub name: String,
    pub mods: Vec<Mod>,
}

impl Config {
    /// The settings of a new instance, without mods.
    pub fn new(id: String, name: String) -> (r: Config)
        ensures
            r.id == id,
            r.name == name,
            r.mods@.len() == 0,
    {
        Config { id, name, mods: Vec::new() }
    }
}

} // verus!
