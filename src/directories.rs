//! The launcher's directories, all derived from one name below the user's
//! cache and configuration directories.
use vstd::prelude::*;

verus! {

/// The directories of the launcher's data.
#[derive(Clone, Debug)]
pub struct Paths {
    pub name: String,
    pub cache: String,
    pub config: String,
    pub instances: String,
    pub assets: String,
    pub asset_indexes: String,
    pub natives: String,
    pub libraries: String,
    pub versions: String,
}

/// A path below a directory.
pub open spec fn join(dir: Seq<char>, name: Seq<char>) -> Seq<char> {
    dir + "/"@ + name
}

pub fn join_path(dir: &String, name: &str) -> (r: String)
    ensures
        r@ == join(dir@, name@),
{
    let mut p = dir.clone();
    p.append("/");
    p.append(name);
    p
}

/// Relies on dirs::cache_dir: the user's cache directory, where the platform
/// has one.
#[verifier::external_body]
fn user_cache_dir() -> (r: Option<String>) {
    match dirs::cache_dir() {
        Some(p) => Some(p.to_string_lossy().into_owned()),
        None => None,
    }
}

/// Relies on dirs::config_dir: the user's configuration directory, where the
/// platform has one.
#[verifier::external_body]
fn user_config_dir() -> (r: Option<String>) {
    match dirs::config_dir() {
        Some(p) => Some(p.to_string_lossy().into_owned()),
        None => None,
    }
}

impl Paths {
    /// A copy of every directory.
    pub fn duplicate(&self) -> (r: Paths)
        ensures
            r == *self,
    {
        Paths {
            name: self.name.clone(),
            cache: self.cache.clone(),
            config: self.config.clone(),
            instances: self.instances.clone(),
            assets: self.assets.clone(),
            asset_indexes: self.asset_indexes.clone(),
            natives: self.natives.clone(),
            libraries: self.libraries.clone(),
            versions: self.versions.clone(),
        }
    }

    /// The layout below `cache_root/name` and `config_root/name`.
    pub open spec fn layout(self, name: Seq<char>, cache_root: Seq<char>, config_root: Seq<char>) -> bool {
        &&& self.name@ == name
        &&& self.cache@ == join(cache_root, name)
        &&& self.config@ == join(config_root, name)
        &&& self.laid_out()
    }

    /// The subdirectories lie where they belong below the cache directory.
    pub open spec fn laid_out(self) -> bool {
        &&& self.instances@ == join(self.config@, "instances"@)
        &&& self.assets@ == join(self.cache@, "assets"@)
        &&& self.asset_indexes@ == join(self.assets@, "indexes"@)
        &&& self.natives@ == join(self.cache@, "natives"@)
        &&& self.libraries@ == join(self.cache@, "libraries"@)
        &&& self.versions@ == join(self.cache@, "versions"@)
    }

    /// Derives every directory from one name and the two user directories.
    pub fn under(name: String, cache_root: &String, config_root: &String) -> (r: Paths)
        ensures
            r.layout(name@, cache_root@, config_root@),
    {
        let cache = join_path(cache_root, name.as_str());
        let config = join_path(config_root, name.as_str());
        let instances = join_path(&config, "instances");
        let assets = join_path(&cache, "assets");
        let asset_indexes = join_path(&assets, "indexes");
        let natives = join_path(&cache, "natives");
        let libraries = join_path(&cache, "libraries");
        let versions = join_path(&cache, "versions");
        Paths { name, cache, config, instances, assets, asset_indexes, natives, libraries, versions }
    }

    /// Derives every directory from one name below the user's cache and
    /// configuration directories; none where the platform lacks either. The
    /// directories are not created.
    pub fn new(name: String) -> (r: Option<Paths>)
        ensures
            r matches Some(p) ==> p.name@ == name@ && p.laid_out(),
    {
        let cache_root = match user_cache_dir() {
            Some(c) => c,
            None => return None,
        };
        let config_root = match user_config_dir() {
            Some(c) => c,
            None => return None,
        };
        Some(Paths::under(name, &cache_root, &config_root))
    }
}

} // verus!
