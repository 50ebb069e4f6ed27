//! The version manifest: the latest versions and every version's entry.
use vstd::prelude::*;

verus! {

/// The latest release and snapshot.
#[derive(Clone, Debug)]
pub struct LatestVersions {
    pub release: String,
    pub snapshot: String,
}

/// One version: its id, type, where its profile is, and when it changed.
#[derive(Clone, Debug)]
pub struct Entry {
    pub id: String,
    pub version_type: String,
    pub url: String,
    pub time: String,
    pub release_time: String,
}

/// The versions in the order listed; where an id is listed twice the later
/// entry counts.
#[derive(Clone, Debug)]
pub struct VersionManifest {
    pub latest: LatestVersions,
    pub versions: Vec<Entry>,
}

impl VersionManifest {
    /// The entry of a version: the last one listed with that id.
    pub fn get(&self, id: &String) -> (r: Option<&Entry>)
        ensures
            r is None <==> forall|k: int| 0 <= k < self.versions@.len() ==> #[trigger] self.versions@[k].id@ != id@,
            r matches Some(e) ==> exists|k: int| 0 <= k < self.versions@.len() && #[trigger] self.versions@[k] == *e
                && e.id@ == id@
                && forall|j: int| k < j < self.versions@.len() ==> #[trigger] self.versions@[j].id@ != id@,
    {
        let mut i: usize = self.versions.len();
        while i > 0
            invariant
                i <= self.versions@.len(),
                forall|j: int| i <= j < self.versions@.len() ==> #[trigger] self.versions@[j].id@ != id@,
            decreases i,
        {
            i = i - 1;
            if self.versions[i].id.eq(id) {
                return Some(&self.versions[i]);
            }
        }
        None
    }
}

} // verus!
