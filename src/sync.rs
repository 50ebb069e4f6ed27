//! The synchronisation orchestrator's decisions: which artifacts a launch
//! needs, which of them must be downloaded again, which entries of a native
//! archive are extracted, and how the outcomes of the tasks are joined.
use vstd::prelude::*;
use crate::asset_index::{doublehash, doublehash_of};
use crate::directories::{join, join_path};
use crate::hashing::{artifact_hash, weak_hash};
use crate::instance::{classpath_prefix, Instance};
use crate::profile::{Classifiers, Download, Library};
use crate::rules::{Host, HostOs};
use crate::store::opt_view;

verus! {

/// Where asset objects are downloaded from.
pub const ASSET_SERVER: &'static str = "https://resources.download.minecraft.net/";

/// One artifact to synchronise: where it comes from, the hash its bytes must
/// have, where it goes, and whether it is a native archive to extract.
#[derive(Clone, Debug)]
pub struct ArtifactJob {
    pub url: String,
    pub sha1: String,
    pub path: String,
    pub natives: bool,
}

/// What a job is, as plain values.
pub open spec fn job_view(j: ArtifactJob) -> (Seq<char>, Seq<char>, Seq<char>, bool) {
    (j.url@, j.sha1@, j.path@, j.natives)
}

pub open spec fn jobs_view(s: Seq<ArtifactJob>) -> Seq<(Seq<char>, Seq<char>, Seq<char>, bool)> {
    s.map_values(|j: ArtifactJob| job_view(j))
}

/// The classifier of a library for a system.
pub open spec fn native_of(c: Classifiers, os: HostOs) -> Option<Download> {
    match os {
        HostOs::Osx => c.natives_macos,
        HostOs::Windows => c.natives_windows,
        HostOs::Linux => c.natives_linux,
    }
}

/// The job of a library download, which needs a path below the libraries
/// directory.
pub open spec fn download_jobs(d: Download, libraries_dir: Seq<char>, natives: bool) -> Seq<(Seq<char>, Seq<char>, Seq<char>, bool)> {
    match d.path {
        Some(p) => seq![(d.url@, d.sha1@, join(libraries_dir, p@), natives)],
        None => Seq::empty(),
    }
}

/// The jobs of one library: none when it is inactive; else its jar, then its
/// native archive for the host's system.
pub open spec fn library_jobs_of(lib: Library, libraries_dir: Seq<char>, host: Host) -> Seq<(Seq<char>, Seq<char>, Seq<char>, bool)> {
    if !lib.active(host) {
        Seq::empty()
    } else {
        (match lib.downloads.artifact {
            Some(a) => download_jobs(a, libraries_dir, false),
            None => Seq::empty(),
        }) + (match lib.downloads.classifiers {
            Some(c) => match native_of(c, host.os) {
                Some(n) => download_jobs(n, libraries_dir, true),
                None => Seq::empty(),
            },
            None => Seq::empty(),
        })
    }
}

/// The jobs of a list of libraries, in order.
pub open spec fn libraries_jobs(libs: Seq<Library>, libraries_dir: Seq<char>, host: Host) -> Seq<(Seq<char>, Seq<char>, Seq<char>, bool)>
    decreases libs.len(),
{
    if libs.len() == 0 {
        Seq::empty()
    } else {
        libraries_jobs(libs.drop_last(), libraries_dir, host) + library_jobs_of(libs.last(), libraries_dir, host)
    }
}

/// The job of one asset object, which lies at its doublehash path below the
/// objects directory and on the asset server.
pub open spec fn asset_job(hash: Seq<char>, objects_dir: Seq<char>) -> (Seq<char>, Seq<char>, Seq<char>, bool) {
    (ASSET_SERVER@ + doublehash_of(hash), hash, join(objects_dir, doublehash_of(hash)), false)
}

/// The classifier of a library for a system.
pub fn native_download(c: &Classifiers, os: HostOs) -> (r: Option<&Download>)
    ensures
        match r {
            Some(d) => native_of(*c, os) == Some(*d),
            None => native_of(*c, os) is None,
        },
{
    match os {
        HostOs::Osx => c.natives_macos.as_ref(),
        HostOs::Windows => c.natives_windows.as_ref(),
        HostOs::Linux => c.natives_linux.as_ref(),
    }
}

fn push_download_job(jobs: &mut Vec<ArtifactJob>, d: &Download, libraries_dir: &String, natives: bool)
    ensures
        jobs_view(final(jobs)@) == jobs_view(old(jobs)@) + download_jobs(*d, libraries_dir@, natives),
{
    if let Some(p) = &d.path {
        let path = join_path(libraries_dir, p.as_str());
        jobs.push(ArtifactJob { url: d.url.clone(), sha1: d.sha1.clone(), path, natives });
        assert(jobs_view(jobs@) =~= jobs_view(old(jobs)@) + download_jobs(*d, libraries_dir@, natives));
    } else {
        assert(jobs_view(jobs@) =~= jobs_view(old(jobs)@) + download_jobs(*d, libraries_dir@, natives));
    }
}

/// The jobs of the libraries: for each active library its jar, then its
/// native archive for the host's system, where they have a path.
pub fn library_jobs(libs: &Vec<Library>, libraries_dir: &String, host: &Host) -> (r: Vec<ArtifactJob>)
    ensures
        jobs_view(r@) == libraries_jobs(libs@, libraries_dir@, *host),
{
    let mut jobs: Vec<ArtifactJob> = Vec::new();
    let mut i: usize = 0;
    assert(jobs_view(jobs@) =~= Seq::empty());
    while i < libs.len()
        invariant
            i <= libs@.len(),
            jobs_view(jobs@) == libraries_jobs(libs@.subrange(0, i as int), libraries_dir@, *host),
        decreases libs@.len() - i,
    {
        let lib = &libs[i];
        assert(libs@.subrange(0, i + 1).drop_last() =~= libs@.subrange(0, i as int));
        let ghost before = jobs_view(jobs@);
        if lib.is_active(host) {
            if let Some(a) = &lib.downloads.artifact {
                push_download_job(&mut jobs, a, libraries_dir, false);
            }
            let ghost mid = jobs_view(jobs@);
            if let Some(c) = &lib.downloads.classifiers {
                if let Some(n) = native_download(c, host.os) {
                    push_download_job(&mut jobs, n, libraries_dir, true);
                }
            }
            assert(jobs_view(jobs@) =~= before + library_jobs_of(*lib, libraries_dir@, *host));
        } else {
            assert(jobs_view(jobs@) =~= before + library_jobs_of(*lib, libraries_dir@, *host));
        }
        i = i + 1;
    }
    assert(libs@.subrange(0, i as int) =~= libs@);
    jobs
}

/// An inactive library, wherever it stands in the list, adds nothing to the
/// classpath nor to the downloads.
pub proof fn lemma_inactive_library_excluded(
    pre: Seq<Library>,
    lib: Library,
    post: Seq<Library>,
    libraries_dir: Seq<char>,
    host: Host,
)
    requires
        !lib.active(host),
    ensures
        classpath_prefix(pre.push(lib) + post, libraries_dir, host) == classpath_prefix(pre + post, libraries_dir, host),
        libraries_jobs(pre.push(lib) + post, libraries_dir, host) == libraries_jobs(pre + post, libraries_dir, host),
    decreases post.len(),
{
    if post.len() == 0 {
        assert(pre.push(lib) + post =~= pre.push(lib));
        assert(pre + post =~= pre);
        assert(pre.push(lib).drop_last() =~= pre);
    } else {
        lemma_inactive_library_excluded(pre, lib, post.drop_last(), libraries_dir, host);
        assert((pre.push(lib) + post).drop_last() =~= pre.push(lib) + post.drop_last());
        assert((pre + post).drop_last() =~= pre + post.drop_last());
        assert((pre.push(lib) + post).last() == post.last());
        assert((pre + post).last() == post.last());
    }
}

/// The synchronisation jobs of every asset object, in the index's order; an
/// error names the first hash too short to give a doublehash path.
pub fn asset_jobs(objects: &Vec<(String, crate::asset_index::Entry)>, objects_dir: &String) -> (r: Result<Vec<ArtifactJob>, String>)
    ensures
        r is Ok <==> forall|k: int| 0 <= k < objects@.len() ==> (#[trigger] objects@[k]).1.hash@.len() >= 2,
        r matches Ok(v) ==> jobs_view(v@) == objects@.map_values(
            |o: (String, crate::asset_index::Entry)| asset_job(o.1.hash@, objects_dir@),
        ),
        r matches Err(h) ==> exists|k: int| 0 <= k < objects@.len() && (#[trigger] objects@[k]).1.hash@ == h@
            && h@.len() < 2,
{
    let mut jobs: Vec<ArtifactJob> = Vec::new();
    let mut i: usize = 0;
    while i < objects.len()
        invariant
            i <= objects@.len(),
            forall|k: int| 0 <= k < i ==> (#[trigger] objects@[k]).1.hash@.len() >= 2,
            jobs_view(jobs@) == objects@.subrange(0, i as int).map_values(
                |o: (String, crate::asset_index::Entry)| asset_job(o.1.hash@, objects_dir@),
            ),
        decreases objects@.len() - i,
    {
        let hash = &objects[i].1.hash;
        match doublehash(hash) {
            None => {
                return Err(hash.clone());
            },
            Some(d) => {
                let mut url = ASSET_SERVER.to_owned();
                url.append(d.as_str());
                let path = join_path(objects_dir, d.as_str());
                jobs.push(ArtifactJob { url, sha1: hash.clone(), path, natives: false });
                assert(objects@.subrange(0, i + 1).map_values(
                    |o: (String, crate::asset_index::Entry)| asset_job(o.1.hash@, objects_dir@),
                ) =~= objects@.subrange(0, i as int).map_values(
                    |o: (String, crate::asset_index::Entry)| asset_job(o.1.hash@, objects_dir@),
                ).push(asset_job(hash@, objects_dir@)));
                assert(jobs_view(jobs@) =~= objects@.subrange(0, i + 1).map_values(
                    |o: (String, crate::asset_index::Entry)| asset_job(o.1.hash@, objects_dir@),
                ));
            },
        }
        i = i + 1;
    }
    assert(objects@.subrange(0, i as int) =~= objects@);
    Ok(jobs)
}

/// An artifact on disk is reused only when its bytes have the expected hash;
/// a missing or altered one is downloaded again.
pub fn needs_download(expected_sha1: &String, current: &Option<Vec<u8>>) -> (r: bool)
    ensures
        r == match *current {
            Some(data) => weak_hash(data@) != expected_sha1@,
            None => true,
        },
{
    match current {
        Some(data) => {
            let actual = artifact_hash(data);
            !actual.eq(expected_sha1)
        },
        None => true,
    }
}

/// The extension of a path's file name, as std's `Path::extension` gives it.
pub uninterp spec fn path_extension(name: Seq<char>) -> Option<Seq<char>>;

/// Relies on std::path::Path::extension: the extension of the path's file
/// name, if it has one; the result depends on the text alone.
#[verifier::external_body]
fn extension_of(name: &str) -> (r: Option<String>)
    ensures
        opt_view(r) == path_extension(name@),
{
    match std::path::Path::new(name).extension() {
        Some(e) => Some(e.to_string_lossy().into_owned()),
        None => None,
    }
}

/// The extension of the shared libraries of a system.
pub open spec fn native_extension(os: HostOs) -> Seq<char> {
    match os {
        HostOs::Linux => "so"@,
        HostOs::Windows => "dll"@,
        HostOs::Osx => "dylib"@,
    }
}

/// Whether an extension is the host system's shared library extension.
pub fn is_native_extension(ext: &String, os: HostOs) -> (r: bool)
    ensures
        r == (ext@ == native_extension(os)),
{
    let native = match os {
        HostOs::Linux => "so".to_owned(),
        HostOs::Windows => "dll".to_owned(),
        HostOs::Osx => "dylib".to_owned(),
    };
    ext.eq(&native)
}

/// An archive entry is extracted when it is a shared library of the host's
/// system and is not at its destination yet.
pub open spec fn extracts(name: Seq<char>, os: HostOs, exists: bool) -> bool {
    !exists && (path_extension(name) matches Some(e) && e == native_extension(os))
}

/// Whether to extract an entry of a native archive, given whether its
/// destination already exists.
pub fn should_extract(name: &str, os: HostOs, exists: bool) -> (r: bool)
    ensures
        r == extracts(name@, os, exists),
{
    if exists {
        return false;
    }
    match extension_of(name) {
        Some(ext) => is_native_extension(&ext, os),
        None => false,
    }
}

/// Extracting again what is already in place writes nothing.
pub proof fn lemma_extraction_idempotent(name: Seq<char>, os: HostOs)
    ensures
        !extracts(name, os, true),
{
}

/// The positions of the failed tasks, in order.
pub open spec fn failed_indices(outcomes: Seq<Option<String>>) -> Seq<int>
    decreases outcomes.len(),
{
    if outcomes.len() == 0 {
        Seq::empty()
    } else if outcomes.last() is Some {
        failed_indices(outcomes.drop_last()).push(outcomes.len() - 1)
    } else {
        failed_indices(outcomes.drop_last())
    }
}

/// Joins the outcomes of the synchronisation tasks (none for a success, the
/// cause for a failure): ready when every task succeeded, else failed with
/// the position of every failed task.
pub fn join_outcomes(outcomes: &Vec<Option<String>>) -> (r: Result<(), Vec<usize>>)
    ensures
        r is Ok <==> failed_indices(outcomes@).len() == 0,
        r matches Err(v) ==> v@.map_values(|i: usize| i as int) == failed_indices(outcomes@),
{
    let mut failed: Vec<usize> = Vec::new();
    let mut i: usize = 0;
    while i < outcomes.len()
        invariant
            i <= outcomes@.len(),
            failed@.map_values(|k: usize| k as int) == failed_indices(outcomes@.subrange(0, i as int)),
        decreases outcomes@.len() - i,
    {
        assert(outcomes@.subrange(0, i + 1).drop_last() =~= outcomes@.subrange(0, i as int));
        if outcomes[i].is_some() {
            failed.push(i);
        }
        assert(failed@.map_values(|k: usize| k as int) =~= failed_indices(outcomes@.subrange(0, i + 1)));
        i = i + 1;
    }
    assert(outcomes@.subrange(0, i as int) =~= outcomes@);
    if failed.len() == 0 {
        Ok(())
    } else {
        Err(failed)
    }
}

impl Instance {
    /// The client jar's job.
    pub fn client_job(&self) -> (r: ArtifactJob)
        ensures
            job_view(r) == (
                self.profile.downloads.client.url@,
                self.profile.downloads.client.sha1@,
                self.jar_path@,
                false,
            ),
    {
        ArtifactJob {
            url: self.profile.downloads.client.url.clone(),
            sha1: self.profile.downloads.client.sha1.clone(),
            path: self.jar_path.clone(),
            natives: false,
        }
    }

    /// The asset index's job: `<id>.json` in the asset indexes directory;
    /// none when the index has no id.
    pub fn asset_index_job(&self) -> (r: Option<ArtifactJob>)
        ensures
            r is Some <==> self.profile.asset_index.id is Some,
            r matches Some(j) ==> job_view(j) == (
                self.profile.asset_index.url@,
                self.profile.asset_index.sha1@,
                join(self.dir.asset_indexes@, self.profile.asset_index.id->Some_0@ + ".json"@),
                false,
            ),
    {
        match &self.profile.asset_index.id {
            Some(id) => {
                let mut name = id.clone();
                name.append(".json");
                let path = join_path(&self.dir.asset_indexes, name.as_str());
                Some(ArtifactJob {
                    url: self.profile.asset_index.url.clone(),
                    sha1: self.profile.asset_index.sha1.clone(),
                    path,
                    natives: false,
                })
            },
            None => None,
        }
    }

    /// Every artifact a launch needs: the client jar, the active libraries'
    /// jars and native archives, then every asset object below
    /// `<assets>/objects`. An error names an asset hash too short to place.
    pub fn required_jobs(&self) -> (r: Result<Vec<ArtifactJob>, String>)
        ensures
            r is Ok <==> forall|k: int| 0 <= k < self.asset_index.objects@.len() ==> (#[trigger] self.asset_index.objects@[k]).1.hash@.len() >= 2,
            r matches Ok(v) ==> jobs_view(v@) == seq![
                (self.profile.downloads.client.url@, self.profile.downloads.client.sha1@, self.jar_path@, false),
            ] + libraries_jobs(self.profile.libraries@, self.dir.libraries@, self.host)
                + self.asset_index.objects@.map_values(
                |o: (String, crate::asset_index::Entry)| asset_job(o.1.hash@, join(self.assets_dir@, "objects"@)),
            ),
    {
        let objects_dir = join_path(&self.assets_dir, "objects");
        let assets = match asset_jobs(&self.asset_index.objects, &objects_dir) {
            Ok(a) => a,
            Err(h) => return Err(h),
        };
        let mut jobs: Vec<ArtifactJob> = Vec::new();
        jobs.push(self.client_job());
        let mut libs = library_jobs(&self.profile.libraries, &self.dir.libraries, &self.host);
        let mut assets = assets;
        let ghost j0 = jobs_view(jobs@);
        let ghost l0 = jobs_view(libs@);
        let ghost a0 = jobs_view(assets@);
        jobs.append(&mut libs);
        jobs.append(&mut assets);
        assert(jobs_view(jobs@) =~= j0 + l0 + a0);
        Ok(jobs)
    }
}

} // verus!
