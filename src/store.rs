//! The content store: bytes filed under their strong hash, and an index from
//! locators to the hash of what was last fetched from them. The store decides;
//! the caller reads, writes and downloads.
use vstd::prelude::*;
use crate::hashing::{content_hash, strong_hash};

verus! {

/// What a stored item is looked up or saved by.
#[derive(Clone, Debug)]
pub enum StoreInput {
    Sha512(String),
    URL(String),
}

/// Where an item lies in the store, and its hash.
#[derive(Clone, Debug)]
pub struct StoreOutput {
    pub path: String,
    pub sha512: String,
}

#[derive(Clone, Copy, Debug, PartialEq, Eq, Structural)]
pub enum GetError {
    /// The stored bytes do not hash to the name they are filed under.
    CorruptedFile,
    /// The locator has no entry in the index.
    URLNotInCache,
}

impl GetError {
    pub fn message(&self) -> (r: String)
        ensures
            *self == GetError::CorruptedFile ==> r@ == "File in store is corrupted"@,
            *self == GetError::URLNotInCache ==> r@ == "Requested URL not in cache"@,
    {
        match self {
            GetError::CorruptedFile => "File in store is corrupted".to_owned(),
            GetError::URLNotInCache => "Requested URL not in cache".to_owned(),
        }
    }
}

/// The path of the item filed under a hash, below the store's root.
pub open spec fn path_for(base: Seq<char>, hash: Seq<char>) -> Seq<char> {
    base + "/"@ + hash
}

pub fn store_path(base: &String, hash: &String) -> (r: String)
    ensures
        r@ == path_for(base@, hash@),
{
    let mut path = base.clone();
    path.append("/");
    path.append(hash.as_str());
    path
}

/// What the index maps to after a run of insertions: the last one for each
/// locator wins.
pub open spec fn index_map(entries: Seq<(String, String)>) -> Map<Seq<char>, Seq<char>>
    decreases entries.len(),
{
    if entries.len() == 0 {
        Map::empty()
    } else {
        index_map(entries.drop_last()).insert(entries.last().0@, entries.last().1@)
    }
}

/// The locator index: which hash the content last fetched from each locator has.
#[derive(Clone, Debug)]
pub struct UrlCache {
    entries: Vec<(String, String)>,
}

impl View for UrlCache {
    type V = Map<Seq<char>, Seq<char>>;

    closed spec fn view(&self) -> Map<Seq<char>, Seq<char>> {
        index_map(self.entries@)
    }
}

impl UrlCache {
    pub fn new() -> (r: UrlCache)
        ensures
            r@ == Map::<Seq<char>, Seq<char>>::empty(),
    {
        UrlCache { entries: Vec::new() }
    }

    /// The hash recorded for a locator, if any.
    pub fn get(&self, url: &String) -> (r: Option<String>)
        ensures
            r is Some <==> self@.contains_key(url@),
            r matches Some(h) ==> h@ == self@[url@],
    {
        let mut found: Option<String> = None;
        let mut i: usize = 0;
        while i < self.entries.len()
            invariant
                i <= self.entries@.len(),
                found is Some <==> index_map(self.entries@.subrange(0, i as int)).contains_key(url@),
                found matches Some(h) ==> h@ == index_map(self.entries@.subrange(0, i as int))[url@],
            decreases self.entries@.len() - i,
        {
            assert(self.entries@.subrange(0, i + 1).drop_last() =~= self.entries@.subrange(0, i as int));
            if self.entries[i].0.eq(url) {
                found = Some(self.entries[i].1.clone());
            }
            i = i + 1;
        }
        assert(self.entries@.subrange(0, i as int) =~= self.entries@);
        found
    }

    /// Records that the content fetched from `url` has hash `hash`.
    pub fn insert(&mut self, url: String, hash: String)
        ensures
            final(self)@ == old(self)@.insert(url@, hash@),
    {
        self.entries.push((url, hash));
        assert(self.entries@.drop_last() =~= old(self).entries@);
    }

    /// The entries to persist, oldest first; loading them back with `insert`
    /// in this order gives the same index.
    pub fn entries(&self) -> (r: &Vec<(String, String)>)
        ensures
            index_map(r@) == self@,
    {
        &self.entries
    }
}

/// The hashes to look the content up by, in order: the expected hash if one is
/// given, then the hash the index records for the locator if there is one.
pub open spec fn lookup_hashes(
    index: Map<Seq<char>, Seq<char>>,
    expected: Option<Seq<char>>,
    url: Seq<char>,
) -> Seq<Seq<char>> {
    (match expected {
        Some(h) => seq![h],
        None => Seq::empty(),
    }) + (if index.contains_key(url) {
        seq![index[url]]
    } else {
        Seq::empty()
    })
}

/// The view of an optional string.
pub open spec fn opt_view(o: Option<String>) -> Option<Seq<char>> {
    match o {
        Some(s) => Some(s@),
        None => None,
    }
}

/// The stored bytes are intact: they hash to the name they are filed under.
pub open spec fn content_valid(hash: Seq<char>, data: Seq<u8>) -> bool {
    strong_hash(data) == hash
}

/// The hash content is filed under when it is saved: the expected hash, or for
/// content saved by locator its own hash.
pub open spec fn saved_hash(input: StoreInput, data: Seq<u8>) -> Seq<char> {
    match input {
        StoreInput::Sha512(h) => h@,
        StoreInput::URL(_) => strong_hash(data),
    }
}

/// Resolves what to look up to the record it names: a hash names its own
/// record; a locator names the record of the hash the index holds for it.
pub fn get(base: &String, index: &UrlCache, input: StoreInput) -> (r: Result<StoreOutput, GetError>)
    ensures
        match input {
            StoreInput::Sha512(h) => r matches Ok(o) && o.sha512@ == h@,
            StoreInput::URL(u) => match r {
                Ok(o) => index@.contains_key(u@) && o.sha512@ == index@[u@],
                Err(e) => !index@.contains_key(u@) && e == GetError::URLNotInCache,
            },
        },
        r matches Ok(o) ==> o.path@ == path_for(base@, o.sha512@),
{
    let sha512 = match input {
        StoreInput::Sha512(hash) => hash,
        StoreInput::URL(url) => match index.get(&url) {
            Some(hash) => hash,
            None => return Err(GetError::URLNotInCache),
        },
    };
    let path = store_path(base, &sha512);
    Ok(StoreOutput { path, sha512 })
}

/// Checks bytes read from the store against the hash they are filed under.
pub fn verify_content(record: &StoreOutput, data: &Vec<u8>) -> (r: Result<(), GetError>)
    ensures
        r is Ok <==> content_valid(record.sha512@, data@),
        r matches Err(e) ==> e == GetError::CorruptedFile,
{
    let hash = content_hash(data);
    if hash.eq(&record.sha512) {
        Ok(())
    } else {
        Err(GetError::CorruptedFile)
    }
}

/// Content filed under an expected hash must have that hash.
#[derive(Clone, Copy, Debug, PartialEq, Eq, Structural)]
pub struct HashMismatch;

/// Whether content may be filed as asked: by its locator always, under an
/// expected hash only when that is the content's own hash.
pub open spec fn save_accepts(input: StoreInput, data: Seq<u8>) -> bool {
    match input {
        StoreInput::Sha512(h) => strong_hash(data) == h@,
        StoreInput::URL(_) => true,
    }
}

/// Files content in the store: decides its hash and path and, for content
/// saved by locator, records the locator's hash in the index. Content whose
/// hash differs from the expected one is refused. The caller writes the bytes
/// to the returned path.
pub fn save(base: &String, index: &mut UrlCache, data: &Vec<u8>, input: StoreInput) -> (r: Result<StoreOutput, HashMismatch>)
    ensures
        r is Ok <==> save_accepts(input, data@),
        r matches Ok(o) ==> o.sha512@ == saved_hash(input, data@) && o.sha512@ == strong_hash(data@)
            && o.path@ == path_for(base@, o.sha512@),
        match input {
            StoreInput::Sha512(_) => final(index)@ == old(index)@,
            StoreInput::URL(u) => final(index)@ == old(index)@.insert(u@, strong_hash(data@)),
        },
{
    let hash = content_hash(data);
    let sha512 = match input {
        StoreInput::Sha512(expected) => {
            if !hash.eq(&expected) {
                return Err(HashMismatch);
            }
            expected
        },
        StoreInput::URL(url) => {
            index.insert(url, hash.clone());
            hash
        },
    };
    let path = store_path(base, &sha512);
    Ok(StoreOutput { path, sha512 })
}

/// The records a fetch tries in the store before it downloads, in order.
pub fn fetch_candidates(base: &String, index: &UrlCache, expected: &Option<String>, url: &String) -> (r: Vec<StoreOutput>)
    ensures
        r@.len() == lookup_hashes(index@, opt_view(*expected), url@).len(),
        forall|i: int| 0 <= i < r@.len() ==> #[trigger] r@[i].sha512@ == lookup_hashes(index@, opt_view(*expected), url@)[i]
            && r@[i].path@ == path_for(base@, r@[i].sha512@),
{
    let mut r: Vec<StoreOutput> = Vec::new();
    if let Some(h) = expected {
        let path = store_path(base, h);
        r.push(StoreOutput { path, sha512: h.clone() });
    }
    if let Some(h) = index.get(url) {
        let path = store_path(base, &h);
        r.push(StoreOutput { path, sha512: h });
    }
    r
}

/// The input a downloaded item is saved by: its expected hash when one was
/// given, else its locator, so that the index learns the locator.
pub fn download_input(expected: Option<String>, url: String) -> (r: StoreInput)
    ensures
        match expected {
            Some(h) => r matches StoreInput::Sha512(x) && x == h,
            None => r matches StoreInput::URL(x) && x == url,
        },
{
    match expected {
        Some(h) => StoreInput::Sha512(h),
        None => StoreInput::URL(url),
    }
}

/// The views of the hashes of some records.
pub open spec fn hashes_of(records: Seq<StoreOutput>) -> Seq<Seq<char>> {
    records.map_values(|o: StoreOutput| o.sha512@)
}

/// The views of what reading some records gave: bytes, or nothing where the
/// record was missing.
pub open spec fn reads_of(reads: Seq<Option<Vec<u8>>>) -> Seq<Option<Seq<u8>>> {
    reads.map_values(|o: Option<Vec<u8>>| match o {
        Some(v) => Some(v@),
        None => None,
    })
}

/// The first record, from `from` on, whose read gave intact bytes.
pub open spec fn first_intact(hashes: Seq<Seq<char>>, reads: Seq<Option<Seq<u8>>>, from: int) -> Option<int>
    decreases hashes.len() - from,
{
    if from < 0 || from >= hashes.len() || from >= reads.len() {
        None
    } else if reads[from] matches Some(d) && content_valid(hashes[from], d) {
        Some(from)
    } else {
        first_intact(hashes, reads, from + 1)
    }
}

/// Picks the first candidate whose stored bytes were read and are intact; none
/// means the content has to be downloaded. `reads[i]` is what reading
/// `records[i]` gave.
pub fn choose_stored(records: &Vec<StoreOutput>, reads: &Vec<Option<Vec<u8>>>) -> (r: Option<usize>)
    ensures
        r matches Some(i) ==> i < records@.len() && i < reads@.len(),
        match r {
            Some(i) => first_intact(hashes_of(records@), reads_of(reads@), 0) == Some(i as int),
            None => first_intact(hashes_of(records@), reads_of(reads@), 0) is None,
        },
{
    let ghost hs = hashes_of(records@);
    let ghost rs = reads_of(reads@);
    let mut i: usize = 0;
    while i < records.len() && i < reads.len()
        invariant
            i <= records@.len(),
            hs == hashes_of(records@),
            rs == reads_of(reads@),
            first_intact(hs, rs, 0) == first_intact(hs, rs, i as int),
        decreases records@.len() - i,
    {
        if let Some(data) = &reads[i] {
            if verify_content(&records[i], data).is_ok() {
                return Some(i);
            }
        }
        assert(first_intact(hs, rs, i as int) == first_intact(hs, rs, i + 1));
        i = i + 1;
    }
    None
}

/// Whatever the store accepts is filed under its own hash, so reading it back
/// from its path and hashing it gives the name it is filed under.
pub proof fn lemma_saved_content_intact(data: Seq<u8>, input: StoreInput)
    requires
        save_accepts(input, data),
    ensures
        content_valid(saved_hash(input, data), data),
{
}

/// Once content fetched from a locator has been saved by that locator, a fetch
/// of the locator without an expected hash looks up exactly that content and
/// finds it intact: it needs no download.
pub proof fn lemma_locator_indirection(
    index: Map<Seq<char>, Seq<char>>,
    url: Seq<char>,
    data: Seq<u8>,
    reads: Seq<Option<Seq<u8>>>,
)
    requires
        reads.len() >= 1,
        reads[0] == Some(data),
    ensures
        lookup_hashes(index.insert(url, strong_hash(data)), None, url) == seq![strong_hash(data)],
        first_intact(lookup_hashes(index.insert(url, strong_hash(data)), None, url), reads, 0) == Some(0int),
{
    let hs = lookup_hashes(index.insert(url, strong_hash(data)), None, url);
    assert(hs =~= seq![strong_hash(data)]);
}

/// Fetching twice with no change of content downloads at most once: whatever
/// the first fetch downloaded and saved, the second one finds first among its
/// candidates, under the same hash, when the expected hash (if any) is the
/// content's own.
pub proof fn lemma_fetch_idempotent(
    index: Map<Seq<char>, Seq<char>>,
    expected: Option<Seq<char>>,
    url: Seq<char>,
    data: Seq<u8>,
    reads: Seq<Option<Seq<u8>>>,
)
    requires
        expected matches Some(h) ==> h == strong_hash(data),
        reads.len() >= 1,
        reads[0] == Some(data),
    ensures
        ({
            let after = match expected {
                Some(_) => index,
                None => index.insert(url, strong_hash(data)),
            };
            let hs = lookup_hashes(after, expected, url);
            hs.len() >= 1 && hs[0] == strong_hash(data) && first_intact(hs, reads, 0) == Some(0int)
        }),
{
    let after = match expected {
        Some(_) => index,
        None => index.insert(url, strong_hash(data)),
    };
    let hs = lookup_hashes(after, expected, url);
    assert(hs[0] == strong_hash(data));
}

} // verus!
