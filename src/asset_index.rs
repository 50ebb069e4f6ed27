//! The asset index: every loose asset object a version needs, by logical path.
use vstd::prelude::*;
use vstd::string::StrSliceExecFns;

verus! {

/// The hash and size of one asset object.
#[derive(Clone, Debug)]
pub struct Entry {
    pub hash: String,
    pub size: i32,
}

/// The asset objects of a version: logical path and entry, each path once.
#[derive(Clone, Debug)]
pub struct AssetIndex {
    pub objects: Vec<(String, Entry)>,
}

impl AssetIndex {
    /// Each logical path is listed once.
    pub open spec fn wf(self) -> bool {
        forall|i: int, j: int|
            0 <= i < j < self.objects@.len() ==> (#[trigger] self.objects@[i]).0@ != (#[trigger] self.objects@[j]).0@
    }

    /// Whether each logical path is listed once.
    pub fn has_unique_paths(&self) -> (r: bool)
        ensures
            r == self.wf(),
    {
        let mut j: usize = 0;
        while j < self.objects.len()
            invariant
                j <= self.objects@.len(),
                forall|a: int, b: int|
                    0 <= a < b < j ==> (#[trigger] self.objects@[a]).0@ != (#[trigger] self.objects@[b]).0@,
            decreases self.objects@.len() - j,
        {
            let mut i: usize = 0;
            while i < j
                invariant
                    i <= j < self.objects@.len(),
                    forall|a: int| 0 <= a < i ==> (#[trigger] self.objects@[a]).0@ != self.objects@[j as int].0@,
                decreases j - i,
            {
                if self.objects[i].0.eq(&self.objects[j].0) {
                    return false;
                }
                i = i + 1;
            }
            j = j + 1;
        }
        true
    }
}

/// Where an object lies below the objects root and on the download server:
/// its hash's first two characters, a slash, and the hash.
pub open spec fn doublehash_of(hash: Seq<char>) -> Seq<char> {
    hash.subrange(0, 2) + "/"@ + hash
}

/// The doublehash path of an object; none when the hash is shorter than two
/// characters.
pub fn doublehash(hash: &String) -> (r: Option<String>)
    ensures
        r is Some <==> hash@.len() >= 2,
        r matches Some(d) ==> d@ == doublehash_of(hash@),
{
    let h = hash.as_str();
    if h.unicode_len() < 2 {
        return None;
    }
    let mut d = h.substring_char(0, 2).to_owned();
    d.append("/");
    d.append(h);
    Some(d)
}

} // verus!
