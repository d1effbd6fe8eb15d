//! Where each claimed variant is stored under the cache root:
//! `<hash>/spotify/<tier>.<extension>`.

use vstd::prelude::*;
use vstd::string::*;

use crate::format::{extension_of, get_extension, FormatLabel};
use crate::resolve::is_id_char;
use crate::select::{TierAssignment, TierLabel};

verus! {

/// Why a storage location could not be formed.
#[derive(Clone, Copy, PartialEq, Eq, Structural, Debug)]
pub enum StoreError {
    /// The content hash is empty or holds a character other than an ASCII
    /// letter, digit, `-` or `_`, so it could escape its directory.
    InvalidHash,
}

/// A character allowed in a content hash.
pub open spec fn is_hash_char(c: char) -> bool {
    is_id_char(c) || c == '-' || c == '_'
}

/// A content hash that is safe to use as one directory name.
pub open spec fn valid_hash(h: Seq<char>) -> bool {
    h.len() > 0 && forall|i: int| 0 <= i < h.len() ==> is_hash_char(#[trigger] h[i])
}

/// Whether `hash` may name a cache directory.
pub fn is_valid_hash(hash: &str) -> (r: bool)
    ensures
        r == valid_hash(hash@),
{
    let n = hash.unicode_len();
    if n == 0 {
        return false;
    }
    let mut i: usize = 0;
    while i < n
        invariant
            n == hash@.len(),
            i <= n,
            forall|j: int| 0 <= j < i ==> is_hash_char(#[trigger] hash@[j]),
        decreases n - i,
    {
        let c = hash.get_char(i);
        let ok = ('a' <= c && c <= 'z') || ('A' <= c && c <= 'Z') || ('0' <= c && c <= '9') || c == '-' || c == '_';
        if !ok {
            return false;
        }
        i = i + 1;
    }
    true
}

/// The directory, relative to the cache root, that holds a request's files.
pub open spec fn artifact_dir_spec(hash: Seq<char>) -> Seq<char> {
    hash + "/spotify"@
}

/// The name of the file that holds a tier's variant.
pub open spec fn artifact_file_spec(tier: TierLabel, format: FormatLabel) -> Seq<char> {
    tier.name_spec() + "."@ + extension_of(format)
}

/// The file, relative to the cache root, that holds a tier's variant.
pub open spec fn artifact_path_spec(hash: Seq<char>, tier: TierLabel, format: FormatLabel) -> Seq<char> {
    artifact_dir_spec(hash) + "/"@ + artifact_file_spec(tier, format)
}

/// The directory for the content hash `hash`, relative to the cache root.
pub fn artifact_dir(hash: &str) -> (r: Result<String, StoreError>)
    ensures
        valid_hash(hash@) ==> r is Ok && r->Ok_0@ == artifact_dir_spec(hash@),
        !valid_hash(hash@) ==> r == Err::<String, StoreError>(StoreError::InvalidHash),
{
    if !is_valid_hash(hash) {
        return Err(StoreError::InvalidHash);
    }
    Ok(String::from_str(hash).concat("/spotify"))
}

/// The name of the file that holds `tier` stored as `format`.
pub fn artifact_file_name(tier: TierLabel, format: FormatLabel) -> (r: String)
    ensures
        r@ == artifact_file_spec(tier, format),
{
    String::from_str(tier.name()).concat(".").concat(get_extension(format))
}

/// The file for `tier` stored as `format` under the content hash `hash`,
/// relative to the cache root. The same inputs always give the same file, so
/// a repeated request overwrites its earlier result.
pub fn artifact_path(hash: &str, tier: TierLabel, format: FormatLabel) -> (r: Result<String, StoreError>)
    ensures
        valid_hash(hash@) ==> r is Ok && r->Ok_0@ == artifact_path_spec(hash@, tier, format),
        !valid_hash(hash@) ==> r == Err::<String, StoreError>(StoreError::InvalidHash),
{
    let dir = artifact_dir(hash)?;
    let file = artifact_file_name(tier, format);
    Ok(dir.concat("/").concat(file.as_str()))
}


/// One file to write: a tier's claimed variant and where it goes.
pub struct StoreJob {
    pub tier: TierLabel,
    pub format: FormatLabel,
    /// The file, relative to the cache root.
    pub path: String,
}

/// The tiers that claimed a format, with that format, in tier order.
pub open spec fn claimed_tiers(assignments: Seq<TierAssignment>) -> Seq<(TierLabel, FormatLabel)>
    decreases assignments.len(),
{
    if assignments.len() == 0 {
        seq![]
    } else {
        let rest = claimed_tiers(assignments.drop_last());
        match assignments.last().format {
            Some(f) => rest.push((assignments.last().tier, f)),
            None => rest,
        }
    }
}

/// The files to write for the assigned tiers under the content hash `hash`:
/// one per tier that claimed a format, in tier order.
pub fn store_jobs(hash: &str, assignments: &Vec<TierAssignment>) -> (r: Result<Vec<StoreJob>, StoreError>)
    ensures
        !valid_hash(hash@) ==> r is Err && r->Err_0 == StoreError::InvalidHash,
        valid_hash(hash@) ==> r is Ok && {
            let jobs = r->Ok_0@;
            &&& jobs.len() == claimed_tiers(assignments@).len()
            &&& forall|i: int| 0 <= i < jobs.len() ==> {
                &&& (#[trigger] jobs[i]).tier == claimed_tiers(assignments@)[i].0
                &&& jobs[i].format == claimed_tiers(assignments@)[i].1
                &&& jobs[i].path@ == artifact_path_spec(hash@, jobs[i].tier, jobs[i].format)
            }
        },
{
    if !is_valid_hash(hash) {
        return Err(StoreError::InvalidHash);
    }
    let mut jobs: Vec<StoreJob> = Vec::new();
    let mut i: usize = 0;
    while i < assignments.len()
        invariant
            valid_hash(hash@),
            i <= assignments@.len(),
            jobs@.len() == claimed_tiers(assignments@.subrange(0, i as int)).len(),
            forall|k: int| 0 <= k < jobs@.len() ==> {
                &&& (#[trigger] jobs@[k]).tier == claimed_tiers(assignments@.subrange(0, i as int))[k].0
                &&& jobs@[k].format == claimed_tiers(assignments@.subrange(0, i as int))[k].1
                &&& jobs@[k].path@ == artifact_path_spec(hash@, jobs@[k].tier, jobs@[k].format)
            },
        decreases assignments@.len() - i,
    {
        let ghost prev = assignments@.subrange(0, i as int);
        let ghost next = assignments@.subrange(0, i + 1);
        assert(next.drop_last() =~= prev);
        let a = assignments[i];
        match a.format {
            Some(f) => {
                match artifact_path(hash, a.tier, f) {
                    Ok(path) => {
                        jobs.push(StoreJob { tier: a.tier, format: f, path });
                    },
                    Err(_) => {
                        return Err(StoreError::InvalidHash);
                    },
                }
            },
            None => {},
        }
        i = i + 1;
    }
    assert(assignments@.subrange(0, assignments@.len() as int) =~= assignments@);
    Ok(jobs)
}

} // verus!
