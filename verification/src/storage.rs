//! The durable ordered map that holds the encoded tasks.

use ic_stable_structures::{DefaultMemoryImpl, StableBTreeMap};
use vstd::prelude::*;

verus! {

/// The map from task id to encoded task: a `StableBTreeMap` of `ic_stable_structures`
/// over the default memory. Verus sees nothing inside it; `stored` names what it holds, and
/// the functions below are the only way in.
#[verifier::external_body]
pub struct Records {
    inner: StableBTreeMap<u64, Vec<u8>, DefaultMemoryImpl>,
}

/// What a map holds: the bytes stored under each key.
pub uninterp spec fn stored(records: Records) -> Map<u64, Seq<u8>>;

/// `StableBTreeMap::new` over `DefaultMemoryImpl::default()`: the map it returns holds
/// nothing, whatever the memory held before.
#[verifier::external_body]
pub(crate) fn empty_records() -> (fresh: Records)
    ensures
        stored(fresh).dom() == Set::<u64>::empty(),
{
    Records { inner: StableBTreeMap::new(DefaultMemoryImpl::default()) }
}

/// `StableBTreeMap::init` over `DefaultMemoryImpl::default()`: the map that the memory
/// already holds, or a new one where it holds none. What the map holds depends on the
/// memory, so nothing is said of it.
#[verifier::external_body]
pub(crate) fn kept_records() -> (kept: Records) {
    Records { inner: StableBTreeMap::init(DefaultMemoryImpl::default()) }
}

/// `StableBTreeMap::get`: the bytes stored under `id`, if any.
#[verifier::external_body]
pub(crate) fn lookup(records: &Records, id: u64) -> (found: Option<Vec<u8>>)
    ensures
        match found {
            Some(bytes) => stored(*records).contains_key(id) && stored(*records)[id] == bytes@,
            None => !stored(*records).contains_key(id),
        },
{
    records.inner.get(&id)
}

/// `StableBTreeMap::insert`: stores `bytes` under `id` and hands back what was stored there
/// before. The map records the length of a value in 32 bits, so longer values are left out.
/// It stops the program when the memory cannot grow.
#[verifier::external_body]
pub(crate) fn put(records: &mut Records, id: u64, bytes: Vec<u8>) -> (before: Option<Vec<u8>>)
    requires
        bytes@.len() <= u32::MAX,
    ensures
        stored(*final(records)) == stored(*old(records)).insert(id, bytes@),
        match before {
            Some(b) => stored(*old(records)).contains_key(id) && stored(*old(records))[id] == b@,
            None => !stored(*old(records)).contains_key(id),
        },
{
    records.inner.insert(id, bytes)
}

/// `StableBTreeMap::remove`: drops the entry under `id` and hands back what was stored there.
#[verifier::external_body]
pub(crate) fn take(records: &mut Records, id: u64) -> (before: Option<Vec<u8>>)
    ensures
        stored(*final(records)) == stored(*old(records)).remove(id),
        match before {
            Some(b) => stored(*old(records)).contains_key(id) && stored(*old(records))[id] == b@,
            None => !stored(*old(records)).contains_key(id),
        },
{
    records.inner.remove(&id)
}

/// `StableBTreeMap::iter`, collected into a vector: every entry of the map, once, by rising
/// key.
#[verifier::external_body]
pub(crate) fn entries(records: &Records) -> (all: Vec<(u64, Vec<u8>)>)
    ensures
        forall|i: int, j: int| 0 <= i < j < all@.len() ==> all@[i].0 < all@[j].0,
        forall|i: int|
            0 <= i < all@.len() ==> stored(*records).contains_key(#[trigger] all@[i].0)
                && stored(*records)[all@[i].0] == all@[i].1@,
        forall|id: u64| #[trigger]
            stored(*records).contains_key(id) ==> exists|i: int|
                0 <= i < all@.len() && all@[i].0 == id,
{
    records.inner.iter().collect()
}

} // verus!
