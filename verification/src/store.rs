//! The durable ordered map that holds the ledger's records.
//!
//! Records live in a B-tree of `ic_stable_structures`, keyed by the identity
//! they belong to and held as bytes.

use vstd::prelude::*;

use ic_stable_structures::memory_manager::MemoryId;
use ic_stable_structures::memory_manager::MemoryManager;
use ic_stable_structures::memory_manager::VirtualMemory;
use ic_stable_structures::BTreeMap;
use ic_stable_structures::DefaultMemoryImpl;

verus! {

/// A durable map from identities to stored records.
#[verifier::external_body]
pub struct RecordMap {
    inner: BTreeMap<candid::Principal, Vec<u8>, VirtualMemory<DefaultMemoryImpl>>,
}

/// What a map holds: the stored bytes under the bytes of each identity.
pub uninterp spec fn records(map: RecordMap) -> Map<Seq<u8>, Seq<u8>>;

/// `MemoryManager::init` on the default memory, `MemoryManager::get` for the
/// memories 0 and 1, and `BTreeMap::init` on each of them. A map found in a
/// memory is loaded, so nothing is known of what the two maps hold.
#[verifier::external_body]
pub(crate) fn open_record_maps() -> (maps: (RecordMap, RecordMap)) {
    let manager = MemoryManager::init(DefaultMemoryImpl::default());
    let first = RecordMap { inner: BTreeMap::init(manager.get(MemoryId::new(0))) };
    let second = RecordMap { inner: BTreeMap::init(manager.get(MemoryId::new(1))) };
    (first, second)
}

/// `BTreeMap::get`: the value stored under the key, if there is one.
#[verifier::external_body]
pub(crate) fn record_get(map: &RecordMap, key: &Vec<u8>) -> (found: Option<Vec<u8>>)
    requires
        key@.len() <= 29,
    ensures
        match found {
            Some(value) => records(*map).contains_key(key@) && records(*map)[key@] == value@,
            None => !records(*map).contains_key(key@),
        },
{
    map.inner.get(&candid::Principal::from_slice(key))
}

/// `BTreeMap::contains_key`: whether a value is stored under the key.
#[verifier::external_body]
pub(crate) fn record_contains_key(map: &RecordMap, key: &Vec<u8>) -> (found: bool)
    requires
        key@.len() <= 29,
    ensures
        found == records(*map).contains_key(key@),
{
    map.inner.contains_key(&candid::Principal::from_slice(key))
}

/// `BTreeMap::insert`: stores the value under the key, in place of what was
/// stored there, and leaves the other keys as they were.
#[verifier::external_body]
pub(crate) fn record_insert(map: &mut RecordMap, key: &Vec<u8>, value: Vec<u8>)
    requires
        key@.len() <= 29,
    ensures
        records(*final(map)) == records(*old(map)).insert(key@, value@),
{
    map.inner.insert(candid::Principal::from_slice(key), value);
}

/// `BTreeMap::remove`: takes out what is stored under the key, if anything,
/// and leaves the other keys as they were.
#[verifier::external_body]
pub(crate) fn record_remove(map: &mut RecordMap, key: &Vec<u8>)
    requires
        key@.len() <= 29,
    ensures
        records(*final(map)) == records(*old(map)).remove(key@),
{
    map.inner.remove(&candid::Principal::from_slice(key));
}

} // verus!
