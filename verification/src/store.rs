//! Versioned byte store shared by the refresh coordinator and every worker.
//!
//! The store holds one well-known entry: the current database blob and an
//! opaque version token. The coordinator is the only writer; workers read
//! snapshots and compare version tokens to detect a newer blob. Writes are
//! atomic: a `set` either replaces bytes and version entirely or, when the
//! caller supplied a stale expected version, leaves the store untouched and
//! reports a conflict.

use vstd::prelude::*;

verus! {

/// Mathematical model of the store: the bytes last committed, if any, and
/// the version token under which they were committed.
pub struct StoreModel {
    pub value: Option<Seq<u8>>,
    pub version: u64,
}

/// The version token that a successful write installs after `v`.
pub open spec fn next_version(v: u64) -> u64 {
    if v == u64::MAX {
        0
    } else {
        (v + 1) as u64
    }
}

/// One `set` over the model: the store afterwards, and whether the write took.
pub open spec fn set_step(pre: StoreModel, bytes: Seq<u8>, expected: Option<u64>) -> (
    StoreModel,
    bool,
) {
    if expected matches Some(v) && v != pre.version {
        (pre, false)
    } else {
        (StoreModel { value: Some(bytes), version: next_version(pre.version) }, true)
    }
}

/// Returned by `set` when the expected version no longer matches the store.
pub struct Conflict;

/// The shared store. One logical entry under a well-known key; every reader
/// observes either "absent" or a byte sequence that was committed in full.
pub struct SharedStore {
    value: Option<Vec<u8>>,
    version: u64,
}

impl View for SharedStore {
    type V = StoreModel;

    closed spec fn view(&self) -> StoreModel {
        StoreModel {
            value: match self.value {
                Some(v) => Some(v@),
                None => None,
            },
            version: self.version,
        }
    }
}

impl SharedStore {
    /// A store that has never been written.
    pub fn new() -> (s: SharedStore)
        ensures
            s@.value is None,
            s@.version == 0,
    {
        SharedStore { value: None, version: 0 }
    }

    /// A snapshot read: the current bytes, if any, and the version token.
    /// Never blocks and never observes a torn write.
    pub fn get(&self) -> (r: (Option<&Vec<u8>>, u64))
        ensures
            (match r.0 {
                Some(b) => self@.value == Some(b@),
                None => self@.value is None,
            }),
            r.1 == self@.version,
    {
        (self.value.as_ref(), self.version)
    }

    /// An atomic write. With no expected version the write is unconditional;
    /// with one, it takes effect only while the store still carries that
    /// version, and otherwise returns `Conflict` leaving the store untouched.
    pub fn set(&mut self, bytes: Vec<u8>, expected_version: Option<u64>) -> (r: Result<
        (),
        Conflict,
    >)
        ensures
            final(self)@ == set_step(old(self)@, bytes@, expected_version).0,
            r is Ok == set_step(old(self)@, bytes@, expected_version).1,
    {
        if let Some(v) = expected_version {
            if v != self.version {
                return Err(Conflict);
            }
        }
        self.version = if self.version == u64::MAX {
            0
        } else {
            self.version + 1
        };
        self.value = Some(bytes);
        Ok(())
    }
}

/// Law: repeating a `set` of the same bytes with no expected version is safe
/// and leaves the same readable bytes as the first write.
pub proof fn lemma_set_idempotent(pre: StoreModel, bytes: Seq<u8>)
    ensures
        set_step(pre, bytes, None).1,
        set_step(set_step(pre, bytes, None).0, bytes, None).1,
        set_step(set_step(pre, bytes, None).0, bytes, None).0.value == set_step(
            pre,
            bytes,
            None,
        ).0.value,
{
}

/// Law: a `set` carrying a stale expected version never mutates the store
/// and does not take effect.
pub proof fn lemma_stale_cas_rejected(pre: StoreModel, bytes: Seq<u8>, expected: u64)
    requires
        expected != pre.version,
    ensures
        set_step(pre, bytes, Some(expected)).0 == pre,
        !set_step(pre, bytes, Some(expected)).1,
{
}

} // verus!
