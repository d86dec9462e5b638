//! Per-worker cache loader and readiness state machine.
//!
//! Each worker polls the shared store on its own timer, independently of
//! every other worker and of the coordinator. While pending it retries at a
//! fast cadence until a blob appears and decodes; once ready it widens the
//! cadence and only rebuilds its database when the store's version differs
//! from the one the current database was built from. A blob that fails to
//! decode never costs a worker a database it already has.

use vstd::prelude::*;

use crate::geodb::{db_blob, decode_ok, DecodeError, GeoDatabase};
use crate::host::Host;
use crate::store::SharedStore;

verus! {

/// Fast cadence, in milliseconds, while a worker still waits for a usable
/// blob; also the cadence of the first tick after startup.
pub const FAST_POLL_MS: u64 = 1000;

/// Steady cadence, in milliseconds, once a worker holds a database.
pub const READY_POLL_MS: u64 = 1000 * 60 * 30;

/// Readiness of one worker: no database yet, or a database decoded from the
/// blob that the store carried under `version`.
pub enum CacheState {
    Pending,
    Ready { db: GeoDatabase, version: u64 },
}

/// The state machine's model: a ready worker is the bytes its database was
/// decoded from and the version it read them under.
pub enum CacheModel {
    Pending,
    Ready { blob: Seq<u8>, version: u64 },
}

impl View for CacheState {
    type V = CacheModel;

    open spec fn view(&self) -> CacheModel {
        match *self {
            CacheState::Pending => CacheModel::Pending,
            CacheState::Ready { db, version } => CacheModel::Ready {
                blob: db_blob(db),
                version,
            },
        }
    }
}

/// One poll over the model, after reading `blob` at `version` from the store.
pub open spec fn poll_step(pre: CacheModel, blob: Option<Seq<u8>>, version: u64) -> CacheModel {
    match (pre, blob) {
        (CacheModel::Pending, None) => CacheModel::Pending,
        (CacheModel::Pending, Some(b)) => if decode_ok(b) {
            CacheModel::Ready { blob: b, version }
        } else {
            CacheModel::Pending
        },
        (CacheModel::Ready { .. }, None) => pre,
        (CacheModel::Ready { blob: b0, version: v0 }, Some(b)) => if version != v0 && decode_ok(
            b,
        ) {
            CacheModel::Ready { blob: b, version }
        } else {
            pre
        },
    }
}

/// What one poll observed, for the caller to log.
pub enum PollEvent {
    /// The store has never been written; the worker stays pending.
    Missing,
    /// A first database was decoded; the worker is now ready.
    Loaded,
    /// The blob refused to decode and the worker has no database yet.
    DecodeFailed(DecodeError),
    /// Nothing to rebuild: the store still carries the version the current
    /// database was built from, or went back to absent.
    Unchanged,
    /// A newer blob was decoded and replaced the database.
    Refreshed,
    /// A newer blob refused to decode; the previous database stays.
    RefreshFailed(DecodeError),
}

/// One worker's cache: its readiness state and the interval to its next poll.
pub struct WorkerCache {
    state: CacheState,
    poll_interval_ms: u64,
}

impl View for WorkerCache {
    type V = CacheModel;

    closed spec fn view(&self) -> CacheModel {
        self.state@
    }
}

impl WorkerCache {
    /// The interval, in milliseconds, until this worker's next poll.
    pub closed spec fn interval(&self) -> u64 {
        self.poll_interval_ms
    }

    /// A worker fresh out of root-context initialisation: pending, polling
    /// fast.
    pub fn new() -> (w: WorkerCache)
        ensures
            w@ is Pending,
            w.interval() == FAST_POLL_MS,
    {
        WorkerCache { state: CacheState::Pending, poll_interval_ms: FAST_POLL_MS }
    }

    /// Startup: schedule the first tick fast, to keep cold-start latency low.
    pub fn on_vm_start(&mut self) -> (r: bool)
        ensures
            final(self)@ == old(self)@,
            final(self).interval() == FAST_POLL_MS,
            r,
    {
        self.poll_interval_ms = FAST_POLL_MS;
        true
    }

    /// The worker's readiness, read once per request at context creation.
    pub fn state(&self) -> (s: &CacheState)
        ensures
            s@ == self@,
    {
        &self.state
    }

    /// The interval to the next poll, for the embedding host's timer.
    pub fn poll_interval_ms(&self) -> (r: u64)
        ensures
            r == self.interval(),
    {
        self.poll_interval_ms
    }

    /// One timer tick, fed the snapshot `blob` at `version` read from the
    /// shared store: decode when there is something new to decode, keep the
    /// previous database through every failure, and retune the poll cadence.
    pub fn on_poll(&mut self, blob: Option<&Vec<u8>>, version: u64) -> (ev: PollEvent)
        ensures
            final(self)@ == poll_step(old(self)@, blob_view(blob), version),
            final(self).interval() == (if final(self)@ is Ready {
                READY_POLL_MS
            } else {
                FAST_POLL_MS
            }),
            poll_event_fits(old(self)@, blob_view(blob), version, ev),
    {
        let prior_version: Option<u64> = match &self.state {
            CacheState::Pending => None,
            CacheState::Ready { version: v0, .. } => Some(*v0),
        };
        match blob {
            None => {
                match prior_version {
                    None => {
                        self.poll_interval_ms = FAST_POLL_MS;
                        PollEvent::Missing
                    },
                    Some(_) => {
                        self.poll_interval_ms = READY_POLL_MS;
                        PollEvent::Unchanged
                    },
                }
            },
            Some(bytes) => {
                match prior_version {
                    None => {
                        match GeoDatabase::decode(bytes) {
                            Ok(db) => {
                                self.state = CacheState::Ready { db, version };
                                self.poll_interval_ms = READY_POLL_MS;
                                PollEvent::Loaded
                            },
                            Err(e) => {
                                self.poll_interval_ms = FAST_POLL_MS;
                                PollEvent::DecodeFailed(e)
                            },
                        }
                    },
                    Some(v0) => {
                        if version != v0 {
                            match GeoDatabase::decode(bytes) {
                                Ok(db) => {
                                    self.state = CacheState::Ready { db, version };
                                    self.poll_interval_ms = READY_POLL_MS;
                                    PollEvent::Refreshed
                                },
                                Err(e) => {
                                    self.poll_interval_ms = READY_POLL_MS;
                                    PollEvent::RefreshFailed(e)
                                },
                            }
                        } else {
                            self.poll_interval_ms = READY_POLL_MS;
                            PollEvent::Unchanged
                        }
                    },
                }
            },
        }
    }

    /// One timer tick against the store itself: take a snapshot and poll.
    pub fn poll_store(&mut self, store: &SharedStore) -> (ev: PollEvent)
        ensures
            final(self)@ == poll_step(old(self)@, store@.value, store@.version),
            final(self).interval() == (if final(self)@ is Ready {
                READY_POLL_MS
            } else {
                FAST_POLL_MS
            }),
            poll_event_fits(old(self)@, store@.value, store@.version, ev),
    {
        let (blob, version) = store.get();
        self.on_poll(blob, version)
    }

    /// One timer tick against the store, reporting what happened through the
    /// host's log.
    pub fn poll_store_logged<T: Host>(&mut self, store: &SharedStore, host: &T) -> (ev: PollEvent)
        ensures
            final(self)@ == poll_step(old(self)@, store@.value, store@.version),
            final(self).interval() == (if final(self)@ is Ready {
                READY_POLL_MS
            } else {
                FAST_POLL_MS
            }),
            poll_event_fits(old(self)@, store@.value, store@.version, ev),
    {
        match &self.state {
            CacheState::Pending => host.info("mmdb not yet loaded into worker, attempting to load"),
            CacheState::Ready { .. } => (),
        }
        let ev = self.poll_store(store);
        match &ev {
            PollEvent::Missing => host.warn("mmdb is missing from shared data"),
            PollEvent::Loaded => host.info("mmdb reader initialized"),
            PollEvent::DecodeFailed(e) => host.error(e.message.as_str()),
            PollEvent::Unchanged => (),
            PollEvent::Refreshed => host.info("mmdb reader rebuilt from a newer blob"),
            PollEvent::RefreshFailed(e) => host.error(e.message.as_str()),
        }
        ev
    }
}

/// Whether `ev` is the event that polling from `pre` with the snapshot
/// `blob` at `version` reports.
pub open spec fn poll_event_fits(
    pre: CacheModel,
    blob: Option<Seq<u8>>,
    version: u64,
    ev: PollEvent,
) -> bool {
    match (pre, blob) {
        (CacheModel::Pending, None) => ev is Missing,
        (CacheModel::Pending, Some(b)) => if decode_ok(b) {
            ev is Loaded
        } else {
            ev is DecodeFailed
        },
        (CacheModel::Ready { .. }, None) => ev is Unchanged,
        (CacheModel::Ready { version: v0, .. }, Some(b)) => if version == v0 {
            ev is Unchanged
        } else if decode_ok(b) {
            ev is Refreshed
        } else {
            ev is RefreshFailed
        },
    }
}

/// The view of a snapshot's bytes, if the store held any.
pub open spec fn blob_view(blob: Option<&Vec<u8>>) -> Option<Seq<u8>> {
    match blob {
        Some(b) => Some(b@),
        None => None,
    }
}

/// The worker invariant: a ready worker's database was decoded from a blob
/// that the reader accepts.
pub open spec fn cache_inv(m: CacheModel) -> bool {
    m matches CacheModel::Ready { blob, .. } ==> decode_ok(blob)
}

/// Law: a blob that fails to decode changes no worker. A pending worker
/// stays pending, and a ready worker keeps the database it has.
pub proof fn lemma_bad_blob_changes_nothing(pre: CacheModel, b: Seq<u8>, version: u64)
    requires
        !decode_ok(b),
    ensures
        poll_step(pre, Some(b), version) == pre,
{
}

/// Law: once ready, always ready: no poll outcome returns a worker to
/// pending.
pub proof fn lemma_ready_is_stable(pre: CacheModel, blob: Option<Seq<u8>>, version: u64)
    requires
        pre is Ready,
    ensures
        poll_step(pre, blob, version) is Ready,
{
}

/// Law: polling preserves the worker invariant, so a worker only ever serves
/// a database decoded from a blob the reader accepted.
pub proof fn lemma_poll_preserves_inv(pre: CacheModel, blob: Option<Seq<u8>>, version: u64)
    requires
        cache_inv(pre),
    ensures
        cache_inv(poll_step(pre, blob, version)),
{
}

} // verus!
