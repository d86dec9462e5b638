//! The singleton refresh coordinator.
//!
//! One logical instance, elected by the host to run once despite many worker
//! processes. On a timer it plans one outbound GET for the configured URL;
//! the host dispatches the call and later hands the response body back. A
//! non-empty body is committed to the shared store in full; an empty body or
//! a failed call leaves the store untouched, since stale data is preferable
//! to erasing a working copy. There is no backoff: a fixed interval bounds
//! the staleness window to one refresh cycle.

use vstd::prelude::*;

use crate::config::FilterCfg;
use crate::store::{set_step, SharedStore};

verus! {

/// Cadence, in milliseconds, of the first fetch after startup: fast, to keep
/// cold-start latency low.
pub const FIRST_FETCH_MS: u64 = 1000;

/// Steady refresh cadence, in milliseconds. The interval does not depend on
/// fetch success, so the system self-heals from a transient origin outage
/// within one interval.
pub const REFRESH_INTERVAL_MS: u64 = 1000 * 60 * 60;

/// Bound, in milliseconds, on one outbound fetch.
pub const FETCH_TIMEOUT_MS: u64 = 5000;

/// Whether `url::Url::parse` accepts a string.
pub uninterp spec fn url_ok(s: Seq<char>) -> bool;

/// The path of the URL parsed from `s`.
pub uninterp spec fn url_path(s: Seq<char>) -> Seq<char>;

/// The host of the URL parsed from `s`, if it carries one.
pub uninterp spec fn url_host(s: Seq<char>) -> Option<Seq<char>>;

/// A parsed URL, carried opaquely between the parse and its accessors; the
/// contracts speak of `url_source`, the string it was parsed from.
#[verifier::external_body]
pub struct ParsedUrl {
    u: url::Url,
}

/// The string a `ParsedUrl` was parsed from.
pub uninterp spec fn url_source(p: ParsedUrl) -> Seq<char>;

/// Relies on `url::Url::parse`: whether a string is a valid URL depends on
/// its characters alone.
#[verifier::external_body]
fn url_parse(s: &str) -> (r: Option<ParsedUrl>)
    ensures
        r is Some <==> url_ok(s@),
        r matches Some(p) ==> url_source(p) == s@,
{
    match url::Url::parse(s) {
        Ok(u) => Some(ParsedUrl { u }),
        Err(_) => None,
    }
}

/// Relies on `url::Url::path`: a parsed URL's path depends on the string it
/// was parsed from alone.
#[verifier::external_body]
fn url_path_of(p: &ParsedUrl) -> (r: String)
    ensures
        r@ == url_path(url_source(*p)),
{
    p.u.path().to_owned()
}

/// Relies on `url::Url::host_str`: a parsed URL's host depends on the string
/// it was parsed from alone.
#[verifier::external_body]
fn url_host_of(p: &ParsedUrl) -> (r: Option<String>)
    ensures
        (match url_host(url_source(*p)) {
            Some(h) => r matches Some(s) && s@ == h,
            None => r is None,
        }),
{
    match p.u.host_str() {
        Some(h) => Some(h.to_owned()),
        None => None,
    }
}

/// The authority a fetch of `s` carries: the URL's host, or the cluster's
/// well-known name when the URL has none.
pub open spec fn authority_of(s: Seq<char>) -> Seq<char> {
    match url_host(s) {
        Some(h) => h,
        None => "mmdb"@,
    }
}

/// One planned fetch: a GET for the database blob, for the host to dispatch.
pub struct FetchPlan {
    /// The upstream cluster the call goes out on.
    pub cluster: String,
    /// The path requested from the origin.
    pub path: String,
    /// The authority header value.
    pub authority: String,
    /// Bound on the call, in milliseconds.
    pub timeout_ms: u64,
}

/// Build the fetch for a configuration. A URL that does not parse is a
/// permanent per-tick failure: no fetch goes out, the store stays untouched,
/// and the next tick retries the parse.
pub fn plan_fetch(cfg: &FilterCfg) -> (r: Option<FetchPlan>)
    ensures
        r is Some <==> url_ok(cfg.mmdb_url@),
        r matches Some(plan) ==> plan.cluster@ == cfg.mmdb_cluster@ && plan.path@ == url_path(
            cfg.mmdb_url@,
        ) && plan.authority@ == authority_of(cfg.mmdb_url@) && plan.timeout_ms
            == FETCH_TIMEOUT_MS,
{
    let parsed = match url_parse(cfg.mmdb_url.as_str()) {
        Some(p) => p,
        None => {
            return None;
        },
    };
    let path = url_path_of(&parsed);
    let authority = match url_host_of(&parsed) {
        Some(h) => h,
        None => "mmdb".to_owned(),
    };
    Some(
        FetchPlan {
            cluster: cfg.mmdb_cluster.clone(),
            path,
            authority,
            timeout_ms: FETCH_TIMEOUT_MS,
        },
    )
}

/// What one fetch cycle did to the store, for the caller to log.
pub enum FetchOutcome {
    /// A non-empty body was committed to the store in full.
    Published,
    /// The origin answered with an empty body; the store is untouched.
    EmptyBody,
    /// The call yielded no body at all; the store is untouched.
    NoBody,
}

/// The coordinator: its configuration, the call still in flight if any, and
/// the interval to its next tick.
pub struct RefreshCoordinator {
    config: Option<FilterCfg>,
    outstanding_call: Option<u32>,
    tick_interval_ms: u64,
}

impl RefreshCoordinator {
    /// The configuration, once one was accepted.
    pub closed spec fn config(&self) -> Option<FilterCfg> {
        self.config
    }

    /// The token of the fetch still in flight, if any.
    pub closed spec fn outstanding(&self) -> Option<u32> {
        self.outstanding_call
    }

    /// The interval, in milliseconds, until the next tick.
    pub closed spec fn interval(&self) -> u64 {
        self.tick_interval_ms
    }

    /// A coordinator fresh out of startup: unconfigured, idle, first tick
    /// fast.
    pub fn new() -> (c: RefreshCoordinator)
        ensures
            c.config() is None,
            c.outstanding() is None,
            c.interval() == FIRST_FETCH_MS,
    {
        RefreshCoordinator {
            config: None,
            outstanding_call: None,
            tick_interval_ms: FIRST_FETCH_MS,
        }
    }

    /// The interval to the next tick, for the embedding host's timer.
    pub fn tick_interval_ms(&self) -> (r: u64)
        ensures
            r == self.interval(),
    {
        self.tick_interval_ms
    }

    /// Startup: schedule the first tick fast.
    pub fn on_vm_start(&mut self) -> (r: bool)
        ensures
            final(self).config() == old(self).config(),
            final(self).outstanding() == old(self).outstanding(),
            final(self).interval() == FIRST_FETCH_MS,
            r,
    {
        self.tick_interval_ms = FIRST_FETCH_MS;
        true
    }

    /// Accept the configuration the host parsed, or refuse to start when the
    /// host had none to parse: reported by returning `false`, which stops the
    /// refresh entirely.
    pub fn on_configure(&mut self, cfg: Option<FilterCfg>) -> (ok: bool)
        ensures
            ok == cfg is Some,
            (match cfg {
                Some(c) => final(self).config() matches Some(d) && d.mmdb_url@ == c.mmdb_url@
                    && d.mmdb_cluster@ == c.mmdb_cluster@,
                None => final(self).config() == old(self).config(),
            }),
            final(self).outstanding() == old(self).outstanding(),
            final(self).interval() == old(self).interval(),
    {
        match cfg {
            Some(c) => {
                self.config = Some(c);
                true
            },
            None => false,
        }
    }

    /// One timer tick: move to the steady cadence and plan one fetch —
    /// unless a call is still in flight (at most one may be) or no
    /// configuration was accepted or its URL does not parse, in which case
    /// nothing goes out and the next tick retries.
    pub fn on_tick(&mut self) -> (r: Option<FetchPlan>)
        ensures
            final(self).config() == old(self).config(),
            final(self).outstanding() == old(self).outstanding(),
            final(self).interval() == REFRESH_INTERVAL_MS,
            r is Some <==> (old(self).outstanding() is None && (old(self).config() matches Some(c)
                && url_ok(c.mmdb_url@))),
            r matches Some(plan) ==> (old(self).config() matches Some(c) && plan.cluster@
                == c.mmdb_cluster@ && plan.path@ == url_path(c.mmdb_url@) && plan.authority@
                == authority_of(c.mmdb_url@) && plan.timeout_ms == FETCH_TIMEOUT_MS),
    {
        self.tick_interval_ms = REFRESH_INTERVAL_MS;
        if self.outstanding_call.is_some() {
            return None;
        }
        match &self.config {
            Some(cfg) => plan_fetch(cfg),
            None => None,
        }
    }

    /// Record that the host dispatched the planned fetch under `token`.
    pub fn fetch_dispatched(&mut self, token: u32)
        ensures
            final(self).config() == old(self).config(),
            final(self).outstanding() == Some(token),
            final(self).interval() == old(self).interval(),
    {
        self.outstanding_call = Some(token);
    }

    /// The response to the outstanding fetch arrived, with the body the host
    /// retrieved, if any. A non-empty body is committed to the store in full
    /// under a fresh version; anything else leaves the store untouched.
    pub fn on_fetch_response(&mut self, store: &mut SharedStore, body: Option<Vec<u8>>) -> (r:
        FetchOutcome)
        ensures
            final(self).config() == old(self).config(),
            final(self).outstanding() is None,
            final(self).interval() == old(self).interval(),
            (match body {
                Some(b) => if b@.len() > 0 {
                    final(store)@ == set_step(old(store)@, b@, None).0 && r is Published
                } else {
                    final(store)@ == old(store)@ && r is EmptyBody
                },
                None => final(store)@ == old(store)@ && r is NoBody,
            }),
    {
        self.outstanding_call = None;
        match body {
            Some(b) => {
                if b.len() > 0 {
                    let _ = store.set(b, None);
                    FetchOutcome::Published
                } else {
                    FetchOutcome::EmptyBody
                }
            },
            None => FetchOutcome::NoBody,
        }
    }
}

} // verus!
