//! Per-request lookup filter.
//!
//! One handler exists per in-flight request; its mode is selected once, at
//! request-context creation, from the owning worker's readiness. An active
//! handler reads the forwarded-address header, parses it, queries the
//! database, and attaches the resolved country code as a new header. On
//! every failure path the request passes through with its metadata exactly
//! as it came in: the filter never removes or rejects a request.

use vstd::prelude::*;

use crate::geodb::{country_of, GeoDatabase};
use crate::headers::{spec_value_of, Headers};
use crate::host::Host;
use crate::ip::{parse_ip, parsed_ip};
use crate::worker::{CacheModel, CacheState};

verus! {

/// The name of the inbound header the client address candidate is read from.
pub open spec fn forwarded_header() -> Seq<char> {
    "x-forwarded-for"@
}

/// The name of the outbound header the resolved country code is written to.
pub open spec fn country_header() -> Seq<char> {
    "x-country-code"@
}

/// The inbound header's name, as a request carries it.
pub fn forwarded_header_name() -> (s: String)
    ensures
        s@ == forwarded_header(),
{
    "x-forwarded-for".to_owned()
}

/// The outbound header's name, as a request carries it.
pub fn country_header_name() -> (s: String)
    ensures
        s@ == country_header(),
{
    "x-country-code".to_owned()
}

/// Per-request handling mode, selected once at request-context creation:
/// active with the owning worker's current database, or pass-through.
pub enum RequestHandler<'a> {
    Active(&'a GeoDatabase),
    Passthrough,
}

impl<'a> RequestHandler<'a> {
    /// The blob of the database this handler queries, if it is active.
    pub open spec fn ready_blob(&self) -> Option<Seq<u8>> {
        match *self {
            RequestHandler::Active(db) => Some(db.blob()),
            RequestHandler::Passthrough => None,
        }
    }
}

/// What one request's header set becomes: unchanged unless the worker is
/// ready, the forwarded-address header is present, its value parses, and the
/// lookup yields a country code — in which case that code is appended under
/// the country header.
pub open spec fn filter_output(ready_blob: Option<Seq<u8>>, hs: Seq<(Seq<char>, Seq<char>)>) -> Seq<
    (Seq<char>, Seq<char>),
> {
    match ready_blob {
        None => hs,
        Some(blob) => match spec_value_of(hs, forwarded_header()) {
            None => hs,
            Some(cand) => match parsed_ip(cand) {
                None => hs,
                Some(ip) => match country_of(blob, ip) {
                    None => hs,
                    Some(code) => hs.push((country_header(), code)),
                },
            },
        },
    }
}

/// Why a request passed through, or that a code was attached. Every failure
/// path resolves to pass-through plus a log line, never to a rejected
/// request.
#[derive(Debug)]
pub enum LookupOutcome {
    /// The worker has no database; explicit pass-through.
    NotReady,
    /// The request carries no forwarded-address header.
    MissingHeader,
    /// The forwarded-address value is not an IP address.
    MalformedAddress,
    /// The database has no country code for the address.
    LookupMiss,
    /// The code that was resolved and attached.
    Resolved(String),
}

/// Select the handling mode for one request from the owning worker's
/// readiness, resolved once per request.
pub fn create_handler<'a>(cache: &'a CacheState) -> (h: RequestHandler<'a>)
    ensures
        h.ready_blob() == (match cache@ {
            CacheModel::Ready { blob, .. } => Some(blob),
            CacheModel::Pending => None::<Seq<u8>>,
        }),
{
    match cache {
        CacheState::Ready { db, .. } => RequestHandler::Active(db),
        CacheState::Pending => RequestHandler::Passthrough,
    }
}

/// Whether `r` is the outcome that handling a request carrying `hs` with a
/// handler over `ready_blob` reports.
pub open spec fn outcome_fits(
    ready_blob: Option<Seq<u8>>,
    hs: Seq<(Seq<char>, Seq<char>)>,
    r: LookupOutcome,
) -> bool {
    match ready_blob {
        None => r is NotReady,
        Some(blob) => match spec_value_of(hs, forwarded_header()) {
            None => r is MissingHeader,
            Some(cand) => match parsed_ip(cand) {
                None => r is MalformedAddress,
                Some(ip) => match country_of(blob, ip) {
                    None => r is LookupMiss,
                    Some(code) => r matches LookupOutcome::Resolved(c) && c@ == code,
                },
            },
        },
    }
}

/// Handle one request: resolve the client address to a country code and
/// attach it, or pass the request through exactly as it came in.
pub fn handle_request(h: &RequestHandler, headers: &mut Headers) -> (r: LookupOutcome)
    ensures
        final(headers)@ == filter_output(h.ready_blob(), old(headers)@),
        outcome_fits(h.ready_blob(), old(headers)@, r),
{
    let db = match h {
        RequestHandler::Active(db) => db,
        RequestHandler::Passthrough => {
            return LookupOutcome::NotReady;
        },
    };
    let name = forwarded_header_name();
    let cand = match headers.value_of(&name) {
        Some(v) => v,
        None => {
            return LookupOutcome::MissingHeader;
        },
    };
    let ip = match parse_ip(cand.as_str()) {
        Some(ip) => ip,
        None => {
            return LookupOutcome::MalformedAddress;
        },
    };
    match db.lookup_country(ip) {
        Some(code) => {
            let resolved = code.clone();
            headers.add(country_header_name(), code);
            LookupOutcome::Resolved(resolved)
        },
        None => LookupOutcome::LookupMiss,
    }
}

/// Handle one request and report each pass-through reason through the host's
/// log: the only observable side effect of a failure path.
pub fn handle_request_logged<T: Host>(h: &RequestHandler, headers: &mut Headers, host: &T) -> (r:
    LookupOutcome)
    ensures
        final(headers)@ == filter_output(h.ready_blob(), old(headers)@),
        outcome_fits(h.ready_blob(), old(headers)@, r),
{
    let r = handle_request(h, headers);
    match &r {
        LookupOutcome::NotReady => host.warn("filter not ready so request passed through"),
        LookupOutcome::MissingHeader => host.warn("xff header not found in request"),
        LookupOutcome::MalformedAddress => host.warn("xff header value is not an ip address"),
        LookupOutcome::LookupMiss => host.info("no country code found for the client address"),
        LookupOutcome::Resolved(code) => host.info(code.as_str()),
    }
    r
}

/// Law: while a worker is pending, every request passes through with its
/// header set untouched.
pub proof fn lemma_pending_passes_through(hs: Seq<(Seq<char>, Seq<char>)>)
    ensures
        filter_output(None, hs) == hs,
{
}

/// Law: a request with a missing or malformed forwarded-address header comes
/// out with its header set equal to what came in, whatever the cache holds.
pub proof fn lemma_missing_or_malformed_passes_through(
    ready_blob: Option<Seq<u8>>,
    hs: Seq<(Seq<char>, Seq<char>)>,
)
    requires
        (match spec_value_of(hs, forwarded_header()) {
            None => true,
            Some(cand) => parsed_ip(cand) is None,
        }),
    ensures
        filter_output(ready_blob, hs) == hs,
{
}

} // verus!
