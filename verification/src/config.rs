//! The coordinator's configuration.
//!
//! Supplied by the embedding host at coordinator startup as a JSON object
//! `{ mmdb_url, mmdb_cluster }`; the host-side glue parses it and hands the
//! two fields over as plain strings. Absence or a parse failure is fatal to
//! the coordinator, which refuses to start.

use vstd::prelude::*;

verus! {

/// What the refresh coordinator is told once at startup: where the database
/// blob lives and which outbound route reaches that host. Immutable once
/// loaded.
#[derive(Clone, Debug)]
pub struct FilterCfg {
    /// The URL the database blob is fetched from.
    pub mmdb_url: String,
    /// The outbound cluster that reaches the URL's host.
    pub mmdb_cluster: String,
}

impl FilterCfg {
    /// A configuration from its two fields, as the host supplies them.
    pub fn new(mmdb_url: String, mmdb_cluster: String) -> (cfg: FilterCfg)
        ensures
            cfg.mmdb_url@ == mmdb_url@,
            cfg.mmdb_cluster@ == mmdb_cluster@,
    {
        FilterCfg { mmdb_url, mmdb_cluster }
    }
}

} // verus!
