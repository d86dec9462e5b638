//! The embedding host's observation capabilities.
//!
//! The library only ever records through these: log lines at four levels, a
//! metric increment, and the current time in milliseconds since the epoch.
//! Failures of the capability itself are not handled (best effort), and
//! nothing the library proves depends on what an implementation does.

use vstd::prelude::*;

verus! {

/// What the host lets the library observe and record.
pub trait Host {
    fn debug(&self, msg: &str);

    fn info(&self, msg: &str);

    fn warn(&self, msg: &str);

    fn error(&self, msg: &str);

    fn inc(&self, m: u32);

    fn current_time(&self) -> u64;
}

} // verus!
