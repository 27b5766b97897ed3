//! Background jobs: what the session cleanup reports.

use vstd::prelude::*;
use vstd::string::StringExecFns;
use crate::num::{dec_of, dec_string};

verus! {

broadcast use vstd::string::group_string_axioms;

/// What the session cleanup deleted, table by table.
#[derive(Debug, Clone, Copy, PartialEq, Eq, Structural)]
pub struct CleanupCounts {
    pub sessions: u64,
    pub access_tokens: u64,
    pub device_codes: u64,
    pub magic_links: u64,
}

/// The number of records the cleanup deleted.
pub open spec fn cleanup_total(c: CleanupCounts) -> nat {
    (c.sessions + c.access_tokens + c.device_codes + c.magic_links) as nat
}

/// The total of a cleanup run and the message it reports.
pub fn cleanup_report(c: CleanupCounts) -> (r: (u64, String))
    requires
        cleanup_total(c) <= u64::MAX,
    ensures
        r.0 == cleanup_total(c),
        r.1@ == "Deleted "@ + dec_of(cleanup_total(c)) + " expired auth records"@,
{
    let total = c.sessions + c.access_tokens + c.device_codes + c.magic_links;
    let d = dec_string(total);
    (total, "Deleted ".to_string().concat(d.as_str()).concat(" expired auth records"))
}

} // verus!
