//! Process-level decision logic: the liveness test on an exit-status query
//! and the selection rule of lookup by executable name.

use vstd::prelude::*;
use crate::pathname::str_eq;

verus! {

/// The exit-status sentinel the platform reports for a process that has not
/// yet terminated.
pub const STILL_ACTIVE: u32 = 259;

/// Whether an exit-status query result says the process is running: exactly
/// when the reported status is the platform's "still active" sentinel. A
/// terminated process, whose real exit code has been retrieved, is not.
pub fn status_is_running(status: u32) -> (r: bool)
    ensures
        r == (status == STILL_ACTIVE),
{
    status == STILL_ACTIVE
}

/// One enumerated process as lookup by name sees it: its identifier, and its
/// derived executable name where the name query succeeded.
pub struct ProcessNameRecord {
    /// The process identifier.
    pub pid: u32,
    /// The derived executable name; nothing where the query failed, which
    /// lookup by name treats as a non-match.
    pub name: Option<String>,
}

/// Whether a record's derived name equals the target exactly. A record whose
/// name query failed matches nothing.
pub open spec fn record_matches(rec: ProcessNameRecord, target: Seq<char>) -> bool {
    match rec.name {
        Some(n) => n@ == target,
        None => false,
    }
}

/// Whether a derived executable name equals the target exactly,
/// case-sensitively; a failed name query matches nothing.
pub fn name_matches(name: &Option<String>, target: &str) -> (r: bool)
    ensures
        r == match *name {
            Some(n) => n@ == target@,
            None => false,
        },
{
    match name {
        Some(n) => str_eq(n.as_str(), target),
        None => false,
    }
}

/// The selection rule of lookup by executable name: the first record, in
/// enumeration order, whose derived name equals the target exactly. Returns
/// its position, or nothing when no record matches.
pub fn find_process_by_name(records: &Vec<ProcessNameRecord>, target: &str) -> (r: Option<usize>)
    ensures
        match r {
            Some(i) => {
                &&& i < records@.len()
                &&& record_matches(records@[i as int], target@)
                &&& forall|j: int| 0 <= j < i ==> !record_matches(records@[j], target@)
            },
            None => forall|j: int|
                0 <= j < records@.len() ==> !record_matches(records@[j], target@),
        },
{
    let mut i: usize = 0;
    while i < records.len()
        invariant
            0 <= i <= records@.len(),
            forall|j: int| 0 <= j < i ==> !record_matches(records@[j], target@),
        decreases records@.len() - i,
    {
        if name_matches(&records[i].name, target) {
            return Some(i);
        }
        i = i + 1;
    }
    None
}

} // verus!
