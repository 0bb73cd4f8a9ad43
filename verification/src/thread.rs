//! Thread-table filtering: the platform exposes no per-process thread list,
//! so threads come from a system-wide snapshot filtered by owner-process
//! identifier. One advance of the snapshot cursor is one event; the decision
//! on each event, and the whole filtered sequence, are stated here.

use vstd::prelude::*;

verus! {

/// One raw thread-table record, as the snapshot cursor yields it.
#[derive(Clone, Copy, Debug, PartialEq, Eq, Structural)]
pub struct ThreadEntry {
    /// The thread identifier.
    pub thread_id: u32,
    /// The identifier of the process that owns the thread.
    pub owner_process_id: u32,
}

/// What a thread enumeration does after one advance of the snapshot cursor.
pub enum ThreadStep {
    /// The cursor is exhausted (or failed): the sequence ends.
    Stop,
    /// The entry belongs to the requested process: yield this identifier.
    Yield { thread_id: u32 },
    /// The entry belongs to another process: skip it and advance again.
    Skip,
}

/// The decision on one cursor event: stop when the table is exhausted, yield
/// the entry's thread identifier exactly when its owner is the requested
/// process, and skip it otherwise.
pub fn thread_iter_step(event: Option<ThreadEntry>, pid: u32) -> (r: ThreadStep)
    ensures
        match event {
            None => r is Stop,
            Some(e) => if e.owner_process_id == pid {
                r == (ThreadStep::Yield { thread_id: e.thread_id })
            } else {
                r is Skip
            },
        },
{
    match event {
        None => ThreadStep::Stop,
        Some(e) => if e.owner_process_id == pid {
            ThreadStep::Yield { thread_id: e.thread_id }
        } else {
            ThreadStep::Skip
        },
    }
}

/// The thread identifiers of the entries owned by the given process, in the
/// order the snapshot yields them.
pub open spec fn matching_thread_ids(entries: Seq<ThreadEntry>, pid: u32) -> Seq<u32>
    decreases entries.len(),
{
    if entries.len() == 0 {
        Seq::empty()
    } else {
        let rest = matching_thread_ids(entries.drop_last(), pid);
        if entries.last().owner_process_id == pid {
            rest.push(entries.last().thread_id)
        } else {
            rest
        }
    }
}

/// Filters a thread-table snapshot down to the threads of one process: the
/// identifiers of exactly the entries whose owner is `pid`, in snapshot order.
pub fn filter_thread_ids(entries: &Vec<ThreadEntry>, pid: u32) -> (r: Vec<u32>)
    ensures
        r@ == matching_thread_ids(entries@, pid),
{
    let mut out: Vec<u32> = Vec::new();
    let mut i: usize = 0;
    while i < entries.len()
        invariant
            0 <= i <= entries@.len(),
            out@ == matching_thread_ids(entries@.take(i as int), pid),
        decreases entries@.len() - i,
    {
        let e = entries[i];
        if e.owner_process_id == pid {
            out.push(e.thread_id);
        }
        proof {
            assert(entries@.take(i + 1 as int).drop_last() =~= entries@.take(i as int));
            assert(entries@.take(i + 1 as int).last() == entries@[i as int]);
        }
        i = i + 1;
    }
    proof {
        assert(entries@.take(entries@.len() as int) =~= entries@);
    }
    out
}

/// No cross-process leakage: each identifier the filtered enumeration yields
/// comes from a snapshot entry whose owner-process identifier is the requested
/// process's own. Returns the position of that source entry.
pub proof fn lemma_matching_thread_ids_owned(entries: Seq<ThreadEntry>, pid: u32, k: int) -> (j:
    int)
    requires
        0 <= k < matching_thread_ids(entries, pid).len(),
    ensures
        0 <= j < entries.len(),
        entries[j].owner_process_id == pid,
        entries[j].thread_id == matching_thread_ids(entries, pid)[k],
    decreases entries.len(),
{
    let front = entries.drop_last();
    let rest = matching_thread_ids(front, pid);
    if k < rest.len() {
        let j = lemma_matching_thread_ids_owned(front, pid, k);
        assert(entries[j] == front[j]);
        assert(matching_thread_ids(entries, pid)[k] == rest[k]);
        j
    } else {
        assert(entries.last().owner_process_id == pid);
        entries.len() - 1
    }
}

} // verus!
