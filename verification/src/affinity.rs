//! Affinity-mask logic. A mask holds one bit per logical processor. The
//! platform has no read-only query for a thread's mask, so reading it takes a
//! set/read-back/restore exchange: set the all-ones probe, capture the
//! previous mask the call reports, and restore it. The plan for those calls,
//! the mask construction, and what the exchange yields under the platform's
//! set-affinity semantics are stated and proved here; the blocking calls
//! themselves happen outside, one per protocol step.

use vstd::prelude::*;

verus! {

/// The mask permitting one logical processor alone, where the index is within
/// the mask's bit width; an index at or beyond the width has no such mask.
pub fn single_processor_mask(processor: u8) -> (r: Option<usize>)
    ensures
        (processor as u32) < usize::BITS ==> r == Some(1usize << processor),
        (processor as u32) >= usize::BITS ==> r is None,
{
    if (processor as u32) < usize::BITS {
        Some(1usize << processor)
    } else {
        None
    }
}

/// What setting the affinity to one processor does: set the single-bit mask
/// where the index fits the mask's width, else change nothing and only report
/// the mask already in effect (through the read-back exchange).
pub enum AffinityPlan {
    /// Set this mask; the call reports the previous one.
    SetMask { mask: usize },
    /// Set nothing: run the read-back exchange and report what it yields.
    ReadOnly,
}

/// The decision for a single-processor affinity request: a set of the
/// single-bit mask exactly where the index is within the mask's bit width,
/// and a pure read-back otherwise — out-of-range indices change nothing.
pub fn set_affinity_plan(processor: u8) -> (r: AffinityPlan)
    ensures
        (processor as u32) < usize::BITS ==> r == (AffinityPlan::SetMask {
            mask: 1usize << processor,
        }),
        (processor as u32) >= usize::BITS ==> r is ReadOnly,
{
    match single_processor_mask(processor) {
        Some(mask) => AffinityPlan::SetMask { mask },
        None => AffinityPlan::ReadOnly,
    }
}

/// The platform's set-affinity call, run on a thread whose mask is `before`
/// and asked for `requested`: on success it reports the previous mask, which
/// is never zero, and the thread's mask becomes `requested`; on failure it
/// reports zero and the mask is unchanged.
pub open spec fn os_set_affinity_step(
    before: usize,
    requested: usize,
    returned: usize,
    after: usize,
) -> bool {
    if returned == 0 {
        after == before
    } else {
        returned == before && after == requested
    }
}

/// The read-back exchange, step by step: probe, then restore what the probe
/// reported.
pub enum ReadbackState {
    /// Nothing sent yet: the all-ones probe goes out next.
    Start,
    /// The probe succeeded and reported the previous mask: restore it next.
    Probed { previous: usize },
    /// Both calls succeeded: the mask read.
    Done { mask: usize },
    /// A call failed; the exchange stops and reports the platform error.
    Failed,
}

/// The mask to request next, or nothing where the exchange is over: the
/// all-ones probe first, then the reported previous mask to restore it.
pub fn readback_request(st: &ReadbackState) -> (r: Option<usize>)
    ensures
        match *st {
            ReadbackState::Start => r == Some(usize::MAX),
            ReadbackState::Probed { previous } => r == Some(previous),
            ReadbackState::Done { .. } => r is None,
            ReadbackState::Failed => r is None,
        },
{
    match st {
        ReadbackState::Start => Some(usize::MAX),
        ReadbackState::Probed { previous } => Some(*previous),
        ReadbackState::Done { .. } => None,
        ReadbackState::Failed => None,
    }
}

/// Advances the exchange on what the pending call reported: zero fails it;
/// otherwise the probe's report is the mask to restore and to yield.
pub fn readback_advance(st: ReadbackState, returned: usize) -> (r: ReadbackState)
    ensures
        match st {
            ReadbackState::Start => if returned == 0 {
                r is Failed
            } else {
                r == (ReadbackState::Probed { previous: returned })
            },
            ReadbackState::Probed { previous } => if returned == 0 {
                r is Failed
            } else {
                r == (ReadbackState::Done { mask: previous })
            },
            ReadbackState::Done { mask } => r == (ReadbackState::Done { mask }),
            ReadbackState::Failed => r is Failed,
        },
{
    match st {
        ReadbackState::Start => if returned == 0 {
            ReadbackState::Failed
        } else {
            ReadbackState::Probed { previous: returned }
        },
        ReadbackState::Probed { previous } => if returned == 0 {
            ReadbackState::Failed
        } else {
            ReadbackState::Done { mask: previous }
        },
        other => other,
    }
}

/// The read-back exchange is a best-effort read: where both of its calls
/// succeed against the platform's set-affinity semantics, the probe's report
/// is the mask that was in effect before the exchange, and the restore leaves
/// exactly that mask in effect.
pub proof fn lemma_readback_reads_and_restores(
    m0: usize,
    r1: usize,
    m1: usize,
    r2: usize,
    m2: usize,
)
    requires
        os_set_affinity_step(m0, usize::MAX, r1, m1),
        r1 != 0,
        os_set_affinity_step(m1, r1, r2, m2),
        r2 != 0,
    ensures
        r1 == m0,
        m2 == m0,
{
}

/// Setting a mask and immediately reading it back through the exchange
/// reports exactly the mask that was set, and leaves it in effect.
pub proof fn lemma_set_then_readback(
    m0: usize,
    mask: usize,
    rs: usize,
    m1: usize,
    r1: usize,
    m2: usize,
    r2: usize,
    m3: usize,
)
    requires
        os_set_affinity_step(m0, mask, rs, m1),
        rs != 0,
        os_set_affinity_step(m1, usize::MAX, r1, m2),
        r1 != 0,
        os_set_affinity_step(m2, r1, r2, m3),
        r2 != 0,
    ensures
        r1 == mask,
        m3 == mask,
{
}

/// A single-processor affinity request with an index at or beyond the mask's
/// bit width is a no-op: its plan sets nothing, and the read-back it runs
/// instead reports the mask already in effect and leaves it unchanged.
pub proof fn lemma_out_of_range_affinity_identity(
    processor: u8,
    m0: usize,
    r1: usize,
    m1: usize,
    r2: usize,
    m2: usize,
)
    requires
        (processor as u32) >= usize::BITS,
        os_set_affinity_step(m0, usize::MAX, r1, m1),
        r1 != 0,
        os_set_affinity_step(m1, r1, r2, m2),
        r2 != 0,
    ensures
        m2 == m0,
        r1 == m0,
{
    lemma_readback_reads_and_restores(m0, r1, m1, r2, m2);
}

} // verus!
