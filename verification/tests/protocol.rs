//! The stepwise protocols: snapshot-cursor decisions, the module-list sizing
//! loop, and the affinity read-back exchange.

use winproc::affinity::{
    readback_advance, readback_request, set_affinity_plan, single_processor_mask, AffinityPlan,
    ReadbackState,
};
use winproc::module::{module_buffer_step, BufferStep};
use winproc::thread::{thread_iter_step, ThreadStep};
use winproc::ThreadEntry;

#[test]
fn thread_cursor_stops_on_exhaustion() {
    assert!(matches!(thread_iter_step(None, 4), ThreadStep::Stop));
}

#[test]
fn thread_cursor_yields_matching_entry() {
    let e = ThreadEntry { thread_id: 7, owner_process_id: 4 };
    assert!(matches!(thread_iter_step(Some(e), 4), ThreadStep::Yield { thread_id: 7 }));
}

#[test]
fn thread_cursor_skips_foreign_entry() {
    let e = ThreadEntry { thread_id: 7, owner_process_id: 5 };
    assert!(matches!(thread_iter_step(Some(e), 4), ThreadStep::Skip));
}

#[test]
fn module_buffer_completes_when_sized() {
    // 3 handles of 8 bytes each fit a 32-byte buffer.
    assert!(matches!(module_buffer_step(24, 32, 8), BufferStep::Done { count: 3 }));
    assert!(matches!(module_buffer_step(24, 24, 8), BufferStep::Done { count: 3 }));
    assert!(matches!(module_buffer_step(0, 0, 8), BufferStep::Done { count: 0 }));
}

#[test]
fn module_buffer_grows_to_reported_need() {
    assert!(matches!(module_buffer_step(40, 24, 8), BufferStep::Grow { new_len: 40 }));
    assert!(matches!(module_buffer_step(8, 0, 8), BufferStep::Grow { new_len: 8 }));
}

#[test]
fn builds_single_processor_masks() {
    assert_eq!(single_processor_mask(0), Some(1));
    assert_eq!(single_processor_mask(3), Some(8));
    assert_eq!(single_processor_mask(255), None);
    let bits = usize::BITS as u8;
    assert_eq!(single_processor_mask(bits), None);
    assert_eq!(single_processor_mask(bits - 1), Some(1usize << (bits - 1)));
}

#[test]
fn plans_set_for_in_range_index_only() {
    assert!(matches!(set_affinity_plan(2), AffinityPlan::SetMask { mask: 4 }));
    assert!(matches!(set_affinity_plan(255), AffinityPlan::ReadOnly));
    let bits = usize::BITS as u8;
    assert!(matches!(set_affinity_plan(bits), AffinityPlan::ReadOnly));
}

#[test]
fn readback_probes_then_restores() {
    // The probe requests the all-ones mask; the platform reports the previous
    // mask 0b101 and the exchange restores exactly that value.
    let st = ReadbackState::Start;
    assert_eq!(readback_request(&st), Some(usize::MAX));
    let st = readback_advance(st, 0b101);
    assert!(matches!(st, ReadbackState::Probed { previous: 0b101 }));
    assert_eq!(readback_request(&st), Some(0b101));
    let st = readback_advance(st, usize::MAX);
    assert!(matches!(st, ReadbackState::Done { mask: 0b101 }));
    assert_eq!(readback_request(&st), None);
}

#[test]
fn readback_fails_on_zero_report() {
    let st = readback_advance(ReadbackState::Start, 0);
    assert!(matches!(st, ReadbackState::Failed));
    assert_eq!(readback_request(&st), None);
    let st = readback_advance(ReadbackState::Probed { previous: 3 }, 0);
    assert!(matches!(st, ReadbackState::Failed));
}
