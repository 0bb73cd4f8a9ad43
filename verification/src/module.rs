//! Loaded-module records: the value-type snapshot entry captured from a
//! module-table snapshot, its total conversion from the raw record, and the
//! measure-then-fill sizing protocol of the module-handle enumeration.

use vstd::prelude::*;
use crate::wide::{spec_wide_string, wide_buffer_to_string};

verus! {

/// A raw module-table record as the snapshot call fills it: plain numbers and
/// the two fixed-size wide-character buffers, exactly as captured.
pub struct RawModuleEntry {
    /// The module identifier of the record.
    pub module_id: u32,
    /// The identifier of the process the module is loaded in.
    pub process_id: u32,
    /// The global load reference count.
    pub global_load_count: u32,
    /// The load reference count within the process.
    pub proc_load_count: u32,
    /// The base address the module is mapped at, as a plain word.
    pub base_address: usize,
    /// The size of the mapped image in bytes.
    pub base_size: u32,
    /// The module handle, a base-address token rather than a closable resource.
    pub hmodule: usize,
    /// The fixed-size wide-character buffer holding the module's name.
    pub name_buffer: Vec<u16>,
    /// The fixed-size wide-character buffer holding the module's path.
    pub path_buffer: Vec<u16>,
}

/// A value-type snapshot of one loaded module, frozen at capture time: it
/// references no live resource and stays valid after its snapshot is closed.
pub struct ModuleEntry {
    /// The module identifier of the record.
    pub id: u32,
    /// The module's unqualified name.
    pub name: String,
    /// The module's image path.
    pub path: String,
    /// The module handle, a base-address token rather than a closable resource.
    pub hmodule: usize,
    /// The identifier of the process the module is loaded in.
    pub process_id: u32,
    /// The global load reference count.
    pub global_load_count: u32,
    /// The load reference count within the process.
    pub proc_load_count: u32,
    /// The base address the module is mapped at, as a plain word.
    pub mod_base_addr: usize,
    /// The size of the mapped image in bytes.
    pub mod_base_size: u32,
}

impl ModuleEntry {
    /// The total, failure-free conversion from a raw record: each
    /// wide-character buffer is read up to its terminator, or whole where no
    /// terminator occurs, and every numeric field is carried over unchanged.
    pub fn from_raw(raw: &RawModuleEntry) -> (r: ModuleEntry)
        ensures
            r.id == raw.module_id,
            r.name@ == spec_wide_string(raw.name_buffer@),
            r.path@ == spec_wide_string(raw.path_buffer@),
            r.hmodule == raw.hmodule,
            r.process_id == raw.process_id,
            r.global_load_count == raw.global_load_count,
            r.proc_load_count == raw.proc_load_count,
            r.mod_base_addr == raw.base_address,
            r.mod_base_size == raw.base_size,
    {
        let name = wide_buffer_to_string(raw.name_buffer.as_slice());
        let path = wide_buffer_to_string(raw.path_buffer.as_slice());
        ModuleEntry {
            id: raw.module_id,
            name,
            path,
            hmodule: raw.hmodule,
            process_id: raw.process_id,
            global_load_count: raw.global_load_count,
            proc_load_count: raw.proc_load_count,
            mod_base_addr: raw.base_address,
            mod_base_size: raw.base_size,
        }
    }
}

/// What the module-handle enumeration does next, after one fill attempt
/// reported `needed` bytes against a buffer of `reserved` bytes.
pub enum BufferStep {
    /// The buffer sufficed: the filled handle slots are the result.
    Done { count: usize },
    /// The buffer was too small: grow it to the reported need and try again.
    Grow { new_len: usize },
}

/// One decision of the measure-then-fill protocol: a fill attempt that needed
/// no more bytes than were reserved is complete, and the number of filled
/// slots is the needed bytes divided by the per-handle size; otherwise the
/// buffer grows to the reported need and the attempt repeats (module counts
/// can grow between calls, so more than one retry is possible).
pub fn module_buffer_step(needed: usize, reserved: usize, handle_size: usize) -> (r: BufferStep)
    requires
        handle_size > 0,
    ensures
        needed <= reserved ==> (r matches BufferStep::Done { count } && count == needed as int
            / handle_size as int),
        needed > reserved ==> (r matches BufferStep::Grow { new_len } && new_len == needed),
{
    if needed <= reserved {
        BufferStep::Done { count: needed / handle_size }
    } else {
        BufferStep::Grow { new_len: needed }
    }
}

} // verus!
