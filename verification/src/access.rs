//! Process access rights: a fixed set of named permission bits, combinable by
//! union, with full access as the default.

use vstd::prelude::*;

verus! {

/// Required to delete the object.
pub const DELETE: u32 = 0x0001_0000;

/// Required to read the object's security descriptor.
pub const READ_CONTROL: u32 = 0x0002_0000;

/// Required to modify the DACL in the object's security descriptor.
pub const WRITE_DAC: u32 = 0x0004_0000;

/// Required to change the owner in the object's security descriptor.
pub const WRITE_OWNER: u32 = 0x0008_0000;

/// The right to wait on the object until it is signaled.
pub const SYNCHRONIZE: u32 = 0x0010_0000;

/// Union of `DELETE | READ_CONTROL | WRITE_DAC | WRITE_OWNER`.
pub const STANDARD_RIGHTS_REQUIRED: u32 = 0x000F_0000;

/// Required to terminate a process.
pub const PROCESS_TERMINATE: u32 = 0x0001;

/// Required to create a thread in the process.
pub const PROCESS_CREATE_THREAD: u32 = 0x0002;

pub const PROCESS_SET_SESSIONID: u32 = 0x0004;

/// Required to operate on the address space of the process.
pub const PROCESS_VM_OPERATION: u32 = 0x0008;

/// Required to read memory in the process.
pub const PROCESS_VM_READ: u32 = 0x0010;

/// Required to write memory in the process.
pub const PROCESS_VM_WRITE: u32 = 0x0020;

/// Required to duplicate a handle.
pub const PROCESS_DUP_HANDLE: u32 = 0x0040;

/// Required to create a process.
pub const PROCESS_CREATE_PROCESS: u32 = 0x0080;

/// Required to set memory limits.
pub const PROCESS_SET_QUOTA: u32 = 0x0100;

/// Required to set certain information about the process, such as its
/// priority class.
pub const PROCESS_SET_INFORMATION: u32 = 0x0200;

/// Required to retrieve certain information about the process, such as its
/// token, exit code, and priority class.
pub const PROCESS_QUERY_INFORMATION: u32 = 0x0400;

/// Required to suspend or resume the process.
pub const PROCESS_SUSPEND_RESUME: u32 = 0x0800;

/// Required to retrieve a limited set of information about the process
/// (exit code, priority class, job status, path).
pub const PROCESS_QUERY_LIMITED_INFORMATION: u32 = 0x1000;

pub const PROCESS_SET_LIMITED_INFORMATION: u32 = 0x2000;

/// All possible access rights for a process object.
pub const PROCESS_ALL_ACCESS: u32 = STANDARD_RIGHTS_REQUIRED | SYNCHRONIZE | 0xFFFF;

/// A combination of process access permission bits, requested when a process
/// handle is opened; which operations the handle then supports depends on it.
#[derive(Clone, Copy, Debug, PartialEq, Eq, Structural)]
pub struct Access {
    bits: u32,
}

impl Access {
    /// The capability set with exactly the given permission bits.
    pub fn from_bits(bits: u32) -> (r: Access)
        ensures
            r.bits() == bits,
    {
        Access { bits }
    }

    /// The raw permission bits of this capability set.
    pub closed spec fn spec_bits(&self) -> u32 {
        self.bits
    }

    /// The raw permission bits of this capability set.
    #[verifier::when_used_as_spec(spec_bits)]
    pub fn bits(&self) -> (r: u32)
        ensures
            r == self.spec_bits(),
    {
        self.bits
    }

    /// Every access right at once.
    pub fn all_access() -> (r: Access)
        ensures
            r.bits() == PROCESS_ALL_ACCESS,
    {
        Access { bits: PROCESS_ALL_ACCESS }
    }

    /// The union of the two capability sets.
    pub fn union(self, other: Access) -> (r: Access)
        ensures
            r.bits() == self.bits() | other.bits(),
    {
        Access { bits: self.bits | other.bits }
    }

    /// Whether every right of `other` is also granted by `self`.
    pub fn contains(self, other: Access) -> (r: bool)
        ensures
            r == (self.bits() & other.bits() == other.bits()),
    {
        self.bits & other.bits == other.bits
    }
}

impl Default for Access {
    /// When no capability set is specified, full access is requested.
    fn default() -> (r: Access)
        ensures
            r.bits() == PROCESS_ALL_ACCESS,
    {
        Access { bits: PROCESS_ALL_ACCESS }
    }
}

/// Full access grants each individual process right.
pub proof fn lemma_all_access_contains_each_right()
    ensures
        PROCESS_ALL_ACCESS & PROCESS_TERMINATE == PROCESS_TERMINATE,
        PROCESS_ALL_ACCESS & PROCESS_QUERY_INFORMATION == PROCESS_QUERY_INFORMATION,
        PROCESS_ALL_ACCESS & PROCESS_SET_INFORMATION == PROCESS_SET_INFORMATION,
        PROCESS_ALL_ACCESS & PROCESS_VM_READ == PROCESS_VM_READ,
        PROCESS_ALL_ACCESS & PROCESS_VM_WRITE == PROCESS_VM_WRITE,
        PROCESS_ALL_ACCESS & SYNCHRONIZE == SYNCHRONIZE,
        PROCESS_ALL_ACCESS & STANDARD_RIGHTS_REQUIRED == STANDARD_RIGHTS_REQUIRED,
{
    assert(PROCESS_ALL_ACCESS & PROCESS_TERMINATE == PROCESS_TERMINATE) by (bit_vector);
    assert(PROCESS_ALL_ACCESS & PROCESS_QUERY_INFORMATION == PROCESS_QUERY_INFORMATION)
        by (bit_vector);
    assert(PROCESS_ALL_ACCESS & PROCESS_SET_INFORMATION == PROCESS_SET_INFORMATION) by (bit_vector);
    assert(PROCESS_ALL_ACCESS & PROCESS_VM_READ == PROCESS_VM_READ) by (bit_vector);
    assert(PROCESS_ALL_ACCESS & PROCESS_VM_WRITE == PROCESS_VM_WRITE) by (bit_vector);
    assert(PROCESS_ALL_ACCESS & SYNCHRONIZE == SYNCHRONIZE) by (bit_vector);
    assert(PROCESS_ALL_ACCESS & STANDARD_RIGHTS_REQUIRED == STANDARD_RIGHTS_REQUIRED)
        by (bit_vector);
}

} // verus!
