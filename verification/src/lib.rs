//! Safe, resource-correct access to a host's processes, threads and loaded
//! modules: handle ownership, snapshot-table iteration, affinity masks and
//! module records, with the decision and conversion logic verified. The
//! blocking platform calls themselves stand outside this crate; callers run
//! them and feed the raw outcomes to the functions here.

pub mod access;
pub mod affinity;
pub mod error;
pub mod handle;
pub mod module;
pub mod pathname;
pub mod process;
pub mod thread;
pub mod wide;

pub use access::Access;
pub use error::{Error, WinResult};
pub use handle::Handle;
pub use module::{ModuleEntry, RawModuleEntry};
pub use process::ProcessNameRecord;
pub use thread::ThreadEntry;
