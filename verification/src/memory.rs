//! Total-memory probing. Reading the machine's memory is advisory, not
//! safety-critical: on any failure a fixed default is reported instead of an
//! error.

use vstd::prelude::*;

verus! {

/// Fallback total memory: 8 GiB expressed in KB.
pub const DEFAULT_MEMORY_KB: i64 = 8 * 1024 * 1024;

#[verifier::external_type_specification]
#[verifier::external_body]
pub struct ExSystem(sysinfo::System);

/// Relies on `sysinfo::System::new`: a probe with nothing loaded yet.
pub assume_specification[ sysinfo::System::new ]() -> sysinfo::System;

/// Relies on `sysinfo::System::refresh_memory`: loads the memory figures.
pub assume_specification[ sysinfo::System::refresh_memory ](s: &mut sysinfo::System);

/// Relies on `sysinfo::System::total_memory`: the machine's RAM size in
/// bytes; what it reports depends on the machine, and zero stands for an
/// unknown size.
pub assume_specification[ sysinfo::System::total_memory ](s: &sysinfo::System) -> u64;

/// Converts a probed RAM size to KB. Reports nothing exactly when the probe
/// reported an unknown size (zero bytes); the failure never leaves this
/// module, so it carries no error class.
pub fn get_max_memory_impl(total_memory_bytes: u64) -> (r: Option<i64>)
    ensures
        r is Some <==> total_memory_bytes > 0,
        r matches Some(kb) ==> kb == total_memory_bytes as int / 1024,
{
    if total_memory_bytes > 0 {
        let kb: u64 = total_memory_bytes / 1024;
        Some(kb as i64)
    } else {
        None
    }
}

/// The machine's total memory in KB, or [`DEFAULT_MEMORY_KB`] when it cannot
/// be read. Never fails.
pub fn get_max_memory() -> (r: i64)
    ensures
        r >= 0,
{
    let mut probe = sysinfo::System::new();
    probe.refresh_memory();
    let total = probe.total_memory();
    match get_max_memory_impl(total) {
        Some(kb) => kb,
        None => DEFAULT_MEMORY_KB,
    }
}

} // verus!
