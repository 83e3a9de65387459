//! The telemetry source: a process-wide handle to the operating system's
//! CPU and memory counters, provided by the `sysinfo` crate.
//!
//! Every reading depends on the machine and on the moment it is taken, so
//! none of these contracts pins a value; the verified logic in
//! `crate::telemetry` takes the readings as arguments and is proved for
//! every value they could have.

use vstd::prelude::*;
use sysinfo::CpuRefreshKind;
use sysinfo::RefreshKind;
use sysinfo::System;

verus! {

/// `sysinfo::System` is the handle to the operating system's telemetry
/// counters. Its contents are opaque to verification: it is only carried
/// between the wrappers below.
#[verifier::external_type_specification]
#[verifier::external_body]
pub struct ExSystem(System);

/// Relies on `sysinfo::System::new_with_specifics`: builds a telemetry
/// source with only the CPU subsystem enabled, so the memory, disk and
/// process counters start out unrefreshed. Construction registers the
/// capability and performs the first CPU refresh; it does not fail.
#[verifier::external_body]
pub(crate) fn new_cpu_source() -> System {
    System::new_with_specifics(RefreshKind::nothing().with_cpu(CpuRefreshKind::everything()))
}

/// Relies on `sysinfo::System::refresh_cpu_usage`: re-queries the operating
/// system's CPU-usage counters, replacing the source's cached readings.
/// What the new readings are depends on the machine and the moment, so
/// nothing is promised of them.
#[verifier::external_body]
pub(crate) fn refresh_cpu_counters(sys: &mut System) {
    sys.refresh_cpu_usage();
}

/// Relies on `sysinfo::System::global_cpu_usage`: the system-wide CPU usage
/// percentage cached by the last CPU refresh, handed on losslessly as the
/// bit pattern of the reported `f32`. The value depends on the machine and
/// the moment, so nothing is promised of it.
#[verifier::external_body]
pub(crate) fn cpu_usage_bits(sys: &System) -> (bits: u32) {
    sys.global_cpu_usage().to_bits()
}

/// Relies on `sysinfo::System::used_memory`: the bytes of memory in use as
/// of the last refresh of the memory counters, and zero while they have
/// never been refreshed. The value depends on the machine and the moment,
/// so nothing is promised of it.
#[verifier::external_body]
pub(crate) fn used_memory_bytes(sys: &System) -> (bytes: u64) {
    sys.used_memory()
}

} // verus!
