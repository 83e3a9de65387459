//! The value types that a snapshot call hands back: a consistent pair of a
//! CPU-usage reading and a resident-memory byte count.
//!
//! The CPU-usage percentage is reported by the operating system as a 32-bit
//! IEEE 754 value. Verified code here never computes on floating point;
//! instead the reading travels as its raw bit pattern (`u32`). For finite,
//! non-negative values the unsigned order of the bit patterns agrees with the
//! numeric order of the values, so the documented range 0.0 ..= 100.0 can be
//! stated and enforced as a plain integer bound. Callers decode a reading
//! with `f32::from_bits`.

use vstd::prelude::*;

verus! {

/// Bit pattern of the `f32` value `100.0`: the full-scale CPU percentage.
/// Every bit pattern in `0 ..= CPU_FULL_SCALE_BITS` decodes to a number in
/// `0.0 ..= 100.0`, and those are exactly the patterns of that range.
pub const CPU_FULL_SCALE_BITS: u32 = 0x42C8_0000;

/// Bit patterns at or above this value carry the `f32` sign bit, so they
/// decode to a negative number (or a negatively-signed NaN).
pub const F32_SIGN_BIT: u32 = 0x8000_0000;

/// The failure a snapshot call can surface.
#[derive(Clone, Copy, Debug, PartialEq, Eq, Structural)]
pub enum ProfilerError {
    /// The shared telemetry lock was poisoned by a holder that terminated
    /// abnormally inside the critical section; the telemetry source is
    /// permanently unusable and no reading may be substituted for it.
    TelemetryUnavailable,
}

/// What a raw CPU reading becomes before it is handed out: readings that
/// decode to a negative value fall to `0.0`, readings above full scale (or
/// that are not a number at all) saturate at `100.0`, and in-range readings
/// pass through unchanged.
pub open spec fn clamped_cpu_bits(raw: u32) -> u32 {
    if raw >= F32_SIGN_BIT {
        0u32
    } else if raw > CPU_FULL_SCALE_BITS {
        CPU_FULL_SCALE_BITS
    } else {
        raw
    }
}

/// One consistent point-in-time reading: the system-wide CPU usage (as the
/// bit pattern of an `f32` percentage) and the resident memory in bytes.
/// Both values of one snapshot come from the same refresh of the telemetry
/// source.
#[derive(Clone, Copy, Debug, PartialEq, Eq, Structural)]
pub struct TelemetrySnapshot {
    /// CPU usage, the bit pattern of an `f32` in `0.0 ..= 100.0`.
    pub cpu_bits: u32,
    /// Bytes of memory in use at the last refresh of the memory counters.
    pub memory_used: u64,
}

impl TelemetrySnapshot {
    /// The CPU reading decodes to a percentage within `0.0 ..= 100.0`.
    pub open spec fn wf(&self) -> bool {
        self.cpu_bits <= CPU_FULL_SCALE_BITS
    }

    /// Packages one refresh cycle's pair of raw counter readings as a
    /// snapshot, clamping the CPU reading into its documented range. The
    /// result pairs exactly the two readings it was given: no value from any
    /// other refresh can enter it.
    pub fn from_reading(raw_cpu_bits: u32, memory_used: u64) -> (s: TelemetrySnapshot)
        ensures
            s.cpu_bits == clamped_cpu_bits(raw_cpu_bits),
            s.memory_used == memory_used,
            s.wf(),
    {
        let cpu_bits: u32 = if raw_cpu_bits >= F32_SIGN_BIT {
            0u32
        } else if raw_cpu_bits > CPU_FULL_SCALE_BITS {
            CPU_FULL_SCALE_BITS
        } else {
            raw_cpu_bits
        };
        TelemetrySnapshot { cpu_bits, memory_used }
    }
}

/// Whatever raw bit pattern the operating system reports, the clamped CPU
/// reading stays within the documented range: at most full scale, and (being
/// unsigned) at least zero.
pub proof fn lemma_clamped_cpu_in_range(raw: u32)
    ensures
        clamped_cpu_bits(raw) <= CPU_FULL_SCALE_BITS,
{
}

} // verus!
