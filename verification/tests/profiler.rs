use accel_core::profiler::SystemProfiler;
use accel_core::telemetry::ProfilerError;
use accel_core::telemetry::TelemetrySnapshot;
use accel_core::telemetry::CPU_FULL_SCALE_BITS;

fn cpu_percent(s: &TelemetrySnapshot) -> f32 {
    f32::from_bits(s.cpu_bits)
}

#[test]
fn full_scale_bits_decode_to_percent_range() {
    assert_eq!(f32::from_bits(CPU_FULL_SCALE_BITS), 100.0f32);
    assert_eq!(f32::from_bits(0u32), 0.0f32);
}

#[test]
fn snapshot_within_bounds() {
    let mut p = SystemProfiler::new();
    let s = p.snapshot().expect("a ready profiler must produce a snapshot");
    let cpu = cpu_percent(&s);
    assert!(cpu >= 0.0f32);
    assert!(cpu <= 100.0f32);
    assert!(s.cpu_bits <= CPU_FULL_SCALE_BITS);
}

#[test]
fn back_to_back_snapshots_stay_close() {
    let mut p = SystemProfiler::new();
    let a = p.snapshot().expect("first snapshot");
    let b = p.snapshot().expect("second snapshot");
    // Back-to-back refreshes leave the usage counters almost no time to
    // move; allow a generous jitter margin for a loaded host.
    let diff = (cpu_percent(&a) - cpu_percent(&b)).abs();
    assert!(diff <= 50.0f32, "cpu jitter {} too large", diff);
}

#[test]
fn poisoned_profiler_always_fails() {
    let mut p = SystemProfiler::new();
    assert!(p.snapshot().is_ok());
    p.mark_poisoned();
    for _ in 0..5 {
        assert_eq!(p.snapshot(), Err(ProfilerError::TelemetryUnavailable));
    }
}

#[test]
fn construction_gives_usable_handle() {
    let mut p = SystemProfiler::new();
    assert!(p.snapshot().is_ok());
}

#[test]
fn end_to_end_hundred_snapshots() {
    let mut p = SystemProfiler::new();
    let first = p.snapshot().expect("snapshot on a fresh profiler");
    let cpu = cpu_percent(&first);
    assert!((0.0f32..=100.0f32).contains(&cpu));
    let _mem: u64 = first.memory_used;
    for _ in 0..100 {
        let s = p.snapshot().expect("sequential snapshots never fail while ready");
        assert!(s.cpu_bits <= CPU_FULL_SCALE_BITS);
    }
}

#[test]
fn from_reading_keeps_in_range_values() {
    let bits: u32 = 42.5f32.to_bits();
    let s = TelemetrySnapshot::from_reading(bits, 1024);
    assert_eq!(s.cpu_bits, bits);
    assert_eq!(cpu_percent(&s), 42.5f32);
    assert_eq!(s.memory_used, 1024);
}

#[test]
fn from_reading_clamps_overshoot_to_full_scale() {
    let s = TelemetrySnapshot::from_reading(150.0f32.to_bits(), 0);
    assert_eq!(cpu_percent(&s), 100.0f32);
    let nan = TelemetrySnapshot::from_reading(f32::NAN.to_bits() | 0x0040_0000, 0);
    assert!(nan.cpu_bits <= CPU_FULL_SCALE_BITS);
}

#[test]
fn from_reading_clamps_negative_to_zero() {
    let s = TelemetrySnapshot::from_reading((-1.0f32).to_bits(), 9);
    assert_eq!(cpu_percent(&s), 0.0f32);
    assert_eq!(s.memory_used, 9);
}

#[test]
fn clamp_matches_float_semantics_on_samples() {
    let samples: [f32; 7] = [0.0, 0.25, 55.5, 99.9, 100.0, 312.75, -3.5];
    for v in samples {
        let clamped = f32::from_bits(TelemetrySnapshot::from_reading(v.to_bits(), 0).cpu_bits);
        assert_eq!(clamped, v.clamp(0.0, 100.0));
    }
}
