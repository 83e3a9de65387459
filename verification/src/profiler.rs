//! The snapshot service: a profiler that owns one telemetry source and hands
//! out consistent point-in-time readings of CPU usage and memory use.
//!
//! Exclusive access to the source is what makes a snapshot consistent: a
//! snapshot call holds the source exclusively (`&mut self`) for its whole
//! refresh-then-read critical section, so the two values of one returned
//! pair always come from the same refresh cycle, and the refreshes of any
//! number of callers form a single serial history. Shells that share one
//! profiler across threads put it behind a mutual-exclusion lock; when a
//! holder of that lock terminates abnormally inside the critical section,
//! the shell records it here with `mark_poisoned`, and every later snapshot
//! surfaces `ProfilerError::TelemetryUnavailable` rather than a stale or
//! default reading.

use vstd::prelude::*;
use sysinfo::System;
use crate::source;
use crate::telemetry::ProfilerError;
use crate::telemetry::TelemetrySnapshot;

verus! {

/// The profiler's lifecycle after construction: usable, or permanently
/// unusable because a holder terminated abnormally while it held the
/// telemetry source.
#[derive(Clone, Copy, Debug, PartialEq, Eq, Structural)]
pub enum ProfilerState {
    Ready,
    Poisoned,
}

/// Everything one snapshot call promises, as a relation between the state
/// before the call, the state after it, and the outcome: the call never
/// moves the profiler between lifecycle states, succeeds exactly from the
/// ready state with a well-formed snapshot, and otherwise fails with
/// `TelemetryUnavailable`.
pub open spec fn snapshot_step(
    pre: ProfilerState,
    post: ProfilerState,
    r: Result<TelemetrySnapshot, ProfilerError>,
) -> bool {
    &&& post == pre
    &&& (pre is Ready <==> r is Ok)
    &&& (r matches Ok(s) ==> s.wf())
    &&& (r matches Err(e) ==> e == ProfilerError::TelemetryUnavailable)
}

/// A thread-safe, on-demand view of system-wide CPU and memory usage. Owns
/// exactly one telemetry source, created at construction with the CPU
/// subsystem enabled and nothing else.
pub struct SystemProfiler {
    sys: System,
    state: ProfilerState,
}

impl View for SystemProfiler {
    type V = ProfilerState;

    /// A profiler's abstract state is its position in the lifecycle; the
    /// telemetry source behind it is opaque.
    closed spec fn view(&self) -> ProfilerState {
        self.state
    }
}

impl SystemProfiler {
    /// Builds a profiler over a fresh telemetry source. Construction never
    /// fails and the handle is immediately usable: `snapshot` may be called
    /// on it right away.
    pub fn new() -> (p: SystemProfiler)
        ensures
            p@ is Ready,
    {
        SystemProfiler { sys: source::new_cpu_source(), state: ProfilerState::Ready }
    }

    /// Takes one consistent snapshot: refreshes the CPU counters and reads
    /// the CPU usage and the memory use from that same refresh cycle, all
    /// under exclusive access to the telemetry source.
    ///
    /// A ready profiler always returns a well-formed snapshot; a poisoned
    /// one always fails with `TelemetryUnavailable`, never substituting a
    /// stale or default reading. The call never moves the profiler between
    /// lifecycle states.
    pub fn snapshot(&mut self) -> (r: Result<TelemetrySnapshot, ProfilerError>)
        ensures
            snapshot_step(old(self)@, final(self)@, r),
    {
        match self.state {
            ProfilerState::Poisoned => Err(ProfilerError::TelemetryUnavailable),
            ProfilerState::Ready => {
                source::refresh_cpu_counters(&mut self.sys);
                let cpu_bits: u32 = source::cpu_usage_bits(&self.sys);
                let memory_used: u64 = source::used_memory_bytes(&self.sys);
                Ok(TelemetrySnapshot::from_reading(cpu_bits, memory_used))
            },
        }
    }

    /// Records that a holder terminated abnormally while it was inside the
    /// critical section. Poisoning is terminal: the profiler can never
    /// return to the ready state, so by `snapshot`'s contract every later
    /// call fails with `TelemetryUnavailable`, deterministically.
    pub fn mark_poisoned(&mut self)
        ensures
            final(self)@ is Poisoned,
    {
        self.state = ProfilerState::Poisoned;
    }
}

/// In a serial history of snapshot calls that starts from a poisoned state,
/// the profiler is still poisoned at every point of the history.
proof fn lemma_poisoned_history(
    states: Seq<ProfilerState>,
    results: Seq<Result<TelemetrySnapshot, ProfilerError>>,
    i: int,
)
    requires
        states.len() == results.len() + 1,
        states[0] is Poisoned,
        forall|j: int|
            0 <= j < results.len() ==> snapshot_step(states[j], states[j + 1], results[j]),
        0 <= i < states.len(),
    ensures
        states[i] is Poisoned,
    decreases i,
{
    if i > 0 {
        lemma_poisoned_history(states, results, i - 1);
        assert(snapshot_step(states[i - 1], states[i], results[i - 1]));
    }
}

/// In a serial history of snapshot calls that starts from the ready state,
/// the profiler is still ready at every point of the history.
proof fn lemma_ready_history(
    states: Seq<ProfilerState>,
    results: Seq<Result<TelemetrySnapshot, ProfilerError>>,
    i: int,
)
    requires
        states.len() == results.len() + 1,
        states[0] is Ready,
        forall|j: int|
            0 <= j < results.len() ==> snapshot_step(states[j], states[j + 1], results[j]),
        0 <= i < states.len(),
    ensures
        states[i] is Ready,
    decreases i,
{
    if i > 0 {
        lemma_ready_history(states, results, i - 1);
        assert(snapshot_step(states[i - 1], states[i], results[i - 1]));
    }
}

/// A freshly constructed profiler stays usable: in any serial history of
/// snapshot calls that starts from the ready state, every call returns a
/// snapshot, and every returned snapshot reports a CPU usage within its
/// documented range.
pub proof fn lemma_ready_profiler_never_fails(
    states: Seq<ProfilerState>,
    results: Seq<Result<TelemetrySnapshot, ProfilerError>>,
)
    requires
        states.len() == results.len() + 1,
        states[0] is Ready,
        forall|j: int|
            0 <= j < results.len() ==> snapshot_step(states[j], states[j + 1], results[j]),
    ensures
        forall|j: int|
            0 <= j < results.len() ==> results[j] is Ok && results[j]->Ok_0.wf(),
{
    assert forall|j: int| 0 <= j < results.len() implies results[j] is Ok
        && results[j]->Ok_0.wf() by {
        lemma_ready_history(states, results, j);
        assert(snapshot_step(states[j], states[j + 1], results[j]));
    }
}

/// Poisoning is terminal: once a profiler is poisoned, every subsequent
/// snapshot call in any serial history of calls — however long — fails with
/// `TelemetryUnavailable`, deterministically and every time. `states` is
/// the profiler's state before and after each call and `results` the
/// outcomes, each call obeying `snapshot`'s contract.
pub proof fn lemma_poisoning_is_terminal(
    states: Seq<ProfilerState>,
    results: Seq<Result<TelemetrySnapshot, ProfilerError>>,
)
    requires
        states.len() == results.len() + 1,
        states[0] is Poisoned,
        forall|j: int|
            0 <= j < results.len() ==> snapshot_step(states[j], states[j + 1], results[j]),
    ensures
        forall|j: int|
            0 <= j < results.len() ==> results[j] == Err::<
                TelemetrySnapshot,
                ProfilerError,
            >(ProfilerError::TelemetryUnavailable),
{
    assert forall|j: int| 0 <= j < results.len() implies results[j] == Err::<
        TelemetrySnapshot,
        ProfilerError,
    >(ProfilerError::TelemetryUnavailable) by {
        lemma_poisoned_history(states, results, j);
        assert(snapshot_step(states[j], states[j + 1], results[j]));
    }
}

} // verus!
