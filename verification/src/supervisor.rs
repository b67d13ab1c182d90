//! The process supervisor: generation allocation and the decisions taken
//! around one spawn attempt.
//!
//! The supervisor owns the generation counter.  Spawning and restarting
//! both allocate a fresh, strictly larger generation; the previous
//! generation's tasks are never cancelled, they are rendered inert by
//! generation filtering at the event relay.  The OS-level spawn itself is
//! left to the driver, which reports back whether it worked.

use vstd::prelude::*;

verus! {

/// The logical name of the sidecar executable the supervisor launches.
pub const SIDECAR_NAME: &'static str = "dmx-backend";

/// Owns the generation counter.  Each spawn or restart allocates the next
/// generation; nothing else ever writes the counter.
#[derive(Debug, Clone, Copy, PartialEq, Eq)]
pub struct Supervisor {
    /// The current generation; `0` means nothing was spawned yet.
    pub generation: u64,
}

/// What the driver must do once one spawn attempt has completed:
/// which per-generation tasks to start, and whether to report a spawn
/// failure instead.
#[derive(Debug, Clone, Copy, PartialEq, Eq)]
pub struct SpawnPlan {
    /// Start the task that drains the child's output streams.
    pub start_output_relay: bool,
    /// Start the task that polls the health endpoint.
    pub start_prober: bool,
    /// Surface a `SpawnError` for this generation; no retry follows.
    pub report_spawn_error: bool,
}

impl Supervisor {
    /// A supervisor that has spawned nothing yet.
    pub fn new() -> (s: Supervisor)
        ensures
            s.generation == 0,
    {
        Supervisor { generation: 0 }
    }

    /// Allocates the generation for a new spawn or restart attempt.  The
    /// counter is strictly monotonic, so the new generation supersedes
    /// every earlier one at the event relay.
    pub fn allocate_generation(&mut self) -> (g: u64)
        requires
            old(self).generation < u64::MAX,
        ensures
            final(self).generation == old(self).generation + 1,
            g == final(self).generation,
    {
        self.generation = self.generation + 1;
        self.generation
    }
}

/// The decision taken right after the OS answered one spawn attempt:
/// on success the output relay and the readiness prober start for the new
/// generation; on failure neither starts and the error is surfaced once,
/// with no automatic retry.
pub fn plan_after_spawn(spawn_ok: bool) -> (p: SpawnPlan)
    ensures
        p.start_output_relay == spawn_ok,
        p.start_prober == spawn_ok,
        p.report_spawn_error == !spawn_ok,
{
    SpawnPlan {
        start_output_relay: spawn_ok,
        start_prober: spawn_ok,
        report_spawn_error: !spawn_ok,
    }
}

} // verus!
