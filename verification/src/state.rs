//! Process-wide bootstrap state: the snapshot metadata slot, the runtime
//! origin flag, and the queries that read them.

use vstd::prelude::*;

use crate::snapshot::BuildHost;
use crate::snapshot::SnapshotOptions;
use crate::snapshot::SnapshotSlot;

verus! {

/// Process-wide state installed by the host before any query is issued.
pub struct BootstrapState {
    /// OS process id, captured once by the host at construction.
    pub pid: u32,
    /// Build-host platform constants used to synthesize default snapshot
    /// metadata.
    pub build_host: BuildHost,
    /// The one-shot snapshot metadata slot.
    pub snapshot: SnapshotSlot,
    /// True when the booting environment came from a generic snapshot rather
    /// than one customized for this host configuration. Set once, read-only.
    pub is_from_unconfigured_runtime: bool,
    /// Development hot-reload policy: when set, consuming the snapshot
    /// metadata leaves the slot re-derivable instead of closing it.
    pub hot_reload: bool,
}

impl BootstrapState {
    /// Installs the process-wide state: the slot is `Populated` exactly when
    /// the host supplied metadata, and `Unset` otherwise.
    pub fn new(
        pid: u32,
        build_host: BuildHost,
        snapshot_options: Option<SnapshotOptions>,
        is_from_unconfigured_runtime: bool,
        hot_reload: bool,
    ) -> (state: BootstrapState)
        ensures
            state.pid == pid,
            state.build_host == build_host,
            state.is_from_unconfigured_runtime == is_from_unconfigured_runtime,
            state.hot_reload == hot_reload,
            match snapshot_options {
                Some(opts) => state.snapshot == SnapshotSlot::Populated(opts),
                None => state.snapshot == SnapshotSlot::Unset,
            },
    {
        let snapshot = match snapshot_options {
            Some(opts) => SnapshotSlot::Populated(opts),
            None => SnapshotSlot::Unset,
        };
        BootstrapState { pid, build_host, snapshot, is_from_unconfigured_runtime, hot_reload }
    }
}

/// Returns the process id captured at construction; repeated queries within
/// one environment lifetime return the same value.
pub fn op_bootstrap_pid(state: &BootstrapState) -> (pid: u32)
    ensures
        pid == state.pid,
{
    state.pid
}

/// Reports whether the booting environment came from a generic snapshot;
/// reflects exactly the flag fixed at construction.
pub fn op_bootstrap_is_from_unconfigured_runtime(state: &BootstrapState) -> (flag: bool)
    ensures
        flag == state.is_from_unconfigured_runtime,
{
    state.is_from_unconfigured_runtime
}

/// Reads and consumes the snapshot metadata, exactly once per snapshot build:
/// explicitly supplied metadata is handed out as stored, and an `Unset` slot
/// yields the default derived from the build host. Outside the hot-reload
/// policy the slot closes, and a second query is a precondition violation;
/// under hot reload the slot returns to `Unset` so each query independently
/// re-reads or re-derives.
pub fn op_snapshot_options(state: &mut BootstrapState) -> (opts: SnapshotOptions)
    requires
        old(state).snapshot is Consumed ==> old(state).hot_reload,
    ensures
        final(state).pid == old(state).pid,
        final(state).build_host == old(state).build_host,
        final(state).is_from_unconfigured_runtime == old(state).is_from_unconfigured_runtime,
        final(state).hot_reload == old(state).hot_reload,
        final(state).snapshot == (if old(state).hot_reload {
            SnapshotSlot::Unset
        } else {
            SnapshotSlot::Consumed
        }),
        match old(state).snapshot {
            SnapshotSlot::Populated(stored) => opts == stored,
            _ => opts.is_default_for(old(state).build_host),
        },
{
    let mut taken = if state.hot_reload {
        SnapshotSlot::Unset
    } else {
        SnapshotSlot::Consumed
    };
    core::mem::swap(&mut state.snapshot, &mut taken);
    match taken {
        SnapshotSlot::Populated(stored) => stored,
        _ => SnapshotOptions::default_for(&state.build_host),
    }
}

/// Repeated in-lifetime queries agree: the process id, CPU count, user agent
/// and locale are each pinned by their query's contract to one stored field,
/// so any two results of the same query over one state and options record
/// are equal.
pub proof fn lemma_repeated_queries_agree(
    state: BootstrapState,
    options: crate::options::BootstrapOptions,
    pid1: u32,
    pid2: u32,
    cpus1: u32,
    cpus2: u32,
    agent1: Seq<char>,
    agent2: Seq<char>,
    locale1: Seq<char>,
    locale2: Seq<char>,
)
    requires
        pid1 == state.pid,
        pid2 == state.pid,
        cpus1 == options.cpu_count,
        cpus2 == options.cpu_count,
        agent1 == options.user_agent@,
        agent2 == options.user_agent@,
        locale1 == options.locale@,
        locale2 == options.locale@,
    ensures
        pid1 == pid2,
        cpus1 == cpus2,
        agent1 == agent2,
        locale1 == locale2,
{
}

} // verus!
