//! The lifecycle of the server process, from before it is started to its
//! exit or its detachment from the shell.
use vstd::prelude::*;

verus! {

/// How long startup waits after the server is spawned, in milliseconds,
/// before it goes on as if the server were ready.
pub const WARMUP_MILLIS: u64 = 1500;

/// Where the server process stands.
#[derive(Clone, Copy, Debug, PartialEq, Eq, Structural)]
pub enum SidecarState {
    NotStarted,
    Spawning,
    Running,
    Exited,
    Detached,
}

/// What happens to the server process.
#[derive(Clone, Copy, Debug, PartialEq, Eq, Structural)]
pub enum LifecycleEvent {
    /// Startup asks for the process to be created.
    SpawnRequested,
    /// The operating system created it.
    SpawnSucceeded,
    /// The operating system refused to create it.
    SpawnFailed,
    /// The process closed its output streams or exited.
    StreamsClosed,
    /// The shell exited without stopping the process.
    HostExited,
}

/// The state after `e` in state `s`, or `None` where `e` cannot happen in
/// `s`.
pub open spec fn transition(s: SidecarState, e: LifecycleEvent) -> Option<SidecarState> {
    match (s, e) {
        (SidecarState::NotStarted, LifecycleEvent::SpawnRequested) => Some(SidecarState::Spawning),
        (SidecarState::Spawning, LifecycleEvent::SpawnSucceeded) => Some(SidecarState::Running),
        (SidecarState::Spawning, LifecycleEvent::SpawnFailed) => Some(SidecarState::NotStarted),
        (SidecarState::Running, LifecycleEvent::StreamsClosed) => Some(SidecarState::Exited),
        (SidecarState::Running, LifecycleEvent::HostExited) => Some(SidecarState::Detached),
        _ => None,
    }
}

/// Whether a live process handle is held in state `s`.
pub open spec fn owns_child(s: SidecarState) -> bool {
    s == SidecarState::Running
}

/// The state after the events `events` from `s`, or `None` where one of
/// them cannot happen.
pub open spec fn run_events(s: SidecarState, events: Seq<LifecycleEvent>) -> Option<SidecarState>
    decreases events.len(),
{
    if events.len() == 0 {
        Some(s)
    } else {
        match transition(s, events[0]) {
            Some(t) => run_events(t, events.drop_first()),
            None => None,
        }
    }
}

/// How many processes the events `events` create.
pub open spec fn spawn_count(events: Seq<LifecycleEvent>) -> nat
    decreases events.len(),
{
    if events.len() == 0 {
        0
    } else {
        (if events[0] == LifecycleEvent::SpawnSucceeded { 1nat } else { 0nat }) + spawn_count(events.drop_first())
    }
}

/// The state after `e` in state `s`.
pub fn step(s: SidecarState, e: LifecycleEvent) -> (r: Option<SidecarState>)
    ensures
        r == transition(s, e),
{
    match (s, e) {
        (SidecarState::NotStarted, LifecycleEvent::SpawnRequested) => Some(SidecarState::Spawning),
        (SidecarState::Spawning, LifecycleEvent::SpawnSucceeded) => Some(SidecarState::Running),
        (SidecarState::Spawning, LifecycleEvent::SpawnFailed) => Some(SidecarState::NotStarted),
        (SidecarState::Running, LifecycleEvent::StreamsClosed) => Some(SidecarState::Exited),
        (SidecarState::Running, LifecycleEvent::HostExited) => Some(SidecarState::Detached),
        _ => None,
    }
}

proof fn lemma_spawns_from(s: SidecarState, events: Seq<LifecycleEvent>)
    requires
        run_events(s, events) is Some,
    ensures
        spawn_count(events) <= (if s == SidecarState::NotStarted || s == SidecarState::Spawning { 1nat } else { 0nat }),
    decreases events.len(),
{
    if events.len() > 0 {
        let t = transition(s, events[0]).unwrap();
        lemma_spawns_from(t, events.drop_first());
    }
}

/// A process is held only while the server runs, and any sequence of
/// events that can happen from the start creates at most one process.
pub proof fn lemma_single_child(events: Seq<LifecycleEvent>)
    requires
        run_events(SidecarState::NotStarted, events) is Some,
    ensures
        spawn_count(events) <= 1,
        owns_child(run_events(SidecarState::NotStarted, events).unwrap())
            ==> spawn_count(events) == 1,
{
    lemma_spawns_from(SidecarState::NotStarted, events);
    lemma_owner_spawned(SidecarState::NotStarted, events);
}

proof fn lemma_owner_spawned(s: SidecarState, events: Seq<LifecycleEvent>)
    requires
        run_events(s, events) is Some,
        s == SidecarState::NotStarted || s == SidecarState::Spawning,
    ensures
        owns_child(run_events(s, events).unwrap()) ==> spawn_count(events) >= 1,
    decreases events.len(),
{
    if events.len() > 0 {
        let t = transition(s, events[0]).unwrap();
        if t == SidecarState::NotStarted || t == SidecarState::Spawning {
            lemma_owner_spawned(t, events.drop_first());
        }
    }
}

} // verus!
