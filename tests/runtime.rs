use sidecar_boot::lifecycle::{step, LifecycleEvent, SidecarState, WARMUP_MILLIS};
use sidecar_boot::output::{route_event, LogStream, OutputEvent, STDERR_LABEL, STDOUT_LABEL};

#[test]
fn stdout_goes_to_output() {
    let l = route_event(OutputEvent::Stdout(b"listening on 4096".to_vec())).unwrap();
    assert_eq!(l.stream, LogStream::Output);
    assert_eq!(l.label, "API Server: ");
    assert_eq!(l.label, STDOUT_LABEL);
    assert_eq!(l.bytes, b"listening on 4096".to_vec());
}

#[test]
fn stderr_goes_to_error() {
    let l = route_event(OutputEvent::Stderr(vec![0xff, b'x'])).unwrap();
    assert_eq!(l.stream, LogStream::Error);
    assert_eq!(l.label, "API Server Error: ");
    assert_eq!(l.label, STDERR_LABEL);
    assert_eq!(l.bytes, vec![0xff, b'x']);
}

#[test]
fn other_events_are_not_logged() {
    assert!(route_event(OutputEvent::Other).is_none());
}

#[test]
fn lifecycle_to_exit() {
    let s = step(SidecarState::NotStarted, LifecycleEvent::SpawnRequested).unwrap();
    assert_eq!(s, SidecarState::Spawning);
    let s = step(s, LifecycleEvent::SpawnSucceeded).unwrap();
    assert_eq!(s, SidecarState::Running);
    assert_eq!(step(s, LifecycleEvent::StreamsClosed), Some(SidecarState::Exited));
    assert_eq!(step(s, LifecycleEvent::HostExited), Some(SidecarState::Detached));
}

#[test]
fn lifecycle_failed_spawn_holds_nothing() {
    assert_eq!(step(SidecarState::Spawning, LifecycleEvent::SpawnFailed), Some(SidecarState::NotStarted));
}

#[test]
fn lifecycle_refuses_a_second_child() {
    assert_eq!(step(SidecarState::Running, LifecycleEvent::SpawnRequested), None);
    assert_eq!(step(SidecarState::Exited, LifecycleEvent::SpawnRequested), None);
    assert_eq!(step(SidecarState::Detached, LifecycleEvent::SpawnSucceeded), None);
    assert_eq!(step(SidecarState::NotStarted, LifecycleEvent::SpawnSucceeded), None);
}

#[test]
fn warmup_is_fixed() {
    assert_eq!(WARMUP_MILLIS, 1500);
}
