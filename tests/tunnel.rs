use ton_proxy::error::ProxyError;
use ton_proxy::tunnel::{
    relay_step, Direction, RelayAction, RelayEvent, RelayState, TunnelOutcome, TunnelPhase,
    TunnelSession,
};

fn open_session() -> TunnelSession {
    let mut s = TunnelSession::new();
    assert_eq!(s.on_dial(true), None);
    s
}

#[test]
fn relay_copies_then_reads_again() {
    assert_eq!(
        relay_step(RelayState::Reading, RelayEvent::Read(5)),
        (RelayState::Writing(5), RelayAction::WriteAll(5))
    );
    assert_eq!(
        relay_step(RelayState::Writing(5), RelayEvent::Wrote),
        (RelayState::Reading, RelayAction::Read)
    );
}

#[test]
fn relay_half_closes_on_end_of_stream() {
    assert_eq!(
        relay_step(RelayState::Reading, RelayEvent::Read(0)),
        (RelayState::ShuttingDown, RelayAction::ShutdownPeer)
    );
    assert_eq!(
        relay_step(RelayState::ShuttingDown, RelayEvent::ShutDown),
        (RelayState::Finished(true), RelayAction::Stop)
    );
}

#[test]
fn relay_errors_finish_as_failed() {
    assert_eq!(
        relay_step(RelayState::Reading, RelayEvent::ReadFailed),
        (RelayState::Finished(false), RelayAction::Stop)
    );
    assert_eq!(
        relay_step(RelayState::Writing(3), RelayEvent::WriteFailed),
        (RelayState::Finished(false), RelayAction::Stop)
    );
    assert_eq!(
        relay_step(RelayState::ShuttingDown, RelayEvent::ShutdownFailed),
        (RelayState::Finished(false), RelayAction::Stop)
    );
    assert_eq!(
        relay_step(RelayState::Reading, RelayEvent::Wrote),
        (RelayState::Finished(false), RelayAction::Stop)
    );
    assert_eq!(
        relay_step(RelayState::Finished(true), RelayEvent::Read(4)),
        (RelayState::Finished(true), RelayAction::Stop)
    );
}

#[test]
fn dial_failure_closes_session() {
    let mut s = TunnelSession::new();
    assert_eq!(s.phase, TunnelPhase::Connecting);
    assert_eq!(s.outcome(), None);
    assert_eq!(s.on_dial(false), Some(ProxyError::DialFailure));
    assert_eq!(s.phase, TunnelPhase::Closed);
    assert_eq!(s.outcome(), Some(TunnelOutcome::DialFailed));
}

#[test]
fn client_half_close_keeps_other_direction_open() {
    let mut s = open_session();
    assert_eq!(
        s.on_event(Direction::DestToClient, RelayEvent::Read(10)),
        RelayAction::WriteAll(10)
    );
    assert_eq!(
        s.on_event(Direction::ClientToDest, RelayEvent::Read(0)),
        RelayAction::ShutdownPeer
    );
    assert_eq!(s.on_event(Direction::ClientToDest, RelayEvent::ShutDown), RelayAction::Stop);
    assert_eq!(s.phase, TunnelPhase::Tunneling);
    assert_eq!(s.dest_to_client, RelayState::Writing(10));
    assert_eq!(s.on_event(Direction::DestToClient, RelayEvent::Wrote), RelayAction::Read);
    assert_eq!(s.on_event(Direction::DestToClient, RelayEvent::Read(0)), RelayAction::ShutdownPeer);
    assert_eq!(s.outcome(), None);
    assert_eq!(s.on_event(Direction::DestToClient, RelayEvent::ShutDown), RelayAction::Stop);
    assert_eq!(s.phase, TunnelPhase::Closed);
    assert_eq!(s.outcome(), Some(TunnelOutcome::Clean));
}

#[test]
fn one_failed_direction_does_not_stop_the_other() {
    let mut s = open_session();
    assert_eq!(s.on_event(Direction::ClientToDest, RelayEvent::ReadFailed), RelayAction::Stop);
    assert_eq!(s.phase, TunnelPhase::Tunneling);
    assert_eq!(s.dest_to_client, RelayState::Reading);
    assert_eq!(s.on_event(Direction::DestToClient, RelayEvent::Read(2)), RelayAction::WriteAll(2));
    assert_eq!(s.on_event(Direction::DestToClient, RelayEvent::WriteFailed), RelayAction::Stop);
    assert_eq!(s.outcome(), Some(TunnelOutcome::Failed(true, true)));
}

#[test]
fn failure_of_one_side_is_reported() {
    let mut s = open_session();
    s.on_event(Direction::ClientToDest, RelayEvent::Read(0));
    s.on_event(Direction::ClientToDest, RelayEvent::ShutDown);
    s.on_event(Direction::DestToClient, RelayEvent::ReadFailed);
    assert_eq!(s.outcome(), Some(TunnelOutcome::Failed(false, true)));
}

#[test]
fn relay_writes_chunks_in_order() {
    let mut state = RelayState::Reading;
    let mut actions = Vec::new();
    for n in [3usize, 8192, 1] {
        for e in [RelayEvent::Read(n), RelayEvent::Wrote] {
            let (next, a) = relay_step(state, e);
            state = next;
            actions.push(a);
        }
    }
    assert_eq!(state, RelayState::Reading);
    assert_eq!(
        actions,
        vec![
            RelayAction::WriteAll(3),
            RelayAction::Read,
            RelayAction::WriteAll(8192),
            RelayAction::Read,
            RelayAction::WriteAll(1),
            RelayAction::Read,
        ]
    );
}
