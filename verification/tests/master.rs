use rsocx::MAGIC_FLAG;
use rsocx::MasterAction;
use rsocx::MasterEvent;
use rsocx::MasterState;
use rsocx::TunnelCoordinator;

#[test]
fn one_magic_byte_before_each_data_leg() {
    let mut c = TunnelCoordinator::new();
    assert_eq!(c.current_state(), MasterState::AwaitSlave);

    // the slave dials the control port
    assert_eq!(c.on_event(MasterEvent::SlaveAccepted), MasterAction::ListenClients);
    assert_eq!(c.current_state(), MasterState::Ready);

    // a client connects: exactly one magic byte goes to the slave first
    assert_eq!(
        c.on_event(MasterEvent::ClientAccepted),
        MasterAction::SendSignal(MAGIC_FLAG)
    );
    // only after the signal is written is a data connection accepted
    assert_eq!(c.on_event(MasterEvent::SignalSent), MasterAction::AcceptData);
    assert_eq!(c.on_event(MasterEvent::DataAccepted), MasterAction::SpawnRelay);
    assert_eq!(c.current_state(), MasterState::Ready);

    // the next client goes through the same signal-then-accept exchange
    assert_eq!(
        c.on_event(MasterEvent::ClientAccepted),
        MasterAction::SendSignal(MAGIC_FLAG)
    );
    assert_eq!(c.on_event(MasterEvent::SignalSent), MasterAction::AcceptData);
    assert_eq!(c.on_event(MasterEvent::DataAccepted), MasterAction::SpawnRelay);
}

#[test]
fn failed_signal_write_is_fatal() {
    let mut c = TunnelCoordinator::new();
    c.on_event(MasterEvent::SlaveAccepted);
    c.on_event(MasterEvent::ClientAccepted);
    assert_eq!(c.on_event(MasterEvent::SignalFailed), MasterAction::Shutdown);
    assert_eq!(c.current_state(), MasterState::Closed);
}

#[test]
fn failed_accept_is_fatal() {
    let mut c = TunnelCoordinator::new();
    c.on_event(MasterEvent::SlaveAccepted);
    assert_eq!(c.on_event(MasterEvent::AcceptFailed), MasterAction::Shutdown);
    assert_eq!(c.current_state(), MasterState::Closed);
}

#[test]
fn unexpected_event_closes_coordinator() {
    let mut c = TunnelCoordinator::new();
    assert_eq!(c.on_event(MasterEvent::DataAccepted), MasterAction::Shutdown);
    assert_eq!(c.current_state(), MasterState::Closed);
}
