use voice_session::connection::{
    derive_state, ConnectionMonitor, ConnectionState, ConnectionStatus, IceConnectionState,
    PeerConnectionState, SignalingState,
};

#[test]
fn default_status_is_disconnected() {
    let status = ConnectionStatus::default();
    assert_eq!(status.state, ConnectionState::Disconnected);
    assert_eq!(status.signaling_state, SignalingState::Stable);
    assert_eq!(status.ice_state, IceConnectionState::New);
    assert_eq!(status.peer_state, PeerConnectionState::New);
    assert_eq!(status.last_error, None);
}

#[test]
fn new_monitor_publishes_default_status() {
    let monitor = ConnectionMonitor::new();
    assert_eq!(monitor.current(), ConnectionStatus::default());
    assert_eq!(*monitor.subscribe().borrow(), ConnectionStatus::default());
}

#[test]
fn state_names() {
    assert_eq!(ConnectionState::Disconnected.name(), "Disconnected");
    assert_eq!(ConnectionState::Connecting.name(), "Connecting");
    assert_eq!(ConnectionState::Connected.name(), "Connected");
    assert_eq!(ConnectionState::Failed.name(), "Failed");
    assert_eq!(ConnectionState::Reconnecting.name(), "Reconnecting");
}

#[test]
fn ice_state_decides_overall_state() {
    let start = ConnectionState::Reconnecting;
    assert_eq!(derive_state(start, IceConnectionState::Connected), ConnectionState::Connected);
    assert_eq!(derive_state(start, IceConnectionState::Failed), ConnectionState::Failed);
    assert_eq!(
        derive_state(start, IceConnectionState::Disconnected),
        ConnectionState::Disconnected
    );
    assert_eq!(derive_state(start, IceConnectionState::Checking), ConnectionState::Connecting);
    assert_eq!(derive_state(start, IceConnectionState::New), start);
    assert_eq!(derive_state(start, IceConnectionState::Completed), start);
    assert_eq!(derive_state(start, IceConnectionState::Closed), start);
    assert_eq!(derive_state(start, IceConnectionState::Unspecified), start);
}

#[test]
fn status_follows_ice_from_new_to_connected() {
    let mut monitor = ConnectionMonitor::new();
    let observer = monitor.subscribe();
    assert_eq!(observer.borrow().state, ConnectionState::Disconnected);

    monitor.update_ice_state(IceConnectionState::New);
    assert_eq!(observer.borrow().state, ConnectionState::Disconnected);
    assert_eq!(observer.borrow().ice_state, IceConnectionState::New);

    monitor.update_ice_state(IceConnectionState::Checking);
    assert_eq!(observer.borrow().state, ConnectionState::Connecting);
    assert_eq!(observer.borrow().ice_state, IceConnectionState::Checking);

    monitor.update_ice_state(IceConnectionState::Connected);
    assert_eq!(observer.borrow().state, ConnectionState::Connected);
    assert_eq!(observer.borrow().ice_state, IceConnectionState::Connected);

    monitor.update_ice_state(IceConnectionState::Completed);
    assert_eq!(observer.borrow().state, ConnectionState::Connected);
    assert_eq!(observer.borrow().ice_state, IceConnectionState::Completed);
}

#[test]
fn sub_states_leave_overall_state() {
    let mut monitor = ConnectionMonitor::new();
    monitor.update_state(ConnectionState::Reconnecting);
    monitor.update_signaling_state(SignalingState::HaveLocalOffer);
    monitor.update_peer_state(PeerConnectionState::Failed);
    let status = monitor.current();
    assert_eq!(status.state, ConnectionState::Reconnecting);
    assert_eq!(status.signaling_state, SignalingState::HaveLocalOffer);
    assert_eq!(status.peer_state, PeerConnectionState::Failed);
    assert_eq!(status.ice_state, IceConnectionState::New);
    assert_eq!(status.last_error, None);
}

#[test]
fn set_error_fails_from_every_state() {
    let states = [
        ConnectionState::Disconnected,
        ConnectionState::Connecting,
        ConnectionState::Connected,
        ConnectionState::Failed,
        ConnectionState::Reconnecting,
    ];
    for state in states {
        let mut monitor = ConnectionMonitor::new();
        monitor.update_state(state);
        assert_eq!(monitor.current().state, state);
        monitor.set_error("relay lost".to_string());
        let status = monitor.current();
        assert_eq!(status.state, ConnectionState::Failed);
        assert_eq!(status.last_error, Some("relay lost".to_string()));
    }
}

#[test]
fn set_error_downgrades_a_connected_session() {
    let mut monitor = ConnectionMonitor::new();
    monitor.update_ice_state(IceConnectionState::Connected);
    monitor.set_error("first".to_string());
    monitor.set_error("second".to_string());
    let status = monitor.current();
    assert_eq!(status.state, ConnectionState::Failed);
    assert_eq!(status.ice_state, IceConnectionState::Connected);
    assert_eq!(status.last_error, Some("second".to_string()));
}

#[test]
fn ice_recovers_after_an_error_and_keeps_the_message() {
    let mut monitor = ConnectionMonitor::new();
    monitor.set_error("boom".to_string());
    monitor.update_ice_state(IceConnectionState::Connected);
    let status = monitor.current();
    assert_eq!(status.state, ConnectionState::Connected);
    assert_eq!(status.last_error, Some("boom".to_string()));
}

#[test]
fn late_observer_sees_latest_status_only() {
    let mut monitor = ConnectionMonitor::new();
    monitor.update_ice_state(IceConnectionState::Checking);
    monitor.update_ice_state(IceConnectionState::Connected);
    monitor.update_ice_state(IceConnectionState::Disconnected);
    let observer = monitor.subscribe();
    assert_eq!(observer.borrow().state, ConnectionState::Disconnected);
    assert!(observer.has_changed().unwrap());
}

#[test]
fn every_observer_sees_the_same_status() {
    let mut monitor = ConnectionMonitor::new();
    let first = monitor.subscribe();
    let second = monitor.subscribe();
    monitor.update_state(ConnectionState::Connecting);
    assert_eq!(*first.borrow(), *second.borrow());
    assert_eq!(*first.borrow(), monitor.current());
}
