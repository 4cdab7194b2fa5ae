//! Connection health: one status, written by one monitor and read by any
//! number of observers.
//!
//! The monitor folds what the transport reports (ICE, peer-connection and
//! signaling sub-states, and explicit errors) into a single
//! [`ConnectionState`]. The status lives in a watch channel: an observer
//! always reads the latest status, never a backlog.

use vstd::prelude::*;

verus! {

/// The overall state of the connection.
#[derive(Clone, Copy, Debug, PartialEq, Eq, Structural)]
pub enum ConnectionState {
    Disconnected,
    Connecting,
    Connected,
    Failed,
    Reconnecting,
}

impl ConnectionState {
    /// The name under which the state is shown.
    pub open spec fn spec_name(self) -> Seq<char> {
        match self {
            ConnectionState::Disconnected => "Disconnected"@,
            ConnectionState::Connecting => "Connecting"@,
            ConnectionState::Connected => "Connected"@,
            ConnectionState::Failed => "Failed"@,
            ConnectionState::Reconnecting => "Reconnecting"@,
        }
    }

    /// The name under which the state is shown.
    pub fn name(&self) -> (text: &'static str)
        ensures
            text@ == self.spec_name(),
    {
        match self {
            ConnectionState::Disconnected => "Disconnected",
            ConnectionState::Connecting => "Connecting",
            ConnectionState::Connected => "Connected",
            ConnectionState::Failed => "Failed",
            ConnectionState::Reconnecting => "Reconnecting",
        }
    }
}

/// The state of the offer/answer exchange, as the media engine reports it.
#[derive(Clone, Copy, Debug, PartialEq, Eq, Structural)]
pub enum SignalingState {
    Unspecified,
    Stable,
    HaveLocalOffer,
    HaveRemoteOffer,
    HaveLocalPranswer,
    HaveRemotePranswer,
    Closed,
}

/// The state of connectivity establishment, as the media engine reports it.
#[derive(Clone, Copy, Debug, PartialEq, Eq, Structural)]
pub enum IceConnectionState {
    Unspecified,
    New,
    Checking,
    Connected,
    Completed,
    Disconnected,
    Failed,
    Closed,
}

/// The state of the peer connection, as the media engine reports it.
#[derive(Clone, Copy, Debug, PartialEq, Eq, Structural)]
pub enum PeerConnectionState {
    Unspecified,
    New,
    Connecting,
    Connected,
    Disconnected,
    Failed,
    Closed,
}

/// The overall state that follows from an ICE sub-state: connected, failed,
/// disconnected and checking each decide it; any other sub-state leaves the
/// overall state as it was.
pub open spec fn state_after_ice(current: ConnectionState, ice: IceConnectionState)
    -> ConnectionState {
    match ice {
        IceConnectionState::Connected => ConnectionState::Connected,
        IceConnectionState::Failed => ConnectionState::Failed,
        IceConnectionState::Disconnected => ConnectionState::Disconnected,
        IceConnectionState::Checking => ConnectionState::Connecting,
        _ => current,
    }
}

/// Computes the overall state that follows from an ICE sub-state.
pub fn derive_state(current: ConnectionState, ice: IceConnectionState) -> (next: ConnectionState)
    ensures
        next == state_after_ice(current, ice),
{
    match ice {
        IceConnectionState::Connected => ConnectionState::Connected,
        IceConnectionState::Failed => ConnectionState::Failed,
        IceConnectionState::Disconnected => ConnectionState::Disconnected,
        IceConnectionState::Checking => ConnectionState::Connecting,
        _ => current,
    }
}

/// A snapshot of the connection's health.
#[derive(Clone, Debug, PartialEq, Eq)]
pub struct ConnectionStatus {
    pub state: ConnectionState,
    pub signaling_state: SignalingState,
    pub ice_state: IceConnectionState,
    pub peer_state: PeerConnectionState,
    pub last_error: Option<String>,
}

/// The mathematical value of a [`ConnectionStatus`].
pub struct StatusModel {
    pub state: ConnectionState,
    pub signaling_state: SignalingState,
    pub ice_state: IceConnectionState,
    pub peer_state: PeerConnectionState,
    pub last_error: Option<Seq<char>>,
}

impl StatusModel {
    /// The status before anything has been reported.
    pub open spec fn initial() -> StatusModel {
        StatusModel {
            state: ConnectionState::Disconnected,
            signaling_state: SignalingState::Stable,
            ice_state: IceConnectionState::New,
            peer_state: PeerConnectionState::New,
            last_error: None,
        }
    }

    /// This status with another overall state.
    pub open spec fn with_state(self, state: ConnectionState) -> StatusModel {
        StatusModel { state, ..self }
    }

    /// This status with another signaling sub-state.
    pub open spec fn with_signaling_state(self, signaling_state: SignalingState) -> StatusModel {
        StatusModel { signaling_state, ..self }
    }

    /// This status with another ICE sub-state, and the overall state that
    /// follows from it.
    pub open spec fn with_ice_state(self, ice_state: IceConnectionState) -> StatusModel {
        StatusModel { ice_state, state: state_after_ice(self.state, ice_state), ..self }
    }

    /// This status with another peer-connection sub-state.
    pub open spec fn with_peer_state(self, peer_state: PeerConnectionState) -> StatusModel {
        StatusModel { peer_state, ..self }
    }

    /// This status failed, with the message recorded.
    pub open spec fn with_error(self, message: Seq<char>) -> StatusModel {
        StatusModel { last_error: Some(message), state: ConnectionState::Failed, ..self }
    }
}

impl View for ConnectionStatus {
    type V = StatusModel;

    open spec fn view(&self) -> StatusModel {
        StatusModel {
            state: self.state,
            signaling_state: self.signaling_state,
            ice_state: self.ice_state,
            peer_state: self.peer_state,
            last_error: match self.last_error {
                Some(message) => Some(message@),
                None => None,
            },
        }
    }
}

impl Default for ConnectionStatus {
    fn default() -> (status: ConnectionStatus)
        ensures
            status@ == StatusModel::initial(),
    {
        ConnectionStatus {
            state: ConnectionState::Disconnected,
            signaling_state: SignalingState::Stable,
            ice_state: IceConnectionState::New,
            peer_state: PeerConnectionState::New,
            last_error: None,
        }
    }
}

/// An explicit error fails the connection whatever its state was, and the ICE
/// sub-states are the only other way to change the overall state from the
/// transport's side: signaling and peer sub-states never touch it.
pub proof fn lemma_error_always_fails(
    status: StatusModel,
    message: Seq<char>,
    signaling_state: SignalingState,
    peer_state: PeerConnectionState,
)
    ensures
        status.with_error(message).state == ConnectionState::Failed,
        status.with_error(message).last_error == Some(message),
        status.with_signaling_state(signaling_state).state == status.state,
        status.with_peer_state(peer_state).state == status.state,
{
}

/// `tokio::sync::watch::Sender`, the sending half of a watch channel. What it
/// holds is spoken of only through [`watched_status`].
#[verifier::external_type_specification]
#[verifier::external_body]
#[verifier::reject_recursive_types(T)]
pub struct ExWatchSender<T>(tokio::sync::watch::Sender<T>);

/// `tokio::sync::watch::Receiver`, a receiving half of a watch channel;
/// nothing is believed of it.
#[verifier::external_type_specification]
#[verifier::external_body]
#[verifier::reject_recursive_types(T)]
pub struct ExWatchReceiver<T>(tokio::sync::watch::Receiver<T>);

/// The status that a watch channel holds: the value most recently sent
/// through its sending half. The monitor keeps the only sending half to
/// itself, so nothing else can change what the channel holds.
pub uninterp spec fn watched_status(
    sender: tokio::sync::watch::Sender<ConnectionStatus>,
) -> StatusModel;

/// Calls `tokio::sync::watch::channel`. Believed of it: the new channel holds
/// the initial value.
#[verifier::external_body]
fn watch_channel(initial: ConnectionStatus) -> (halves: (
    tokio::sync::watch::Sender<ConnectionStatus>,
    tokio::sync::watch::Receiver<ConnectionStatus>,
))
    ensures
        watched_status(halves.0) == initial@,
{
    tokio::sync::watch::channel(initial)
}

/// Calls `tokio::sync::watch::Sender::send_replace`. Believed of it: the
/// channel then holds the value sent, whether or not anyone is receiving.
#[verifier::external_body]
fn watch_send(sender: &mut tokio::sync::watch::Sender<ConnectionStatus>, status: ConnectionStatus)
    ensures
        watched_status(*final(sender)) == status@,
{
    sender.send_replace(status);
}

/// Calls `tokio::sync::watch::Sender::borrow`. Believed of it: the value
/// borrowed is the one that the channel holds.
#[verifier::external_body]
fn watch_latest(sender: &tokio::sync::watch::Sender<ConnectionStatus>) -> (status:
    ConnectionStatus)
    ensures
        status@ == watched_status(*sender),
{
    sender.borrow().clone()
}

/// Calls `clone` of `tokio::sync::watch::Receiver`: another receiving half of
/// the same channel.
#[verifier::external_body]
fn watch_receiver(receiver: &tokio::sync::watch::Receiver<ConnectionStatus>) -> (copy:
    tokio::sync::watch::Receiver<ConnectionStatus>) {
    receiver.clone()
}

/// The one writer of the connection status.
pub struct ConnectionMonitor {
    status: tokio::sync::watch::Sender<ConnectionStatus>,
    receiver: tokio::sync::watch::Receiver<ConnectionStatus>,
}

impl View for ConnectionMonitor {
    type V = StatusModel;

    /// The status that observers read.
    closed spec fn view(&self) -> StatusModel {
        watched_status(self.status)
    }
}

impl ConnectionMonitor {
    /// A monitor whose status is the initial one.
    pub fn new() -> (monitor: ConnectionMonitor)
        ensures
            monitor@ == StatusModel::initial(),
    {
        let (status, receiver) = watch_channel(ConnectionStatus::default());
        ConnectionMonitor { status, receiver }
    }

    /// Sets the overall state.
    pub fn update_state(&mut self, state: ConnectionState)
        ensures
            final(self)@ == old(self)@.with_state(state),
    {
        let mut status = watch_latest(&self.status);
        status.state = state;
        watch_send(&mut self.status, status);
    }

    /// Records the signaling sub-state.
    pub fn update_signaling_state(&mut self, state: SignalingState)
        ensures
            final(self)@ == old(self)@.with_signaling_state(state),
    {
        let mut status = watch_latest(&self.status);
        status.signaling_state = state;
        watch_send(&mut self.status, status);
    }

    /// Records the ICE sub-state and derives the overall state from it.
    pub fn update_ice_state(&mut self, state: IceConnectionState)
        ensures
            final(self)@ == old(self)@.with_ice_state(state),
    {
        let mut status = watch_latest(&self.status);
        status.ice_state = state;
        status.state = derive_state(status.state, state);
        watch_send(&mut self.status, status);
    }

    /// Records the peer-connection sub-state.
    pub fn update_peer_state(&mut self, state: PeerConnectionState)
        ensures
            final(self)@ == old(self)@.with_peer_state(state),
    {
        let mut status = watch_latest(&self.status);
        status.peer_state = state;
        watch_send(&mut self.status, status);
    }

    /// Records an error: the connection has failed, whatever its state was.
    pub fn set_error(&mut self, error: String)
        ensures
            final(self)@ == old(self)@.with_error(error@),
            final(self)@.state == ConnectionState::Failed,
    {
        let mut status = watch_latest(&self.status);
        status.last_error = Some(error);
        status.state = ConnectionState::Failed;
        watch_send(&mut self.status, status);
    }

    /// The status as it is now.
    pub fn current(&self) -> (status: ConnectionStatus)
        ensures
            status@ == self@,
    {
        watch_latest(&self.status)
    }

    /// A read-only view for an observer, which always shows the latest
    /// status. A value borrowed from it must be let go before the monitor is
    /// updated again on the same thread: the update waits for it.
    pub fn subscribe(&self) -> (receiver: tokio::sync::watch::Receiver<ConnectionStatus>) {
        watch_receiver(&self.receiver)
    }
}

} // verus!
