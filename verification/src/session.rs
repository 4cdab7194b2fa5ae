//! The session orchestrator: one owner of the call's state, driven by relay
//! messages, user intents and the outcomes of outside work.
//!
//! The orchestrator does no I/O. Each entry point takes an event, moves the
//! state, and returns a [`Step`]: the actions that the caller is to carry out,
//! in order, and the failure to show, if there is one. The caller reports
//! each action that it has carried out to [`AppState::action_completed`], and
//! an action that failed to [`AppState::action_failed`], which says how the
//! work goes on.

use vstd::prelude::*;
use crate::error::{AppError, AppErrorModel};
use crate::signaling::{MessageModel, SignalingMessage};

verus! {

/// How many reconnection attempts one failure episode may use.
pub const MAX_RECONNECT_ATTEMPTS: u32 = 5;

/// How long each reconnection attempt waits before it connects, in
/// milliseconds.
pub const RECONNECT_DELAY_MS: u64 = 1000;

/// One piece of outside work that the orchestrator asks for.
#[derive(Clone, Debug, PartialEq, Eq)]
pub enum Action {
    /// Open a fresh connection to the relay.
    ConnectRelay,
    /// Transmit a message over the relay.
    Send(SignalingMessage),
    /// Create the media session.
    CreateSession,
    /// Bind local audio capture to the session's outbound track.
    AttachCapture,
    /// Hand a remote offer to the media engine. The engine's answer goes back
    /// into [`AppState::offer_answered`] with the same room and peer.
    AnswerOffer { room_id: String, sdp: String, to_peer: String },
    /// Hand a remote answer to the media engine.
    ApplyAnswer { sdp: String },
    /// Hand a remote ICE candidate to the media engine.
    AddIceCandidate { candidate: String },
    /// Drop the media session and the capture bound to it.
    CloseSession,
    /// Let this many milliseconds pass.
    Wait { millis: u64 },
    /// Switch the outbound audio track on or off.
    SetMicrophone { enabled: bool },
}

/// The mathematical value of an [`Action`].
pub enum ActionModel {
    ConnectRelay,
    Send(MessageModel),
    CreateSession,
    AttachCapture,
    AnswerOffer { room_id: Seq<char>, sdp: Seq<char>, to_peer: Seq<char> },
    ApplyAnswer { sdp: Seq<char> },
    AddIceCandidate { candidate: Seq<char> },
    CloseSession,
    Wait { millis: u64 },
    SetMicrophone { enabled: bool },
}

impl ActionModel {
    /// The error that a failure of this action is: relay work fails as a
    /// transport error, binding the capture as an audio error, and the work
    /// of the media engine as an engine error.
    pub open spec fn failure(self, detail: Seq<char>) -> AppErrorModel {
        match self {
            ActionModel::ConnectRelay => AppErrorModel::Transport(detail),
            ActionModel::Send(_) => AppErrorModel::Transport(detail),
            ActionModel::Wait { .. } => AppErrorModel::Transport(detail),
            ActionModel::AttachCapture => AppErrorModel::Audio(detail),
            _ => AppErrorModel::Engine(detail),
        }
    }

    /// Whether this action sends a `Join`.
    pub open spec fn is_join(self) -> bool {
        self is Send && self->Send_0 is Join
    }
}

impl View for Action {
    type V = ActionModel;

    open spec fn view(&self) -> ActionModel {
        match self {
            Action::ConnectRelay => ActionModel::ConnectRelay,
            Action::Send(message) => ActionModel::Send(message@),
            Action::CreateSession => ActionModel::CreateSession,
            Action::AttachCapture => ActionModel::AttachCapture,
            Action::AnswerOffer { room_id, sdp, to_peer } => ActionModel::AnswerOffer {
                room_id: room_id@,
                sdp: sdp@,
                to_peer: to_peer@,
            },
            Action::ApplyAnswer { sdp } => ActionModel::ApplyAnswer { sdp: sdp@ },
            Action::AddIceCandidate { candidate } => ActionModel::AddIceCandidate {
                candidate: candidate@,
            },
            Action::CloseSession => ActionModel::CloseSession,
            Action::Wait { millis } => ActionModel::Wait { millis: *millis },
            Action::SetMicrophone { enabled } => ActionModel::SetMicrophone { enabled: *enabled },
        }
    }
}

impl DeepView for Action {
    type V = ActionModel;

    open spec fn deep_view(&self) -> ActionModel {
        self@
    }
}

impl Action {
    /// The error that a failure of this action is, with the detail that the
    /// outside gave.
    pub fn failure(&self, detail: String) -> (error: AppError)
        ensures
            error@ == self@.failure(detail@),
    {
        match self {
            Action::ConnectRelay => AppError::Transport(detail),
            Action::Send(_) => AppError::Transport(detail),
            Action::Wait { millis: _ } => AppError::Transport(detail),
            Action::AttachCapture => AppError::Audio(detail),
            _ => AppError::Engine(detail),
        }
    }
}

/// What one entry point of the orchestrator hands back.
#[derive(Clone, Debug, PartialEq, Eq)]
pub struct Step {
    /// The outside work to carry out, in this order.
    pub actions: Vec<Action>,
    /// The failure to show to the user, if the event ended in one.
    pub failure: Option<AppError>,
}

/// The mathematical value of a [`Step`].
pub struct StepModel {
    pub actions: Seq<ActionModel>,
    pub failure: Option<AppErrorModel>,
}

impl StepModel {
    /// The step that asks for nothing and shows nothing.
    pub open spec fn idle() -> StepModel {
        StepModel { actions: Seq::empty(), failure: None }
    }

    /// The step that asks for the given work and shows no failure.
    pub open spec fn work(actions: Seq<ActionModel>) -> StepModel {
        StepModel { actions, failure: None }
    }
}

impl View for Step {
    type V = StepModel;

    open spec fn view(&self) -> StepModel {
        StepModel {
            actions: self.actions.deep_view(),
            failure: match self.failure {
                Some(error) => Some(error@),
                None => None,
            },
        }
    }
}

/// The mathematical value of the orchestrator's state.
pub struct AppStateModel {
    /// A relay client is held.
    pub signaling: bool,
    /// A media session is held.
    pub webrtc: bool,
    /// An audio capture is held.
    pub audio_capture: bool,
    /// The local peer's identity.
    pub peer_id: Seq<char>,
    /// The room that the client joins.
    pub room_id: Seq<char>,
    /// Reconnection attempts used in the current failure episode.
    pub reconnect_attempts: nat,
    /// The outbound audio track is switched off.
    pub muted: bool,
    /// The message shown for the latest failure; empty when there is none.
    pub error_message: Seq<char>,
}

impl AppStateModel {
    /// What holds of every state: the attempt counter stays within its cap,
    /// and capture and muting exist only beside a media session.
    pub open spec fn valid(self) -> bool {
        &&& self.reconnect_attempts <= 5
        &&& self.audio_capture ==> self.webrtc
        &&& self.muted ==> self.webrtc
    }

    /// The state of a client that has just started.
    pub open spec fn fresh(peer_id: Seq<char>, room_id: Seq<char>) -> AppStateModel {
        AppStateModel {
            signaling: false,
            webrtc: false,
            audio_capture: false,
            peer_id,
            room_id,
            reconnect_attempts: 0,
            muted: false,
            error_message: Seq::empty(),
        }
    }

    /// The `Join` message for this client's room and identity.
    pub open spec fn join_message(self) -> MessageModel {
        MessageModel::Join { room_id: self.room_id, peer_id: self.peer_id }
    }

    /// The `EndCall` message for this client's room and identity.
    pub open spec fn end_call_message(self) -> MessageModel {
        MessageModel::EndCall { room_id: self.room_id, peer_id: self.peer_id }
    }

    /// A list with the message if a relay client is held, else the empty list.
    pub open spec fn send_if_connected(self, message: MessageModel) -> Seq<ActionModel> {
        if self.signaling {
            seq![ActionModel::Send(message)]
        } else {
            Seq::empty()
        }
    }

    /// The state with the relay client gone.
    pub open spec fn without_relay(self) -> AppStateModel {
        AppStateModel { signaling: false, ..self }
    }

    /// The state with the media session, its capture and its muting gone.
    pub open spec fn without_call(self) -> AppStateModel {
        AppStateModel { webrtc: false, audio_capture: false, muted: false, ..self }
    }

    /// The state with a media session and its capture.
    pub open spec fn with_call(self) -> AppStateModel {
        AppStateModel { webrtc: true, audio_capture: true, ..self }
    }

    /// Tearing a call down: the session is closed and the relay is told.
    pub open spec fn cleanup_step(self) -> StepModel {
        StepModel::work(
            seq![ActionModel::CloseSession] + self.send_if_connected(self.end_call_message()),
        )
    }

    /// State after one reconnection attempt has been asked for.
    pub open spec fn after_reconnect(self) -> AppStateModel {
        if self.reconnect_attempts >= 5 {
            self
        } else {
            AppStateModel { reconnect_attempts: self.reconnect_attempts + 1, ..self }
        }
    }

    /// One reconnection attempt: refused when the cap is reached, else a wait,
    /// a fresh connection and a `Join` for the same room and identity.
    pub open spec fn reconnect_step(self) -> StepModel {
        if self.reconnect_attempts >= 5 {
            StepModel { actions: Seq::empty(), failure: Some(AppErrorModel::ReconnectExhausted) }
        } else {
            StepModel::work(
                seq![
                    ActionModel::Wait { millis: 1000 },
                    ActionModel::ConnectRelay,
                    ActionModel::Send(self.join_message()),
                ],
            )
        }
    }

    /// State after a completed connection: a relay client is held, the
    /// attempt counter is back at zero and no failure is shown.
    pub open spec fn after_joined(self) -> AppStateModel {
        AppStateModel {
            signaling: true,
            reconnect_attempts: 0,
            error_message: Seq::empty(),
            ..self
        }
    }

    /// The state showing the given failure.
    pub open spec fn showing(self, error: AppErrorModel) -> AppStateModel {
        AppStateModel { error_message: error.message(), ..self }
    }

    /// State after an error has been dispatched.
    pub open spec fn after_error(self, error: AppErrorModel) -> AppStateModel {
        match error {
            AppErrorModel::Transport(_) => if self.reconnect_attempts >= 5 {
                self.without_relay().showing(AppErrorModel::ReconnectExhausted)
            } else {
                self.without_relay().after_reconnect()
            },
            AppErrorModel::Engine(_) => self.without_call().showing(error),
            AppErrorModel::Audio(_) => AppStateModel {
                audio_capture: false,
                error_message: Seq::empty(),
                ..self
            },
            AppErrorModel::SignalingProtocol(_) => self,
            _ => self.showing(error),
        }
    }

    /// The step that dispatching an error gives.
    pub open spec fn error_step(self, error: AppErrorModel) -> StepModel {
        match error {
            AppErrorModel::Transport(_) => self.reconnect_step(),
            AppErrorModel::Engine(_) => StepModel {
                actions: self.cleanup_step().actions,
                failure: Some(error),
            },
            AppErrorModel::Audio(_) => StepModel::idle(),
            AppErrorModel::SignalingProtocol(_) => StepModel::idle(),
            _ => StepModel { actions: Seq::empty(), failure: Some(error) },
        }
    }

    /// State after an inbound relay message.
    pub open spec fn after_message(self, message: MessageModel) -> AppStateModel {
        match message {
            MessageModel::Error { message } => self.after_error(
                AppErrorModel::Signaling(message),
            ),
            MessageModel::ConnectionLost { .. } => self.without_call(),
            MessageModel::CallRequest { .. } => if self.webrtc {
                self
            } else {
                self.with_call()
            },
            _ => self,
        }
    }

    /// The step that an inbound relay message gives.
    pub open spec fn message_step(self, message: MessageModel) -> StepModel {
        match message {
            MessageModel::Error { message } => self.error_step(
                AppErrorModel::Signaling(message),
            ),
            MessageModel::ConnectionLost { .. } => if self.webrtc {
                self.cleanup_step()
            } else {
                StepModel::idle()
            },
            MessageModel::CallRequest { room_id, from_peer, .. } => {
                let reply = MessageModel::CallResponse {
                    room_id,
                    from_peer: self.peer_id,
                    to_peer: from_peer,
                    accepted: true,
                };
                if self.webrtc {
                    StepModel::work(self.send_if_connected(reply))
                } else {
                    StepModel::work(
                        seq![ActionModel::CreateSession, ActionModel::AttachCapture]
                            + self.send_if_connected(reply),
                    )
                }
            },
            MessageModel::Offer { room_id, sdp, from_peer, .. } => if self.webrtc {
                StepModel::work(
                    seq![ActionModel::AnswerOffer { room_id, sdp, to_peer: from_peer }],
                )
            } else {
                StepModel::idle()
            },
            MessageModel::Answer { sdp, .. } => if self.webrtc {
                StepModel::work(seq![ActionModel::ApplyAnswer { sdp }])
            } else {
                StepModel::idle()
            },
            MessageModel::IceCandidate { candidate, .. } => if self.webrtc {
                StepModel::work(seq![ActionModel::AddIceCandidate { candidate }])
            } else {
                StepModel::idle()
            },
            _ => StepModel::idle(),
        }
    }

    /// Whether a call to the given peers may start now: a relay client is
    /// held, at least one peer is chosen and no media session exists.
    pub open spec fn may_start_call(self, peers: Seq<Seq<char>>) -> bool {
        self.signaling && peers.len() >= 1 && !self.webrtc
    }

    /// State after the user asked to call the given peers.
    pub open spec fn after_start_call(self, peers: Seq<Seq<char>>) -> AppStateModel {
        if self.may_start_call(peers) {
            self.with_call()
        } else {
            self
        }
    }

    /// The step that the user's request to call the given peers gives.
    pub open spec fn start_call_step(self, peers: Seq<Seq<char>>) -> StepModel {
        if self.may_start_call(peers) {
            StepModel::work(
                seq![
                    ActionModel::CreateSession,
                    ActionModel::AttachCapture,
                    ActionModel::Send(
                        MessageModel::CallRequest {
                            room_id: self.room_id,
                            from_peer: self.peer_id,
                            to_peers: peers,
                        },
                    ),
                ],
            )
        } else {
            StepModel::idle()
        }
    }

    /// State after the user asked to end the call.
    pub open spec fn after_end_call(self) -> AppStateModel {
        self.without_call()
    }

    /// The step that the user's request to end the call gives.
    pub open spec fn end_call_step(self) -> StepModel {
        if self.webrtc {
            self.cleanup_step()
        } else {
            StepModel::idle()
        }
    }

    /// State after the user asked to connect: a new episode begins.
    pub open spec fn after_connect(self) -> AppStateModel {
        AppStateModel { reconnect_attempts: 0, ..self }
    }

    /// The step that the user's request to connect gives.
    pub open spec fn connect_step(self) -> StepModel {
        StepModel::work(seq![ActionModel::ConnectRelay, ActionModel::Send(self.join_message())])
    }

    /// State after the user toggled the microphone.
    pub open spec fn after_toggle_mute(self) -> AppStateModel {
        if self.webrtc {
            AppStateModel { muted: !self.muted, ..self }
        } else {
            self
        }
    }

    /// The step that toggling the microphone gives.
    pub open spec fn toggle_mute_step(self) -> StepModel {
        if self.webrtc {
            StepModel::work(seq![ActionModel::SetMicrophone { enabled: self.muted }])
        } else {
            StepModel::idle()
        }
    }

    /// The step that the engine's answer to an offer gives.
    pub open spec fn answer_step(
        self,
        room_id: Seq<char>,
        answer: Seq<char>,
        to_peer: Seq<char>,
    ) -> StepModel {
        StepModel::work(
            self.send_if_connected(
                MessageModel::Answer { room_id, sdp: answer, from_peer: self.peer_id, to_peer },
            ),
        )
    }

    /// State after an action has been carried out: a `Join` that went out
    /// completes the connection, nothing else changes the state.
    pub open spec fn after_completed(self, action: ActionModel) -> AppStateModel {
        if action.is_join() {
            self.after_joined()
        } else {
            self
        }
    }

    /// State after an action has failed: the failure is dispatched as the
    /// error that it is.
    pub open spec fn after_failed(self, action: ActionModel, detail: Seq<char>) -> AppStateModel {
        self.after_error(action.failure(detail))
    }

    /// The step after an action has failed, with the actions that were still
    /// to come: after an audio failure the work goes on with them; after any
    /// other failure they are given up, and what the dispatch of the failure
    /// asks for takes their place.
    pub open spec fn failed_step(
        self,
        action: ActionModel,
        detail: Seq<char>,
        remaining: Seq<ActionModel>,
    ) -> StepModel {
        if action.failure(detail) is Audio {
            StepModel::work(remaining)
        } else {
            self.error_step(action.failure(detail))
        }
    }

    /// State after `count` reconnection attempts have been asked for in a row.
    pub open spec fn after_reconnects(self, count: nat) -> AppStateModel
        decreases count,
    {
        if count == 0 {
            self
        } else {
            self.after_reconnects((count - 1) as nat).after_reconnect()
        }
    }
}

/// Every transition keeps a valid state valid: whatever the event, the
/// attempt counter stays within its cap, and capture and muting stay bound to
/// a media session.
pub proof fn lemma_transitions_keep_valid(
    state: AppStateModel,
    message: MessageModel,
    error: AppErrorModel,
    peers: Seq<Seq<char>>,
)
    requires
        state.valid(),
    ensures
        state.after_message(message).valid(),
        state.after_error(error).valid(),
        state.after_reconnect().valid(),
        state.after_joined().valid(),
        state.after_start_call(peers).valid(),
        state.after_end_call().valid(),
        state.after_connect().valid(),
        state.after_toggle_mute().valid(),
        forall|action: ActionModel| (#[trigger] state.after_completed(action)).valid(),
{
}

/// Reconnection attempts asked for in a row are counted one by one until the
/// cap is reached and never beyond it; whether the next attempt is granted
/// depends only on whether the cap has been reached.
pub proof fn lemma_reconnect_attempts_capped(state: AppStateModel, count: nat)
    requires
        state.valid(),
    ensures
        state.after_reconnects(count).valid(),
        state.after_reconnects(count).reconnect_attempts == if state.reconnect_attempts + count
            <= 5 {
            state.reconnect_attempts + count
        } else {
            5
        },
        state.after_reconnects(count).reconnect_step().failure is None
            <==> state.reconnect_attempts + count < 5,
        state.after_reconnects(count).reconnect_step().failure is Some
            ==> state.after_reconnects(count).reconnect_step().failure
            == Some(AppErrorModel::ReconnectExhausted),
    decreases count,
{
    if count > 0 {
        lemma_reconnect_attempts_capped(state, (count - 1) as nat);
    }
}

/// A completed reconnection opens a new episode: whatever went before, the
/// counter is at zero, the next five attempts are granted, and the sixth is
/// refused.
pub proof fn lemma_success_restores_budget(state: AppStateModel, count: nat)
    requires
        state.valid(),
    ensures
        state.after_joined().reconnect_attempts == 0,
        state.after_joined().after_reconnects(count).reconnect_step().failure is None
            <==> count < 5,
        count <= 5 ==> state.after_joined().after_reconnects(count).reconnect_attempts == count,
{
    lemma_reconnect_attempts_capped(state.after_joined(), count);
}

/// Reconnecting never creates or drops a media session: neither asking for an
/// attempt nor completing one changes whether a session is held, and no
/// attempt asks for a session to be created.
pub proof fn lemma_reconnect_leaves_call(state: AppStateModel)
    ensures
        state.after_reconnect().webrtc == state.webrtc,
        state.after_joined().webrtc == state.webrtc,
        !state.reconnect_step().actions.contains(ActionModel::CreateSession),
{
    let actions = state.reconnect_step().actions;
    if actions.contains(ActionModel::CreateSession) {
        let i = choose|i: int| 0 <= i < actions.len() && actions[i] == ActionModel::CreateSession;
        assert(actions[i] == ActionModel::CreateSession);
    }
}

/// Appends an action to a list.
fn push_action(actions: &mut Vec<Action>, action: Action)
    ensures
        final(actions).deep_view() == old(actions).deep_view().push(action@),
{
    actions.push(action);
    assert(actions.deep_view() =~= old(actions).deep_view().push(action@));
}

/// The orchestrator's state: which handles are held, who the client is and
/// where it belongs, how far the current reconnection episode has gone, and
/// what the user is shown.
#[derive(Debug)]
pub struct AppState {
    signaling: bool,
    webrtc: bool,
    audio_capture: bool,
    peer_id: String,
    room_id: String,
    reconnect_attempts: u32,
    muted: bool,
    error_message: String,
}

impl View for AppState {
    type V = AppStateModel;

    closed spec fn view(&self) -> AppStateModel {
        AppStateModel {
            signaling: self.signaling,
            webrtc: self.webrtc,
            audio_capture: self.audio_capture,
            peer_id: self.peer_id@,
            room_id: self.room_id@,
            reconnect_attempts: self.reconnect_attempts as nat,
            muted: self.muted,
            error_message: self.error_message@,
        }
    }
}

impl AppState {
    #[verifier::type_invariant]
    spec fn inv(self) -> bool {
        &&& self.reconnect_attempts <= 5
        &&& self.audio_capture ==> self.webrtc
        &&& self.muted ==> self.webrtc
    }

    /// The state of a client that has just started: nothing is connected.
    pub fn new(peer_id: String, room_id: String) -> (state: AppState)
        ensures
            state@ == AppStateModel::fresh(peer_id@, room_id@),
            state@.valid(),
    {
        AppState {
            signaling: false,
            webrtc: false,
            audio_capture: false,
            peer_id,
            room_id,
            reconnect_attempts: 0,
            muted: false,
            error_message: String::new(),
        }
    }

    /// Whether a relay client is held.
    pub fn is_connected(&self) -> (held: bool)
        ensures
            held == self@.signaling,
    {
        self.signaling
    }

    /// Whether a media session is held.
    pub fn is_in_call(&self) -> (held: bool)
        ensures
            held == self@.webrtc,
    {
        self.webrtc
    }

    /// Whether an audio capture is held.
    pub fn has_audio_capture(&self) -> (held: bool)
        ensures
            held == self@.audio_capture,
            held ==> self@.webrtc,
    {
        proof {
            use_type_invariant(self);
        }
        self.audio_capture
    }

    /// Whether the outbound audio track is switched off.
    pub fn is_muted(&self) -> (muted: bool)
        ensures
            muted == self@.muted,
            muted ==> self@.webrtc,
    {
        proof {
            use_type_invariant(self);
        }
        self.muted
    }

    /// The local peer's identity.
    pub fn peer_id(&self) -> (id: &String)
        ensures
            id@ == self@.peer_id,
    {
        &self.peer_id
    }

    /// The room that the client joins.
    pub fn room_id(&self) -> (id: &String)
        ensures
            id@ == self@.room_id,
    {
        &self.room_id
    }

    /// Reconnection attempts used in the current failure episode: never more
    /// than the cap.
    pub fn reconnect_attempts(&self) -> (attempts: u32)
        ensures
            attempts == self@.reconnect_attempts,
            attempts <= MAX_RECONNECT_ATTEMPTS,
            self@.valid(),
    {
        proof {
            use_type_invariant(self);
        }
        self.reconnect_attempts
    }

    /// The message shown for the latest failure; empty when there is none.
    pub fn error_message(&self) -> (text: &String)
        ensures
            text@ == self@.error_message,
    {
        &self.error_message
    }

    /// The `Join` message for this client's room and identity.
    fn join_message(&self) -> (message: SignalingMessage)
        ensures
            message@ == self@.join_message(),
    {
        SignalingMessage::Join { room_id: self.room_id.clone(), peer_id: self.peer_id.clone() }
    }

    /// Appends the message to the list if a relay client is held.
    fn send_if_connected(&self, actions: &mut Vec<Action>, message: SignalingMessage)
        ensures
            final(actions).deep_view() == old(actions).deep_view()
                + self@.send_if_connected(message@),
    {
        let ghost before = actions.deep_view();
        if self.signaling {
            push_action(actions, Action::Send(message));
            assert(before.push(ActionModel::Send(message@)) =~= before + seq![
                ActionModel::Send(message@),
            ]);
        } else {
            assert(before =~= before + Seq::<ActionModel>::empty());
        }
    }

    /// Tears the call down: drops the media session with its capture, and
    /// tells the relay that the call has ended if a relay client is held.
    pub fn cleanup_call(&mut self) -> (step: Step)
        ensures
            final(self)@ == old(self)@.without_call(),
            step@ == old(self)@.cleanup_step(),
            final(self)@.valid(),
    {
        proof {
            use_type_invariant(&*self);
        }
        self.audio_capture = false;
        self.muted = false;
        self.webrtc = false;
        let mut actions: Vec<Action> = Vec::new();
        assert(actions.deep_view() =~= Seq::<ActionModel>::empty());
        push_action(&mut actions, Action::CloseSession);
        assert(actions.deep_view() =~= seq![ActionModel::CloseSession]);
        let notice = SignalingMessage::EndCall {
            room_id: self.room_id.clone(),
            peer_id: self.peer_id.clone(),
        };
        self.send_if_connected(&mut actions, notice);
        Step { actions, failure: None }
    }

    /// Asks for one reconnection attempt.
    ///
    /// While the episode has attempts left, the attempt is counted and the
    /// step waits, connects afresh and joins the same room under the same
    /// identity. Once the cap is reached nothing is asked for and the step
    /// fails with [`AppError::ReconnectExhausted`]. The media session is
    /// never touched.
    pub fn reconnect(&mut self) -> (step: Step)
        ensures
            final(self)@ == old(self)@.after_reconnect(),
            step@ == old(self)@.reconnect_step(),
            final(self)@.valid(),
    {
        proof {
            use_type_invariant(&*self);
        }
        if self.reconnect_attempts >= MAX_RECONNECT_ATTEMPTS {
            let step = Step { actions: Vec::new(), failure: Some(AppError::ReconnectExhausted) };
            assert(step.actions.deep_view() =~= Seq::<ActionModel>::empty());
            return step;
        }
        self.reconnect_attempts = self.reconnect_attempts + 1;
        let mut actions: Vec<Action> = Vec::new();
        push_action(&mut actions, Action::Wait { millis: RECONNECT_DELAY_MS });
        push_action(&mut actions, Action::ConnectRelay);
        push_action(&mut actions, Action::Send(self.join_message()));
        assert(actions.deep_view() =~= seq![
            ActionModel::Wait { millis: 1000 },
            ActionModel::ConnectRelay,
            ActionModel::Send(old(self)@.join_message()),
        ]);
        Step { actions, failure: None }
    }

    /// Takes in that the relay accepted the connection and the `Join` went
    /// out: a relay client is held, the episode is over and its counter is
    /// back at zero, and no failure is shown any more. The media session is
    /// left as it is: a lost call takes a fresh call request.
    pub fn reconnect_succeeded(&mut self)
        ensures
            final(self)@ == old(self)@.after_joined(),
            final(self)@.reconnect_attempts == 0,
            final(self)@.webrtc == old(self)@.webrtc,
            final(self)@.valid(),
    {
        proof {
            use_type_invariant(&*self);
        }
        self.signaling = true;
        self.reconnect_attempts = 0;
        self.error_message = String::new();
    }

    /// The single entry point for failures.
    ///
    /// A relay failure means that the relay client is gone; it asks for a
    /// reconnection attempt, and shows a failure only once the attempts are
    /// used up. A media-engine failure tears the
    /// call down and is shown. An audio failure is put up with: the call goes
    /// on without local capture and nothing is shown. A malformed frame is
    /// dropped and changes nothing. Any other failure is shown as it is.
    pub fn handle_connection_error(&mut self, error: AppError) -> (step: Step)
        ensures
            final(self)@ == old(self)@.after_error(error@),
            step@ == old(self)@.error_step(error@),
            final(self)@.valid(),
    {
        proof {
            use_type_invariant(&*self);
        }
        match error {
            AppError::Transport(_) => {
                self.signaling = false;
                let step = self.reconnect();
                if step.failure.is_some() {
                    self.error_message = AppError::ReconnectExhausted.message();
                }
                step
            },
            AppError::Engine(detail) => {
                let error = AppError::Engine(detail);
                self.error_message = error.message();
                let cleanup = self.cleanup_call();
                Step { actions: cleanup.actions, failure: Some(error) }
            },
            AppError::Audio(_) => {
                self.audio_capture = false;
                self.error_message = String::new();
                let step = Step { actions: Vec::new(), failure: None };
                assert(step.actions.deep_view() =~= Seq::<ActionModel>::empty());
                step
            },
            AppError::SignalingProtocol(_) => {
                let step = Step { actions: Vec::new(), failure: None };
                assert(step.actions.deep_view() =~= Seq::<ActionModel>::empty());
                step
            },
            other => {
                self.error_message = other.message();
                let step = Step { actions: Vec::new(), failure: Some(other) };
                assert(step.actions.deep_view() =~= Seq::<ActionModel>::empty());
                step
            },
        }
    }

    /// Interprets one inbound relay message.
    ///
    /// A call request is accepted: a media session with local capture is
    /// created if there is none, and the caller is told so. An offer, an
    /// answer or an ICE candidate goes to the media engine if a media session
    /// exists, and is dropped otherwise. A lost peer ends the call. An error
    /// reported by the relay is a failure like any other. Every other message
    /// leaves the orchestrator as it is.
    pub fn handle_signaling_message(&mut self, msg: SignalingMessage) -> (step: Step)
        ensures
            final(self)@ == old(self)@.after_message(msg@),
            step@ == old(self)@.message_step(msg@),
            final(self)@.valid(),
    {
        proof {
            use_type_invariant(&*self);
        }
        let mut actions: Vec<Action> = Vec::new();
        assert(actions.deep_view() =~= Seq::<ActionModel>::empty());
        match msg {
            SignalingMessage::Error { message } => {
                return self.handle_connection_error(AppError::Signaling(message));
            },
            SignalingMessage::ConnectionLost { peer_id: _ } => {
                if self.webrtc {
                    return self.cleanup_call();
                }
            },
            SignalingMessage::CallRequest { room_id, from_peer, to_peers: _ } => {
                if !self.webrtc {
                    self.webrtc = true;
                    self.audio_capture = true;
                    push_action(&mut actions, Action::CreateSession);
                    push_action(&mut actions, Action::AttachCapture);
                    assert(actions.deep_view() =~= seq![
                        ActionModel::CreateSession,
                        ActionModel::AttachCapture,
                    ]);
                }
                let reply = SignalingMessage::CallResponse {
                    room_id,
                    from_peer: self.peer_id.clone(),
                    to_peer: from_peer,
                    accepted: true,
                };
                self.send_if_connected(&mut actions, reply);
                assert(Seq::<ActionModel>::empty() + old(self)@.send_if_connected(reply@)
                    =~= old(self)@.send_if_connected(reply@));
            },
            SignalingMessage::Offer { room_id, sdp, from_peer, to_peer: _ } => {
                if self.webrtc {
                    push_action(
                        &mut actions,
                        Action::AnswerOffer { room_id, sdp, to_peer: from_peer },
                    );
                    assert(actions.deep_view() =~= seq![
                        ActionModel::AnswerOffer {
                            room_id: room_id@,
                            sdp: sdp@,
                            to_peer: from_peer@,
                        },
                    ]);
                }
            },
            SignalingMessage::Answer { room_id: _, sdp, from_peer: _, to_peer: _ } => {
                if self.webrtc {
                    push_action(&mut actions, Action::ApplyAnswer { sdp });
                    assert(actions.deep_view() =~= seq![ActionModel::ApplyAnswer { sdp: sdp@ }]);
                }
            },
            SignalingMessage::IceCandidate { room_id: _, candidate, from_peer: _, to_peer: _ } => {
                if self.webrtc {
                    push_action(&mut actions, Action::AddIceCandidate { candidate });
                    assert(actions.deep_view() =~= seq![
                        ActionModel::AddIceCandidate { candidate: candidate@ },
                    ]);
                }
            },
            _ => {},
        }
        Step { actions, failure: None }
    }

    /// Takes in the media engine's answer to an offer: the answer goes to the
    /// peer that made the offer, if a relay client is held.
    pub fn offer_answered(&self, room_id: String, answer: String, to_peer: String) -> (step: Step)
        ensures
            step@ == self@.answer_step(room_id@, answer@, to_peer@),
    {
        let mut actions: Vec<Action> = Vec::new();
        assert(actions.deep_view() =~= Seq::<ActionModel>::empty());
        let reply = SignalingMessage::Answer {
            room_id,
            sdp: answer,
            from_peer: self.peer_id.clone(),
            to_peer,
        };
        self.send_if_connected(&mut actions, reply);
        assert(Seq::<ActionModel>::empty() + self@.send_if_connected(reply@)
            =~= self@.send_if_connected(reply@));
        Step { actions, failure: None }
    }

    /// Whether a call to the chosen peers may start now: a relay client is
    /// held, at least one peer is chosen and no media session exists.
    pub fn may_start_call(&self, selected_peers: &Vec<String>) -> (allowed: bool)
        ensures
            allowed == self@.may_start_call(selected_peers.deep_view()),
    {
        self.signaling && selected_peers.len() >= 1 && !self.webrtc
    }

    /// The user asks to call the chosen peers.
    ///
    /// The call starts only if a relay client is held, at least one peer is
    /// chosen and no media session exists: then a media session with local
    /// capture is created and the peers are asked. Otherwise the request is
    /// passed over.
    pub fn start_call(&mut self, selected_peers: Vec<String>) -> (step: Step)
        ensures
            final(self)@ == old(self)@.after_start_call(selected_peers.deep_view()),
            step@ == old(self)@.start_call_step(selected_peers.deep_view()),
            final(self)@.valid(),
    {
        proof {
            use_type_invariant(&*self);
        }
        let mut actions: Vec<Action> = Vec::new();
        assert(actions.deep_view() =~= Seq::<ActionModel>::empty());
        if self.may_start_call(&selected_peers) {
            self.webrtc = true;
            self.audio_capture = true;
            let request = SignalingMessage::CallRequest {
                room_id: self.room_id.clone(),
                from_peer: self.peer_id.clone(),
                to_peers: selected_peers,
            };
            push_action(&mut actions, Action::CreateSession);
            push_action(&mut actions, Action::AttachCapture);
            push_action(&mut actions, Action::Send(request));
            assert(actions.deep_view() =~= seq![
                ActionModel::CreateSession,
                ActionModel::AttachCapture,
                ActionModel::Send(request@),
            ]);
        }
        Step { actions, failure: None }
    }

    /// The user asks to end the call: an existing call is torn down and the
    /// relay is told; without a call nothing happens.
    pub fn end_call(&mut self) -> (step: Step)
        ensures
            final(self)@ == old(self)@.after_end_call(),
            step@ == old(self)@.end_call_step(),
            final(self)@.valid(),
    {
        proof {
            use_type_invariant(&*self);
        }
        if self.webrtc {
            self.cleanup_call()
        } else {
            let step = Step { actions: Vec::new(), failure: None };
            assert(step.actions.deep_view() =~= Seq::<ActionModel>::empty());
            step
        }
    }

    /// The user asks to connect to the relay: a new episode begins with a
    /// full budget of attempts, and the step connects and joins the room.
    pub fn connect(&mut self) -> (step: Step)
        ensures
            final(self)@ == old(self)@.after_connect(),
            step@ == old(self)@.connect_step(),
            final(self)@.valid(),
    {
        proof {
            use_type_invariant(&*self);
        }
        self.reconnect_attempts = 0;
        let mut actions: Vec<Action> = Vec::new();
        push_action(&mut actions, Action::ConnectRelay);
        push_action(&mut actions, Action::Send(self.join_message()));
        assert(actions.deep_view() =~= seq![
            ActionModel::ConnectRelay,
            ActionModel::Send(old(self)@.join_message()),
        ]);
        Step { actions, failure: None }
    }

    /// The user toggles the microphone: during a call the outbound track is
    /// switched to the other setting; without a call nothing happens.
    pub fn toggle_mute(&mut self) -> (step: Step)
        ensures
            final(self)@ == old(self)@.after_toggle_mute(),
            step@ == old(self)@.toggle_mute_step(),
            final(self)@.valid(),
    {
        proof {
            use_type_invariant(&*self);
        }
        let mut actions: Vec<Action> = Vec::new();
        assert(actions.deep_view() =~= Seq::<ActionModel>::empty());
        if self.webrtc {
            let enabled = self.muted;
            self.muted = !enabled;
            push_action(&mut actions, Action::SetMicrophone { enabled });
            assert(actions.deep_view() =~= seq![ActionModel::SetMicrophone { enabled }]);
        }
        Step { actions, failure: None }
    }

    /// Takes in that an action has been carried out. A `Join` that went out
    /// completes the connection, as [`AppState::reconnect_succeeded`] says;
    /// any other action leaves the state as it is.
    pub fn action_completed(&mut self, action: &Action)
        ensures
            final(self)@ == old(self)@.after_completed(action@),
            final(self)@.valid(),
    {
        proof {
            use_type_invariant(&*self);
        }
        match action {
            Action::Send(SignalingMessage::Join { room_id: _, peer_id: _ }) => {
                self.reconnect_succeeded();
            },
            _ => {},
        }
    }

    /// Takes in that an action has failed, with the actions that were still
    /// to come after it. The failure is dispatched as the error that it is.
    /// After an audio failure the work goes on with the actions that were
    /// still to come; after any other failure they are given up, and the step
    /// is what the dispatch asks for.
    pub fn action_failed(
        &mut self,
        action: &Action,
        detail: String,
        remaining: Vec<Action>,
    ) -> (step: Step)
        ensures
            final(self)@ == old(self)@.after_failed(action@, detail@),
            step@ == old(self)@.failed_step(action@, detail@, remaining.deep_view()),
            final(self)@.valid(),
    {
        let error = action.failure(detail);
        match error {
            AppError::Audio(_) => {
                let _ = self.handle_connection_error(error);
                Step { actions: remaining, failure: None }
            },
            _ => self.handle_connection_error(error),
        }
    }
}

} // verus!
