use voice_session::connection::{ConnectionMonitor, ConnectionState, IceConnectionState};
use voice_session::error::AppError;
use voice_session::session::{
    Action, AppState, Step, MAX_RECONNECT_ATTEMPTS, RECONNECT_DELAY_MS,
};
use voice_session::signaling::SignalingMessage;

fn s(text: &str) -> String {
    text.to_string()
}

fn fresh() -> AppState {
    AppState::new(s("u1"), s("r1"))
}

fn joined() -> AppState {
    let mut state = fresh();
    state.connect();
    state.reconnect_succeeded();
    state
}

fn in_call() -> AppState {
    let mut state = joined();
    state.start_call(vec![s("u2")]);
    state
}

fn join() -> SignalingMessage {
    SignalingMessage::Join { room_id: s("r1"), peer_id: s("u1") }
}

fn end_call() -> SignalingMessage {
    SignalingMessage::EndCall { room_id: s("r1"), peer_id: s("u1") }
}

fn idle() -> Step {
    Step { actions: vec![], failure: None }
}

fn reconnect_plan() -> Step {
    Step {
        actions: vec![
            Action::Wait { millis: 1000 },
            Action::ConnectRelay,
            Action::Send(join()),
        ],
        failure: None,
    }
}

#[test]
fn constants_of_the_reconnection_policy() {
    assert_eq!(MAX_RECONNECT_ATTEMPTS, 5);
    assert_eq!(RECONNECT_DELAY_MS, 1000);
}

#[test]
fn fresh_state_holds_nothing() {
    let state = fresh();
    assert!(!state.is_connected());
    assert!(!state.is_in_call());
    assert!(!state.has_audio_capture());
    assert!(!state.is_muted());
    assert_eq!(state.peer_id(), "u1");
    assert_eq!(state.room_id(), "r1");
    assert_eq!(state.reconnect_attempts(), 0);
    assert_eq!(state.error_message(), "");
}

#[test]
fn connect_asks_for_relay_and_join() {
    let mut state = fresh();
    let step = state.connect();
    assert_eq!(
        step,
        Step { actions: vec![Action::ConnectRelay, Action::Send(join())], failure: None }
    );
    assert!(!state.is_connected());
    state.reconnect_succeeded();
    assert!(state.is_connected());
}

#[test]
fn call_request_without_session_creates_one_and_accepts() {
    let mut state = joined();
    let step = state.handle_signaling_message(SignalingMessage::CallRequest {
        room_id: s("r1"),
        from_peer: s("u2"),
        to_peers: vec![s("u1")],
    });
    assert_eq!(
        step,
        Step {
            actions: vec![
                Action::CreateSession,
                Action::AttachCapture,
                Action::Send(SignalingMessage::CallResponse {
                    room_id: s("r1"),
                    from_peer: s("u1"),
                    to_peer: s("u2"),
                    accepted: true,
                }),
            ],
            failure: None,
        }
    );
    assert!(state.is_in_call());
    assert!(state.has_audio_capture());
}

#[test]
fn call_request_with_session_only_accepts() {
    let mut state = in_call();
    let step = state.handle_signaling_message(SignalingMessage::CallRequest {
        room_id: s("r9"),
        from_peer: s("u3"),
        to_peers: vec![s("u1")],
    });
    assert_eq!(
        step,
        Step {
            actions: vec![Action::Send(SignalingMessage::CallResponse {
                room_id: s("r9"),
                from_peer: s("u1"),
                to_peer: s("u3"),
                accepted: true,
            })],
            failure: None,
        }
    );
    assert!(state.is_in_call());
}

#[test]
fn call_request_without_relay_creates_session_and_sends_nothing() {
    let mut state = fresh();
    let step = state.handle_signaling_message(SignalingMessage::CallRequest {
        room_id: s("r1"),
        from_peer: s("u2"),
        to_peers: vec![],
    });
    assert_eq!(
        step,
        Step { actions: vec![Action::CreateSession, Action::AttachCapture], failure: None }
    );
    assert!(state.is_in_call());
}

#[test]
fn offer_with_session_goes_to_the_engine() {
    let mut state = in_call();
    let step = state.handle_signaling_message(SignalingMessage::Offer {
        room_id: s("r1"),
        sdp: s("offer-sdp"),
        from_peer: s("u2"),
        to_peer: s("u1"),
    });
    assert_eq!(
        step,
        Step {
            actions: vec![Action::AnswerOffer {
                room_id: s("r1"),
                sdp: s("offer-sdp"),
                to_peer: s("u2"),
            }],
            failure: None,
        }
    );
    let step = state.offer_answered(s("r1"), s("answer-sdp"), s("u2"));
    assert_eq!(
        step,
        Step {
            actions: vec![Action::Send(SignalingMessage::Answer {
                room_id: s("r1"),
                sdp: s("answer-sdp"),
                from_peer: s("u1"),
                to_peer: s("u2"),
            })],
            failure: None,
        }
    );
    assert!(state.is_in_call());
}

#[test]
fn answer_without_relay_is_not_sent() {
    let state = fresh();
    assert_eq!(state.offer_answered(s("r1"), s("answer-sdp"), s("u2")), idle());
}

#[test]
fn answer_with_session_goes_to_the_engine() {
    let mut state = in_call();
    let step = state.handle_signaling_message(SignalingMessage::Answer {
        room_id: s("r1"),
        sdp: s("answer-sdp"),
        from_peer: s("u2"),
        to_peer: s("u1"),
    });
    assert_eq!(
        step,
        Step { actions: vec![Action::ApplyAnswer { sdp: s("answer-sdp") }], failure: None }
    );
}

#[test]
fn candidate_with_session_goes_to_the_engine() {
    let mut state = in_call();
    let step = state.handle_signaling_message(SignalingMessage::IceCandidate {
        room_id: s("r1"),
        candidate: s("candidate:1"),
        from_peer: s("u2"),
        to_peer: s("u1"),
    });
    assert_eq!(
        step,
        Step {
            actions: vec![Action::AddIceCandidate { candidate: s("candidate:1") }],
            failure: None,
        }
    );
}

#[test]
fn engine_messages_without_session_are_dropped() {
    let mut state = joined();
    let messages = vec![
        SignalingMessage::Offer {
            room_id: s("r1"),
            sdp: s("x"),
            from_peer: s("u2"),
            to_peer: s("u1"),
        },
        SignalingMessage::Answer {
            room_id: s("r1"),
            sdp: s("x"),
            from_peer: s("u2"),
            to_peer: s("u1"),
        },
        SignalingMessage::IceCandidate {
            room_id: s("r1"),
            candidate: s("x"),
            from_peer: s("u2"),
            to_peer: s("u1"),
        },
        SignalingMessage::ConnectionLost { peer_id: s("u2") },
    ];
    for message in messages {
        assert_eq!(state.handle_signaling_message(message), idle());
        assert!(!state.is_in_call());
        assert!(state.is_connected());
    }
}

#[test]
fn connection_lost_ends_the_call() {
    let mut state = in_call();
    let step =
        state.handle_signaling_message(SignalingMessage::ConnectionLost { peer_id: s("u2") });
    assert_eq!(
        step,
        Step { actions: vec![Action::CloseSession, Action::Send(end_call())], failure: None }
    );
    assert!(!state.is_in_call());
    assert!(!state.has_audio_capture());
}

#[test]
fn relay_error_is_shown() {
    let mut state = in_call();
    let step = state.handle_signaling_message(SignalingMessage::Error { message: s("denied") });
    assert_eq!(
        step,
        Step { actions: vec![], failure: Some(AppError::Signaling(s("denied"))) }
    );
    assert_eq!(state.error_message(), "Signaling error: denied");
    assert!(state.is_in_call());
    assert!(state.is_connected());
}

#[test]
fn other_messages_change_nothing() {
    let mut state = in_call();
    let messages = vec![
        join(),
        SignalingMessage::Disconnect { room_id: s("r1"), peer_id: s("u2") },
        SignalingMessage::PeerList { peers: vec![s("u2")] },
        SignalingMessage::RequestPeerList,
        SignalingMessage::InitiateCall { peer_id: s("u2"), room_id: s("r1") },
        SignalingMessage::MediaError {
            error_type: s("t"),
            description: s("d"),
            peer_id: s("u2"),
        },
        end_call(),
        SignalingMessage::CallResponse {
            room_id: s("r1"),
            from_peer: s("u2"),
            to_peer: s("u1"),
            accepted: false,
        },
    ];
    for message in messages {
        assert_eq!(state.handle_signaling_message(message), idle());
        assert!(state.is_in_call());
        assert!(state.has_audio_capture());
        assert!(state.is_connected());
        assert_eq!(state.error_message(), "");
    }
}

#[test]
fn start_call_creates_session_and_asks_peers() {
    let mut state = joined();
    let step = state.start_call(vec![s("u2"), s("u3")]);
    assert_eq!(
        step,
        Step {
            actions: vec![
                Action::CreateSession,
                Action::AttachCapture,
                Action::Send(SignalingMessage::CallRequest {
                    room_id: s("r1"),
                    from_peer: s("u1"),
                    to_peers: vec![s("u2"), s("u3")],
                }),
            ],
            failure: None,
        }
    );
    assert!(state.is_in_call());
    assert!(state.has_audio_capture());
}

#[test]
fn start_call_needs_relay_peers_and_no_session() {
    let mut state = fresh();
    assert_eq!(state.start_call(vec![s("u2")]), idle());
    assert!(!state.is_in_call());

    let mut state = joined();
    assert_eq!(state.start_call(vec![]), idle());
    assert!(!state.is_in_call());

    let mut state = in_call();
    assert_eq!(state.start_call(vec![s("u3")]), idle());
    assert!(state.is_in_call());
}

#[test]
fn end_call_tears_down_and_tells_the_relay() {
    let mut state = in_call();
    state.toggle_mute();
    let step = state.end_call();
    assert_eq!(
        step,
        Step { actions: vec![Action::CloseSession, Action::Send(end_call())], failure: None }
    );
    assert!(!state.is_in_call());
    assert!(!state.has_audio_capture());
    assert!(!state.is_muted());
    assert_eq!(state.end_call(), idle());
}

#[test]
fn cleanup_call_without_relay_only_closes() {
    let mut state = fresh();
    let step = state.cleanup_call();
    assert_eq!(step, Step { actions: vec![Action::CloseSession], failure: None });
}

#[test]
fn toggle_mute_switches_the_microphone_during_a_call() {
    let mut state = in_call();
    assert_eq!(
        state.toggle_mute(),
        Step { actions: vec![Action::SetMicrophone { enabled: false }], failure: None }
    );
    assert!(state.is_muted());
    assert_eq!(
        state.toggle_mute(),
        Step { actions: vec![Action::SetMicrophone { enabled: true }], failure: None }
    );
    assert!(!state.is_muted());

    let mut state = joined();
    assert_eq!(state.toggle_mute(), idle());
    assert!(!state.is_muted());
}

#[test]
fn reconnect_waits_connects_and_joins() {
    let mut state = joined();
    assert_eq!(state.reconnect(), reconnect_plan());
    assert_eq!(state.reconnect_attempts(), 1);
}

#[test]
fn reconnect_is_refused_after_five_attempts() {
    let mut state = joined();
    for attempt in 1..=5u32 {
        assert_eq!(state.reconnect(), reconnect_plan());
        assert_eq!(state.reconnect_attempts(), attempt);
    }
    for _ in 0..3 {
        assert_eq!(
            state.reconnect(),
            Step { actions: vec![], failure: Some(AppError::ReconnectExhausted) }
        );
        assert_eq!(state.reconnect_attempts(), 5);
    }
}

#[test]
fn success_gives_the_next_episode_five_attempts() {
    let mut state = joined();
    for _ in 0..4 {
        state.handle_connection_error(AppError::Transport(s("closed")));
    }
    assert_eq!(state.reconnect_attempts(), 4);
    state.reconnect_succeeded();
    assert_eq!(state.reconnect_attempts(), 0);
    for attempt in 1..=5u32 {
        let step = state.handle_connection_error(AppError::Transport(s("closed")));
        assert_eq!(step, reconnect_plan());
        assert_eq!(state.reconnect_attempts(), attempt);
    }
    let step = state.handle_connection_error(AppError::Transport(s("closed")));
    assert_eq!(step.failure, Some(AppError::ReconnectExhausted));
    assert!(step.actions.is_empty());
}

#[test]
fn exhausted_reconnection_is_shown_until_the_user_connects() {
    let mut state = joined();
    for _ in 0..5 {
        state.handle_connection_error(AppError::Transport(s("closed")));
        assert_eq!(state.error_message(), "");
    }
    let step = state.handle_connection_error(AppError::Transport(s("closed")));
    assert_eq!(step, Step { actions: vec![], failure: Some(AppError::ReconnectExhausted) });
    assert_eq!(state.error_message(), "Max reconnection attempts reached");
    assert_eq!(state.reconnect_attempts(), 5);

    state.connect();
    assert_eq!(state.reconnect_attempts(), 0);
    state.reconnect_succeeded();
    assert_eq!(state.error_message(), "");
}

#[test]
fn relay_drops_mid_call_and_third_attempt_succeeds() {
    let mut state = in_call();

    let step = state.handle_connection_error(AppError::Transport(s("relay closed")));
    assert_eq!(step, reconnect_plan());
    assert_eq!(state.reconnect_attempts(), 1);
    assert!(!state.is_connected());
    assert!(state.is_in_call());

    let step = state.handle_connection_error(AppError::Transport(s("refused")));
    assert_eq!(step, reconnect_plan());
    assert_eq!(state.reconnect_attempts(), 2);

    let step = state.handle_connection_error(AppError::Transport(s("refused")));
    assert_eq!(step, reconnect_plan());
    assert_eq!(state.reconnect_attempts(), 3);
    assert_eq!(step.actions[0], Action::Wait { millis: RECONNECT_DELAY_MS });
    assert_eq!(step.actions[2], Action::Send(join()));

    state.reconnect_succeeded();
    assert_eq!(state.reconnect_attempts(), 0);
    assert!(state.is_connected());
    assert!(state.is_in_call());
    assert_eq!(state.error_message(), "");
}

#[test]
fn reconnecting_never_creates_a_session() {
    let mut state = joined();
    for _ in 0..6 {
        let step = state.handle_connection_error(AppError::Transport(s("closed")));
        assert!(!step.actions.contains(&Action::CreateSession));
        assert!(!state.is_in_call());
    }
    state.reconnect_succeeded();
    assert!(!state.is_in_call());
}

#[test]
fn engine_error_ends_the_call_and_is_shown() {
    let mut state = in_call();
    let step = state.handle_connection_error(AppError::Engine(s("bad sdp")));
    assert_eq!(
        step,
        Step {
            actions: vec![Action::CloseSession, Action::Send(end_call())],
            failure: Some(AppError::Engine(s("bad sdp"))),
        }
    );
    assert!(!state.is_in_call());
    assert!(!state.has_audio_capture());
    assert_eq!(state.error_message(), "WebRTC error: bad sdp");
    assert_eq!(state.reconnect_attempts(), 0);
}

#[test]
fn audio_error_is_put_up_with() {
    let mut state = in_call();
    state.handle_signaling_message(SignalingMessage::Error { message: s("old") });
    assert_eq!(state.error_message(), "Signaling error: old");
    let step = state.handle_connection_error(AppError::Audio(s("no microphone")));
    assert_eq!(step, idle());
    assert!(state.is_in_call());
    assert!(!state.has_audio_capture());
    assert_eq!(state.error_message(), "");
}

#[test]
fn malformed_frame_changes_nothing() {
    let mut state = in_call();
    state.handle_signaling_message(SignalingMessage::Error { message: s("old") });
    let step = state.handle_connection_error(AppError::SignalingProtocol(s("eof")));
    assert_eq!(step, idle());
    assert!(state.is_in_call());
    assert!(state.is_connected());
    assert_eq!(state.error_message(), "Signaling error: old");
}

#[test]
fn room_error_is_shown_as_it_is() {
    let mut state = in_call();
    let step = state.handle_connection_error(AppError::RoomFull);
    assert_eq!(step, Step { actions: vec![], failure: Some(AppError::RoomFull) });
    assert_eq!(state.error_message(), "Room is full");
    assert!(state.is_in_call());
}

#[test]
fn later_failure_replaces_the_message() {
    let mut state = in_call();
    state.handle_connection_error(AppError::RoomFull);
    state.handle_connection_error(AppError::Signaling(s("denied")));
    assert_eq!(state.error_message(), "Signaling error: denied");
}

#[test]
fn call_is_set_up_and_status_follows_ice() {
    let mut state = fresh();
    let mut monitor = ConnectionMonitor::new();
    let observer = monitor.subscribe();

    // the client connects and joins room r1 as u1
    let step = state.connect();
    assert_eq!(step.actions, vec![Action::ConnectRelay, Action::Send(join())]);
    state.reconnect_succeeded();
    assert!(state.is_connected());
    assert!(!state.is_in_call());
    assert_eq!(observer.borrow().state, ConnectionState::Disconnected);

    // a call request arrives: no session yet, so one is created
    let step = state.handle_signaling_message(SignalingMessage::CallRequest {
        room_id: s("r1"),
        from_peer: s("u2"),
        to_peers: vec![s("u1")],
    });
    assert_eq!(step.actions[0], Action::CreateSession);
    assert!(state.is_in_call());

    // the offer follows and is answered
    let step = state.handle_signaling_message(SignalingMessage::Offer {
        room_id: s("r1"),
        sdp: s("offer"),
        from_peer: s("u2"),
        to_peer: s("u1"),
    });
    assert_eq!(
        step.actions,
        vec![Action::AnswerOffer { room_id: s("r1"), sdp: s("offer"), to_peer: s("u2") }]
    );
    let step = state.offer_answered(s("r1"), s("answer"), s("u2"));
    assert_eq!(
        step.actions,
        vec![Action::Send(SignalingMessage::Answer {
            room_id: s("r1"),
            sdp: s("answer"),
            from_peer: s("u1"),
            to_peer: s("u2"),
        })]
    );

    // connectivity is established
    monitor.update_ice_state(IceConnectionState::New);
    assert_eq!(observer.borrow().state, ConnectionState::Disconnected);
    monitor.update_ice_state(IceConnectionState::Checking);
    assert_eq!(observer.borrow().state, ConnectionState::Connecting);
    monitor.update_ice_state(IceConnectionState::Connected);
    assert_eq!(observer.borrow().state, ConnectionState::Connected);
}

#[test]
fn failures_are_classed_by_their_action() {
    let detail = || s("x");
    assert_eq!(Action::ConnectRelay.failure(detail()), AppError::Transport(s("x")));
    assert_eq!(Action::Send(join()).failure(detail()), AppError::Transport(s("x")));
    assert_eq!(Action::Wait { millis: 5 }.failure(detail()), AppError::Transport(s("x")));
    assert_eq!(Action::AttachCapture.failure(detail()), AppError::Audio(s("x")));
    assert_eq!(Action::CreateSession.failure(detail()), AppError::Engine(s("x")));
    assert_eq!(Action::CloseSession.failure(detail()), AppError::Engine(s("x")));
    assert_eq!(
        Action::AnswerOffer { room_id: s("r"), sdp: s("o"), to_peer: s("p") }.failure(detail()),
        AppError::Engine(s("x"))
    );
    assert_eq!(Action::ApplyAnswer { sdp: s("a") }.failure(detail()), AppError::Engine(s("x")));
    assert_eq!(
        Action::AddIceCandidate { candidate: s("c") }.failure(detail()),
        AppError::Engine(s("x"))
    );
    assert_eq!(
        Action::SetMicrophone { enabled: true }.failure(detail()),
        AppError::Engine(s("x"))
    );
}

#[test]
fn a_join_that_went_out_completes_the_connection() {
    let mut state = fresh();
    let step = state.connect();
    state.action_completed(&step.actions[0]);
    assert!(!state.is_connected());
    state.action_completed(&step.actions[1]);
    assert!(state.is_connected());
    assert_eq!(state.reconnect_attempts(), 0);
}

#[test]
fn other_completed_actions_change_nothing() {
    let mut state = fresh();
    state.handle_connection_error(AppError::Transport(s("closed")));
    state.action_completed(&Action::Send(end_call()));
    state.action_completed(&Action::CreateSession);
    state.action_completed(&Action::Wait { millis: 1000 });
    assert!(!state.is_connected());
    assert!(!state.is_in_call());
    assert_eq!(state.reconnect_attempts(), 1);
}

#[test]
fn failed_capture_lets_the_work_go_on() {
    let mut state = joined();
    let step = state.start_call(vec![s("u2")]);
    let remaining = vec![step.actions[2].clone()];
    let next = state.action_failed(&step.actions[1], s("no microphone"), remaining.clone());
    assert_eq!(next, Step { actions: remaining, failure: None });
    assert!(state.is_in_call());
    assert!(!state.has_audio_capture());
}

#[test]
fn failed_session_ends_the_work() {
    let mut state = joined();
    let step = state.start_call(vec![s("u2")]);
    let remaining = vec![step.actions[1].clone(), step.actions[2].clone()];
    let next = state.action_failed(&step.actions[0], s("no engine"), remaining);
    assert_eq!(
        next,
        Step {
            actions: vec![Action::CloseSession, Action::Send(end_call())],
            failure: Some(AppError::Engine(s("no engine"))),
        }
    );
    assert!(!state.is_in_call());
    assert_eq!(state.error_message(), "WebRTC error: no engine");
}

#[test]
fn failed_send_gives_up_the_rest_and_reconnects() {
    let mut state = in_call();
    let remaining = vec![Action::SetMicrophone { enabled: true }];
    let next = state.action_failed(&Action::Send(end_call()), s("closed"), remaining);
    assert_eq!(next, reconnect_plan());
    assert_eq!(state.reconnect_attempts(), 1);
}

#[test]
fn failed_connects_use_up_the_budget() {
    let mut state = fresh();
    let mut step = state.connect();
    let mut attempts = 0;
    while step.failure.is_none() {
        let connect = step
            .actions
            .iter()
            .position(|action| *action == Action::ConnectRelay)
            .unwrap();
        let remaining = step.actions[connect + 1..].to_vec();
        assert_eq!(remaining, vec![Action::Send(join())]);
        step = state.action_failed(&Action::ConnectRelay, s("refused"), remaining);
        attempts += 1;
        assert!(attempts <= 6);
    }
    assert_eq!(attempts, 6);
    assert_eq!(step.failure, Some(AppError::ReconnectExhausted));
    assert!(step.actions.is_empty());
    assert_eq!(state.reconnect_attempts(), 5);
    assert_eq!(state.error_message(), "Max reconnection attempts reached");
}

#[test]
fn may_start_call_says_when_a_call_can_start() {
    assert!(joined().may_start_call(&vec![s("u2")]));
    assert!(!joined().may_start_call(&vec![]));
    assert!(!fresh().may_start_call(&vec![s("u2")]));
    assert!(!in_call().may_start_call(&vec![s("u2")]));
}

#[test]
fn nothing_is_sent_while_the_relay_is_gone() {
    let mut state = in_call();
    state.handle_connection_error(AppError::Transport(s("closed")));
    let step = state.end_call();
    assert_eq!(step, Step { actions: vec![Action::CloseSession], failure: None });
    assert_eq!(state.start_call(vec![s("u2")]), idle());
    assert_eq!(state.reconnect_attempts(), 1);
}
