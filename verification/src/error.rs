//! The errors of the call client, by the part that raised them.

use vstd::prelude::*;
use vstd::string::StringExecFns;

verus! {

/// What can go wrong in a session.
#[derive(Clone, Debug, PartialEq, Eq)]
pub enum AppError {
    /// The relay link failed to connect, send or receive.
    Transport(String),
    /// An operation of the media engine failed.
    Engine(String),
    /// A room had no place left for another peer.
    RoomFull,
    /// An audio device failed to capture or play.
    Audio(String),
    /// The relay reported a fault.
    Signaling(String),
    /// An inbound frame was malformed or held no valid message.
    SignalingProtocol(String),
    /// Every reconnection attempt of one episode has been used.
    ReconnectExhausted,
}

/// The mathematical value of an [`AppError`].
pub enum AppErrorModel {
    Transport(Seq<char>),
    Engine(Seq<char>),
    RoomFull,
    Audio(Seq<char>),
    Signaling(Seq<char>),
    SignalingProtocol(Seq<char>),
    ReconnectExhausted,
}

impl AppErrorModel {
    /// The one-line text shown for an error.
    pub open spec fn message(self) -> Seq<char> {
        match self {
            AppErrorModel::Transport(detail) => "Connection error: "@ + detail,
            AppErrorModel::Engine(detail) => "WebRTC error: "@ + detail,
            AppErrorModel::RoomFull => "Room is full"@,
            AppErrorModel::Audio(detail) => "Audio error: "@ + detail,
            AppErrorModel::Signaling(detail) => "Signaling error: "@ + detail,
            AppErrorModel::SignalingProtocol(detail) => "Malformed message: "@ + detail,
            AppErrorModel::ReconnectExhausted => "Max reconnection attempts reached"@,
        }
    }

    /// Whether the error is shown to the user when it is dispatched: relay
    /// failures are answered by reconnecting, audio failures are put up with
    /// and malformed frames are dropped; every other error is shown.
    pub open spec fn is_shown(self) -> bool {
        !(self is Transport || self is Audio || self is SignalingProtocol)
    }
}

impl View for AppError {
    type V = AppErrorModel;

    open spec fn view(&self) -> AppErrorModel {
        match self {
            AppError::Transport(detail) => AppErrorModel::Transport(detail@),
            AppError::Engine(detail) => AppErrorModel::Engine(detail@),
            AppError::RoomFull => AppErrorModel::RoomFull,
            AppError::Audio(detail) => AppErrorModel::Audio(detail@),
            AppError::Signaling(detail) => AppErrorModel::Signaling(detail@),
            AppError::SignalingProtocol(detail) => AppErrorModel::SignalingProtocol(detail@),
            AppError::ReconnectExhausted => AppErrorModel::ReconnectExhausted,
        }
    }
}

impl AppError {
    /// The one-line text shown for this error.
    pub fn message(&self) -> (text: String)
        ensures
            text@ == self@.message(),
    {
        match self {
            AppError::Transport(detail) => String::from_str("Connection error: ").concat(
                detail.as_str(),
            ),
            AppError::Engine(detail) => String::from_str("WebRTC error: ").concat(detail.as_str()),
            AppError::RoomFull => String::from_str("Room is full"),
            AppError::Audio(detail) => String::from_str("Audio error: ").concat(detail.as_str()),
            AppError::Signaling(detail) => String::from_str("Signaling error: ").concat(
                detail.as_str(),
            ),
            AppError::SignalingProtocol(detail) => String::from_str("Malformed message: ").concat(
                detail.as_str(),
            ),
            AppError::ReconnectExhausted => String::from_str("Max reconnection attempts reached"),
        }
    }

    /// A copy of this error.
    pub fn duplicate(&self) -> (copy: AppError)
        ensures
            copy@ == self@,
    {
        match self {
            AppError::Transport(detail) => AppError::Transport(detail.clone()),
            AppError::Engine(detail) => AppError::Engine(detail.clone()),
            AppError::RoomFull => AppError::RoomFull,
            AppError::Audio(detail) => AppError::Audio(detail.clone()),
            AppError::Signaling(detail) => AppError::Signaling(detail.clone()),
            AppError::SignalingProtocol(detail) => AppError::SignalingProtocol(detail.clone()),
            AppError::ReconnectExhausted => AppError::ReconnectExhausted,
        }
    }
}

} // verus!
