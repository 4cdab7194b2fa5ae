//! The vocabulary of the relay: every message a client sends or receives.
//!
//! A message names its room and its peers itself; nothing on the wire depends
//! on a room that an earlier message set.

use vstd::prelude::*;

verus! {

/// A message exchanged with the relay.
#[derive(Clone, Debug, PartialEq, Eq)]
pub enum SignalingMessage {
    Join { room_id: String, peer_id: String },
    Disconnect { room_id: String, peer_id: String },
    PeerList { peers: Vec<String> },
    Offer { room_id: String, sdp: String, from_peer: String, to_peer: String },
    Answer { room_id: String, sdp: String, from_peer: String, to_peer: String },
    IceCandidate { room_id: String, candidate: String, from_peer: String, to_peer: String },
    RequestPeerList,
    InitiateCall { peer_id: String, room_id: String },
    MediaError { error_type: String, description: String, peer_id: String },
    EndCall { room_id: String, peer_id: String },
    CallRequest { room_id: String, from_peer: String, to_peers: Vec<String> },
    CallResponse { room_id: String, from_peer: String, to_peer: String, accepted: bool },
    Error { message: String },
    ConnectionLost { peer_id: String },
}

/// The mathematical value of a [`SignalingMessage`].
pub enum MessageModel {
    Join { room_id: Seq<char>, peer_id: Seq<char> },
    Disconnect { room_id: Seq<char>, peer_id: Seq<char> },
    PeerList { peers: Seq<Seq<char>> },
    Offer { room_id: Seq<char>, sdp: Seq<char>, from_peer: Seq<char>, to_peer: Seq<char> },
    Answer { room_id: Seq<char>, sdp: Seq<char>, from_peer: Seq<char>, to_peer: Seq<char> },
    IceCandidate {
        room_id: Seq<char>,
        candidate: Seq<char>,
        from_peer: Seq<char>,
        to_peer: Seq<char>,
    },
    RequestPeerList,
    InitiateCall { peer_id: Seq<char>, room_id: Seq<char> },
    MediaError { error_type: Seq<char>, description: Seq<char>, peer_id: Seq<char> },
    EndCall { room_id: Seq<char>, peer_id: Seq<char> },
    CallRequest { room_id: Seq<char>, from_peer: Seq<char>, to_peers: Seq<Seq<char>> },
    CallResponse { room_id: Seq<char>, from_peer: Seq<char>, to_peer: Seq<char>, accepted: bool },
    Error { message: Seq<char> },
    ConnectionLost { peer_id: Seq<char> },
}

impl View for SignalingMessage {
    type V = MessageModel;

    open spec fn view(&self) -> MessageModel {
        match self {
            SignalingMessage::Join { room_id, peer_id } => MessageModel::Join {
                room_id: room_id@,
                peer_id: peer_id@,
            },
            SignalingMessage::Disconnect { room_id, peer_id } => MessageModel::Disconnect {
                room_id: room_id@,
                peer_id: peer_id@,
            },
            SignalingMessage::PeerList { peers } => MessageModel::PeerList {
                peers: peers.deep_view(),
            },
            SignalingMessage::Offer { room_id, sdp, from_peer, to_peer } => MessageModel::Offer {
                room_id: room_id@,
                sdp: sdp@,
                from_peer: from_peer@,
                to_peer: to_peer@,
            },
            SignalingMessage::Answer { room_id, sdp, from_peer, to_peer } => MessageModel::Answer {
                room_id: room_id@,
                sdp: sdp@,
                from_peer: from_peer@,
                to_peer: to_peer@,
            },
            SignalingMessage::IceCandidate {
                room_id,
                candidate,
                from_peer,
                to_peer,
            } => MessageModel::IceCandidate {
                room_id: room_id@,
                candidate: candidate@,
                from_peer: from_peer@,
                to_peer: to_peer@,
            },
            SignalingMessage::RequestPeerList => MessageModel::RequestPeerList,
            SignalingMessage::InitiateCall { peer_id, room_id } => MessageModel::InitiateCall {
                peer_id: peer_id@,
                room_id: room_id@,
            },
            SignalingMessage::MediaError {
                error_type,
                description,
                peer_id,
            } => MessageModel::MediaError {
                error_type: error_type@,
                description: description@,
                peer_id: peer_id@,
            },
            SignalingMessage::EndCall { room_id, peer_id } => MessageModel::EndCall {
                room_id: room_id@,
                peer_id: peer_id@,
            },
            SignalingMessage::CallRequest {
                room_id,
                from_peer,
                to_peers,
            } => MessageModel::CallRequest {
                room_id: room_id@,
                from_peer: from_peer@,
                to_peers: to_peers.deep_view(),
            },
            SignalingMessage::CallResponse {
                room_id,
                from_peer,
                to_peer,
                accepted,
            } => MessageModel::CallResponse {
                room_id: room_id@,
                from_peer: from_peer@,
                to_peer: to_peer@,
                accepted: *accepted,
            },
            SignalingMessage::Error { message } => MessageModel::Error { message: message@ },
            SignalingMessage::ConnectionLost { peer_id } => MessageModel::ConnectionLost {
                peer_id: peer_id@,
            },
        }
    }
}

impl DeepView for SignalingMessage {
    type V = MessageModel;

    open spec fn deep_view(&self) -> MessageModel {
        self@
    }
}

/// Whether two lists hold the same strings in the same order.
fn same_texts(first: &Vec<String>, second: &Vec<String>) -> (same: bool)
    ensures
        same == (first.deep_view() == second.deep_view()),
{
    if first.len() != second.len() {
        assert(first.deep_view().len() != second.deep_view().len());
        return false;
    }
    let mut i: usize = 0;
    while i < first.len()
        invariant
            i <= first.len(),
            first.len() == second.len(),
            forall|k: int| 0 <= k < i ==> (#[trigger] first[k])@ == second[k]@,
        decreases first.len() - i,
    {
        if !(first[i] == second[i]) {
            assert(first.deep_view()[i as int] != second.deep_view()[i as int]);
            return false;
        }
        i = i + 1;
    }
    assert(first.deep_view() =~= second.deep_view());
    true
}

impl SignalingMessage {
    /// Whether this message and the other are the same variant with the same
    /// values.
    pub fn same_as(&self, other: &SignalingMessage) -> (same: bool)
        ensures
            same == (self@ == other@),
    {
        match (self, other) {
            (
                SignalingMessage::Join { room_id: a1, peer_id: a2 },
                SignalingMessage::Join { room_id: b1, peer_id: b2 },
            ) => *a1 == *b1 && *a2 == *b2,
            (
                SignalingMessage::Disconnect { room_id: a1, peer_id: a2 },
                SignalingMessage::Disconnect { room_id: b1, peer_id: b2 },
            ) => *a1 == *b1 && *a2 == *b2,
            (
                SignalingMessage::PeerList { peers: a1 },
                SignalingMessage::PeerList { peers: b1 },
            ) => same_texts(a1, b1),
            (
                SignalingMessage::Offer { room_id: a1, sdp: a2, from_peer: a3, to_peer: a4 },
                SignalingMessage::Offer { room_id: b1, sdp: b2, from_peer: b3, to_peer: b4 },
            ) => *a1 == *b1 && *a2 == *b2 && *a3 == *b3 && *a4 == *b4,
            (
                SignalingMessage::Answer { room_id: a1, sdp: a2, from_peer: a3, to_peer: a4 },
                SignalingMessage::Answer { room_id: b1, sdp: b2, from_peer: b3, to_peer: b4 },
            ) => *a1 == *b1 && *a2 == *b2 && *a3 == *b3 && *a4 == *b4,
            (
                SignalingMessage::IceCandidate {
                    room_id: a1,
                    candidate: a2,
                    from_peer: a3,
                    to_peer: a4,
                },
                SignalingMessage::IceCandidate {
                    room_id: b1,
                    candidate: b2,
                    from_peer: b3,
                    to_peer: b4,
                },
            ) => *a1 == *b1 && *a2 == *b2 && *a3 == *b3 && *a4 == *b4,
            (SignalingMessage::RequestPeerList, SignalingMessage::RequestPeerList) => true,
            (
                SignalingMessage::InitiateCall { peer_id: a1, room_id: a2 },
                SignalingMessage::InitiateCall { peer_id: b1, room_id: b2 },
            ) => *a1 == *b1 && *a2 == *b2,
            (
                SignalingMessage::MediaError { error_type: a1, description: a2, peer_id: a3 },
                SignalingMessage::MediaError { error_type: b1, description: b2, peer_id: b3 },
            ) => *a1 == *b1 && *a2 == *b2 && *a3 == *b3,
            (
                SignalingMessage::EndCall { room_id: a1, peer_id: a2 },
                SignalingMessage::EndCall { room_id: b1, peer_id: b2 },
            ) => *a1 == *b1 && *a2 == *b2,
            (
                SignalingMessage::CallRequest { room_id: a1, from_peer: a2, to_peers: a3 },
                SignalingMessage::CallRequest { room_id: b1, from_peer: b2, to_peers: b3 },
            ) => *a1 == *b1 && *a2 == *b2 && same_texts(a3, b3),
            (
                SignalingMessage::CallResponse {
                    room_id: a1,
                    from_peer: a2,
                    to_peer: a3,
                    accepted: a4,
                },
                SignalingMessage::CallResponse {
                    room_id: b1,
                    from_peer: b2,
                    to_peer: b3,
                    accepted: b4,
                },
            ) => *a1 == *b1 && *a2 == *b2 && *a3 == *b3 && *a4 == *b4,
            (
                SignalingMessage::Error { message: a1 },
                SignalingMessage::Error { message: b1 },
            ) => *a1 == *b1,
            (
                SignalingMessage::ConnectionLost { peer_id: a1 },
                SignalingMessage::ConnectionLost { peer_id: b1 },
            ) => *a1 == *b1,
            _ => false,
        }
    }
}

} // verus!
