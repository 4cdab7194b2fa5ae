//! The wire form of signaling messages: one JSON object per frame, with the
//! field `message_type` naming the variant and one field for each of the
//! variant's values.
//!
//! Turning a message into its list of fields and back is this crate's own
//! work and is proved here. Turning a list of fields into JSON text and back
//! is the work of `serde_json`; what is believed of it stands at the calls
//! at the end of this file.

use vstd::prelude::*;
use vstd::string::StringExecFns;
use crate::error::{AppError, AppErrorModel};
use crate::signaling::{MessageModel, SignalingMessage};
use serde_json::Value;

verus! {

/// The value of one field of a JSON object, as far as messages use it.
#[derive(Clone, Debug, PartialEq, Eq)]
pub enum FieldValue {
    /// A JSON string.
    Text(String),
    /// A JSON boolean.
    Flag(bool),
    /// A JSON array; an item that is a string is held, any other is `None`.
    List(Vec<Option<String>>),
    /// Any other JSON value.
    Other,
}

/// The mathematical value of a [`FieldValue`].
pub enum FieldModel {
    Text(Seq<char>),
    Flag(bool),
    List(Seq<Option<Seq<char>>>),
    Other,
}

impl View for FieldValue {
    type V = FieldModel;

    open spec fn view(&self) -> FieldModel {
        match self {
            FieldValue::Text(text) => FieldModel::Text(text@),
            FieldValue::Flag(flag) => FieldModel::Flag(*flag),
            FieldValue::List(items) => FieldModel::List(items.deep_view()),
            FieldValue::Other => FieldModel::Other,
        }
    }
}

impl DeepView for FieldValue {
    type V = FieldModel;

    open spec fn deep_view(&self) -> FieldModel {
        self@
    }
}

/// The fields of a JSON object, in the order of the text.
pub type Fields = Vec<(String, FieldValue)>;

/// The mathematical value of [`Fields`].
pub type FieldsModel = Seq<(Seq<char>, FieldModel)>;

/// The value of the first field of the given name, if there is one.
pub open spec fn lookup(fields: FieldsModel, key: Seq<char>) -> Option<FieldModel>
    decreases fields.len(),
{
    if fields.len() == 0 {
        None
    } else if fields[0].0 == key {
        Some(fields[0].1)
    } else {
        lookup(fields.subrange(1, fields.len() as int), key)
    }
}

/// The string held by the field of the given name.
pub open spec fn text_field(fields: FieldsModel, key: Seq<char>) -> Option<Seq<char>> {
    match lookup(fields, key) {
        Some(FieldModel::Text(text)) => Some(text),
        _ => None,
    }
}

/// The boolean held by the field of the given name.
pub open spec fn flag_field(fields: FieldsModel, key: Seq<char>) -> Option<bool> {
    match lookup(fields, key) {
        Some(FieldModel::Flag(flag)) => Some(flag),
        _ => None,
    }
}

/// The strings of an array all of whose items are strings.
pub open spec fn item_texts(items: Seq<Option<Seq<char>>>) -> Option<Seq<Seq<char>>> {
    if forall|i: int| 0 <= i < items.len() ==> (#[trigger] items[i]) is Some {
        Some(Seq::new(items.len(), |i: int| items[i]->0))
    } else {
        None
    }
}

/// The array whose items are the given strings.
pub open spec fn text_items(texts: Seq<Seq<char>>) -> Seq<Option<Seq<char>>> {
    Seq::new(texts.len(), |i: int| Some(texts[i]))
}

/// The list of strings held by the field of the given name.
pub open spec fn list_field(fields: FieldsModel, key: Seq<char>) -> Option<Seq<Seq<char>>> {
    match lookup(fields, key) {
        Some(FieldModel::List(items)) => item_texts(items),
        _ => None,
    }
}

/// The field that names the variant.
pub open spec fn tag(name: Seq<char>) -> (Seq<char>, FieldModel) {
    ("message_type"@, FieldModel::Text(name))
}

/// A field that holds a string.
pub open spec fn text(key: Seq<char>, value: Seq<char>) -> (Seq<char>, FieldModel) {
    (key, FieldModel::Text(value))
}

/// The fields of a message: the variant's name first, then the variant's
/// values in the order of their declaration.
pub open spec fn message_fields(message: MessageModel) -> FieldsModel {
    match message {
        MessageModel::Join { room_id, peer_id } => seq![
            tag("Join"@),
            text("room_id"@, room_id),
            text("peer_id"@, peer_id),
        ],
        MessageModel::Disconnect { room_id, peer_id } => seq![
            tag("Disconnect"@),
            text("room_id"@, room_id),
            text("peer_id"@, peer_id),
        ],
        MessageModel::PeerList { peers } => seq![
            tag("PeerList"@),
            ("peers"@, FieldModel::List(text_items(peers))),
        ],
        MessageModel::Offer { room_id, sdp, from_peer, to_peer } => seq![
            tag("Offer"@),
            text("room_id"@, room_id),
            text("sdp"@, sdp),
            text("from_peer"@, from_peer),
            text("to_peer"@, to_peer),
        ],
        MessageModel::Answer { room_id, sdp, from_peer, to_peer } => seq![
            tag("Answer"@),
            text("room_id"@, room_id),
            text("sdp"@, sdp),
            text("from_peer"@, from_peer),
            text("to_peer"@, to_peer),
        ],
        MessageModel::IceCandidate { room_id, candidate, from_peer, to_peer } => seq![
            tag("IceCandidate"@),
            text("room_id"@, room_id),
            text("candidate"@, candidate),
            text("from_peer"@, from_peer),
            text("to_peer"@, to_peer),
        ],
        MessageModel::RequestPeerList => seq![tag("RequestPeerList"@)],
        MessageModel::InitiateCall { peer_id, room_id } => seq![
            tag("InitiateCall"@),
            text("peer_id"@, peer_id),
            text("room_id"@, room_id),
        ],
        MessageModel::MediaError { error_type, description, peer_id } => seq![
            tag("MediaError"@),
            text("error_type"@, error_type),
            text("description"@, description),
            text("peer_id"@, peer_id),
        ],
        MessageModel::EndCall { room_id, peer_id } => seq![
            tag("EndCall"@),
            text("room_id"@, room_id),
            text("peer_id"@, peer_id),
        ],
        MessageModel::CallRequest { room_id, from_peer, to_peers } => seq![
            tag("CallRequest"@),
            text("room_id"@, room_id),
            text("from_peer"@, from_peer),
            ("to_peers"@, FieldModel::List(text_items(to_peers))),
        ],
        MessageModel::CallResponse { room_id, from_peer, to_peer, accepted } => seq![
            tag("CallResponse"@),
            text("room_id"@, room_id),
            text("from_peer"@, from_peer),
            text("to_peer"@, to_peer),
            ("accepted"@, FieldModel::Flag(accepted)),
        ],
        MessageModel::Error { message } => seq![tag("Error"@), text("message"@, message)],
        MessageModel::ConnectionLost { peer_id } => seq![
            tag("ConnectionLost"@),
            text("peer_id"@, peer_id),
        ],
    }
}

/// The message that a list of fields stands for: the field `message_type`
/// must name a variant, and each value of that variant must be there under
/// its name and in its type. Fields that the variant does not have are passed
/// over.
pub open spec fn fields_message(fields: FieldsModel) -> Option<MessageModel> {
    let room_id = text_field(fields, "room_id"@);
    let peer_id = text_field(fields, "peer_id"@);
    let sdp = text_field(fields, "sdp"@);
    let from_peer = text_field(fields, "from_peer"@);
    let to_peer = text_field(fields, "to_peer"@);
    match text_field(fields, "message_type"@) {
        None => None,
        Some(name) => if name == "Join"@ {
            if room_id is Some && peer_id is Some {
                Some(MessageModel::Join { room_id: room_id->0, peer_id: peer_id->0 })
            } else {
                None
            }
        } else if name == "Disconnect"@ {
            if room_id is Some && peer_id is Some {
                Some(MessageModel::Disconnect { room_id: room_id->0, peer_id: peer_id->0 })
            } else {
                None
            }
        } else if name == "PeerList"@ {
            match list_field(fields, "peers"@) {
                Some(peers) => Some(MessageModel::PeerList { peers }),
                None => None,
            }
        } else if name == "Offer"@ {
            if room_id is Some && sdp is Some && from_peer is Some && to_peer is Some {
                Some(
                    MessageModel::Offer {
                        room_id: room_id->0,
                        sdp: sdp->0,
                        from_peer: from_peer->0,
                        to_peer: to_peer->0,
                    },
                )
            } else {
                None
            }
        } else if name == "Answer"@ {
            if room_id is Some && sdp is Some && from_peer is Some && to_peer is Some {
                Some(
                    MessageModel::Answer {
                        room_id: room_id->0,
                        sdp: sdp->0,
                        from_peer: from_peer->0,
                        to_peer: to_peer->0,
                    },
                )
            } else {
                None
            }
        } else if name == "IceCandidate"@ {
            let candidate = text_field(fields, "candidate"@);
            if room_id is Some && candidate is Some && from_peer is Some && to_peer is Some {
                Some(
                    MessageModel::IceCandidate {
                        room_id: room_id->0,
                        candidate: candidate->0,
                        from_peer: from_peer->0,
                        to_peer: to_peer->0,
                    },
                )
            } else {
                None
            }
        } else if name == "RequestPeerList"@ {
            Some(MessageModel::RequestPeerList)
        } else if name == "InitiateCall"@ {
            if peer_id is Some && room_id is Some {
                Some(MessageModel::InitiateCall { peer_id: peer_id->0, room_id: room_id->0 })
            } else {
                None
            }
        } else if name == "MediaError"@ {
            let error_type = text_field(fields, "error_type"@);
            let description = text_field(fields, "description"@);
            if error_type is Some && description is Some && peer_id is Some {
                Some(
                    MessageModel::MediaError {
                        error_type: error_type->0,
                        description: description->0,
                        peer_id: peer_id->0,
                    },
                )
            } else {
                None
            }
        } else if name == "EndCall"@ {
            if room_id is Some && peer_id is Some {
                Some(MessageModel::EndCall { room_id: room_id->0, peer_id: peer_id->0 })
            } else {
                None
            }
        } else if name == "CallRequest"@ {
            let to_peers = list_field(fields, "to_peers"@);
            if room_id is Some && from_peer is Some && to_peers is Some {
                Some(
                    MessageModel::CallRequest {
                        room_id: room_id->0,
                        from_peer: from_peer->0,
                        to_peers: to_peers->0,
                    },
                )
            } else {
                None
            }
        } else if name == "CallResponse"@ {
            let accepted = flag_field(fields, "accepted"@);
            if room_id is Some && from_peer is Some && to_peer is Some && accepted is Some {
                Some(
                    MessageModel::CallResponse {
                        room_id: room_id->0,
                        from_peer: from_peer->0,
                        to_peer: to_peer->0,
                        accepted: accepted->0,
                    },
                )
            } else {
                None
            }
        } else if name == "Error"@ {
            match text_field(fields, "message"@) {
                Some(message) => Some(MessageModel::Error { message }),
                None => None,
            }
        } else if name == "ConnectionLost"@ {
            if peer_id is Some {
                Some(MessageModel::ConnectionLost { peer_id: peer_id->0 })
            } else {
                None
            }
        } else {
            None
        },
    }
}

/// Length, first and last character of a name: enough to tell apart any two
/// of the names that the wire form uses.
spec fn outline(name: Seq<char>) -> (nat, char, char) {
    (name.len(), name.first(), name.last())
}

/// The outlines of the variant names.
proof fn lemma_variant_outlines()
    ensures
        outline("Join"@) == (4nat, 'J', 'n'),
        outline("Disconnect"@) == (10nat, 'D', 't'),
        outline("PeerList"@) == (8nat, 'P', 't'),
        outline("Offer"@) == (5nat, 'O', 'r'),
        outline("Answer"@) == (6nat, 'A', 'r'),
        outline("IceCandidate"@) == (12nat, 'I', 'e'),
        outline("RequestPeerList"@) == (15nat, 'R', 't'),
        outline("InitiateCall"@) == (12nat, 'I', 'l'),
        outline("MediaError"@) == (10nat, 'M', 'r'),
        outline("EndCall"@) == (7nat, 'E', 'l'),
        outline("CallRequest"@) == (11nat, 'C', 't'),
        outline("CallResponse"@) == (12nat, 'C', 'e'),
        outline("Error"@) == (5nat, 'E', 'r'),
        outline("ConnectionLost"@) == (14nat, 'C', 't'),
{
    reveal_strlit("Join");
    reveal_strlit("Disconnect");
    reveal_strlit("PeerList");
    reveal_strlit("Offer");
    reveal_strlit("Answer");
    reveal_strlit("IceCandidate");
    reveal_strlit("RequestPeerList");
    reveal_strlit("InitiateCall");
    reveal_strlit("MediaError");
    reveal_strlit("EndCall");
    reveal_strlit("CallRequest");
    reveal_strlit("CallResponse");
    reveal_strlit("Error");
    reveal_strlit("ConnectionLost");
}

/// The outlines of the field names.
proof fn lemma_field_outlines()
    ensures
        outline("message_type"@) == (12nat, 'm', 'e'),
        outline("room_id"@) == (7nat, 'r', 'd'),
        outline("peer_id"@) == (7nat, 'p', 'd'),
        outline("peers"@) == (5nat, 'p', 's'),
        outline("sdp"@) == (3nat, 's', 'p'),
        outline("from_peer"@) == (9nat, 'f', 'r'),
        outline("to_peer"@) == (7nat, 't', 'r'),
        outline("candidate"@) == (9nat, 'c', 'e'),
        outline("error_type"@) == (10nat, 'e', 'e'),
        outline("description"@) == (11nat, 'd', 'n'),
        outline("to_peers"@) == (8nat, 't', 's'),
        outline("accepted"@) == (8nat, 'a', 'd'),
        outline("message"@) == (7nat, 'm', 'e'),
{
    reveal_strlit("message_type");
    reveal_strlit("room_id");
    reveal_strlit("peer_id");
    reveal_strlit("peers");
    reveal_strlit("sdp");
    reveal_strlit("from_peer");
    reveal_strlit("to_peer");
    reveal_strlit("candidate");
    reveal_strlit("error_type");
    reveal_strlit("description");
    reveal_strlit("to_peers");
    reveal_strlit("accepted");
    reveal_strlit("message");
}

/// An array made of strings gives those strings back.
proof fn lemma_items_round_trip(texts: Seq<Seq<char>>)
    ensures
        item_texts(text_items(texts)) == Some(texts),
{
    let items = text_items(texts);
    assert(Seq::new(items.len(), |i: int| items[i]->0) =~= texts);
}

/// Reading the fields of a message gives the message back, for every
/// message: nothing is lost between a message and its fields.
pub proof fn lemma_fields_round_trip(message: MessageModel)
    ensures
        fields_message(message_fields(message)) == Some(message),
{
    reveal_with_fuel(lookup, 6);
    lemma_variant_outlines();
    lemma_field_outlines();
    let fields = message_fields(message);
    assert(text_field(fields, "message_type"@) is Some);
    match message {
        MessageModel::PeerList { peers } => {
            lemma_items_round_trip(peers);
        },
        MessageModel::CallRequest { room_id, from_peer, to_peers } => {
            lemma_items_round_trip(to_peers);
        },
        _ => {},
    }
}

/// Whether a string is the given name.
fn is_name(text: &String, name: &str) -> (same: bool)
    ensures
        same == (text@ == name@),
{
    *text == String::from_str(name)
}

/// The value of the first field of the given name, if there is one.
fn find<'a>(fields: &'a Fields, key: &str) -> (found: Option<&'a FieldValue>)
    ensures
        match found {
            Some(value) => lookup(fields.deep_view(), key@) == Some(value@),
            None => lookup(fields.deep_view(), key@) is None,
        },
{
    let wanted = String::from_str(key);
    let ghost all = fields.deep_view();
    let mut i: usize = 0;
    proof {
        assert(all.subrange(0, all.len() as int) =~= all);
    }
    while i < fields.len()
        invariant
            i <= fields.len(),
            all == fields.deep_view(),
            wanted@ == key@,
            lookup(all, key@) == lookup(all.subrange(i as int, all.len() as int), key@),
        decreases fields.len() - i,
    {
        let ghost rest = all.subrange(i as int, all.len() as int);
        proof {
            assert(rest[0] == all[i as int]);
            assert(rest.subrange(1, rest.len() as int) =~= all.subrange(
                i as int + 1,
                all.len() as int,
            ));
        }
        if fields[i].0 == wanted {
            return Some(&fields[i].1);
        }
        i = i + 1;
    }
    None
}

/// The string held by the field of the given name.
fn read_text(fields: &Fields, key: &str) -> (found: Option<String>)
    ensures
        found.deep_view() == text_field(fields.deep_view(), key@),
{
    match find(fields, key) {
        Some(FieldValue::Text(text)) => Some(text.clone()),
        _ => None,
    }
}

/// The boolean held by the field of the given name.
fn read_flag(fields: &Fields, key: &str) -> (found: Option<bool>)
    ensures
        found == flag_field(fields.deep_view(), key@),
{
    match find(fields, key) {
        Some(FieldValue::Flag(flag)) => Some(*flag),
        _ => None,
    }
}

/// The list of strings held by the field of the given name.
fn read_list(fields: &Fields, key: &str) -> (found: Option<Vec<String>>)
    ensures
        found.deep_view() == list_field(fields.deep_view(), key@),
{
    match find(fields, key) {
        Some(FieldValue::List(items)) => {
            let mut texts: Vec<String> = Vec::new();
            let mut i: usize = 0;
            while i < items.len()
                invariant
                    i <= items.len(),
                    texts.len() == i,
                    lookup(fields.deep_view(), key@) == Some(FieldModel::List(items.deep_view())),
                    forall|k: int| 0 <= k < i ==> (#[trigger] items.deep_view()[k]) is Some,
                    forall|k: int| 0 <= k < i ==> (#[trigger] texts[k])@ == items.deep_view()[k]->0,
                decreases items.len() - i,
            {
                match &items[i] {
                    Some(text) => {
                        texts.push(text.clone());
                    },
                    None => {
                        assert(items.deep_view()[i as int] is None);
                        return None;
                    },
                }
                i = i + 1;
            }
            assert(texts.deep_view() =~= item_texts(items.deep_view())->0);
            Some(texts)
        },
        _ => None,
    }
}

/// The array whose items are the given strings.
fn list_value(texts: &Vec<String>) -> (value: FieldValue)
    ensures
        value@ == FieldModel::List(text_items(texts.deep_view())),
{
    let mut items: Vec<Option<String>> = Vec::new();
    let mut i: usize = 0;
    while i < texts.len()
        invariant
            i <= texts.len(),
            items.len() == i,
            forall|k: int| 0 <= k < i ==> (#[trigger] items[k]).deep_view() == Some(texts[k]@),
        decreases texts.len() - i,
    {
        items.push(Some(texts[i].clone()));
        i = i + 1;
    }
    assert(items.deep_view() =~= text_items(texts.deep_view()));
    FieldValue::List(items)
}

/// A field that holds a string.
fn text_entry(key: &str, value: &String) -> (entry: (String, FieldValue))
    ensures
        entry.deep_view() == text(key@, value@),
{
    (String::from_str(key), FieldValue::Text(value.clone()))
}

/// The field that names the variant.
fn tag_entry(name: &str) -> (entry: (String, FieldValue))
    ensures
        entry.deep_view() == tag(name@),
{
    (String::from_str("message_type"), FieldValue::Text(String::from_str(name)))
}

/// Appends a field to a list of fields.
fn push_field(fields: &mut Fields, entry: (String, FieldValue))
    ensures
        final(fields).deep_view() == old(fields).deep_view().push(entry.deep_view()),
{
    fields.push(entry);
    assert(fields.deep_view() =~= old(fields).deep_view().push(entry.deep_view()));
}

/// The fields of a message: the variant's name first, then the variant's
/// values in the order of their declaration.
pub fn to_fields(message: &SignalingMessage) -> (fields: Fields)
    ensures
        fields.deep_view() == message_fields(message@),
{
    let mut fields: Fields = Vec::new();
    assert(fields.deep_view() =~= Seq::<(Seq<char>, FieldModel)>::empty());
    match message {
        SignalingMessage::Join { room_id, peer_id } => {
            push_field(&mut fields, tag_entry("Join"));
            push_field(&mut fields, text_entry("room_id", room_id));
            push_field(&mut fields, text_entry("peer_id", peer_id));
        },
        SignalingMessage::Disconnect { room_id, peer_id } => {
            push_field(&mut fields, tag_entry("Disconnect"));
            push_field(&mut fields, text_entry("room_id", room_id));
            push_field(&mut fields, text_entry("peer_id", peer_id));
        },
        SignalingMessage::PeerList { peers } => {
            push_field(&mut fields, tag_entry("PeerList"));
            push_field(&mut fields, (String::from_str("peers"), list_value(peers)));
        },
        SignalingMessage::Offer { room_id, sdp, from_peer, to_peer } => {
            push_field(&mut fields, tag_entry("Offer"));
            push_field(&mut fields, text_entry("room_id", room_id));
            push_field(&mut fields, text_entry("sdp", sdp));
            push_field(&mut fields, text_entry("from_peer", from_peer));
            push_field(&mut fields, text_entry("to_peer", to_peer));
        },
        SignalingMessage::Answer { room_id, sdp, from_peer, to_peer } => {
            push_field(&mut fields, tag_entry("Answer"));
            push_field(&mut fields, text_entry("room_id", room_id));
            push_field(&mut fields, text_entry("sdp", sdp));
            push_field(&mut fields, text_entry("from_peer", from_peer));
            push_field(&mut fields, text_entry("to_peer", to_peer));
        },
        SignalingMessage::IceCandidate { room_id, candidate, from_peer, to_peer } => {
            push_field(&mut fields, tag_entry("IceCandidate"));
            push_field(&mut fields, text_entry("room_id", room_id));
            push_field(&mut fields, text_entry("candidate", candidate));
            push_field(&mut fields, text_entry("from_peer", from_peer));
            push_field(&mut fields, text_entry("to_peer", to_peer));
        },
        SignalingMessage::RequestPeerList => {
            push_field(&mut fields, tag_entry("RequestPeerList"));
        },
        SignalingMessage::InitiateCall { peer_id, room_id } => {
            push_field(&mut fields, tag_entry("InitiateCall"));
            push_field(&mut fields, text_entry("peer_id", peer_id));
            push_field(&mut fields, text_entry("room_id", room_id));
        },
        SignalingMessage::MediaError { error_type, description, peer_id } => {
            push_field(&mut fields, tag_entry("MediaError"));
            push_field(&mut fields, text_entry("error_type", error_type));
            push_field(&mut fields, text_entry("description", description));
            push_field(&mut fields, text_entry("peer_id", peer_id));
        },
        SignalingMessage::EndCall { room_id, peer_id } => {
            push_field(&mut fields, tag_entry("EndCall"));
            push_field(&mut fields, text_entry("room_id", room_id));
            push_field(&mut fields, text_entry("peer_id", peer_id));
        },
        SignalingMessage::CallRequest { room_id, from_peer, to_peers } => {
            push_field(&mut fields, tag_entry("CallRequest"));
            push_field(&mut fields, text_entry("room_id", room_id));
            push_field(&mut fields, text_entry("from_peer", from_peer));
            push_field(&mut fields, (String::from_str("to_peers"), list_value(to_peers)));
        },
        SignalingMessage::CallResponse { room_id, from_peer, to_peer, accepted } => {
            push_field(&mut fields, tag_entry("CallResponse"));
            push_field(&mut fields, text_entry("room_id", room_id));
            push_field(&mut fields, text_entry("from_peer", from_peer));
            push_field(&mut fields, text_entry("to_peer", to_peer));
            push_field(&mut fields, (String::from_str("accepted"), FieldValue::Flag(*accepted)));
        },
        SignalingMessage::Error { message } => {
            push_field(&mut fields, tag_entry("Error"));
            push_field(&mut fields, text_entry("message", message));
        },
        SignalingMessage::ConnectionLost { peer_id } => {
            push_field(&mut fields, tag_entry("ConnectionLost"));
            push_field(&mut fields, text_entry("peer_id", peer_id));
        },
    }
    assert(fields.deep_view() =~= message_fields(message@));
    fields
}

/// The message that a list of fields stands for, or `None` when the fields
/// name no variant or lack one of its values.
pub fn from_fields(fields: &Fields) -> (message: Option<SignalingMessage>)
    ensures
        message.deep_view() == fields_message(fields.deep_view()),
{
    let name = match read_text(fields, "message_type") {
        Some(name) => name,
        None => {
            return None;
        },
    };
    let room_id = read_text(fields, "room_id");
    let peer_id = read_text(fields, "peer_id");
    let sdp = read_text(fields, "sdp");
    let from_peer = read_text(fields, "from_peer");
    let to_peer = read_text(fields, "to_peer");
    if is_name(&name, "Join") {
        match (room_id, peer_id) {
            (Some(room_id), Some(peer_id)) => Some(SignalingMessage::Join { room_id, peer_id }),
            _ => None,
        }
    } else if is_name(&name, "Disconnect") {
        match (room_id, peer_id) {
            (Some(room_id), Some(peer_id)) => Some(
                SignalingMessage::Disconnect { room_id, peer_id },
            ),
            _ => None,
        }
    } else if is_name(&name, "PeerList") {
        match read_list(fields, "peers") {
            Some(peers) => Some(SignalingMessage::PeerList { peers }),
            None => None,
        }
    } else if is_name(&name, "Offer") {
        match (room_id, sdp, from_peer, to_peer) {
            (Some(room_id), Some(sdp), Some(from_peer), Some(to_peer)) => Some(
                SignalingMessage::Offer { room_id, sdp, from_peer, to_peer },
            ),
            _ => None,
        }
    } else if is_name(&name, "Answer") {
        match (room_id, sdp, from_peer, to_peer) {
            (Some(room_id), Some(sdp), Some(from_peer), Some(to_peer)) => Some(
                SignalingMessage::Answer { room_id, sdp, from_peer, to_peer },
            ),
            _ => None,
        }
    } else if is_name(&name, "IceCandidate") {
        match (room_id, read_text(fields, "candidate"), from_peer, to_peer) {
            (Some(room_id), Some(candidate), Some(from_peer), Some(to_peer)) => Some(
                SignalingMessage::IceCandidate { room_id, candidate, from_peer, to_peer },
            ),
            _ => None,
        }
    } else if is_name(&name, "RequestPeerList") {
        Some(SignalingMessage::RequestPeerList)
    } else if is_name(&name, "InitiateCall") {
        match (peer_id, room_id) {
            (Some(peer_id), Some(room_id)) => Some(
                SignalingMessage::InitiateCall { peer_id, room_id },
            ),
            _ => None,
        }
    } else if is_name(&name, "MediaError") {
        match (read_text(fields, "error_type"), read_text(fields, "description"), peer_id) {
            (Some(error_type), Some(description), Some(peer_id)) => Some(
                SignalingMessage::MediaError { error_type, description, peer_id },
            ),
            _ => None,
        }
    } else if is_name(&name, "EndCall") {
        match (room_id, peer_id) {
            (Some(room_id), Some(peer_id)) => Some(SignalingMessage::EndCall { room_id, peer_id }),
            _ => None,
        }
    } else if is_name(&name, "CallRequest") {
        match (room_id, from_peer, read_list(fields, "to_peers")) {
            (Some(room_id), Some(from_peer), Some(to_peers)) => Some(
                SignalingMessage::CallRequest { room_id, from_peer, to_peers },
            ),
            _ => None,
        }
    } else if is_name(&name, "CallResponse") {
        match (room_id, from_peer, to_peer, read_flag(fields, "accepted")) {
            (Some(room_id), Some(from_peer), Some(to_peer), Some(accepted)) => Some(
                SignalingMessage::CallResponse { room_id, from_peer, to_peer, accepted },
            ),
            _ => None,
        }
    } else if is_name(&name, "Error") {
        match read_text(fields, "message") {
            Some(message) => Some(SignalingMessage::Error { message }),
            None => None,
        }
    } else if is_name(&name, "ConnectionLost") {
        match peer_id {
            Some(peer_id) => Some(SignalingMessage::ConnectionLost { peer_id }),
            None => None,
        }
    } else {
        None
    }
}

/// The message that a text stands for: the text must be a JSON object, and
/// its fields must stand for a message.
pub open spec fn decoded(text: Seq<char>) -> Option<MessageModel> {
    match parsed_object(text) {
        Some(fields) => fields_message(fields),
        None => None,
    }
}

/// The text that a message is sent as: the JSON text of its fields, provided
/// that this text stands for the message again.
pub open spec fn encoded(message: MessageModel) -> Option<Seq<char>> {
    match rendered_object(message_fields(message)) {
        Some(text) => if decoded(text) == Some(message) {
            Some(text)
        } else {
            None
        },
        None => None,
    }
}

/// Encoding and then decoding gives the message back, for every message and
/// every text that it is sent as.
pub proof fn lemma_decode_inverts_encode(message: MessageModel, text: Seq<char>)
    ensures
        encoded(message) == Some(text) ==> decoded(text) == Some(message),
{
}

/// Nothing stands between a message and its text but the JSON layer: a text
/// that is read as the fields of a message decodes to that message.
pub proof fn lemma_decode_reads_fields(message: MessageModel, text: Seq<char>)
    ensures
        parsed_object(text) == Some(message_fields(message)) ==> decoded(text) == Some(message),
{
    lemma_fields_round_trip(message);
}

/// Writes a message as the text of one frame.
///
/// The text is read back before it is handed out: a text that would not give
/// the message back is never sent.
pub fn encode(message: &SignalingMessage) -> (outcome: Result<String, AppError>)
    ensures
        match outcome {
            Ok(text) => encoded(message@) == Some(text@) && decoded(text@) == Some(message@),
            Err(error) => encoded(message@) is None && error@ is SignalingProtocol,
        },
{
    let fields = to_fields(message);
    match render_object(&fields) {
        Ok(text) => {
            let read_back = match accept_frame(text.as_str()) {
                Some(back) => back.same_as(message),
                None => false,
            };
            if read_back {
                Ok(text)
            } else {
                Err(
                    AppError::SignalingProtocol(
                        String::from_str("message does not survive the wire"),
                    ),
                )
            }
        },
        Err(error) => Err(AppError::SignalingProtocol(json_error_text(&error))),
    }
}

/// Reads the text of one frame as a message. A text that is no JSON object,
/// or whose fields stand for no message, is refused.
pub fn decode(text: &str) -> (outcome: Result<SignalingMessage, AppError>)
    ensures
        match outcome {
            Ok(message) => decoded(text@) == Some(message@),
            Err(error) => decoded(text@) is None && error@ is SignalingProtocol,
        },
        outcome is Err && parsed_object(text@) is Some ==> outcome->Err_0@
            == AppErrorModel::SignalingProtocol("unknown or incomplete message"@),
{
    match parse_object(text) {
        Ok(fields) => match from_fields(&fields) {
            Some(message) => Ok(message),
            None => Err(
                AppError::SignalingProtocol(String::from_str("unknown or incomplete message")),
            ),
        },
        Err(error) => Err(AppError::SignalingProtocol(json_error_text(&error))),
    }
}

/// Reads an inbound frame at the transport boundary: a frame that holds no
/// valid message is dropped.
pub fn accept_frame(text: &str) -> (message: Option<SignalingMessage>)
    ensures
        message.deep_view() == decoded(text@),
{
    match decode(text) {
        Ok(message) => Some(message),
        Err(_) => None,
    }
}

/// `serde_json::Error`, carried through as it comes; nothing is believed of
/// what it holds.
#[verifier::external_type_specification]
#[verifier::external_body]
pub struct ExJsonError(serde_json::Error);

/// The fields of the JSON object that a text holds, as `serde_json` reads it:
/// in the order of the text, a repeated name held once with its last value.
/// `None` when the text is not exactly one JSON object.
pub uninterp spec fn parsed_object(text: Seq<char>) -> Option<Seq<(Seq<char>, FieldModel)>>;

/// The JSON text that `serde_json` writes for an object of the given fields.
pub uninterp spec fn rendered_object(fields: Seq<(Seq<char>, FieldModel)>) -> Option<Seq<char>>;

/// Calls `serde_json::from_str` for a `serde_json::Map`, and hands out each
/// entry of the map as a field. Believed of it: whether it succeeds, and what
/// fields come out, depends on the text alone.
#[verifier::external_body]
fn parse_object(text: &str) -> (outcome: Result<Fields, serde_json::Error>)
    ensures
        match outcome {
            Ok(fields) => parsed_object(text@) == Some(fields.deep_view()),
            Err(_) => parsed_object(text@) is None,
        },
{
    let object: serde_json::Map<String, Value> = serde_json::from_str(text)?;
    Ok(object.into_iter().map(|(key, value)| (key, match value {
        Value::String(text) => FieldValue::Text(text),
        Value::Bool(flag) => FieldValue::Flag(flag),
        Value::Array(items) => FieldValue::List(items.into_iter().map(|item| match item {
            Value::String(text) => Some(text),
            _ => None,
        }).collect()),
        _ => FieldValue::Other,
    })).collect())
}

/// Calls `serde_json::to_string` on a `serde_json::Map` made of the fields.
/// Believed of it: whether it succeeds, and what text comes out, depends on
/// the fields alone.
#[verifier::external_body]
fn render_object(fields: &Fields) -> (outcome: Result<String, serde_json::Error>)
    ensures
        match outcome {
            Ok(text) => rendered_object(fields.deep_view()) == Some(text@),
            Err(_) => rendered_object(fields.deep_view()) is None,
        },
{
    let entries = fields.iter().map(|(key, value)| (key.clone(), match value {
        FieldValue::Text(text) => Value::String(text.clone()),
        FieldValue::Flag(flag) => Value::Bool(*flag),
        FieldValue::List(items) => Value::Array(items.iter().map(|item| match item {
            Some(text) => Value::String(text.clone()),
            None => Value::Null,
        }).collect()),
        FieldValue::Other => Value::Null,
    }));
    let object: serde_json::Map<String, Value> = entries.collect();
    serde_json::to_string(&object)
}

/// Calls `to_string` on a `serde_json::Error`: the error in words.
#[verifier::external_body]
fn json_error_text(error: &serde_json::Error) -> (text: String) {
    error.to_string()
}

} // verus!
