use voice_session::error::AppError;
use voice_session::room::{MediaSettings, PeerConnection, Room};

fn peer(id: &str, handle: u64) -> PeerConnection {
    PeerConnection { peer_id: id.to_string(), handle }
}

fn room_of(capacity: usize, ids: &[&str]) -> Room {
    let mut room = Room::new("r1".to_string(), MediaSettings { max_participants: capacity });
    for (index, id) in ids.iter().enumerate() {
        room.add_peer(peer(id, index as u64)).unwrap();
    }
    room
}

#[test]
fn new_room_is_empty() {
    let room = Room::new("r1".to_string(), MediaSettings { max_participants: 4 });
    assert_eq!(room.id(), "r1");
    assert_eq!(room.peer_count(), 0);
    assert_eq!(room.capacity(), 4);
    assert_eq!(room.connected_pair_count(), 0);
}

#[test]
fn add_peer_fills_up_to_capacity() {
    let mut room = Room::new("r1".to_string(), MediaSettings { max_participants: 2 });
    assert_eq!(room.add_peer(peer("a", 1)), Ok(()));
    assert_eq!(room.add_peer(peer("b", 2)), Ok(()));
    assert_eq!(room.peer_count(), 2);
    assert!(room.has_peer("a"));
    assert!(room.has_peer("b"));
    assert!(!room.has_peer("c"));
}

#[test]
fn add_peer_fails_when_full() {
    let mut room = room_of(2, &["a", "b"]);
    assert_eq!(room.add_peer(peer("c", 3)), Err(AppError::RoomFull));
    assert_eq!(room.peer_count(), 2);
    assert!(!room.has_peer("c"));
}

#[test]
fn room_without_places_takes_nobody() {
    let mut room = Room::new("r0".to_string(), MediaSettings { max_participants: 0 });
    assert_eq!(room.add_peer(peer("a", 1)), Err(AppError::RoomFull));
    assert_eq!(room.peer_count(), 0);
}

#[test]
fn many_adds_never_exceed_capacity() {
    let mut room = Room::new("r1".to_string(), MediaSettings { max_participants: 3 });
    let mut accepted = 0;
    for n in 0..10u64 {
        let result = room.add_peer(peer(&format!("p{}", n), n));
        assert_eq!(result.is_err(), n >= 3);
        if result.is_ok() {
            accepted += 1;
        }
        assert!(room.peer_count() <= room.capacity());
    }
    assert_eq!(accepted, 3);
    assert_eq!(room.peer_count(), 3);
}

#[test]
fn removing_makes_room_again() {
    let mut room = room_of(2, &["a", "b"]);
    room.remove_peer("a");
    assert_eq!(room.peer_count(), 1);
    assert!(!room.has_peer("a"));
    assert_eq!(room.add_peer(peer("c", 3)), Ok(()));
    assert_eq!(room.add_peer(peer("d", 4)), Err(AppError::RoomFull));
}

#[test]
fn remove_peer_purges_its_pairs() {
    let mut room = room_of(4, &["a", "b", "c", "d"]);
    assert!(room.connect_peers("a", "b"));
    assert!(room.connect_peers("c", "a"));
    assert!(room.connect_peers("b", "c"));
    assert!(room.connect_peers("c", "d"));
    assert_eq!(room.connected_pair_count(), 4);

    room.remove_peer("a");

    assert_eq!(room.peer_count(), 3);
    assert_eq!(room.connected_pair_count(), 2);
    assert!(!room.are_connected("a", "b"));
    assert!(!room.are_connected("b", "a"));
    assert!(!room.are_connected("a", "c"));
    assert!(!room.are_connected("c", "a"));
    assert!(room.are_connected("b", "c"));
    assert!(room.are_connected("d", "c"));
}

#[test]
fn remove_unknown_peer_changes_nothing() {
    let mut room = room_of(3, &["a", "b"]);
    assert!(room.connect_peers("a", "b"));
    room.remove_peer("zz");
    assert_eq!(room.peer_count(), 2);
    assert_eq!(room.connected_pair_count(), 1);
    assert!(room.are_connected("a", "b"));
}

#[test]
fn remove_peer_takes_every_entry_of_that_name() {
    let mut room = room_of(4, &["a", "b", "a"]);
    assert_eq!(room.peer_count(), 3);
    room.remove_peer("a");
    assert_eq!(room.peer_count(), 1);
    assert!(room.has_peer("b"));
    assert!(!room.has_peer("a"));
}

#[test]
fn pairs_are_unordered_and_held_once() {
    let mut room = room_of(3, &["a", "b", "c"]);
    assert!(room.connect_peers("a", "b"));
    assert!(room.connect_peers("b", "a"));
    assert!(room.connect_peers("a", "b"));
    assert_eq!(room.connected_pair_count(), 1);
    assert!(room.are_connected("a", "b"));
    assert!(room.are_connected("b", "a"));
    assert!(!room.are_connected("a", "c"));
}

#[test]
fn only_two_different_members_can_be_connected() {
    let mut room = room_of(3, &["a", "b"]);
    assert!(!room.connect_peers("a", "a"));
    assert!(!room.connect_peers("a", "x"));
    assert!(!room.connect_peers("x", "b"));
    assert_eq!(room.connected_pair_count(), 0);
}
