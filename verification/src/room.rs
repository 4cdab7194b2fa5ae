//! Room membership: who is in a room, how many may be, and which pairs of
//! members are connected to each other.

use vstd::prelude::*;
use vstd::string::StringExecFns;
use crate::error::AppError;
use crate::filtering::{lemma_filter_keeps, lemma_filter_push};

verus! {

/// The limits that a room is created with.
#[derive(Clone, Copy, Debug, PartialEq, Eq)]
pub struct MediaSettings {
    /// How many peers the room takes.
    pub max_participants: usize,
}

/// A member of a room: the peer's identity and the handle of its connection.
#[derive(Clone, Debug, PartialEq, Eq)]
pub struct PeerConnection {
    pub peer_id: String,
    pub handle: u64,
}

/// The mathematical value of a [`PeerConnection`].
pub struct PeerModel {
    pub peer_id: Seq<char>,
    pub handle: u64,
}

impl View for PeerConnection {
    type V = PeerModel;

    open spec fn view(&self) -> PeerModel {
        PeerModel { peer_id: self.peer_id@, handle: self.handle }
    }
}

impl DeepView for PeerConnection {
    type V = PeerModel;

    open spec fn deep_view(&self) -> PeerModel {
        self@
    }
}

/// Whether a roster has a member of the given identity.
pub open spec fn is_member(peers: Seq<PeerModel>, peer_id: Seq<char>) -> bool {
    exists|i: int| 0 <= i < peers.len() && (#[trigger] peers[i]).peer_id == peer_id
}

/// Whether a pair has the given peer on either side.
pub open spec fn mentions(pair: (Seq<char>, Seq<char>), peer_id: Seq<char>) -> bool {
    pair.0 == peer_id || pair.1 == peer_id
}

/// Whether two pairs join the same two peers, in either order.
pub open spec fn same_pair(a: (Seq<char>, Seq<char>), b: (Seq<char>, Seq<char>)) -> bool {
    (a.0 == b.0 && a.1 == b.1) || (a.0 == b.1 && a.1 == b.0)
}

/// Whether a list of pairs holds the connection between the two peers.
pub open spec fn holds_pair(
    pairs: Seq<(Seq<char>, Seq<char>)>,
    first: Seq<char>,
    second: Seq<char>,
) -> bool {
    exists|i: int| 0 <= i < pairs.len() && same_pair(#[trigger] pairs[i], (first, second))
}

/// The test that keeps every member but the given peer.
pub open spec fn is_other_peer(peer_id: Seq<char>) -> spec_fn(PeerModel) -> bool {
    |peer: PeerModel| peer.peer_id != peer_id
}

/// The test that keeps every pair that does not mention the given peer.
pub open spec fn is_pair_without(peer_id: Seq<char>) -> spec_fn((Seq<char>, Seq<char>)) -> bool {
    |pair: (Seq<char>, Seq<char>)| !mentions(pair, peer_id)
}

/// The mathematical value of a [`Room`].
pub struct RoomModel {
    pub id: Seq<char>,
    /// The members, in the order in which they came.
    pub peers: Seq<PeerModel>,
    /// How many members the room takes.
    pub capacity: nat,
    /// The connected pairs; the order within a pair means nothing.
    pub connected_pairs: Seq<(Seq<char>, Seq<char>)>,
}

impl RoomModel {
    /// What holds of every room: it is never over capacity, every connected
    /// pair joins two different members of the room, and no connection is
    /// listed twice.
    pub open spec fn valid(self) -> bool {
        &&& self.peers.len() <= self.capacity
        &&& forall|i: int|
            0 <= i < self.connected_pairs.len() ==> {
                &&& is_member(self.peers, (#[trigger] self.connected_pairs[i]).0)
                &&& is_member(self.peers, self.connected_pairs[i].1)
                &&& self.connected_pairs[i].0 != self.connected_pairs[i].1
            }
        &&& forall|i: int, j: int|
            0 <= i < j < self.connected_pairs.len() ==> !same_pair(
                #[trigger] self.connected_pairs[i],
                #[trigger] self.connected_pairs[j],
            )
    }

    /// An empty room.
    pub open spec fn empty(id: Seq<char>, capacity: nat) -> RoomModel {
        RoomModel { id, peers: Seq::empty(), capacity, connected_pairs: Seq::empty() }
    }

    /// Whether the room has no place left.
    pub open spec fn is_full(self) -> bool {
        self.peers.len() >= self.capacity
    }

    /// The room after a peer asked to enter: unchanged when full, else with
    /// the peer at the end of the roster.
    pub open spec fn after_add(self, peer: PeerModel) -> RoomModel {
        if self.is_full() {
            self
        } else {
            RoomModel { peers: self.peers.push(peer), ..self }
        }
    }

    /// The room after each of the peers asked to enter, in order.
    pub open spec fn after_adds(self, newcomers: Seq<PeerModel>) -> RoomModel
        decreases newcomers.len(),
    {
        if newcomers.len() == 0 {
            self
        } else {
            self.after_adds(newcomers.drop_last()).after_add(newcomers.last())
        }
    }

    /// The room after a peer has left: every member of that identity is gone,
    /// and so is every pair that mentions it.
    pub open spec fn after_remove(self, peer_id: Seq<char>) -> RoomModel {
        RoomModel {
            peers: self.peers.filter(is_other_peer(peer_id)),
            connected_pairs: self.connected_pairs.filter(is_pair_without(peer_id)),
            ..self
        }
    }

    /// Whether the connection between the two peers may be recorded: both are
    /// members and they differ.
    pub open spec fn may_connect(self, first: Seq<char>, second: Seq<char>) -> bool {
        is_member(self.peers, first) && is_member(self.peers, second) && first != second
    }

    /// The room after the connection between two peers has been reported.
    pub open spec fn after_connect(self, first: Seq<char>, second: Seq<char>) -> RoomModel {
        if self.may_connect(first, second) && !holds_pair(self.connected_pairs, first, second) {
            RoomModel { connected_pairs: self.connected_pairs.push((first, second)), ..self }
        } else {
            self
        }
    }
}

/// A peer that has left is no member any more, and no connected pair
/// mentions it, whatever pairs there were; every other member and every
/// other pair stays, and the room stays valid.
pub proof fn lemma_remove_purges_peer(room: RoomModel, peer_id: Seq<char>)
    ensures
        !is_member(room.after_remove(peer_id).peers, peer_id),
        forall|i: int|
            0 <= i < room.after_remove(peer_id).connected_pairs.len() ==> !mentions(
                #[trigger] room.after_remove(peer_id).connected_pairs[i],
                peer_id,
            ),
        forall|other: Seq<char>|
            other != peer_id && is_member(room.peers, other) ==> is_member(
                room.after_remove(peer_id).peers,
                other,
            ),
        forall|first: Seq<char>, second: Seq<char>|
            first != peer_id && second != peer_id && holds_pair(
                room.connected_pairs,
                first,
                second,
            ) ==> holds_pair(room.after_remove(peer_id).connected_pairs, first, second),
        room.after_remove(peer_id).peers.len() <= room.peers.len(),
        room.valid() ==> room.after_remove(peer_id).valid(),
{
    let after = room.after_remove(peer_id);
    lemma_filter_keeps(room.peers, is_other_peer(peer_id));
    lemma_filter_keeps(room.connected_pairs, is_pair_without(peer_id));
    room.peers.lemma_filter_len(is_other_peer(peer_id));
    assert forall|other: Seq<char>|
        other != peer_id && is_member(room.peers, other) implies is_member(after.peers, other) by {
        let i = choose|i: int| 0 <= i < room.peers.len() && room.peers[i].peer_id == other;
        assert(after.peers.contains(room.peers[i]));
        let k = choose|k: int| 0 <= k < after.peers.len() && after.peers[k] == room.peers[i];
        assert(after.peers[k].peer_id == other);
    }
    assert forall|first: Seq<char>, second: Seq<char>|
        first != peer_id && second != peer_id && holds_pair(
            room.connected_pairs,
            first,
            second,
        ) implies holds_pair(after.connected_pairs, first, second) by {
        let i = choose|i: int|
            0 <= i < room.connected_pairs.len() && same_pair(
                room.connected_pairs[i],
                (first, second),
            );
        assert(after.connected_pairs.contains(room.connected_pairs[i]));
        let k = choose|k: int|
            0 <= k < after.connected_pairs.len() && after.connected_pairs[k]
                == room.connected_pairs[i];
        assert(same_pair(after.connected_pairs[k], (first, second)));
    }
    if room.valid() {
        assert forall|i: int| 0 <= i < after.connected_pairs.len() implies {
            &&& is_member(after.peers, (#[trigger] after.connected_pairs[i]).0)
            &&& is_member(after.peers, after.connected_pairs[i].1)
            &&& after.connected_pairs[i].0 != after.connected_pairs[i].1
        } by {
            let pair = after.connected_pairs[i];
            assert(room.connected_pairs.contains(pair));
            let k = choose|k: int|
                0 <= k < room.connected_pairs.len() && room.connected_pairs[k] == pair;
            assert(is_member(room.peers, room.connected_pairs[k].0));
            assert(is_member(room.peers, room.connected_pairs[k].1));
        }
        assert forall|i: int, j: int| 0 <= i < j < after.connected_pairs.len() implies !same_pair(
            #[trigger] after.connected_pairs[i],
            #[trigger] after.connected_pairs[j],
        ) by {
            let (a, b) = choose|a: int, b: int|
                0 <= a < b < room.connected_pairs.len() && room.connected_pairs[a]
                    == after.connected_pairs[i] && room.connected_pairs[b]
                    == after.connected_pairs[j];
            assert(!same_pair(room.connected_pairs[a], room.connected_pairs[b]));
        }
    }
}

/// A room is never over capacity, whatever peers ask to enter and in
/// whatever order; and a peer is turned away exactly when the roster is as
/// long as the capacity.
pub proof fn lemma_adds_respect_capacity(room: RoomModel, newcomers: Seq<PeerModel>)
    requires
        room.valid(),
    ensures
        room.after_adds(newcomers).valid(),
        room.after_adds(newcomers).peers.len() <= room.capacity,
        room.after_adds(newcomers).capacity == room.capacity,
        room.is_full() <==> room.peers.len() == room.capacity,
    decreases newcomers.len(),
{
    if newcomers.len() > 0 {
        lemma_adds_respect_capacity(room, newcomers.drop_last());
        let before = room.after_adds(newcomers.drop_last());
        lemma_add_keeps_valid(before, newcomers.last());
    }
}

/// Letting a peer in keeps a valid room valid.
proof fn lemma_add_keeps_valid(room: RoomModel, peer: PeerModel)
    requires
        room.valid(),
    ensures
        room.after_add(peer).valid(),
{
    let after = room.after_add(peer);
    if !room.is_full() {
        assert forall|i: int| 0 <= i < after.connected_pairs.len() implies {
            &&& is_member(after.peers, (#[trigger] after.connected_pairs[i]).0)
            &&& is_member(after.peers, after.connected_pairs[i].1)
        } by {
            lemma_member_stays(room.peers, peer, room.connected_pairs[i].0);
            lemma_member_stays(room.peers, peer, room.connected_pairs[i].1);
        }
    }
}

/// A member of a roster is a member of the roster with one more peer.
proof fn lemma_member_stays(peers: Seq<PeerModel>, peer: PeerModel, peer_id: Seq<char>)
    requires
        is_member(peers, peer_id),
    ensures
        is_member(peers.push(peer), peer_id),
{
    let i = choose|i: int| 0 <= i < peers.len() && peers[i].peer_id == peer_id;
    assert(peers.push(peer)[i].peer_id == peer_id);
}

/// A room: its members in the order in which they came, its capacity, and
/// the pairs of members that are connected to each other.
#[derive(Debug)]
pub struct Room {
    id: String,
    peers: Vec<PeerConnection>,
    media_settings: MediaSettings,
    connected_pairs: Vec<(String, String)>,
}

impl View for Room {
    type V = RoomModel;

    closed spec fn view(&self) -> RoomModel {
        RoomModel {
            id: self.id@,
            peers: self.peers.deep_view(),
            capacity: self.media_settings.max_participants as nat,
            connected_pairs: self.connected_pairs.deep_view(),
        }
    }
}

impl Room {
    #[verifier::type_invariant]
    spec fn inv(self) -> bool {
        self@.valid()
    }

    /// An empty room with the capacity that the settings give.
    pub fn new(id: String, media_settings: MediaSettings) -> (room: Room)
        ensures
            room@ == RoomModel::empty(id@, media_settings.max_participants as nat),
            room@.valid(),
    {
        let room = Room { id, peers: Vec::new(), media_settings, connected_pairs: Vec::new() };
        assert(room.peers.deep_view() =~= Seq::<PeerModel>::empty());
        assert(room.connected_pairs.deep_view() =~= Seq::<(Seq<char>, Seq<char>)>::empty());
        room
    }

    /// A room without a name, a member or a place.
    fn blank() -> (room: Room)
        ensures
            room@ == RoomModel::empty(Seq::empty(), 0),
    {
        let room = Room {
            id: String::new(),
            peers: Vec::new(),
            media_settings: MediaSettings { max_participants: 0 },
            connected_pairs: Vec::new(),
        };
        assert(room.peers.deep_view() =~= Seq::<PeerModel>::empty());
        assert(room.connected_pairs.deep_view() =~= Seq::<(Seq<char>, Seq<char>)>::empty());
        room
    }

    /// Lets a peer in at the end of the roster, or turns it away with
    /// [`AppError::RoomFull`] when the roster is as long as the capacity.
    pub fn add_peer(&mut self, peer_connection: PeerConnection) -> (result: Result<(), AppError>)
        ensures
            final(self)@ == old(self)@.after_add(peer_connection@),
            result is Err <==> old(self)@.peers.len() == old(self)@.capacity,
            result is Err ==> result == Err::<(), AppError>(AppError::RoomFull),
            final(self)@.valid(),
    {
        proof {
            use_type_invariant(&*self);
        }
        if self.peers.len() >= self.media_settings.max_participants {
            return Err(AppError::RoomFull);
        }
        proof {
            lemma_add_keeps_valid(self@, peer_connection@);
        }
        let ghost before = self.peers.deep_view();
        let mut taken = Room::blank();
        std::mem::swap(self, &mut taken);
        let Room { id, mut peers, media_settings, connected_pairs } = taken;
        peers.push(peer_connection);
        assert(peers.deep_view() =~= before.push(peer_connection@));
        *self = Room { id, peers, media_settings, connected_pairs };
        Ok(())
    }

    /// Takes a peer out: every member of that identity leaves the roster, and
    /// with it every connected pair that mentions it.
    pub fn remove_peer(&mut self, peer_id: &str)
        ensures
            final(self)@ == old(self)@.after_remove(peer_id@),
            !is_member(final(self)@.peers, peer_id@),
            final(self)@.peers.len() <= old(self)@.peers.len(),
            forall|i: int|
                0 <= i < final(self)@.connected_pairs.len() ==> !mentions(
                    #[trigger] final(self)@.connected_pairs[i],
                    peer_id@,
                ),
            final(self)@.valid(),
    {
        proof {
            use_type_invariant(&*self);
            lemma_remove_purges_peer(self@, peer_id@);
        }
        let wanted = String::from_str(peer_id);
        let ghost pairs = self.connected_pairs.deep_view();
        let ghost peers = self.peers.deep_view();
        let mut kept_pairs: Vec<(String, String)> = Vec::new();
        assert(kept_pairs.deep_view() =~= Seq::<(Seq<char>, Seq<char>)>::empty());
        proof {
            reveal(Seq::filter);
            assert(pairs.subrange(0, 0) =~= Seq::<(Seq<char>, Seq<char>)>::empty());
            assert(peers.subrange(0, 0) =~= Seq::<PeerModel>::empty());
        }
        let mut j: usize = 0;
        while j < self.connected_pairs.len()
            invariant
                j <= self.connected_pairs.len(),
                pairs == self.connected_pairs.deep_view(),
                wanted@ == peer_id@,
                kept_pairs.deep_view() == pairs.subrange(0, j as int).filter(
                    is_pair_without(peer_id@),
                ),
            decreases self.connected_pairs.len() - j,
        {
            let pair = &self.connected_pairs[j];
            let ghost before = kept_pairs.deep_view();
            proof {
                lemma_filter_push(
                    pairs.subrange(0, j as int),
                    pairs[j as int],
                    is_pair_without(peer_id@),
                );
                assert(pairs.subrange(0, j as int).push(pairs[j as int]) =~= pairs.subrange(
                    0,
                    j as int + 1,
                ));
            }
            if !(pair.0 == wanted) && !(pair.1 == wanted) {
                let copy = (pair.0.clone(), pair.1.clone());
                kept_pairs.push(copy);
                assert(kept_pairs.deep_view() =~= before.push(pairs[j as int]));
            }
            j = j + 1;
        }
        let mut kept_peers: Vec<PeerConnection> = Vec::new();
        assert(kept_peers.deep_view() =~= Seq::<PeerModel>::empty());
        let mut i: usize = 0;
        while i < self.peers.len()
            invariant
                i <= self.peers.len(),
                peers == self.peers.deep_view(),
                wanted@ == peer_id@,
                kept_peers.deep_view() == peers.subrange(0, i as int).filter(
                    is_other_peer(peer_id@),
                ),
            decreases self.peers.len() - i,
        {
            let peer = &self.peers[i];
            let ghost before = kept_peers.deep_view();
            proof {
                lemma_filter_push(
                    peers.subrange(0, i as int),
                    peers[i as int],
                    is_other_peer(peer_id@),
                );
                assert(peers.subrange(0, i as int).push(peers[i as int]) =~= peers.subrange(
                    0,
                    i as int + 1,
                ));
            }
            if !(peer.peer_id == wanted) {
                let copy = PeerConnection { peer_id: peer.peer_id.clone(), handle: peer.handle };
                kept_peers.push(copy);
                assert(kept_peers.deep_view() =~= before.push(peers[i as int]));
            }
            i = i + 1;
        }
        proof {
            assert(pairs.subrange(0, pairs.len() as int) =~= pairs);
            assert(peers.subrange(0, peers.len() as int) =~= peers);
            lemma_pairs_purged_first(old(self)@, peer_id@);
        }
        self.connected_pairs = kept_pairs;
        self.peers = kept_peers;
    }

    /// Records that two members are connected to each other. The answer is
    /// `true` when they are two different members of the room, and the pair
    /// is then held once, whichever way round it was given before; otherwise
    /// the room stays as it is and the answer is `false`.
    pub fn connect_peers(&mut self, first: &str, second: &str) -> (connected: bool)
        ensures
            final(self)@ == old(self)@.after_connect(first@, second@),
            connected == old(self)@.may_connect(first@, second@),
            connected ==> holds_pair(final(self)@.connected_pairs, first@, second@),
            final(self)@.valid(),
    {
        proof {
            use_type_invariant(&*self);
        }
        let first_id = String::from_str(first);
        let second_id = String::from_str(second);
        if first_id == second_id || !self.has_peer(first) || !self.has_peer(second) {
            return false;
        }
        if self.are_connected(first, second) {
            return true;
        }
        let ghost before = self.connected_pairs.deep_view();
        let mut taken = Room::blank();
        std::mem::swap(self, &mut taken);
        let Room { id, peers, media_settings, mut connected_pairs } = taken;
        connected_pairs.push((first_id, second_id));
        proof {
            let after = connected_pairs.deep_view();
            assert(after =~= before.push((first@, second@)));
            assert(same_pair(after[before.len() as int], (first@, second@)));
            assert forall|i: int, j: int| 0 <= i < j < after.len() implies !same_pair(
                #[trigger] after[i],
                #[trigger] after[j],
            ) by {
                if j == before.len() {
                    assert(after[i] == before[i]);
                    if same_pair(before[i], (first@, second@)) {
                        assert(holds_pair(before, first@, second@));
                    }
                } else {
                    assert(after[i] == before[i] && after[j] == before[j]);
                }
            }
            assert forall|i: int| 0 <= i < after.len() implies {
                &&& is_member(peers.deep_view(), (#[trigger] after[i]).0)
                &&& is_member(peers.deep_view(), after[i].1)
                &&& after[i].0 != after[i].1
            } by {
                if i < before.len() {
                    assert(after[i] == before[i]);
                }
            }
        }
        *self = Room { id, peers, media_settings, connected_pairs };
        true
    }

    /// Whether the room has a member of the given identity.
    pub fn has_peer(&self, peer_id: &str) -> (found: bool)
        ensures
            found == is_member(self@.peers, peer_id@),
    {
        let wanted = String::from_str(peer_id);
        let mut i: usize = 0;
        while i < self.peers.len()
            invariant
                i <= self.peers.len(),
                wanted@ == peer_id@,
                forall|k: int|
                    0 <= k < i ==> (#[trigger] self.peers.deep_view()[k]).peer_id != peer_id@,
            decreases self.peers.len() - i,
        {
            if self.peers[i].peer_id == wanted {
                assert(self.peers.deep_view()[i as int].peer_id == peer_id@);
                return true;
            }
            i = i + 1;
        }
        false
    }

    /// Whether the two peers are recorded as connected, in either order.
    pub fn are_connected(&self, first: &str, second: &str) -> (found: bool)
        ensures
            found == holds_pair(self@.connected_pairs, first@, second@),
    {
        let first_id = String::from_str(first);
        let second_id = String::from_str(second);
        let mut i: usize = 0;
        while i < self.connected_pairs.len()
            invariant
                i <= self.connected_pairs.len(),
                first_id@ == first@,
                second_id@ == second@,
                forall|k: int|
                    0 <= k < i ==> !same_pair(
                        #[trigger] self.connected_pairs.deep_view()[k],
                        (first@, second@),
                    ),
            decreases self.connected_pairs.len() - i,
        {
            let pair = &self.connected_pairs[i];
            if (pair.0 == first_id && pair.1 == second_id) || (pair.0 == second_id && pair.1
                == first_id) {
                assert(same_pair(self.connected_pairs.deep_view()[i as int], (first@, second@)));
                return true;
            }
            i = i + 1;
        }
        false
    }

    /// The room's name.
    pub fn id(&self) -> (id: &String)
        ensures
            id@ == self@.id,
    {
        &self.id
    }

    /// How many members the room has: never more than its capacity.
    pub fn peer_count(&self) -> (count: usize)
        ensures
            count == self@.peers.len(),
            count <= self@.capacity,
            self@.valid(),
    {
        proof {
            use_type_invariant(self);
        }
        self.peers.len()
    }

    /// How many members the room takes.
    pub fn capacity(&self) -> (capacity: usize)
        ensures
            capacity == self@.capacity,
    {
        self.media_settings.max_participants
    }

    /// How many connections between members are recorded.
    pub fn connected_pair_count(&self) -> (count: usize)
        ensures
            count == self@.connected_pairs.len(),
    {
        self.connected_pairs.len()
    }
}

/// The pairs may be purged before the roster: a valid room whose pairs have
/// lost those that mention a peer, and whose roster is still whole, is valid.
proof fn lemma_pairs_purged_first(room: RoomModel, peer_id: Seq<char>)
    requires
        room.valid(),
    ensures
        (RoomModel {
            connected_pairs: room.connected_pairs.filter(is_pair_without(peer_id)),
            ..room
        }).valid(),
{
    let kept = room.connected_pairs.filter(is_pair_without(peer_id));
    lemma_filter_keeps(room.connected_pairs, is_pair_without(peer_id));
    assert forall|i: int| 0 <= i < kept.len() implies {
        &&& is_member(room.peers, (#[trigger] kept[i]).0)
        &&& is_member(room.peers, kept[i].1)
        &&& kept[i].0 != kept[i].1
    } by {
        assert(room.connected_pairs.contains(kept[i]));
        let k = choose|k: int|
            0 <= k < room.connected_pairs.len() && room.connected_pairs[k] == kept[i];
        assert(is_member(room.peers, room.connected_pairs[k].0));
    }
    assert forall|i: int, j: int| 0 <= i < j < kept.len() implies !same_pair(
        #[trigger] kept[i],
        #[trigger] kept[j],
    ) by {
        let (a, b) = choose|a: int, b: int|
            0 <= a < b < room.connected_pairs.len() && room.connected_pairs[a] == kept[i]
                && room.connected_pairs[b] == kept[j];
        assert(!same_pair(room.connected_pairs[a], room.connected_pairs[b]));
    }
}

} // verus!
