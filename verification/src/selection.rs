//! The peers that the user has chosen to call.

use vstd::prelude::*;
use vstd::string::StringExecFns;
use crate::filtering::{lemma_filter_keeps, lemma_filter_push};

verus! {

/// The test that keeps every name but the given one.
pub open spec fn is_other_name(peer_id: Seq<char>) -> spec_fn(Seq<char>) -> bool {
    |name: Seq<char>| name != peer_id
}

/// The chosen peers after one of them has been toggled: a peer that was
/// chosen is dropped, any other is added at the end.
pub open spec fn toggled(chosen: Seq<Seq<char>>, peer_id: Seq<char>) -> Seq<Seq<char>> {
    if chosen.contains(peer_id) {
        chosen.filter(is_other_name(peer_id))
    } else {
        chosen.push(peer_id)
    }
}

/// Toggling a peer changes whether that peer is chosen and nothing else, and
/// keeps every peer listed once; toggling it twice leaves the same peers
/// chosen as before.
pub proof fn lemma_toggle(chosen: Seq<Seq<char>>, peer_id: Seq<char>)
    requires
        chosen.no_duplicates(),
    ensures
        toggled(chosen, peer_id).no_duplicates(),
        toggled(chosen, peer_id).contains(peer_id) == !chosen.contains(peer_id),
        forall|other: Seq<char>|
            other != peer_id ==> toggled(chosen, peer_id).contains(other) == chosen.contains(
                other,
            ),
        forall|any: Seq<char>|
            toggled(toggled(chosen, peer_id), peer_id).contains(any) == chosen.contains(any),
{
    lemma_toggle_once(chosen, peer_id);
    lemma_toggle_once(toggled(chosen, peer_id), peer_id);
}

/// The first three claims of [`lemma_toggle`].
proof fn lemma_toggle_once(chosen: Seq<Seq<char>>, peer_id: Seq<char>)
    requires
        chosen.no_duplicates(),
    ensures
        toggled(chosen, peer_id).no_duplicates(),
        toggled(chosen, peer_id).contains(peer_id) == !chosen.contains(peer_id),
        forall|other: Seq<char>|
            other != peer_id ==> toggled(chosen, peer_id).contains(other) == chosen.contains(
                other,
            ),
{
    let after = toggled(chosen, peer_id);
    if chosen.contains(peer_id) {
        lemma_filter_keeps(chosen, is_other_name(peer_id));
        if after.contains(peer_id) {
            let i = choose|i: int| 0 <= i < after.len() && after[i] == peer_id;
            assert(is_other_name(peer_id)(after[i]));
        }
        assert forall|other: Seq<char>| other != peer_id implies after.contains(other)
            == chosen.contains(other) by {
            if chosen.contains(other) {
                let i = choose|i: int| 0 <= i < chosen.len() && chosen[i] == other;
                assert(after.contains(chosen[i]));
            }
            if after.contains(other) {
                let i = choose|i: int| 0 <= i < after.len() && after[i] == other;
                assert(chosen.contains(after[i]));
            }
        }
        assert forall|i: int, j: int| 0 <= i < j < after.len() implies after[i] != after[j] by {
            let (a, b) = choose|a: int, b: int|
                0 <= a < b < chosen.len() && chosen[a] == after[i] && chosen[b] == after[j];
            assert(chosen[a] != chosen[b]);
        }
    } else {
        assert(after[chosen.len() as int] == peer_id);
        assert forall|other: Seq<char>| other != peer_id implies after.contains(other)
            == chosen.contains(other) by {
            if chosen.contains(other) {
                let i = choose|i: int| 0 <= i < chosen.len() && chosen[i] == other;
                assert(after[i] == other);
            }
            if after.contains(other) {
                let i = choose|i: int| 0 <= i < after.len() && after[i] == other;
                assert(chosen[i] == other);
            }
        }
        assert forall|i: int, j: int| 0 <= i < j < after.len() implies after[i] != after[j] by {
            if j == chosen.len() {
                assert(chosen.contains(chosen[i]));
            }
        }
    }
}

/// The peers that the user has chosen, each listed once, in the order in
/// which they were chosen.
#[derive(Debug)]
pub struct PeerSelection {
    peers: Vec<String>,
}

impl View for PeerSelection {
    type V = Seq<Seq<char>>;

    closed spec fn view(&self) -> Seq<Seq<char>> {
        self.peers.deep_view()
    }
}

impl PeerSelection {
    #[verifier::type_invariant]
    spec fn inv(self) -> bool {
        self@.no_duplicates()
    }

    /// No peer is chosen.
    pub fn new() -> (selection: PeerSelection)
        ensures
            selection@ == Seq::<Seq<char>>::empty(),
    {
        let selection = PeerSelection { peers: Vec::new() };
        assert(selection.peers.deep_view() =~= Seq::<Seq<char>>::empty());
        selection
    }

    /// Whether the peer is chosen.
    pub fn contains(&self, peer_id: &str) -> (found: bool)
        ensures
            found == self@.contains(peer_id@),
    {
        let wanted = String::from_str(peer_id);
        let mut i: usize = 0;
        while i < self.peers.len()
            invariant
                i <= self.peers.len(),
                wanted@ == peer_id@,
                forall|k: int| 0 <= k < i ==> #[trigger] self.peers.deep_view()[k] != peer_id@,
            decreases self.peers.len() - i,
        {
            if self.peers[i] == wanted {
                assert(self.peers.deep_view()[i as int] == peer_id@);
                return true;
            }
            i = i + 1;
        }
        false
    }

    /// Chooses the peer if it is not chosen, and drops it if it is.
    pub fn toggle(&mut self, peer_id: String)
        ensures
            final(self)@ == toggled(old(self)@, peer_id@),
            final(self)@.no_duplicates(),
            final(self)@.contains(peer_id@) == !old(self)@.contains(peer_id@),
    {
        proof {
            use_type_invariant(&*self);
            lemma_toggle(self@, peer_id@);
        }
        let ghost chosen = self.peers.deep_view();
        let chosen_before = self.contains(peer_id.as_str());
        let mut kept: Vec<String> = Vec::new();
        assert(kept.deep_view() =~= Seq::<Seq<char>>::empty());
        proof {
            reveal(Seq::filter);
            assert(chosen.subrange(0, 0) =~= Seq::<Seq<char>>::empty());
        }
        let mut i: usize = 0;
        while i < self.peers.len()
            invariant
                i <= self.peers.len(),
                chosen == self.peers.deep_view(),
                kept.deep_view() == chosen.subrange(0, i as int).filter(is_other_name(peer_id@)),
            decreases self.peers.len() - i,
        {
            let ghost before = kept.deep_view();
            proof {
                lemma_filter_push(
                    chosen.subrange(0, i as int),
                    chosen[i as int],
                    is_other_name(peer_id@),
                );
                assert(chosen.subrange(0, i as int).push(chosen[i as int]) =~= chosen.subrange(
                    0,
                    i as int + 1,
                ));
            }
            if !(self.peers[i] == peer_id) {
                kept.push(self.peers[i].clone());
                assert(kept.deep_view() =~= before.push(chosen[i as int]));
            }
            i = i + 1;
        }
        proof {
            assert(chosen.subrange(0, chosen.len() as int) =~= chosen);
        }
        if !chosen_before {
            proof {
                lemma_nothing_filtered(chosen, peer_id@);
            }
            let ghost before = kept.deep_view();
            kept.push(peer_id);
            assert(kept.deep_view() =~= before.push(peer_id@));
        }
        self.peers = kept;
    }

    /// Whether no peer is chosen.
    pub fn is_empty(&self) -> (empty: bool)
        ensures
            empty == (self@.len() == 0),
    {
        self.peers.len() == 0
    }

    /// How many peers are chosen.
    pub fn len(&self) -> (count: usize)
        ensures
            count == self@.len(),
    {
        self.peers.len()
    }

    /// The chosen peers, each once, in the order in which they were chosen.
    pub fn peers(&self) -> (list: Vec<String>)
        ensures
            list.deep_view() == self@,
            list.deep_view().no_duplicates(),
    {
        proof {
            use_type_invariant(self);
        }
        let mut list: Vec<String> = Vec::new();
        let mut i: usize = 0;
        while i < self.peers.len()
            invariant
                i <= self.peers.len(),
                list.len() == i,
                forall|k: int| 0 <= k < i ==> (#[trigger] list[k])@ == self.peers[k]@,
            decreases self.peers.len() - i,
        {
            list.push(self.peers[i].clone());
            i = i + 1;
        }
        assert(list.deep_view() =~= self.peers.deep_view());
        list
    }
}

/// Dropping a name from a list that does not hold it leaves the list whole.
proof fn lemma_nothing_filtered(chosen: Seq<Seq<char>>, peer_id: Seq<char>)
    requires
        !chosen.contains(peer_id),
    ensures
        chosen.filter(is_other_name(peer_id)) == chosen,
    decreases chosen.len(),
{
    reveal(Seq::filter);
    if chosen.len() > 0 {
        let front = chosen.drop_last();
        assert forall|i: int| 0 <= i < front.len() implies front[i] != peer_id by {
            assert(chosen.contains(chosen[i]));
        }
        if front.contains(peer_id) {
            let i = choose|i: int| 0 <= i < front.len() && front[i] == peer_id;
            assert(front[i] != peer_id);
        }
        lemma_nothing_filtered(front, peer_id);
        assert(chosen.contains(chosen.last()));
        assert(front.push(chosen.last()) =~= chosen);
    } else {
        assert(chosen.filter(is_other_name(peer_id)) =~= chosen);
    }
}

} // verus!
