//! The fork-choice store.
use crate::containers::{BeaconState, ExecutionPayloadEnvelope, ExecutionPayloadEnvelopeView};
use crate::primitives::Root;
use vstd::prelude::*;

verus! {

/// A map from block roots, kept as a list of entries without repeated keys.
pub struct RootMap<V> {
    entries: Vec<(Root, V)>,
}

impl<V> RootMap<V> {
    /// No key occurs twice.
    #[verifier::type_invariant]
    spec fn has_unique_keys(self) -> bool {
        forall|i: int, j: int|
            0 <= i < j < self.entries@.len() ==> self.entries@[i].0 != self.entries@[j].0
    }

    /// Whether the entry at `i` has this key.
    closed spec fn is_entry(self, root: Root, i: int) -> bool {
        0 <= i < self.entries@.len() && self.entries@[i].0 == root
    }
}

impl<V> View for RootMap<V> {
    type V = Map<Root, V>;

    closed spec fn view(&self) -> Map<Root, V> {
        Map::new(
            |root: Root| exists|i: int| self.is_entry(root, i),
            |root: Root| self.entries@[choose|i: int| self.is_entry(root, i)].1,
        )
    }
}

impl<V> RootMap<V> {
    /// The map holds what its entries say.
    proof fn lemma_entry(self, root: Root, i: int)
        requires
            self.has_unique_keys(),
            self.is_entry(root, i),
        ensures
            self@.contains_key(root),
            self@[root] == self.entries@[i].1,
    {
        let j = choose|j: int| self.is_entry(root, j);
        assert(self.is_entry(root, j));
    }

    /// What a map holds after the entry at `place` was written.
    proof fn lemma_insert(self, before: Self, root: Root, value: V, place: int, other: Root)
        requires
            self.has_unique_keys(),
            before.has_unique_keys(),
            self.is_entry(root, place),
            self.entries@[place].1 == value,
            self.entries@.len() >= before.entries@.len(),
            place == before.entries@.len() || before.is_entry(root, place),
            self.entries@.len() == before.entries@.len() || self.entries@.len() == place + 1,
            forall|i: int|
                0 <= i < before.entries@.len() && i != place ==> self.entries@[i]
                    == before.entries@[i],
        ensures
            self@.contains_key(other) == before@.insert(root, value).contains_key(other),
            self@.contains_key(other) ==> self@[other] == before@.insert(root, value)[other],
    {
        if other == root {
            self.lemma_entry(root, place);
        } else if exists|i: int| self.is_entry(other, i) {
            let i = choose|i: int| self.is_entry(other, i);
            assert(before.is_entry(other, i));
            self.lemma_entry(other, i);
            before.lemma_entry(other, i);
        } else if exists|i: int| before.is_entry(other, i) {
            let i = choose|i: int| before.is_entry(other, i);
            assert(self.is_entry(other, i));
        }
    }

    /// An empty map.
    pub fn new() -> (map: Self)
        ensures
            map@ == Map::<Root, V>::empty(),
    {
        let map = RootMap { entries: Vec::new() };
        assert(map@ =~= Map::<Root, V>::empty());
        map
    }

    /// Where the entry with this key stands.
    fn position(&self, root: &Root) -> (position: Option<usize>)
        ensures
            position matches Some(i) ==> self.is_entry(*root, i as int) && self@.contains_key(*root)
                && self@[*root] == self.entries@[i as int].1,
            position is None ==> forall|i: int| !self.is_entry(*root, i),
    {
        proof {
            use_type_invariant(self);
        }
        let mut i: usize = 0;
        while i < self.entries.len()
            invariant
                i <= self.entries@.len(),
                self.has_unique_keys(),
                forall|j: int| 0 <= j < i ==> !self.is_entry(*root, j),
            decreases self.entries@.len() - i,
        {
            if self.entries[i].0 == *root {
                proof {
                    self.lemma_entry(*root, i as int);
                }
                return Some(i);
            }
            i = i + 1;
        }
        None
    }

    /// The value under a key.
    pub fn get(&self, root: &Root) -> (value: Option<&V>)
        ensures
            value == (if self@.contains_key(*root) {
                Some(&self@[*root])
            } else {
                None
            }),
    {
        match self.position(root) {
            Some(i) => Some(&self.entries[i].1),
            None => None,
        }
    }

    /// Puts a value under a key, in place of the one that was there.
    pub fn insert(&mut self, root: Root, value: V)
        ensures
            final(self)@ == old(self)@.insert(root, value),
    {
        proof {
            use_type_invariant(&*self);
        }
        let position = self.position(&root);
        let mut entries: Vec<(Root, V)> = Vec::new();
        std::mem::swap(&mut entries, &mut self.entries);
        match position {
            Some(i) => {
                entries[i] = (root, value);
            },
            None => {
                entries.push((root, value));
            },
        }
        proof {
            if position is None {
                assert forall|i: int| 0 <= i < entries@.len() - 1 implies entries@[i].0 != root by {
                    assert(!old(self).is_entry(root, i));
                }
            }
        }
        self.entries = entries;
        proof {
            let place = if position is Some {
                position->Some_0 as int
            } else {
                self.entries@.len() - 1
            };
            assert forall|other: Root|
                #![trigger self@.contains_key(other)]
                self@.contains_key(other) == old(self)@.insert(root, value).contains_key(other) && (
                self@.contains_key(other) ==> self@[other] == old(self)@.insert(root, value)[other]) by {
                self.lemma_insert(*old(self), root, value, place, other);
            }
            assert(self@ =~= old(self)@.insert(root, value));
        }
    }
}

/// What fork choice knows: the state after each known block, and the payloads
/// that were delivered and found good.
///
/// Fork choice hands a block's state on to the check of its envelope and reads
/// nothing in it, so any type of state will do.
pub struct Store<S = BeaconState> {
    pub block_states: RootMap<S>,
    pub payloads: RootMap<ExecutionPayloadEnvelope>,
}

/// A [`Store`] with its maps as mathematical ones.
#[verifier::ext_equal]
#[verifier::reject_recursive_types(S)]
pub struct StoreView<S> {
    pub block_states: Map<Root, S>,
    /// The filed envelopes, by the root of their block.
    pub filed: Map<Root, ExecutionPayloadEnvelopeView>,
}

impl<S> View for Store<S> {
    type V = StoreView<S>;

    open spec fn view(&self) -> StoreView<S> {
        StoreView {
            block_states: self.block_states@,
            filed: self.payloads@.map_values(|envelope: ExecutionPayloadEnvelope| envelope@),
        }
    }
}

impl<S> StoreView<S> {
    /// Whether every filed envelope belongs to a known block, and is filed
    /// under that block's root.
    pub open spec fn files_known_blocks(self) -> bool {
        forall|root: Root| #[trigger]
            self.filed.contains_key(root) ==> self.block_states.contains_key(root)
                && self.filed[root].beacon_block_root == root
    }
}

} // verus!
