//! The follow relationships that this instance holds, at most one for each
//! follower and target, and the identifiers of the activities already taken in.

use vstd::prelude::*;
use crate::records::TargetKind;

verus! {

/// How far a follow has got.
#[derive(Clone, Copy, Debug, PartialEq, Eq, Structural)]
pub enum FollowState {
    Pending,
    ApprovalRequired,
    Accepted,
}

/// What owns a follow relationship: the follower, and the kind and number of
/// the target.
#[derive(Clone, Copy, Debug, PartialEq, Eq, Structural)]
pub struct FollowKey {
    pub follower_id: u64,
    pub target_kind: TargetKind,
    pub target_id: u64,
}

/// One follow relationship.
#[derive(Clone, Copy, Debug, PartialEq, Eq, Structural)]
pub struct FollowRelationship {
    pub follower_id: u64,
    pub target_kind: TargetKind,
    pub target_id: u64,
    pub state: FollowState,
    pub pending_undo: bool,
}

impl FollowRelationship {
    /// The triple that owns this relationship.
    pub open spec fn key_spec(self) -> FollowKey {
        FollowKey {
            follower_id: self.follower_id,
            target_kind: self.target_kind,
            target_id: self.target_id,
        }
    }

    /// The triple that owns this relationship.
    pub fn key(&self) -> (k: FollowKey)
        ensures
            k == self.key_spec(),
    {
        FollowKey {
            follower_id: self.follower_id,
            target_kind: self.target_kind,
            target_id: self.target_id,
        }
    }

    /// A fresh relationship in the given state, with no undo pending.
    pub fn new(key: FollowKey, state: FollowState) -> (r: FollowRelationship)
        ensures
            r == new_relationship(key, state),
    {
        FollowRelationship {
            follower_id: key.follower_id,
            target_kind: key.target_kind,
            target_id: key.target_id,
            state,
            pending_undo: false,
        }
    }
}

/// A fresh relationship for `key` in the given state, with no undo pending.
pub open spec fn new_relationship(key: FollowKey, state: FollowState) -> FollowRelationship {
    FollowRelationship {
        follower_id: key.follower_id,
        target_kind: key.target_kind,
        target_id: key.target_id,
        state,
        pending_undo: false,
    }
}

fn same_key(a: &FollowKey, b: &FollowKey) -> (r: bool)
    ensures
        r == (*a == *b),
{
    a.follower_id == b.follower_id && a.target_kind == b.target_kind && a.target_id == b.target_id
}

/// The live follow relationships.
#[derive(Debug)]
pub struct FollowStore {
    entries: Vec<FollowRelationship>,
}

impl View for FollowStore {
    type V = Map<FollowKey, FollowRelationship>;

    closed spec fn view(&self) -> Map<FollowKey, FollowRelationship> {
        Map::new(
            |k: FollowKey| exists|i: int| 0 <= i < self.entries@.len() && self.entries@[i].key_spec() == k,
            |k: FollowKey|
                self.entries@[choose|i: int|
                    0 <= i < self.entries@.len() && self.entries@[i].key_spec() == k],
        )
    }
}

impl FollowStore {
    /// No triple owns two relationships, and each relationship is filed under
    /// its own triple.
    pub closed spec fn wf(&self) -> bool {
        forall|i: int, j: int|
            0 <= i < j < self.entries@.len() ==> (#[trigger] self.entries@[i]).key_spec() != (
            #[trigger] self.entries@[j]).key_spec()
    }

    /// The number of live relationships.
    pub closed spec fn count(&self) -> nat {
        self.entries@.len()
    }

    /// Every relationship of a well-formed store is filed under its own
    /// triple, and there are as many relationships as triples.
    pub proof fn lemma_filed_under_own_key(&self)
        requires
            self.wf(),
        ensures
            forall|k: FollowKey| #[trigger] self@.contains_key(k) ==> self@[k].key_spec() == k,
            self@.dom().finite(),
            self@.dom().len() == self.count(),
    {
        self.lemma_domain(self.entries@.len() as int);
        assert(self@.dom() =~= Set::new(
            |k: FollowKey|
                exists|i: int| 0 <= i < self.entries@.len() && self.entries@[i].key_spec() == k,
        ));
    }

    proof fn lemma_domain(&self, n: int)
        requires
            self.wf(),
            0 <= n <= self.entries@.len(),
        ensures
            Set::new(
                |k: FollowKey| exists|i: int| 0 <= i < n && self.entries@[i].key_spec() == k,
            ).finite(),
            Set::new(
                |k: FollowKey| exists|i: int| 0 <= i < n && self.entries@[i].key_spec() == k,
            ).len() == n,
        decreases n,
    {
        let s = Set::new(
            |k: FollowKey| exists|i: int| 0 <= i < n && self.entries@[i].key_spec() == k,
        );
        if n == 0 {
            assert(s =~= Set::empty());
        } else {
            self.lemma_domain(n - 1);
            let t = Set::new(
                |k: FollowKey| exists|i: int| 0 <= i < n - 1 && self.entries@[i].key_spec() == k,
            );
            let last = self.entries@[n - 1].key_spec();
            assert(!t.contains(last));
            assert(s =~= t.insert(last));
        }
    }

    /// A store without relationships.
    pub fn new() -> (s: FollowStore)
        ensures
            s.wf(),
            s.count() == 0,
            s@ == Map::<FollowKey, FollowRelationship>::empty(),
    {
        let s = FollowStore { entries: Vec::new() };
        assert(s@ =~= Map::<FollowKey, FollowRelationship>::empty());
        s
    }

    fn position(&self, key: &FollowKey) -> (r: Option<usize>)
        ensures
            match r {
                Some(i) => i < self.entries@.len() && self.entries@[i as int].key_spec() == *key,
                None => forall|j: int|
                    0 <= j < self.entries@.len() ==> (#[trigger] self.entries@[j]).key_spec()
                        != *key,
            },
    {
        let mut i: usize = 0;
        while i < self.entries.len()
            invariant
                i <= self.entries.len(),
                forall|j: int| 0 <= j < i ==> (#[trigger] self.entries@[j]).key_spec() != *key,
            decreases self.entries.len() - i,
        {
            let k = self.entries[i].key();
            if same_key(&k, key) {
                return Some(i);
            }
            i += 1;
        }
        None
    }

    /// The relationship that the triple owns, if it owns one.
    pub fn get(&self, key: &FollowKey) -> (r: Option<FollowRelationship>)
        requires
            self.wf(),
        ensures
            r == self@.get(*key),
    {
        match self.position(key) {
            Some(i) => {
                assert(self@.contains_key(*key));
                Some(self.entries[i])
            },
            None => None,
        }
    }

    /// Whether the triple owns a relationship.
    pub fn contains(&self, key: &FollowKey) -> (b: bool)
        requires
            self.wf(),
        ensures
            b == self@.contains_key(*key),
    {
        self.position(key).is_some()
    }

    /// The number of live relationships.
    pub fn len(&self) -> (n: usize)
        requires
            self.wf(),
        ensures
            n == self@.dom().len(),
            self@.dom().finite(),
    {
        proof {
            self.lemma_filed_under_own_key();
        }
        self.entries.len()
    }

    /// Writes the relationship under its triple: a relationship that the
    /// triple already owns is replaced, so the triple never owns two.
    pub fn upsert(&mut self, relationship: FollowRelationship)
        requires
            old(self).wf(),
        ensures
            final(self).wf(),
            final(self)@ == old(self)@.insert(relationship.key_spec(), relationship),
    {
        let key = relationship.key();
        match self.position(&key) {
            Some(i) => {
                let ghost before = self.entries@;
                self.entries[i] = relationship;
                assert(self.entries@ == before.update(i as int, relationship));
                assert(self.wf());
                assert forall|k: FollowKey| #[trigger]
                    self@.contains_key(k) == old(self)@.insert(key, relationship).contains_key(
                        k,
                    ) by {
                    if old(self)@.insert(key, relationship).contains_key(k) {
                        if k == key {
                            assert(self.entries@[i as int].key_spec() == k);
                        } else {
                            let j = choose|j: int|
                                0 <= j < before.len() && before[j].key_spec() == k;
                            assert(self.entries@[j].key_spec() == k);
                        }
                    }
                }
                assert forall|k: FollowKey| #[trigger]
                    self@.contains_key(k) implies self@[k] == old(self)@.insert(
                    key,
                    relationship,
                )[k] by {
                    let j = choose|j: int|
                        0 <= j < self.entries@.len() && self.entries@[j].key_spec() == k;
                    if k != key {
                        assert(j != i);
                        assert(before[j].key_spec() == k);
                        let j2 = choose|j2: int|
                            0 <= j2 < before.len() && before[j2].key_spec() == k;
                        assert(j2 == j);
                    } else {
                        assert(j == i);
                    }
                }
                assert(self@ =~= old(self)@.insert(key, relationship));
            },
            None => {
                let ghost before = self.entries@;
                self.entries.push(relationship);
                assert(self.entries@ == before.push(relationship));
                assert(self.wf());
                assert forall|k: FollowKey| #[trigger]
                    self@.contains_key(k) == old(self)@.insert(key, relationship).contains_key(
                        k,
                    ) by {
                    if old(self)@.insert(key, relationship).contains_key(k) {
                        if k == key {
                            assert(self.entries@[before.len() as int].key_spec() == k);
                        } else {
                            let j = choose|j: int|
                                0 <= j < before.len() && before[j].key_spec() == k;
                            assert(self.entries@[j].key_spec() == k);
                        }
                    }
                }
                assert forall|k: FollowKey| #[trigger]
                    self@.contains_key(k) implies self@[k] == old(self)@.insert(
                    key,
                    relationship,
                )[k] by {
                    let j = choose|j: int|
                        0 <= j < self.entries@.len() && self.entries@[j].key_spec() == k;
                    if k != key {
                        assert(j != before.len());
                        assert(before[j].key_spec() == k);
                        let j2 = choose|j2: int|
                            0 <= j2 < before.len() && before[j2].key_spec() == k;
                        assert(j2 == j);
                    } else {
                        assert(j == before.len());
                    }
                }
                assert(self@ =~= old(self)@.insert(key, relationship));
            },
        }
    }

    /// Deletes the relationship that the triple owns. Deleting where there is
    /// none changes nothing and is no error.
    pub fn remove(&mut self, key: &FollowKey) -> (removed: bool)
        requires
            old(self).wf(),
        ensures
            final(self).wf(),
            final(self)@ == old(self)@.remove(*key),
            removed == old(self)@.contains_key(*key),
    {
        match self.position(key) {
            Some(i) => {
                let ghost before = self.entries@;
                assert(old(self)@.contains_key(*key));
                self.entries.remove(i);
                assert(self.entries@ == before.remove(i as int));
                assert(self.wf()) by {
                    assert forall|a: int, b: int| 0 <= a < b < self.entries@.len() implies (
                    #[trigger] self.entries@[a]).key_spec() != (
                    #[trigger] self.entries@[b]).key_spec() by {
                        let a2 = if a < i { a } else { a + 1 };
                        let b2 = if b < i { b } else { b + 1 };
                        assert(self.entries@[a] == before[a2]);
                        assert(self.entries@[b] == before[b2]);
                    }
                }
                assert forall|k: FollowKey| #[trigger]
                    self@.contains_key(k) == old(self)@.remove(*key).contains_key(k) by {
                    if self@.contains_key(k) {
                        let j = choose|j: int|
                            0 <= j < self.entries@.len() && self.entries@[j].key_spec() == k;
                        let j2 = if j < i { j } else { j + 1 };
                        assert(before[j2].key_spec() == k);
                        assert(j2 != i);
                    }
                    if old(self)@.remove(*key).contains_key(k) {
                        let j = choose|j: int|
                            0 <= j < before.len() && before[j].key_spec() == k;
                        assert(j != i);
                        let j2 = if j < i { j } else { j - 1 };
                        assert(self.entries@[j2].key_spec() == k);
                    }
                }
                assert forall|k: FollowKey| #[trigger]
                    self@.contains_key(k) implies self@[k] == old(self)@.remove(*key)[k] by {
                    let j = choose|j: int|
                        0 <= j < self.entries@.len() && self.entries@[j].key_spec() == k;
                    let j2 = if j < i { j } else { j + 1 };
                    assert(before[j2].key_spec() == k);
                    let j3 = choose|j3: int|
                        0 <= j3 < before.len() && before[j3].key_spec() == k;
                    assert(j3 == j2);
                }
                assert(self@ =~= old(self)@.remove(*key));
                true
            },
            None => {
                assert(!old(self)@.contains_key(*key));
                assert(self@ =~= old(self)@.remove(*key));
                false
            },
        }
    }
}

/// The identifiers of the activities that were taken in, by their text.
#[derive(Debug)]
pub struct SeenActivities {
    ids: Vec<String>,
}

impl View for SeenActivities {
    type V = Set<Seq<char>>;

    closed spec fn view(&self) -> Set<Seq<char>> {
        Set::new(|t: Seq<char>| exists|i: int| 0 <= i < self.ids@.len() && self.ids@[i]@ == t)
    }
}

impl SeenActivities {
    /// Nothing was taken in yet.
    pub fn new() -> (s: SeenActivities)
        ensures
            s@ == Set::<Seq<char>>::empty(),
    {
        let s = SeenActivities { ids: Vec::new() };
        assert(s@ =~= Set::<Seq<char>>::empty());
        s
    }

    /// Whether an activity with this identifier was taken in.
    pub fn contains(&self, id: &str) -> (b: bool)
        ensures
            b == self@.contains(id@),
    {
        let mut i: usize = 0;
        while i < self.ids.len()
            invariant
                i <= self.ids.len(),
                forall|j: int| 0 <= j < i ==> (#[trigger] self.ids@[j])@ != id@,
            decreases self.ids.len() - i,
        {
            if crate::text::text_is(&self.ids[i], id) {
                return true;
            }
            i += 1;
        }
        false
    }

    /// Notes that the activity with this identifier was taken in.
    pub fn insert(&mut self, id: String)
        ensures
            final(self)@ == old(self)@.insert(id@),
    {
        let ghost before = self.ids@;
        self.ids.push(id);
        assert forall|t: Seq<char>| #[trigger]
            self@.contains(t) == old(self)@.insert(id@).contains(t) by {
            if old(self)@.contains(t) {
                let j = choose|j: int| 0 <= j < before.len() && before[j]@ == t;
                assert(self.ids@[j]@ == t);
            }
            if t == id@ {
                assert(self.ids@[before.len() as int]@ == t);
            }
        }
        assert(self@ =~= old(self)@.insert(id@));
    }
}

} // verus!
