//! The resolver's answers at one moment: which actors and instances are known,
//! and who moderates what. Lookups are by local number or by global
//! identifier, and the first record that matches is the answer.

use vstd::prelude::*;
use crate::records::{
    CommunityRecord,
    InstanceRecord,
    MultiCommunityRecord,
    PersonRecord,
    Record,
    TargetKind,
};
use crate::uri::Uri;

verus! {

/// The first record with the given local number.
pub open spec fn first_by_id<T: Record>(s: Seq<T>, id: u64) -> Option<T>
    decreases s.len(),
{
    if s.len() == 0 {
        None
    } else if s[0].id_spec() == id {
        Some(s[0])
    } else {
        first_by_id(s.drop_first(), id)
    }
}

/// The first record whose global identifier has the given text.
pub open spec fn first_by_ap_id<T: Record>(s: Seq<T>, text: Seq<char>) -> Option<T>
    decreases s.len(),
{
    if s.len() == 0 {
        None
    } else if s[0].ap_id_spec() == text {
        Some(s[0])
    } else {
        first_by_ap_id(s.drop_first(), text)
    }
}

/// No two records share a local number or a global identifier.
pub open spec fn distinct<T: Record>(s: Seq<T>) -> bool {
    forall|i: int, j: int|
        0 <= i < j < s.len() ==> (#[trigger] s[i]).id_spec() != (#[trigger] s[j]).id_spec()
            && s[i].ap_id_spec() != s[j].ap_id_spec()
}

/// The record at `i` is the one found by its number when no earlier record
/// has that number.
pub proof fn lemma_first_by_id_at<T: Record>(s: Seq<T>, id: u64, i: int)
    requires
        0 <= i < s.len(),
        s[i].id_spec() == id,
        forall|j: int| 0 <= j < i ==> (#[trigger] s[j]).id_spec() != id,
    ensures
        first_by_id(s, id) == Some(s[i]),
    decreases i,
{
    if i > 0 {
        let t = s.drop_first();
        assert(forall|j: int| 0 <= j < i - 1 ==> (#[trigger] t[j]) == s[j + 1]);
        lemma_first_by_id_at(t, id, i - 1);
    }
}

/// A number that no record has finds nothing, and conversely.
pub proof fn lemma_first_by_id_none<T: Record>(s: Seq<T>, id: u64)
    ensures
        first_by_id(s, id) is None <==> forall|j: int|
            0 <= j < s.len() ==> (#[trigger] s[j]).id_spec() != id,
        first_by_id(s, id) matches Some(r) ==> r.id_spec() == id && s.contains(r),
    decreases s.len(),
{
    if s.len() > 0 {
        let t = s.drop_first();
        lemma_first_by_id_none(t, id);
        assert(forall|j: int| 0 <= j < t.len() ==> (#[trigger] t[j]) == s[j + 1]);
        if s[0].id_spec() != id {
            if first_by_id(t, id) is None {
                assert forall|j: int| 0 <= j < s.len() implies (#[trigger] s[j]).id_spec()
                    != id by {
                    if j > 0 {
                        assert(t[j - 1] == s[j]);
                    }
                }
            } else {
                let r = first_by_id(t, id)->0;
                let k = choose|k: int| 0 <= k < t.len() && t[k] == r;
                assert(s[k + 1] == r);
            }
        } else {
            assert(s[0] == s[0]);
        }
    }
}

/// The record at `i` is the one found by its identifier when no earlier
/// record has that identifier.
pub proof fn lemma_first_by_ap_id_at<T: Record>(s: Seq<T>, text: Seq<char>, i: int)
    requires
        0 <= i < s.len(),
        s[i].ap_id_spec() == text,
        forall|j: int| 0 <= j < i ==> (#[trigger] s[j]).ap_id_spec() != text,
    ensures
        first_by_ap_id(s, text) == Some(s[i]),
    decreases i,
{
    if i > 0 {
        let t = s.drop_first();
        assert(forall|j: int| 0 <= j < i - 1 ==> (#[trigger] t[j]) == s[j + 1]);
        lemma_first_by_ap_id_at(t, text, i - 1);
    }
}

/// An identifier that no record has finds nothing, and conversely.
pub proof fn lemma_first_by_ap_id_none<T: Record>(s: Seq<T>, text: Seq<char>)
    ensures
        first_by_ap_id(s, text) is None <==> forall|j: int|
            0 <= j < s.len() ==> (#[trigger] s[j]).ap_id_spec() != text,
        first_by_ap_id(s, text) matches Some(r) ==> r.ap_id_spec() == text && s.contains(r),
    decreases s.len(),
{
    if s.len() > 0 {
        let t = s.drop_first();
        lemma_first_by_ap_id_none(t, text);
        assert(forall|j: int| 0 <= j < t.len() ==> (#[trigger] t[j]) == s[j + 1]);
        if s[0].ap_id_spec() != text {
            if first_by_ap_id(t, text) is None {
                assert forall|j: int| 0 <= j < s.len() implies (#[trigger] s[j]).ap_id_spec()
                    != text by {
                    if j > 0 {
                        assert(t[j - 1] == s[j]);
                    }
                }
            } else {
                let r = first_by_ap_id(t, text)->0;
                let k = choose|k: int| 0 <= k < t.len() && t[k] == r;
                assert(s[k + 1] == r);
            }
        } else {
            assert(s[0] == s[0]);
        }
    }
}

/// Among distinct records, looking a found record up by its identifier gives
/// the same record back.
pub proof fn lemma_id_then_ap_id<T: Record>(s: Seq<T>, id: u64)
    requires
        distinct(s),
    ensures
        first_by_id(s, id) matches Some(r) ==> first_by_ap_id(s, r.ap_id_spec()) == Some(r),
{
    lemma_first_by_id_none(s, id);
    if first_by_id(s, id) is Some {
        let r = first_by_id(s, id)->0;
        let i = choose|i: int| 0 <= i < s.len() && s[i] == r;
        assert forall|j: int| 0 <= j < i implies (#[trigger] s[j]).ap_id_spec()
            != r.ap_id_spec() by {
            assert(s[j].ap_id_spec() != s[i].ap_id_spec());
        }
        lemma_first_by_ap_id_at(s, r.ap_id_spec(), i);
    }
}

/// Among distinct records, looking a found record up by its number gives the
/// same record back.
pub proof fn lemma_ap_id_then_id<T: Record>(s: Seq<T>, text: Seq<char>)
    requires
        distinct(s),
    ensures
        first_by_ap_id(s, text) matches Some(r) ==> first_by_id(s, r.id_spec()) == Some(r),
{
    lemma_first_by_ap_id_none(s, text);
    if first_by_ap_id(s, text) is Some {
        let r = first_by_ap_id(s, text)->0;
        let i = choose|i: int| 0 <= i < s.len() && s[i] == r;
        assert forall|j: int| 0 <= j < i implies (#[trigger] s[j]).id_spec() != r.id_spec() by {
            assert(s[j].id_spec() != s[i].id_spec());
        }
        lemma_first_by_id_at(s, r.id_spec(), i);
    }
}

fn position_by_id<T: Record>(v: &Vec<T>, id: u64) -> (r: Option<usize>)
    ensures
        match r {
            Some(i) => i < v.len() && first_by_id(v@, id) == Some(v@[i as int]),
            None => first_by_id(v@, id) is None,
        },
{
    let mut i: usize = 0;
    while i < v.len()
        invariant
            i <= v.len(),
            forall|j: int| 0 <= j < i ==> (#[trigger] v@[j]).id_spec() != id,
        decreases v.len() - i,
    {
        if v[i].record_id() == id {
            proof {
                lemma_first_by_id_at(v@, id, i as int);
            }
            return Some(i);
        }
        i += 1;
    }
    proof {
        lemma_first_by_id_none(v@, id);
    }
    None
}

fn position_by_ap_id<T: Record>(v: &Vec<T>, ap_id: &Uri) -> (r: Option<usize>)
    ensures
        match r {
            Some(i) => i < v.len() && first_by_ap_id(v@, ap_id@.text) == Some(v@[i as int]),
            None => first_by_ap_id(v@, ap_id@.text) is None,
        },
{
    let mut i: usize = 0;
    while i < v.len()
        invariant
            i <= v.len(),
            forall|j: int| 0 <= j < i ==> (#[trigger] v@[j]).ap_id_spec() != ap_id@.text,
        decreases v.len() - i,
    {
        if v[i].record_ap_id().same_as(ap_id) {
            proof {
                lemma_first_by_ap_id_at(v@, ap_id@.text, i as int);
            }
            return Some(i);
        }
        i += 1;
    }
    proof {
        lemma_first_by_ap_id_none(v@, ap_id@.text);
    }
    None
}

fn add_distinct<T: Record>(v: &mut Vec<T>, record: T) -> (added: bool)
    requires
        distinct(old(v)@),
    ensures
        distinct(final(v)@),
        added == (first_by_id(old(v)@, record.id_spec()) is None && first_by_ap_id(
            old(v)@,
            record.ap_id_spec(),
        ) is None),
        added ==> final(v)@ == old(v)@.push(record),
        !added ==> final(v)@ == old(v)@,
{
    if position_by_id(v, record.record_id()).is_some() {
        return false;
    }
    if position_by_ap_id(v, record.record_ap_id()).is_some() {
        return false;
    }
    proof {
        lemma_first_by_id_none(v@, record.id_spec());
        lemma_first_by_ap_id_none(v@, record.ap_id_spec());
    }
    v.push(record);
    true
}

/// Who moderates a community.
#[derive(Clone, Copy, Debug, PartialEq, Eq, Structural)]
pub struct Moderation {
    pub community_id: u64,
    pub person_id: u64,
}

/// That a person has blocked another.
#[derive(Clone, Copy, Debug, PartialEq, Eq, Structural)]
pub struct Block {
    /// Who blocks.
    pub person_id: u64,
    /// Who is blocked.
    pub target_id: u64,
}

/// The thing that a follow points at, once resolved.
#[derive(Debug)]
pub enum FollowTarget {
    Person(PersonRecord),
    Community(CommunityRecord),
    MultiCommunity(MultiCommunityRecord),
}

impl FollowTarget {
    /// The kind of the target.
    pub open spec fn kind_spec(self) -> TargetKind {
        match self {
            FollowTarget::Person(_) => TargetKind::Person,
            FollowTarget::Community(_) => TargetKind::Community,
            FollowTarget::MultiCommunity(_) => TargetKind::MultiCommunity,
        }
    }

    /// The local number of the target.
    pub open spec fn id_spec(self) -> u64 {
        match self {
            FollowTarget::Person(p) => p.id,
            FollowTarget::Community(c) => c.id,
            FollowTarget::MultiCommunity(m) => m.id,
        }
    }
}

/// The known actors and instances.
#[derive(Debug)]
pub struct Directory {
    persons: Vec<PersonRecord>,
    communities: Vec<CommunityRecord>,
    multi_communities: Vec<MultiCommunityRecord>,
    instances: Vec<InstanceRecord>,
    moderators: Vec<Moderation>,
    admins: Vec<u64>,
    blocks: Vec<Block>,
    private_messages_off: Vec<u64>,
}

impl Directory {
    /// The known persons, in the order in which they were added.
    pub closed spec fn persons(&self) -> Seq<PersonRecord> {
        self.persons@
    }

    /// The known communities.
    pub closed spec fn communities(&self) -> Seq<CommunityRecord> {
        self.communities@
    }

    /// The known multi-communities.
    pub closed spec fn multi_communities(&self) -> Seq<MultiCommunityRecord> {
        self.multi_communities@
    }

    /// The known instances.
    pub closed spec fn instances(&self) -> Seq<InstanceRecord> {
        self.instances@
    }

    /// The recorded moderators.
    pub closed spec fn moderators(&self) -> Seq<Moderation> {
        self.moderators@
    }

    /// The local numbers of the admins of this instance.
    pub closed spec fn admins(&self) -> Seq<u64> {
        self.admins@
    }

    /// The recorded blocks.
    pub closed spec fn blocks(&self) -> Seq<Block> {
        self.blocks@
    }

    /// The local numbers of the persons here who take no private messages.
    pub closed spec fn private_messages_off(&self) -> Seq<u64> {
        self.private_messages_off@
    }

    /// Within each kind of actor no two records share a number or an
    /// identifier.
    pub open spec fn wf(&self) -> bool {
        &&& distinct(self.persons())
        &&& distinct(self.communities())
        &&& distinct(self.multi_communities())
    }

    /// The person with the given number.
    pub open spec fn person_spec(&self, id: u64) -> Option<PersonRecord> {
        first_by_id(self.persons(), id)
    }

    /// The person with the given identifier.
    pub open spec fn person_by_ap_id_spec(&self, text: Seq<char>) -> Option<PersonRecord> {
        first_by_ap_id(self.persons(), text)
    }

    /// The community with the given number.
    pub open spec fn community_spec(&self, id: u64) -> Option<CommunityRecord> {
        first_by_id(self.communities(), id)
    }

    /// The community with the given identifier.
    pub open spec fn community_by_ap_id_spec(&self, text: Seq<char>) -> Option<CommunityRecord> {
        first_by_ap_id(self.communities(), text)
    }

    /// The multi-community with the given number.
    pub open spec fn multi_community_spec(&self, id: u64) -> Option<MultiCommunityRecord> {
        first_by_id(self.multi_communities(), id)
    }

    /// The multi-community with the given identifier.
    pub open spec fn multi_community_by_ap_id_spec(&self, text: Seq<char>) -> Option<
        MultiCommunityRecord,
    > {
        first_by_ap_id(self.multi_communities(), text)
    }

    /// The first instance record with the given number.
    pub open spec fn instance_spec(&self, id: u64) -> Option<InstanceRecord> {
        if exists|i: int| 0 <= i < self.instances().len() && self.instances()[i].id == id {
            Some(self.instances()[self.instance_index(id)])
        } else {
            None
        }
    }

    /// The least index of an instance record with the given number.
    pub open spec fn instance_index(&self, id: u64) -> int {
        choose|i: int|
            0 <= i < self.instances().len() && self.instances()[i].id == id && forall|j: int|
                0 <= j < i ==> (#[trigger] self.instances()[j]).id != id
    }

    /// What an identifier names: a person first, else a community, else a
    /// multi-community.
    pub open spec fn resolve_target_spec(&self, text: Seq<char>) -> Option<FollowTarget> {
        match self.person_by_ap_id_spec(text) {
            Some(p) => Some(FollowTarget::Person(p)),
            None => match self.community_by_ap_id_spec(text) {
                Some(c) => Some(FollowTarget::Community(c)),
                None => match self.multi_community_by_ap_id_spec(text) {
                    Some(m) => Some(FollowTarget::MultiCommunity(m)),
                    None => None,
                },
            },
        }
    }

    /// Whether the person moderates the community or is an admin here.
    pub open spec fn is_mod_or_admin_spec(&self, person_id: u64, community_id: u64) -> bool {
        self.admins().contains(person_id) || self.moderators().contains(
            Moderation { community_id, person_id },
        )
    }

    /// Whether the person has blocked the other.
    pub open spec fn has_blocked_spec(&self, person_id: u64, target_id: u64) -> bool {
        self.blocks().contains(Block { person_id, target_id })
    }

    /// Whether the person takes private messages: everybody does who has not
    /// switched them off here.
    pub open spec fn takes_private_messages_spec(&self, person_id: u64) -> bool {
        !self.private_messages_off().contains(person_id)
    }

    /// A directory that knows nobody.
    pub fn new() -> (d: Directory)
        ensures
            d.wf(),
            d.persons().len() == 0,
            d.communities().len() == 0,
            d.multi_communities().len() == 0,
            d.instances().len() == 0,
            d.moderators().len() == 0,
            d.admins().len() == 0,
            d.blocks().len() == 0,
            d.private_messages_off().len() == 0,
    {
        Directory {
            persons: Vec::new(),
            communities: Vec::new(),
            multi_communities: Vec::new(),
            instances: Vec::new(),
            moderators: Vec::new(),
            admins: Vec::new(),
            blocks: Vec::new(),
            private_messages_off: Vec::new(),
        }
    }

    /// Adds a person unless one with the same number or identifier is known.
    pub fn add_person(&mut self, person: PersonRecord) -> (added: bool)
        requires
            old(self).wf(),
        ensures
            final(self).wf(),
            added == (old(self).person_spec(person.id) is None && old(self).person_by_ap_id_spec(
                person.ap_id@.text,
            ) is None),
            added ==> final(self).persons() == old(self).persons().push(person),
            !added ==> final(self).persons() == old(self).persons(),
            final(self).communities() == old(self).communities(),
            final(self).multi_communities() == old(self).multi_communities(),
            final(self).instances() == old(self).instances(),
            final(self).moderators() == old(self).moderators(),
            final(self).admins() == old(self).admins(),
            final(self).blocks() == old(self).blocks(),
            final(self).private_messages_off() == old(self).private_messages_off(),
    {
        add_distinct(&mut self.persons, person)
    }

    /// Adds a community unless one with the same number or identifier is
    /// known.
    pub fn add_community(&mut self, community: CommunityRecord) -> (added: bool)
        requires
            old(self).wf(),
        ensures
            final(self).wf(),
            added == (old(self).community_spec(community.id) is None && old(
                self,
            ).community_by_ap_id_spec(community.ap_id@.text) is None),
            added ==> final(self).communities() == old(self).communities().push(community),
            !added ==> final(self).communities() == old(self).communities(),
            final(self).persons() == old(self).persons(),
            final(self).multi_communities() == old(self).multi_communities(),
            final(self).instances() == old(self).instances(),
            final(self).moderators() == old(self).moderators(),
            final(self).admins() == old(self).admins(),
            final(self).blocks() == old(self).blocks(),
            final(self).private_messages_off() == old(self).private_messages_off(),
    {
        add_distinct(&mut self.communities, community)
    }

    /// Adds a multi-community unless one with the same number or identifier
    /// is known.
    pub fn add_multi_community(&mut self, multi: MultiCommunityRecord) -> (added: bool)
        requires
            old(self).wf(),
        ensures
            final(self).wf(),
            added == (old(self).multi_community_spec(multi.id) is None && old(
                self,
            ).multi_community_by_ap_id_spec(multi.ap_id@.text) is None),
            added ==> final(self).multi_communities() == old(self).multi_communities().push(
                multi,
            ),
            !added ==> final(self).multi_communities() == old(self).multi_communities(),
            final(self).persons() == old(self).persons(),
            final(self).communities() == old(self).communities(),
            final(self).instances() == old(self).instances(),
            final(self).moderators() == old(self).moderators(),
            final(self).admins() == old(self).admins(),
            final(self).blocks() == old(self).blocks(),
            final(self).private_messages_off() == old(self).private_messages_off(),
    {
        add_distinct(&mut self.multi_communities, multi)
    }

    /// Adds an instance record; a later record with a number already known is
    /// never found.
    pub fn add_instance(&mut self, instance: InstanceRecord)
        ensures
            final(self).instances() == old(self).instances().push(instance),
            final(self).persons() == old(self).persons(),
            final(self).communities() == old(self).communities(),
            final(self).multi_communities() == old(self).multi_communities(),
            final(self).moderators() == old(self).moderators(),
            final(self).admins() == old(self).admins(),
            final(self).blocks() == old(self).blocks(),
            final(self).private_messages_off() == old(self).private_messages_off(),
    {
        self.instances.push(instance);
    }

    /// Records that a person moderates a community.
    pub fn add_moderator(&mut self, community_id: u64, person_id: u64)
        ensures
            final(self).moderators() == old(self).moderators().push(
                Moderation { community_id, person_id },
            ),
            final(self).persons() == old(self).persons(),
            final(self).communities() == old(self).communities(),
            final(self).multi_communities() == old(self).multi_communities(),
            final(self).instances() == old(self).instances(),
            final(self).admins() == old(self).admins(),
            final(self).blocks() == old(self).blocks(),
            final(self).private_messages_off() == old(self).private_messages_off(),
    {
        self.moderators.push(Moderation { community_id, person_id });
    }

    /// Records that a person is an admin of this instance.
    pub fn add_admin(&mut self, person_id: u64)
        ensures
            final(self).admins() == old(self).admins().push(person_id),
            final(self).persons() == old(self).persons(),
            final(self).communities() == old(self).communities(),
            final(self).multi_communities() == old(self).multi_communities(),
            final(self).instances() == old(self).instances(),
            final(self).moderators() == old(self).moderators(),
            final(self).blocks() == old(self).blocks(),
            final(self).private_messages_off() == old(self).private_messages_off(),
    {
        self.admins.push(person_id);
    }

    /// Records that a person has blocked another.
    pub fn add_block(&mut self, person_id: u64, target_id: u64)
        ensures
            final(self).blocks() == old(self).blocks().push(Block { person_id, target_id }),
            final(self).persons() == old(self).persons(),
            final(self).communities() == old(self).communities(),
            final(self).multi_communities() == old(self).multi_communities(),
            final(self).instances() == old(self).instances(),
            final(self).moderators() == old(self).moderators(),
            final(self).admins() == old(self).admins(),
            final(self).private_messages_off() == old(self).private_messages_off(),
    {
        self.blocks.push(Block { person_id, target_id });
    }

    /// Records that a person here takes no private messages.
    pub fn add_private_messages_off(&mut self, person_id: u64)
        ensures
            final(self).private_messages_off() == old(self).private_messages_off().push(person_id),
            final(self).persons() == old(self).persons(),
            final(self).communities() == old(self).communities(),
            final(self).multi_communities() == old(self).multi_communities(),
            final(self).instances() == old(self).instances(),
            final(self).moderators() == old(self).moderators(),
            final(self).admins() == old(self).admins(),
            final(self).blocks() == old(self).blocks(),
    {
        self.private_messages_off.push(person_id);
    }

    /// The person with the given number.
    pub fn person(&self, id: u64) -> (r: Option<&PersonRecord>)
        ensures
            r == match self.person_spec(id) {
                Some(p) => Some(&p),
                None => None,
            },
    {
        match position_by_id(&self.persons, id) {
            Some(i) => Some(&self.persons[i]),
            None => None,
        }
    }

    /// The person with the given identifier.
    pub fn person_by_ap_id(&self, ap_id: &Uri) -> (r: Option<&PersonRecord>)
        ensures
            r == match self.person_by_ap_id_spec(ap_id@.text) {
                Some(p) => Some(&p),
                None => None,
            },
    {
        match position_by_ap_id(&self.persons, ap_id) {
            Some(i) => Some(&self.persons[i]),
            None => None,
        }
    }

    /// The community with the given number.
    pub fn community(&self, id: u64) -> (r: Option<&CommunityRecord>)
        ensures
            r == match self.community_spec(id) {
                Some(c) => Some(&c),
                None => None,
            },
    {
        match position_by_id(&self.communities, id) {
            Some(i) => Some(&self.communities[i]),
            None => None,
        }
    }

    /// The community with the given identifier.
    pub fn community_by_ap_id(&self, ap_id: &Uri) -> (r: Option<&CommunityRecord>)
        ensures
            r == match self.community_by_ap_id_spec(ap_id@.text) {
                Some(c) => Some(&c),
                None => None,
            },
    {
        match position_by_ap_id(&self.communities, ap_id) {
            Some(i) => Some(&self.communities[i]),
            None => None,
        }
    }

    /// The multi-community with the given number.
    pub fn multi_community(&self, id: u64) -> (r: Option<&MultiCommunityRecord>)
        ensures
            r == match self.multi_community_spec(id) {
                Some(m) => Some(&m),
                None => None,
            },
    {
        match position_by_id(&self.multi_communities, id) {
            Some(i) => Some(&self.multi_communities[i]),
            None => None,
        }
    }

    /// The multi-community with the given identifier.
    pub fn multi_community_by_ap_id(&self, ap_id: &Uri) -> (r: Option<&MultiCommunityRecord>)
        ensures
            r == match self.multi_community_by_ap_id_spec(ap_id@.text) {
                Some(m) => Some(&m),
                None => None,
            },
    {
        match position_by_ap_id(&self.multi_communities, ap_id) {
            Some(i) => Some(&self.multi_communities[i]),
            None => None,
        }
    }

    /// The first instance record with the given number.
    pub fn instance(&self, id: u64) -> (r: Option<&InstanceRecord>)
        ensures
            r == match self.instance_spec(id) {
                Some(x) => Some(&x),
                None => None,
            },
    {
        let mut i: usize = 0;
        while i < self.instances.len()
            invariant
                i <= self.instances.len(),
                forall|j: int| 0 <= j < i ==> (#[trigger] self.instances()[j]).id != id,
            decreases self.instances.len() - i,
        {
            if self.instances[i].id == id {
                assert(self.instance_index(id) == i) by {
                    let k = self.instance_index(id);
                    assert(self.instances()[i as int].id == id);
                    if k < i {
                        assert(self.instances()[k].id != id);
                    }
                    if i < k {
                        assert(self.instances()[i as int].id != id);
                    }
                }
                return Some(&self.instances[i]);
            }
            i += 1;
        }
        None
    }

    /// What an identifier names: a person first, else a community, else a
    /// multi-community.
    pub fn resolve_target(&self, ap_id: &Uri) -> (r: Option<FollowTarget>)
        ensures
            r == self.resolve_target_spec(ap_id@.text),
    {
        if let Some(p) = self.person_by_ap_id(ap_id) {
            return Some(FollowTarget::Person(p.copy()));
        }
        if let Some(c) = self.community_by_ap_id(ap_id) {
            return Some(FollowTarget::Community(c.copy()));
        }
        if let Some(m) = self.multi_community_by_ap_id(ap_id) {
            return Some(FollowTarget::MultiCommunity(m.copy()));
        }
        None
    }

    /// Whether the person has blocked the other.
    pub fn has_blocked(&self, person_id: u64, target_id: u64) -> (b: bool)
        ensures
            b == self.has_blocked_spec(person_id, target_id),
    {
        let mut i: usize = 0;
        while i < self.blocks.len()
            invariant
                i <= self.blocks.len(),
                forall|j: int| 0 <= j < i ==> self.blocks()[j] != (Block { person_id, target_id }),
            decreases self.blocks.len() - i,
        {
            let b = self.blocks[i];
            if b.person_id == person_id && b.target_id == target_id {
                assert(self.blocks()[i as int] == (Block { person_id, target_id }));
                return true;
            }
            i += 1;
        }
        false
    }

    /// Whether the person takes private messages.
    pub fn takes_private_messages(&self, person_id: u64) -> (b: bool)
        ensures
            b == self.takes_private_messages_spec(person_id),
    {
        let mut i: usize = 0;
        while i < self.private_messages_off.len()
            invariant
                i <= self.private_messages_off.len(),
                forall|j: int| 0 <= j < i ==> self.private_messages_off()[j] != person_id,
            decreases self.private_messages_off.len() - i,
        {
            if self.private_messages_off[i] == person_id {
                assert(self.private_messages_off()[i as int] == person_id);
                return false;
            }
            i += 1;
        }
        true
    }

    /// Whether the person moderates the community or is an admin here.
    pub fn is_mod_or_admin(&self, person_id: u64, community_id: u64) -> (b: bool)
        ensures
            b == self.is_mod_or_admin_spec(person_id, community_id),
    {
        let mut i: usize = 0;
        while i < self.admins.len()
            invariant
                i <= self.admins.len(),
                forall|j: int| 0 <= j < i ==> self.admins()[j] != person_id,
            decreases self.admins.len() - i,
        {
            if self.admins[i] == person_id {
                assert(self.admins()[i as int] == person_id);
                return true;
            }
            i += 1;
        }
        let mut k: usize = 0;
        while k < self.moderators.len()
            invariant
                k <= self.moderators.len(),
                !self.admins().contains(person_id),
                forall|j: int|
                    0 <= j < k ==> self.moderators()[j] != (Moderation { community_id, person_id }),
            decreases self.moderators.len() - k,
        {
            let m = self.moderators[k];
            if m.community_id == community_id && m.person_id == person_id {
                assert(self.moderators()[k as int] == (Moderation { community_id, person_id }));
                return true;
            }
            k += 1;
        }
        false
    }
}

} // verus!
