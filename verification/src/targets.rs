//! Where an outgoing activity is to be delivered.

use vstd::prelude::*;
use crate::records::TargetKind;
use crate::uri::Uri;

verus! {

/// A local entity whose followers are to receive an activity.
#[derive(Clone, Copy, Debug, PartialEq, Eq, Structural)]
pub struct Followed {
    pub kind: TargetKind,
    pub id: u64,
}

/// One way of addressing an activity.
#[derive(Debug)]
pub enum Audience {
    /// One inbox.
    Inbox(Uri),
    /// The followers of a local entity, looked up when the activity is
    /// delivered.
    FollowersOf(Followed),
    /// Every known instance.
    AllInstances,
}

/// The targets of a send, as a value: the texts of the inboxes, the broadcast
/// flag and the followers marker.
pub struct SendTargetsView {
    pub inboxes: Set<Seq<char>>,
    pub all_instances: bool,
    pub followers_of: Option<Followed>,
}

impl SendTargetsView {
    /// At least one of the three parts names a receiver.
    pub open spec fn is_addressed(self) -> bool {
        !self.inboxes.is_empty() || self.all_instances || self.followers_of is Some
    }
}

/// The targets that one way of addressing stands for.
pub open spec fn resolve_targets_spec(audience: Audience) -> SendTargetsView {
    match audience {
        Audience::Inbox(inbox) => SendTargetsView {
            inboxes: set![inbox@.text],
            all_instances: false,
            followers_of: None,
        },
        Audience::FollowersOf(followed) => SendTargetsView {
            inboxes: Set::empty(),
            all_instances: false,
            followers_of: Some(followed),
        },
        Audience::AllInstances => SendTargetsView {
            inboxes: Set::empty(),
            all_instances: true,
            followers_of: None,
        },
    }
}

/// The union of explicit inboxes, the broadcast flag and the followers marker.
#[derive(Debug)]
pub struct ActivitySendTargets {
    inboxes: Vec<Uri>,
    all_instances: bool,
    followers_of: Option<Followed>,
}

impl View for ActivitySendTargets {
    type V = SendTargetsView;

    closed spec fn view(&self) -> SendTargetsView {
        SendTargetsView {
            inboxes: Set::new(
                |t: Seq<char>|
                    exists|i: int| 0 <= i < self.inboxes@.len() && self.inboxes@[i]@.text == t,
            ),
            all_instances: self.all_instances,
            followers_of: self.followers_of,
        }
    }
}

impl ActivitySendTargets {
    /// No inbox is listed twice.
    pub closed spec fn wf(&self) -> bool {
        forall|i: int, j: int|
            0 <= i < j < self.inboxes@.len() ==> (#[trigger] self.inboxes@[i])@.text != (
            #[trigger] self.inboxes@[j])@.text
    }

    /// The listed inboxes, in the order in which they were added.
    pub closed spec fn inbox_list(&self) -> Seq<Uri> {
        self.inboxes@
    }

    /// Targets that name no receiver yet.
    pub fn empty() -> (t: ActivitySendTargets)
        ensures
            t.wf(),
            t.inbox_list() == Seq::<Uri>::empty(),
            t@.inboxes == Set::<Seq<char>>::empty(),
            !t@.all_instances,
            t@.followers_of is None,
            !t@.is_addressed(),
    {
        let t = ActivitySendTargets { inboxes: Vec::new(), all_instances: false, followers_of: None };
        assert(t@.inboxes =~= Set::<Seq<char>>::empty());
        t
    }

    /// The one inbox.
    pub fn to_inbox(inbox: Uri) -> (t: ActivitySendTargets)
        ensures
            t.wf(),
            t@ == resolve_targets_spec(Audience::Inbox(inbox)),
            t@.is_addressed(),
    {
        let mut t = ActivitySendTargets::empty();
        t.add_inbox(inbox);
        assert(t@.inboxes =~= set![inbox@.text]);
        assert(t@.inboxes.contains(inbox@.text));
        t
    }

    /// The followers of a local entity.
    pub fn to_followers_of(followed: Followed) -> (t: ActivitySendTargets)
        ensures
            t.wf(),
            t@ == resolve_targets_spec(Audience::FollowersOf(followed)),
            t@.is_addressed(),
    {
        let mut t = ActivitySendTargets::empty();
        t.followers_of = Some(followed);
        t
    }

    /// Every known instance.
    pub fn to_all_instances() -> (t: ActivitySendTargets)
        ensures
            t.wf(),
            t@ == resolve_targets_spec(Audience::AllInstances),
            t@.is_addressed(),
    {
        let mut t = ActivitySendTargets::empty();
        t.all_instances = true;
        t
    }

    /// Addresses every known instance as well.
    pub fn set_all_instances(&mut self)
        requires
            old(self).wf(),
        ensures
            final(self).wf(),
            final(self)@ == (SendTargetsView { all_instances: true, ..old(self)@ }),
            final(self).inbox_list() == old(self).inbox_list(),
    {
        self.all_instances = true;
    }

    /// Adds an inbox; one that is listed already is not listed again.
    pub fn add_inbox(&mut self, inbox: Uri)
        requires
            old(self).wf(),
        ensures
            final(self).wf(),
            final(self)@ == (SendTargetsView {
                inboxes: old(self)@.inboxes.insert(inbox@.text),
                ..old(self)@
            }),
            final(self)@.is_addressed(),
    {
        let ghost before = self.inboxes@;
        let mut i: usize = 0;
        let mut found = false;
        while i < self.inboxes.len()
            invariant_except_break
                !found,
                forall|j: int| 0 <= j < i ==> (#[trigger] self.inboxes@[j])@.text != inbox@.text,
            invariant
                i <= self.inboxes.len(),
                self.inboxes@ == before,
            ensures
                self.inboxes@ == before,
                found ==> i < before.len() && before[i as int]@.text == inbox@.text,
                !found ==> forall|j: int|
                    0 <= j < before.len() ==> (#[trigger] before[j])@.text != inbox@.text,
            decreases self.inboxes.len() - i,
        {
            if self.inboxes[i].same_as(&inbox) {
                found = true;
                break ;
            }
            i += 1;
        }
        if !found {
            self.inboxes.push(inbox);
        }
        assert forall|t: Seq<char>| #[trigger]
            self@.inboxes.contains(t) == old(self)@.inboxes.insert(inbox@.text).contains(t) by {
            if old(self)@.inboxes.contains(t) {
                let j = choose|j: int| 0 <= j < before.len() && before[j]@.text == t;
                assert(self.inboxes@[j]@.text == t);
            }
            if t == inbox@.text {
                if found {
                    assert(self.inboxes@[i as int]@.text == t);
                } else {
                    assert(self.inboxes@[before.len() as int]@.text == t);
                }
            }
        }
        assert(self@.inboxes =~= old(self)@.inboxes.insert(inbox@.text));
        assert(self@.inboxes.contains(inbox@.text));
    }

    /// The listed inboxes: each once, and together exactly the inbox set.
    pub fn inboxes(&self) -> (list: &Vec<Uri>)
        requires
            self.wf(),
        ensures
            list@ == self.inbox_list(),
            forall|i: int, j: int|
                0 <= i < j < list@.len() ==> (#[trigger] list@[i])@.text != (
                #[trigger] list@[j])@.text,
            forall|t: Seq<char>|
                self@.inboxes.contains(t) <==> exists|i: int|
                    0 <= i < list@.len() && (#[trigger] list@[i])@.text == t,
    {
        &self.inboxes
    }

    /// Whether every known instance is addressed.
    pub fn all_instances(&self) -> (b: bool)
        ensures
            b == self@.all_instances,
    {
        self.all_instances
    }

    /// The local entity whose followers are addressed, if any.
    pub fn followers_of(&self) -> (f: Option<Followed>)
        ensures
            f == self@.followers_of,
    {
        self.followers_of
    }

    /// Whether any receiver is named.
    pub fn is_addressed(&self) -> (b: bool)
        ensures
            b == self@.is_addressed(),
    {
        if self.inboxes.len() > 0 {
            assert(self@.inboxes.contains(self.inboxes@[0]@.text));
            return true;
        }
        assert(self@.inboxes =~= Set::<Seq<char>>::empty());
        self.all_instances || self.followers_of.is_some()
    }
}

/// The targets that one way of addressing stands for.
pub fn resolve_targets(audience: Audience) -> (t: ActivitySendTargets)
    ensures
        t.wf(),
        t@ == resolve_targets_spec(audience),
        t@.is_addressed(),
{
    match audience {
        Audience::Inbox(inbox) => ActivitySendTargets::to_inbox(inbox),
        Audience::FollowersOf(followed) => ActivitySendTargets::to_followers_of(followed),
        Audience::AllInstances => ActivitySendTargets::to_all_instances(),
    }
}

} // verus!
