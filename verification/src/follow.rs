//! Following: the request on the wire, what receiving one does to the follow
//! relationships, and the answers to it.

use vstd::prelude::*;
use crate::directory::{Directory, FollowTarget};
use crate::error::FederationError;
use crate::ident::{is_fresh_id_outcome, new_activity_id};
use crate::kinds::ActivityKind;
use crate::outbox::{send_lemmy_activity, SentActivityRecord};
use crate::protocol::{AboutFollow, AboutFollowKind, Follow, Payload};
use crate::records::{
    ActorType,
    CommunityRecord,
    InstanceRecord,
    MultiCommunityRecord,
    PersonRecord,
    TargetKind,
    TargetVisibility,
};
use crate::store::{
    new_relationship,
    FollowKey,
    FollowRelationship,
    FollowState,
    FollowStore,
};
use crate::targets::{resolve_targets_spec, ActivitySendTargets, Audience};
use crate::text::text_is;
use crate::uri::Uri;
use crate::verification::{inbound_verdict, opt_uri_view, verify_inbound};

verus! {

/// What a local person can ask to follow on another instance.
#[derive(Debug)]
pub enum CommunityOrMulti {
    Community(CommunityRecord),
    MultiCommunity(MultiCommunityRecord),
}

impl CommunityOrMulti {
    /// The target's global identifier.
    pub open spec fn ap_id_spec(self) -> Uri {
        match self {
            CommunityOrMulti::Community(c) => c.ap_id,
            CommunityOrMulti::MultiCommunity(m) => m.ap_id,
        }
    }

    /// The inbox that takes the target's mail.
    pub open spec fn inbox_spec(self) -> Uri {
        match self {
            CommunityOrMulti::Community(c) => c.inbox,
            CommunityOrMulti::MultiCommunity(m) => m.inbox,
        }
    }

    /// The target's global identifier.
    pub fn id(&self) -> (r: &Uri)
        ensures
            *r == self.ap_id_spec(),
    {
        match self {
            CommunityOrMulti::Community(c) => &c.ap_id,
            CommunityOrMulti::MultiCommunity(m) => &m.ap_id,
        }
    }

    /// The inbox that takes the target's mail.
    pub fn shared_inbox_or_inbox(&self) -> (r: &Uri)
        ensures
            *r == self.inbox_spec(),
    {
        match self {
            CommunityOrMulti::Community(c) => &c.inbox,
            CommunityOrMulti::MultiCommunity(m) => &m.inbox,
        }
    }
}

impl FollowTarget {
    /// The target's global identifier.
    pub open spec fn ap_id_spec(self) -> Uri {
        match self {
            FollowTarget::Person(p) => p.ap_id,
            FollowTarget::Community(c) => c.ap_id,
            FollowTarget::MultiCommunity(m) => m.ap_id,
        }
    }

    /// The kind of actor that the target is.
    pub open spec fn actor_type_spec(self) -> ActorType {
        match self {
            FollowTarget::Person(_) => ActorType::Person,
            FollowTarget::Community(_) => ActorType::Community,
            FollowTarget::MultiCommunity(_) => ActorType::MultiCommunity,
        }
    }

    /// The target's global identifier.
    pub fn id(&self) -> (r: &Uri)
        ensures
            *r == self.ap_id_spec(),
    {
        match self {
            FollowTarget::Person(p) => &p.ap_id,
            FollowTarget::Community(c) => &c.ap_id,
            FollowTarget::MultiCommunity(m) => &m.ap_id,
        }
    }

    /// The kind of actor that the target is.
    pub fn actor_type(&self) -> (t: ActorType)
        ensures
            t == self.actor_type_spec(),
    {
        match self {
            FollowTarget::Person(_) => ActorType::Person,
            FollowTarget::Community(_) => ActorType::Community,
            FollowTarget::MultiCommunity(_) => ActorType::MultiCommunity,
        }
    }

    /// The triple under which `follower_id`'s relationship to the target is
    /// filed.
    pub open spec fn key_spec(self, follower_id: u64) -> FollowKey {
        FollowKey { follower_id, target_kind: self.kind_spec(), target_id: self.id_spec() }
    }

    /// The triple under which `follower_id`'s relationship to the target is
    /// filed.
    pub fn key(&self, follower_id: u64) -> (k: FollowKey)
        ensures
            k == self.key_spec(follower_id),
    {
        match self {
            FollowTarget::Person(p) => FollowKey {
                follower_id,
                target_kind: TargetKind::Person,
                target_id: p.id,
            },
            FollowTarget::Community(c) => FollowKey {
                follower_id,
                target_kind: TargetKind::Community,
                target_id: c.id,
            },
            FollowTarget::MultiCommunity(m) => FollowKey {
                follower_id,
                target_kind: TargetKind::MultiCommunity,
                target_id: m.id,
            },
        }
    }
}

/// Software that cannot take part in private communities.
pub open spec fn lacks_private_community_support_spec(software: Option<String>) -> bool {
    software matches Some(s) && (s@ == "kbin"@ || s@ == "mbin"@)
}

/// Whether an instance's software cannot take part in private communities.
pub fn lacks_private_community_support(software: &Option<String>) -> (b: bool)
    ensures
        b == lacks_private_community_support_spec(*software),
{
    match software {
        Some(s) => text_is(s, "kbin") || text_is(s, "mbin"),
        None => false,
    }
}

/// The state that a new follow of a community gets, from the community's
/// visibility and the follower's platform alone: a public or unlisted
/// community accepts at once; a private one asks for approval, and turns a
/// platform without support for private communities away; a local-only one
/// is hidden from every remote follower.
pub open spec fn follow_state_spec(visibility: TargetVisibility, peer_incompatible: bool) -> Result<
    FollowState,
    FederationError,
> {
    match visibility {
        TargetVisibility::Public => Ok(FollowState::Accepted),
        TargetVisibility::Unlisted => Ok(FollowState::Accepted),
        TargetVisibility::Private => if peer_incompatible {
            Err(FederationError::PlatformLackingPrivateCommunitySupport)
        } else {
            Ok(FollowState::ApprovalRequired)
        },
        TargetVisibility::LocalOnlyPublic => Err(FederationError::NotFound),
        TargetVisibility::LocalOnlyPrivate => Err(FederationError::NotFound),
    }
}

/// The state that a new follow of a community gets.
pub fn follow_state_for(visibility: TargetVisibility, peer_incompatible: bool) -> (r: Result<
    FollowState,
    FederationError,
>)
    ensures
        r == follow_state_spec(visibility, peer_incompatible),
{
    match visibility {
        TargetVisibility::Public | TargetVisibility::Unlisted => Ok(FollowState::Accepted),
        TargetVisibility::Private => {
            if peer_incompatible {
                Err(FederationError::PlatformLackingPrivateCommunitySupport)
            } else {
                Ok(FollowState::ApprovalRequired)
            }
        },
        TargetVisibility::LocalOnlyPrivate | TargetVisibility::LocalOnlyPublic => Err(
            FederationError::NotFound,
        ),
    }
}

/// What is settled of a follow once its follower is looked up: the follower
/// must be known (`NotFound`) and not banned here (`Banned`), and a declared
/// target must be the object (`UrlVerificationError`). Nothing else need be
/// looked up to say so.
pub open spec fn follower_verdict(follow: Follow, follower: Option<PersonRecord>) -> Result<
    (),
    FederationError,
> {
    match follower {
        None => Err(FederationError::NotFound),
        Some(p) => if p.banned {
            Err(FederationError::Banned)
        } else if follow.to is Some && follow.to->0@.text != follow.object@.text {
            Err(FederationError::UrlVerificationError)
        } else {
            Ok(())
        },
    }
}

/// How far the target alone decides a follow.
#[derive(Clone, Copy, Debug, PartialEq, Eq, Structural)]
pub enum TargetDecision {
    /// The relationship gets this state.
    Settled(FollowState),
    /// The instance with this number must be looked up first.
    NeedsInstance(u64),
}

/// What is settled of a follow once its target is looked up: the target must
/// be known (`NotFound`); a person and a multi-community accept at once; a
/// community decides by its visibility, and only a private one needs to know
/// the follower's instance.
pub open spec fn target_decision_spec(target: Option<FollowTarget>, follower: PersonRecord) -> Result<
    TargetDecision,
    FederationError,
> {
    match target {
        None => Err(FederationError::NotFound),
        Some(FollowTarget::Person(_)) => Ok(TargetDecision::Settled(FollowState::Accepted)),
        Some(FollowTarget::MultiCommunity(_)) => Ok(TargetDecision::Settled(FollowState::Accepted)),
        Some(FollowTarget::Community(c)) => if c.visibility == TargetVisibility::Private {
            Ok(TargetDecision::NeedsInstance(follower.instance_id))
        } else {
            match follow_state_spec(c.visibility, false) {
                Ok(state) => Ok(TargetDecision::Settled(state)),
                Err(e) => Err(e),
            }
        },
    }
}

/// The state for a follow of a private community once the follower's
/// instance is looked up: the instance must be known (`NotFound`) and run a
/// platform that can take part.
pub open spec fn instance_decision_spec(instance: Option<InstanceRecord>) -> Result<
    FollowState,
    FederationError,
> {
    match instance {
        None => Err(FederationError::NotFound),
        Some(i) => follow_state_spec(
            TargetVisibility::Private,
            lacks_private_community_support_spec(i.software),
        ),
    }
}

/// Says what is settled of a follow once its follower is looked up.
pub fn check_follower(follow: &Follow, follower: Option<&PersonRecord>) -> (r: Result<
    (),
    FederationError,
>)
    ensures
        r == follower_verdict(
            *follow,
            match follower {
                Some(p) => Some(*p),
                None => None,
            },
        ),
{
    match follower {
        None => Err(FederationError::NotFound),
        Some(p) => {
            if p.banned {
                return Err(FederationError::Banned);
            }
            if let Some(to) = &follow.to {
                if !to.same_as(&follow.object) {
                    return Err(FederationError::UrlVerificationError);
                }
            }
            Ok(())
        },
    }
}

/// Says how far the target alone decides a follow.
pub fn decide_for_target(target: Option<&FollowTarget>, follower: &PersonRecord) -> (r: Result<
    TargetDecision,
    FederationError,
>)
    ensures
        r == target_decision_spec(
            match target {
                Some(t) => Some(*t),
                None => None,
            },
            *follower,
        ),
{
    match target {
        None => Err(FederationError::NotFound),
        Some(FollowTarget::Person(_)) => Ok(TargetDecision::Settled(FollowState::Accepted)),
        Some(FollowTarget::MultiCommunity(_)) => Ok(TargetDecision::Settled(FollowState::Accepted)),
        Some(FollowTarget::Community(c)) => {
            if c.visibility == TargetVisibility::Private {
                Ok(TargetDecision::NeedsInstance(follower.instance_id))
            } else {
                Ok(TargetDecision::Settled(follow_state_for(c.visibility, false)?))
            }
        },
    }
}

/// Says which state a follow of a private community gets once the
/// follower's instance is looked up.
pub fn decide_with_instance(instance: Option<&InstanceRecord>) -> (r: Result<
    FollowState,
    FederationError,
>)
    ensures
        r == instance_decision_spec(
            match instance {
                Some(i) => Some(*i),
                None => None,
            },
        ),
{
    match instance {
        None => Err(FederationError::NotFound),
        Some(i) => follow_state_for(
            TargetVisibility::Private,
            lacks_private_community_support(&i.software),
        ),
    }
}

/// What receiving a follow does: the relationship that it writes, and whether
/// an acceptance goes back.
pub struct FollowEffect {
    pub relationship: FollowRelationship,
    pub accept: bool,
}

/// The effect of a relationship in the given state: an acceptance goes back
/// exactly when the state is `Accepted`.
pub open spec fn effect_of(key: FollowKey, state: FollowState) -> FollowEffect {
    FollowEffect { relationship: new_relationship(key, state), accept: state == FollowState::Accepted }
}

/// The state that a follow of the target by `follower` gets: what the target
/// settles alone, else what the follower's instance settles.
pub open spec fn target_follow_state_spec(
    target: FollowTarget,
    follower: PersonRecord,
    dir: Directory,
) -> Result<FollowState, FederationError> {
    match target_decision_spec(Some(target), follower) {
        Err(e) => Err(e),
        Ok(TargetDecision::Settled(state)) => Ok(state),
        Ok(TargetDecision::NeedsInstance(id)) => instance_decision_spec(dir.instance_spec(id)),
    }
}

/// What receiving `follow` does, or why it does nothing: the follower or the
/// target is unknown (`NotFound`), or the target turns the follow away.
pub open spec fn follow_effect(follow: Follow, dir: Directory) -> Result<
    FollowEffect,
    FederationError,
> {
    match dir.person_by_ap_id_spec(follow.actor@.text) {
        None => Err(FederationError::NotFound),
        Some(follower) => match dir.resolve_target_spec(follow.object@.text) {
            None => Err(FederationError::NotFound),
            Some(target) => match target_follow_state_spec(target, follower, dir) {
                Err(e) => Err(e),
                Ok(state) => Ok(effect_of(target.key_spec(follower.id), state)),
            },
        },
    }
}

/// The verdict on a follow that came in: that of the checks on every inbound
/// activity, and then `NotFound` where its object names nothing known.
pub open spec fn follow_verdict(
    follow: Follow,
    dir: Directory,
    follows: Map<FollowKey, FollowRelationship>,
) -> Result<(), FederationError> {
    match inbound_verdict(
        ActivityKind::Follow,
        follow.actor@,
        follow.object@,
        opt_uri_view(follow.to),
        dir,
        follows,
    ) {
        Err(e) => Err(e),
        Ok(_) => if dir.resolve_target_spec(follow.object@.text) is None {
            Err(FederationError::NotFound)
        } else {
            Ok(())
        },
    }
}

/// Whether `record` is the outbox entry of an acceptance of `follow` by
/// `target`, addressed to `follower`.
pub open spec fn is_accept_record(
    record: SentActivityRecord,
    follow: Follow,
    target: FollowTarget,
    follower: PersonRecord,
) -> bool {
    &&& record.wf()
    &&& record.payload matches Payload::AboutFollow(accept)
    &&& accept.kind == AboutFollowKind::Accept
    &&& accept.actor == target.ap_id_spec()
    &&& accept.to == Some(follower.ap_id)
    &&& accept.object == follow
    &&& record.sensitive
    &&& record.send_targets@ == resolve_targets_spec(Audience::Inbox(follower.inbox))
    &&& record.actor_type == target.actor_type_spec()
    &&& record.actor_id == target.ap_id_spec()
}

impl Follow {
    /// A follow of `target` by `actor` under a fresh identifier, addressed to
    /// the target.
    pub fn new(actor: &PersonRecord, target: &CommunityOrMulti, base_url: &str) -> (r: Result<
        Follow,
        FederationError,
    >)
        ensures
            is_fresh_id_outcome(
                ActivityKind::Follow,
                base_url@,
                match r {
                    Ok(f) => Ok(f.id@),
                    Err(e) => Err(e),
                },
            ),
            r matches Ok(f) ==> f.actor == actor.ap_id && f.object == target.ap_id_spec() && f.to
                == Some(target.ap_id_spec()),
    {
        let id = new_activity_id(ActivityKind::Follow, base_url)?;
        Ok(
            Follow {
                actor: actor.ap_id.clone(),
                object: target.id().clone(),
                to: Some(target.id().clone()),
                id,
            },
        )
    }

    /// The outbox entry for a follow of `target` by `actor`: sensitive, and
    /// bound for the target's inbox alone.
    pub fn send(actor: &PersonRecord, target: &CommunityOrMulti, base_url: &str) -> (r: Result<
        SentActivityRecord,
        FederationError,
    >)
        ensures
            is_fresh_id_outcome(
                ActivityKind::Follow,
                base_url@,
                match r {
                    Ok(record) => Ok(record.ap_id@),
                    Err(e) => Err(e),
                },
            ),
            r matches Ok(record) ==> {
                &&& record.wf()
                &&& record.payload matches Payload::Follow(f)
                &&& f.actor == actor.ap_id
                &&& f.object == target.ap_id_spec()
                &&& f.to == Some(target.ap_id_spec())
                &&& record.sensitive
                &&& record.send_targets@ == resolve_targets_spec(
                    Audience::Inbox(target.inbox_spec()),
                )
                &&& record.actor_type == ActorType::Person
                &&& record.actor_id == actor.ap_id
            },
    {
        let follow = Follow::new(actor, target, base_url)?;
        let inbox = ActivitySendTargets::to_inbox(target.shared_inbox_or_inbox().clone());
        Ok(send_lemmy_activity(Payload::Follow(follow), ActorType::Person, &actor.ap_id, inbox, true))
    }

    /// The activity's identifier.
    pub fn id(&self) -> (r: &Uri)
        ensures
            *r == self.id,
    {
        &self.id
    }

    /// The follower's identifier.
    pub fn actor(&self) -> (r: &Uri)
        ensures
            *r == self.actor,
    {
        &self.actor
    }

    /// Checks a follow that came in, before anything is changed.
    pub fn verify(&self, dir: &Directory, follows: &FollowStore) -> (r: Result<
        (),
        FederationError,
    >)
        requires
            follows.wf(),
        ensures
            r == follow_verdict(*self, *dir, follows@),
    {
        verify_inbound(ActivityKind::Follow, &self.actor, &self.object, &self.to, dir, follows)?;
        if dir.resolve_target(&self.object).is_none() {
            return Err(FederationError::NotFound);
        }
        Ok(())
    }

    /// Takes a checked follow in: writes the relationship in the state that
    /// the target gives it and, where that state is `Accepted`, makes the
    /// outbox entry of the acceptance, under a fresh identifier of its own.
    /// Where the follow is turned away, or the acceptance cannot be made,
    /// nothing is written. Nothing is remembered of the follow's identifier
    /// here: whoever must not take a follow in twice submits it to the inbox.
    pub fn receive(self, dir: &Directory, follows: &mut FollowStore, base_url: &str) -> (r: Result<
        Option<SentActivityRecord>,
        FederationError,
    >)
        requires
            old(follows).wf(),
        ensures
            final(follows).wf(),
            follow_effect(self, *dir) matches Ok(effect) && !effect.accept ==> r is Ok,
            match r {
                Ok(sent) => {
                    &&& follow_effect(self, *dir) matches Ok(effect)
                    &&& final(follows)@ == old(follows)@.insert(
                        effect.relationship.key_spec(),
                        effect.relationship,
                    )
                    &&& sent is Some <==> effect.accept
                    &&& sent matches Some(record) ==> is_accept_record(
                        record,
                        self,
                        dir.resolve_target_spec(self.object@.text)->0,
                        dir.person_by_ap_id_spec(self.actor@.text)->0,
                    ) && is_fresh_id_outcome(ActivityKind::Accept, base_url@, Ok(record.ap_id@))
                },
                Err(e) => {
                    &&& final(follows)@ == old(follows)@
                    &&& follow_effect(self, *dir) == Err::<FollowEffect, FederationError>(e) || (
                    follow_effect(self, *dir) matches Ok(effect) && effect.accept && e
                        == FederationError::MalformedUrl && is_fresh_id_outcome(
                        ActivityKind::Accept,
                        base_url@,
                        Err(FederationError::MalformedUrl),
                    ))
                },
            },
    {
        let follower = match dir.person_by_ap_id(&self.actor) {
            Some(p) => p,
            None => return Err(FederationError::NotFound),
        };
        let target = match dir.resolve_target(&self.object) {
            Some(t) => t,
            None => return Err(FederationError::NotFound),
        };
        let state = match decide_for_target(Some(&target), follower)? {
            TargetDecision::Settled(state) => state,
            TargetDecision::NeedsInstance(id) => decide_with_instance(dir.instance(id))?,
        };
        let relationship = FollowRelationship::new(target.key(follower.id), state);
        let sent = if state == FollowState::Accepted {
            Some(AboutFollow::send_accept(self, &target, follower, base_url)?)
        } else {
            None
        };
        follows.upsert(relationship);
        Ok(sent)
    }
}

impl AboutFollow {
    /// The outbox entry of the acceptance of `follow` by `target`: sensitive,
    /// and bound for the follower's inbox alone.
    pub fn send_accept(
        follow: Follow,
        target: &FollowTarget,
        follower: &PersonRecord,
        base_url: &str,
    ) -> (r: Result<SentActivityRecord, FederationError>)
        ensures
            is_fresh_id_outcome(
                ActivityKind::Accept,
                base_url@,
                match r {
                    Ok(record) => Ok(record.ap_id@),
                    Err(e) => Err(e),
                },
            ),
            r matches Ok(record) ==> is_accept_record(record, follow, *target, *follower),
            r matches Err(e) ==> e == FederationError::MalformedUrl,
    {
        let id = match new_activity_id(ActivityKind::Accept, base_url) {
            Ok(id) => id,
            Err(_) => return Err(FederationError::MalformedUrl),
        };
        let accept = AboutFollow {
            kind: AboutFollowKind::Accept,
            actor: target.id().clone(),
            to: Some(follower.ap_id.clone()),
            object: follow,
            id,
        };
        let inbox = ActivitySendTargets::to_inbox(follower.inbox.clone());
        Ok(
            send_lemmy_activity(
                Payload::AboutFollow(accept),
                target.actor_type(),
                target.id(),
                inbox,
                true,
            ),
        )
    }
}

/// Looking follower, target and instance up one after the other, and
/// stopping at the first failure, comes to what the checks and the decision
/// say of a directory that gives the same answers.
pub proof fn lemma_stages_agree(
    follow: Follow,
    dir: Directory,
    follows: Map<FollowKey, FollowRelationship>,
)
    ensures
        follow_verdict(follow, dir, follows) == match follower_verdict(
            follow,
            dir.person_by_ap_id_spec(follow.actor@.text),
        ) {
            Err(e) => Err(e),
            Ok(_) => match dir.resolve_target_spec(follow.object@.text) {
                None => Err(FederationError::NotFound),
                Some(_) => Ok(()),
            },
        },
        follow_verdict(follow, dir, follows) is Ok ==> follow_effect(follow, dir) == {
            let follower = dir.person_by_ap_id_spec(follow.actor@.text)->0;
            let target = dir.resolve_target_spec(follow.object@.text);
            match target_decision_spec(target, follower) {
                Err(e) => Err(e),
                Ok(TargetDecision::Settled(state)) => Ok(
                    effect_of(target->0.key_spec(follower.id), state),
                ),
                Ok(TargetDecision::NeedsInstance(id)) => match instance_decision_spec(
                    dir.instance_spec(id),
                ) {
                    Err(e) => Err(e),
                    Ok(state) => Ok(effect_of(target->0.key_spec(follower.id), state)),
                },
            }
        },
{
}

/// What a follow of a community by a known follower comes to, by the
/// community's visibility and the follower's platform alone. Public and
/// unlisted: an accepted relationship and an acceptance, whatever the
/// platform. Private: a relationship that waits for approval and no
/// acceptance, unless the platform cannot take part or the follower's instance is
/// unknown. Local-only: `NotFound`.
pub proof fn lemma_follow_of_community_by_visibility(
    follow: Follow,
    dir: Directory,
    follower: PersonRecord,
    community: CommunityRecord,
)
    requires
        dir.person_by_ap_id_spec(follow.actor@.text) == Some(follower),
        dir.resolve_target_spec(follow.object@.text) == Some(FollowTarget::Community(community)),
    ensures
        ({
            let key = FollowKey {
                follower_id: follower.id,
                target_kind: TargetKind::Community,
                target_id: community.id,
            };
            match community.visibility {
                TargetVisibility::Public | TargetVisibility::Unlisted => follow_effect(follow, dir)
                    == Ok::<FollowEffect, FederationError>(
                    FollowEffect {
                        relationship: new_relationship(key, FollowState::Accepted),
                        accept: true,
                    },
                ),
                TargetVisibility::Private => follow_effect(follow, dir) == match dir.instance_spec(
                    follower.instance_id,
                ) {
                    None => Err::<FollowEffect, FederationError>(FederationError::NotFound),
                    Some(instance) => if lacks_private_community_support_spec(instance.software) {
                        Err(FederationError::PlatformLackingPrivateCommunitySupport)
                    } else {
                        Ok(
                            FollowEffect {
                                relationship: new_relationship(key, FollowState::ApprovalRequired),
                                accept: false,
                            },
                        )
                    },
                },
                TargetVisibility::LocalOnlyPublic | TargetVisibility::LocalOnlyPrivate => follow_effect(
                    follow,
                    dir,
                ) == Err::<FollowEffect, FederationError>(FederationError::NotFound),
            }
        }),
{
}

/// Receiving a follow writes the same relationship whatever relationships
/// were there: from any two stores the pair ends with that one relationship
/// and every other triple keeps what it had.
pub proof fn lemma_receive_ignores_history(
    follow: Follow,
    dir: Directory,
    first: Map<FollowKey, FollowRelationship>,
    second: Map<FollowKey, FollowRelationship>,
)
    requires
        follow_effect(follow, dir) is Ok,
    ensures
        ({
            let written = follow_effect(follow, dir)->Ok_0.relationship;
            let key = written.key_spec();
            let after_first = first.insert(key, written);
            let after_second = second.insert(key, written);
            &&& after_first.contains_key(key) && after_second.contains_key(key)
            &&& after_first[key] == after_second[key]
            &&& after_first[key] == written
            &&& after_first.dom() == first.dom().insert(key)
            &&& forall|other: FollowKey|
                other != key ==> after_first.contains_key(other) == first.contains_key(other) && (
                first.contains_key(other) ==> after_first[other] == first[other])
        }),
{
    let written = follow_effect(follow, dir)->Ok_0.relationship;
    let key = written.key_spec();
    assert(first.insert(key, written).dom() =~= first.dom().insert(key));
}

} // verus!
