//! The receiving side of following: each activity is taken in once, checked,
//! and only then allowed to change the follow relationships.

use vstd::prelude::*;
use vstd::string::StringExecFns;
use crate::directory::{Directory, FollowTarget};
use crate::error::FederationError;
use crate::follow::{follow_effect, follow_verdict, FollowEffect};
use crate::ident::is_fresh_id_outcome;
use crate::kinds::ActivityKind;
use crate::outbox::SentActivityRecord;
use crate::protocol::{AboutFollow, AboutFollowKind, Follow};
use crate::records::TargetVisibility;
use crate::store::{FollowKey, FollowRelationship, FollowState, FollowStore, SeenActivities};
use crate::verification::{actor_trust_spec, trusted_actor, verify_urls_match};

verus! {

/// What the receiving side remembers, as a value.
pub struct InboxView {
    /// The live follow relationships, each under the triple that owns it.
    pub follows: Map<FollowKey, FollowRelationship>,
    /// The identifiers of the activities that were taken in.
    pub seen: Set<Seq<char>>,
}

/// What the receiving side remembers.
#[derive(Debug)]
pub struct InboxState {
    pub follows: FollowStore,
    pub seen: SeenActivities,
}

impl View for InboxState {
    type V = InboxView;

    open spec fn view(&self) -> InboxView {
        InboxView { follows: self.follows@, seen: self.seen@ }
    }
}

/// How a submitted activity ended.
#[derive(Debug)]
pub enum Submission {
    /// An activity with this identifier was taken in before; nothing was done.
    Replayed,
    /// The activity was taken in; an answer to send may have been made.
    Applied(Option<SentActivityRecord>),
}

/// What submitting a follow comes to.
pub enum FollowStep {
    /// The follow was taken in before.
    Replayed,
    /// The follow is turned away, and nothing changes.
    Rejected(FederationError),
    /// The follow is taken in, with this effect.
    Applied(FollowEffect),
}

/// What submitting `follow` comes to: a replay, by its identifier; else the
/// first failure of the checks or of the target's decision; else the effect.
pub open spec fn follow_step(state: InboxView, follow: Follow, dir: Directory) -> FollowStep {
    if state.seen.contains(follow.id@.text) {
        FollowStep::Replayed
    } else {
        match follow_verdict(follow, dir, state.follows) {
            Err(e) => FollowStep::Rejected(e),
            Ok(_) => match follow_effect(follow, dir) {
                Err(e) => FollowStep::Rejected(e),
                Ok(effect) => FollowStep::Applied(effect),
            },
        }
    }
}

/// What is remembered after `follow` was submitted and, where it was taken
/// in, its answer could be made.
pub open spec fn after_follow(state: InboxView, follow: Follow, dir: Directory) -> InboxView {
    match follow_step(state, follow, dir) {
        FollowStep::Applied(effect) => InboxView {
            follows: state.follows.insert(effect.relationship.key_spec(), effect.relationship),
            seen: state.seen.insert(follow.id@.text),
        },
        _ => state,
    }
}

/// What an activity about a follow does to the relationship.
pub enum FollowChange {
    /// The relationship under this triple goes, if there is one.
    Remove(FollowKey),
    /// The relationship under this triple becomes accepted.
    Accept(FollowKey),
}

/// The verdict on an activity about a follow. An undo must come from the
/// follower, who must be known (`NotFound`) and not banned (`Banned`); an
/// acceptance or rejection must come from the target of the follow, which
/// must be known and, where it is a person, not banned. The sender must be
/// the party that it speaks for and a declared target must be the other
/// party (`UrlVerificationError`).
pub open spec fn about_follow_verdict(about: AboutFollow, dir: Directory) -> Result<
    (),
    FederationError,
> {
    match about.kind {
        AboutFollowKind::Undo => match actor_trust_spec(dir, about.actor@.text) {
            Err(e) => Err(e),
            Ok(_) => if about.actor@.text != about.object.actor@.text {
                Err(FederationError::UrlVerificationError)
            } else if about.to is Some && about.to->0@.text != about.object.object@.text {
                Err(FederationError::UrlVerificationError)
            } else {
                Ok(())
            },
        },
        _ => match dir.resolve_target_spec(about.actor@.text) {
            None => Err(FederationError::NotFound),
            Some(target) => if target matches FollowTarget::Person(p) && p.banned {
                Err(FederationError::Banned)
            } else if about.actor@.text != about.object.object@.text {
                Err(FederationError::UrlVerificationError)
            } else if about.to is Some && about.to->0@.text != about.object.actor@.text {
                Err(FederationError::UrlVerificationError)
            } else {
                Ok(())
            },
        },
    }
}

/// What an activity about a follow does, or why it does nothing: the
/// follower or the target of the follow is unknown, or an acceptance speaks
/// of a relationship that is not there (all `NotFound`). An undo or a
/// rejection needs no relationship to be there.
pub open spec fn about_follow_change(
    about: AboutFollow,
    dir: Directory,
    follows: Map<FollowKey, FollowRelationship>,
) -> Result<FollowChange, FederationError> {
    match dir.person_by_ap_id_spec(about.object.actor@.text) {
        None => Err(FederationError::NotFound),
        Some(follower) => match dir.resolve_target_spec(about.object.object@.text) {
            None => Err(FederationError::NotFound),
            Some(target) => {
                let key = target.key_spec(follower.id);
                if about.kind == AboutFollowKind::Accept {
                    if follows.contains_key(key) {
                        Ok(FollowChange::Accept(key))
                    } else {
                        Err(FederationError::NotFound)
                    }
                } else {
                    Ok(FollowChange::Remove(key))
                }
            },
        },
    }
}

/// The relationships after a change.
pub open spec fn apply_change(
    follows: Map<FollowKey, FollowRelationship>,
    change: FollowChange,
) -> Map<FollowKey, FollowRelationship> {
    match change {
        FollowChange::Remove(key) => follows.remove(key),
        FollowChange::Accept(key) => follows.insert(
            key,
            FollowRelationship { state: FollowState::Accepted, ..follows[key] },
        ),
    }
}

/// What submitting an activity about a follow comes to.
pub enum AboutStep {
    /// The activity was taken in before.
    Replayed,
    /// The activity is turned away, and nothing changes.
    Rejected(FederationError),
    /// The activity is taken in, with this change.
    Applied(FollowChange),
}

/// What submitting `about` comes to: a replay, by its identifier; else the
/// first failure of the checks or of the change; else the change.
pub open spec fn about_step(state: InboxView, about: AboutFollow, dir: Directory) -> AboutStep {
    if state.seen.contains(about.id@.text) {
        AboutStep::Replayed
    } else {
        match about_follow_verdict(about, dir) {
            Err(e) => AboutStep::Rejected(e),
            Ok(_) => match about_follow_change(about, dir, state.follows) {
                Err(e) => AboutStep::Rejected(e),
                Ok(change) => AboutStep::Applied(change),
            },
        }
    }
}

/// What is remembered after `about` was submitted.
pub open spec fn after_about(state: InboxView, about: AboutFollow, dir: Directory) -> InboxView {
    match about_step(state, about, dir) {
        AboutStep::Applied(change) => InboxView {
            follows: apply_change(state.follows, change),
            seen: state.seen.insert(about.id@.text),
        },
        _ => state,
    }
}

impl AboutFollow {
    /// Checks an activity about a follow that came in.
    pub fn verify(&self, dir: &Directory) -> (r: Result<(), FederationError>)
        ensures
            r == about_follow_verdict(*self, *dir),
    {
        match self.kind {
            AboutFollowKind::Undo => {
                trusted_actor(&self.actor, dir)?;
                verify_urls_match(&self.actor, &self.object.actor)?;
                if let Some(to) = &self.to {
                    verify_urls_match(to, &self.object.object)?;
                }
                Ok(())
            },
            _ => {
                let target = match dir.resolve_target(&self.actor) {
                    Some(t) => t,
                    None => return Err(FederationError::NotFound),
                };
                if let FollowTarget::Person(p) = &target {
                    if p.banned {
                        return Err(FederationError::Banned);
                    }
                }
                verify_urls_match(&self.actor, &self.object.object)?;
                if let Some(to) = &self.to {
                    verify_urls_match(to, &self.object.actor)?;
                }
                Ok(())
            },
        }
    }

    /// Takes a checked activity about a follow in: an undo or a rejection
    /// deletes the relationship, whether or not there is one; an acceptance
    /// marks the relationship accepted, and fails where there is none.
    pub fn receive(self, dir: &Directory, follows: &mut FollowStore) -> (r: Result<
        (),
        FederationError,
    >)
        requires
            old(follows).wf(),
        ensures
            final(follows).wf(),
            match r {
                Ok(_) => about_follow_change(self, *dir, old(follows)@) matches Ok(change)
                    && final(follows)@ == apply_change(old(follows)@, change),
                Err(e) => final(follows)@ == old(follows)@ && about_follow_change(
                    self,
                    *dir,
                    old(follows)@,
                ) == Err::<FollowChange, FederationError>(e),
            },
    {
        let follower = match dir.person_by_ap_id(&self.object.actor) {
            Some(p) => p,
            None => return Err(FederationError::NotFound),
        };
        let target = match dir.resolve_target(&self.object.object) {
            Some(t) => t,
            None => return Err(FederationError::NotFound),
        };
        let key = target.key(follower.id);
        match self.kind {
            AboutFollowKind::Accept => {
                match follows.get(&key) {
                    Some(existing) => {
                        proof {
                            follows.lemma_filed_under_own_key();
                        }
                        let accepted = FollowRelationship {
                            state: FollowState::Accepted,
                            ..existing
                        };
                        follows.upsert(accepted);
                        Ok(())
                    },
                    None => Err(FederationError::NotFound),
                }
            },
            _ => {
                follows.remove(&key);
                Ok(())
            },
        }
    }
}

impl InboxState {
    /// No triple owns two relationships.
    pub open spec fn wf(&self) -> bool {
        self.follows.wf()
    }

    /// A receiving side that remembers nothing.
    pub fn new() -> (s: InboxState)
        ensures
            s.wf(),
            s@.follows == Map::<FollowKey, FollowRelationship>::empty(),
            s@.seen == Set::<Seq<char>>::empty(),
    {
        InboxState { follows: FollowStore::new(), seen: SeenActivities::new() }
    }

    /// Submits a follow that came in. A follow that was taken in before is a
    /// replay and does nothing. A new one is checked and, if it passes, taken
    /// in: the relationship is written, the identifier is remembered and the
    /// acceptance, where one is due, is handed out for sending. On every
    /// failure nothing changes.
    pub fn submit_follow(&mut self, follow: Follow, dir: &Directory, base_url: &str) -> (r: Result<
        Submission,
        FederationError,
    >)
        requires
            old(self).wf(),
        ensures
            final(self).wf(),
            follow_step(old(self)@, follow, *dir) is Replayed ==> r is Ok,
            follow_step(old(self)@, follow, *dir) matches FollowStep::Applied(effect)
                && !effect.accept ==> r is Ok,
            match r {
                Ok(Submission::Replayed) => follow_step(old(self)@, follow, *dir)
                    is Replayed && final(self)@ == old(self)@,
                Ok(Submission::Applied(sent)) => {
                    &&& follow_step(old(self)@, follow, *dir) matches FollowStep::Applied(effect)
                    &&& final(self)@ == after_follow(old(self)@, follow, *dir)
                    &&& sent is Some <==> effect.accept
                    &&& sent matches Some(record) ==> crate::follow::is_accept_record(
                        record,
                        follow,
                        dir.resolve_target_spec(follow.object@.text)->0,
                        dir.person_by_ap_id_spec(follow.actor@.text)->0,
                    ) && is_fresh_id_outcome(ActivityKind::Accept, base_url@, Ok(record.ap_id@))
                },
                Err(e) => {
                    &&& final(self)@ == old(self)@
                    &&& follow_step(old(self)@, follow, *dir) == FollowStep::Rejected(e) || (
                    follow_step(old(self)@, follow, *dir) matches FollowStep::Applied(effect)
                        && effect.accept && e == FederationError::MalformedUrl
                        && is_fresh_id_outcome(
                        ActivityKind::Accept,
                        base_url@,
                        Err(FederationError::MalformedUrl),
                    ))
                },
            },
    {
        if self.seen.contains(follow.id.as_str()) {
            return Ok(Submission::Replayed);
        }
        follow.verify(dir, &self.follows)?;
        let id = String::from_str(follow.id.as_str());
        let sent = follow.receive(dir, &mut self.follows, base_url)?;
        self.seen.insert(id);
        Ok(Submission::Applied(sent))
    }

    /// Submits an undo, an acceptance or a rejection of a follow that came
    /// in. One that was taken in before is a replay and does nothing. A new
    /// one is checked and, if it passes, taken in. On every failure nothing
    /// changes. No answer is ever due.
    pub fn submit_about_follow(&mut self, about: AboutFollow, dir: &Directory) -> (r: Result<
        Submission,
        FederationError,
    >)
        requires
            old(self).wf(),
        ensures
            final(self).wf(),
            match r {
                Ok(Submission::Replayed) => about_step(old(self)@, about, *dir)
                    is Replayed && final(self)@ == old(self)@,
                Ok(Submission::Applied(sent)) => {
                    &&& about_step(old(self)@, about, *dir) is Applied
                    &&& final(self)@ == after_about(old(self)@, about, *dir)
                    &&& sent is None
                },
                Err(e) => {
                    &&& final(self)@ == old(self)@
                    &&& about_step(old(self)@, about, *dir) == AboutStep::Rejected(e)
                },
            },
    {
        if self.seen.contains(about.id.as_str()) {
            return Ok(Submission::Replayed);
        }
        about.verify(dir)?;
        let id = String::from_str(about.id.as_str());
        about.receive(dir, &mut self.follows)?;
        self.seen.insert(id);
        Ok(Submission::Applied(None))
    }
}

/// The checks on a follow do not look at the relationships that exist.
pub proof fn lemma_follow_verdict_ignores_relationships(
    follow: Follow,
    dir: Directory,
    a: Map<FollowKey, FollowRelationship>,
    b: Map<FollowKey, FollowRelationship>,
)
    ensures
        follow_verdict(follow, dir, a) == follow_verdict(follow, dir, b),
{
}

/// Submitting the same follow twice is submitting it once: the second time
/// is a replay, which changes nothing and hands out no acceptance, and the
/// follower and target own exactly one relationship.
pub proof fn lemma_follow_idempotent(state: InboxView, follow: Follow, dir: Directory)
    ensures
        after_follow(after_follow(state, follow, dir), follow, dir) == after_follow(
            state,
            follow,
            dir,
        ),
        follow_step(state, follow, dir) matches FollowStep::Applied(effect) ==> {
            &&& follow_step(after_follow(state, follow, dir), follow, dir) is Replayed
            &&& after_follow(state, follow, dir).follows.dom() == state.follows.dom().insert(
                effect.relationship.key_spec(),
            )
            &&& after_follow(state, follow, dir).follows[effect.relationship.key_spec()]
                == effect.relationship
        },
{
    let once = after_follow(state, follow, dir);
    match follow_step(state, follow, dir) {
        FollowStep::Applied(effect) => {
            assert(once.seen.contains(follow.id@.text));
            assert(once.follows.dom() =~= state.follows.dom().insert(
                effect.relationship.key_spec(),
            ));
        },
        FollowStep::Replayed => {},
        FollowStep::Rejected(_) => {},
    }
}

/// The state of a new relationship depends on the follow and on what is known
/// of follower and target, not on the relationships that were there: from
/// any two histories the same follow, where both take it in, writes the same
/// relationship.
pub proof fn lemma_follow_state_ignores_history(
    first: InboxView,
    second: InboxView,
    follow: Follow,
    dir: Directory,
)
    requires
        follow_step(first, follow, dir) is Applied,
        follow_step(second, follow, dir) is Applied,
    ensures
        follow_step(first, follow, dir) == follow_step(second, follow, dir),
        follow_effect(follow, dir) matches Ok(effect) && after_follow(
            first,
            follow,
            dir,
        ).follows[effect.relationship.key_spec()] == effect.relationship && after_follow(
            second,
            follow,
            dir,
        ).follows[effect.relationship.key_spec()] == effect.relationship,
{
}

/// A follow that declares a target other than its object is turned away for
/// its addressing, whoever its known and unbanned sender is, and leaves no
/// trace.
pub proof fn lemma_mismatched_target_is_rejected(state: InboxView, follow: Follow, dir: Directory)
    requires
        !state.seen.contains(follow.id@.text),
        actor_trust_spec(dir, follow.actor@.text) is Ok,
        follow.to matches Some(to) && to@.text != follow.object@.text,
    ensures
        follow_verdict(follow, dir, state.follows) == Err::<(), FederationError>(
            FederationError::UrlVerificationError,
        ),
        follow_step(state, follow, dir) == FollowStep::Rejected(
            FederationError::UrlVerificationError,
        ),
        after_follow(state, follow, dir) == state,
{
}

/// A follow of a local-only community that passes the checks is turned away
/// with `NotFound` and leaves no trace.
pub proof fn lemma_local_only_is_rejected(state: InboxView, follow: Follow, dir: Directory)
    requires
        !state.seen.contains(follow.id@.text),
        follow_verdict(follow, dir, state.follows) is Ok,
        dir.resolve_target_spec(follow.object@.text) matches Some(FollowTarget::Community(c)) && (
        c.visibility == TargetVisibility::LocalOnlyPrivate || c.visibility
            == TargetVisibility::LocalOnlyPublic),
    ensures
        follow_effect(follow, dir) == Err::<FollowEffect, FederationError>(
            FederationError::NotFound,
        ),
        follow_step(state, follow, dir) == FollowStep::Rejected(FederationError::NotFound),
        after_follow(state, follow, dir) == state,
{
}

/// An undo or a rejection that is taken in twice under different identifiers
/// deletes once: deleting what is not there is no error.
pub proof fn lemma_remove_is_idempotent(
    follows: Map<FollowKey, FollowRelationship>,
    key: FollowKey,
)
    ensures
        apply_change(apply_change(follows, FollowChange::Remove(key)), FollowChange::Remove(key))
            == apply_change(follows, FollowChange::Remove(key)),
        !apply_change(follows, FollowChange::Remove(key)).contains_key(key),
{
    assert(follows.remove(key).remove(key) =~= follows.remove(key));
}

/// A follow and the undo of a follow by the same follower of the same
/// target, each of which would be taken in alone, are both taken in whichever
/// comes first. The one that comes last decides: after follow then undo the
/// pair owns no relationship, after undo then follow it owns the one that the
/// follow writes. Either way every other relationship is as it was and both
/// identifiers are remembered.
pub proof fn lemma_follow_and_undo_converge(
    state: InboxView,
    follow: Follow,
    undo: AboutFollow,
    dir: Directory,
)
    requires
        undo.kind == AboutFollowKind::Undo,
        undo.object.actor@.text == follow.actor@.text,
        undo.object.object@.text == follow.object@.text,
        undo.id@.text != follow.id@.text,
        follow_step(state, follow, dir) is Applied,
        about_step(state, undo, dir) is Applied,
    ensures
        follow_effect(follow, dir) matches Ok(effect) && {
            let key = effect.relationship.key_spec();
            let follow_first = after_about(after_follow(state, follow, dir), undo, dir);
            let undo_first = after_follow(after_about(state, undo, dir), follow, dir);
            &&& follow_first.follows == state.follows.remove(key)
            &&& undo_first.follows == state.follows.insert(key, effect.relationship)
            &&& follow_first.seen == state.seen.insert(follow.id@.text).insert(undo.id@.text)
            &&& undo_first.seen == follow_first.seen
        },
{
    let effect = follow_effect(follow, dir)->Ok_0;
    let key = effect.relationship.key_spec();
    let after_f = after_follow(state, follow, dir);
    let after_u = after_about(state, undo, dir);
    assert(about_step(state, undo, dir) == AboutStep::Applied(FollowChange::Remove(key)));
    assert(about_step(after_f, undo, dir) == AboutStep::Applied(FollowChange::Remove(key)));
    lemma_follow_verdict_ignores_relationships(follow, dir, state.follows, after_u.follows);
    assert(follow_step(after_u, follow, dir) == FollowStep::Applied(effect));
    let follow_first = after_about(after_f, undo, dir);
    let undo_first = after_follow(after_u, follow, dir);
    assert(follow_first.follows =~= state.follows.remove(key));
    assert(undo_first.follows =~= state.follows.insert(key, effect.relationship));
    assert(undo_first.seen =~= follow_first.seen);
}

} // verus!
