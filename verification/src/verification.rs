//! The checks that every inbound activity passes before anything is changed.
//! They run in a fixed order and the first failure is the verdict.

use vstd::prelude::*;
use crate::directory::{Directory, FollowTarget};
use crate::error::FederationError;
use crate::kinds::ActivityKind;
use crate::records::{CommunityRecord, PersonRecord, TargetKind};
use crate::store::{FollowKey, FollowRelationship, FollowState, FollowStore};
use crate::uri::{Uri, UriView};

verus! {

/// The host and port under which this instance is reached.
#[derive(Debug)]
pub struct LocalDomain {
    pub host: String,
    /// The port, where it is written in this instance's addresses.
    pub port: Option<u16>,
}

impl LocalDomain {
    /// Whether a URL points at this instance: same host, same written port.
    pub open spec fn owns_spec(&self, uri: UriView) -> bool {
        uri.host == Some(self.host@) && uri.port == self.port
    }

    /// Whether a URL points at this instance.
    pub fn owns(&self, uri: &Uri) -> (b: bool)
        ensures
            b == self.owns_spec(uri@),
    {
        match uri.host() {
            Some(h) => *h == self.host && uri.port() == self.port,
            None => false,
        }
    }
}

/// The two URLs must be the same.
pub open spec fn urls_match_spec(a: UriView, b: UriView) -> Result<(), FederationError> {
    if a.text == b.text {
        Ok(())
    } else {
        Err(FederationError::UrlVerificationError)
    }
}

/// Fails with `UrlVerificationError` unless both URLs are the same.
pub fn verify_urls_match(a: &Uri, b: &Uri) -> (r: Result<(), FederationError>)
    ensures
        r == urls_match_spec(a@, b@),
{
    if !a.same_as(b) {
        return Err(FederationError::UrlVerificationError);
    }
    Ok(())
}

/// Two URLs are of one home when both have a host and it is the same one,
/// be it a domain name or an address. Two URLs without a host are of no
/// home, and so not of the same.
pub open spec fn same_home_spec(a: UriView, b: UriView) -> bool {
    a.host is Some && a.host == b.host
}

/// The two URLs must be of one home.
pub open spec fn domains_match_spec(a: UriView, b: UriView) -> Result<(), FederationError> {
    if same_home_spec(a, b) {
        Ok(())
    } else {
        Err(FederationError::DomainMismatch)
    }
}

/// Fails with `DomainMismatch` unless both URLs have a host and it is the
/// same.
pub fn verify_domains_match(a: &Uri, b: &Uri) -> (r: Result<(), FederationError>)
    ensures
        r == domains_match_spec(a@, b@),
{
    if !a.same_host_as(b) {
        return Err(FederationError::DomainMismatch);
    }
    Ok(())
}

/// An object that others author must not carry this instance's address.
pub open spec fn remote_object_spec(id: UriView, local: LocalDomain) -> Result<
    (),
    FederationError,
> {
    if local.owns_spec(id) {
        Err(FederationError::NotRemote)
    } else {
        Ok(())
    }
}

/// Fails with `NotRemote` when the identifier points at this instance.
pub fn verify_is_remote_object(id: &Uri, local: &LocalDomain) -> (r: Result<(), FederationError>)
    ensures
        r == remote_object_spec(id@, *local),
{
    if local.owns(id) {
        Err(FederationError::NotRemote)
    } else {
        Ok(())
    }
}

/// The origin of an object that only its author's instance may send: the
/// identifier is not local, else `NotRemote`; and the author's host is the
/// identifier's, else `DomainMismatch`.
pub open spec fn remote_origin_spec(id: UriView, attributed_to: UriView, local: LocalDomain) -> Result<
    (),
    FederationError,
> {
    if local.owns_spec(id) {
        Err(FederationError::NotRemote)
    } else {
        domains_match_spec(attributed_to, id)
    }
}

/// Checks the origin of an object that only its author's instance may send.
pub fn verify_remote_origin(id: &Uri, attributed_to: &Uri, local: &LocalDomain) -> (r: Result<
    (),
    FederationError,
>)
    ensures
        r == remote_origin_spec(id@, attributed_to@, *local),
{
    verify_is_remote_object(id, local)?;
    verify_domains_match(attributed_to, id)
}

/// The actor must be known, else `NotFound`, and not banned here, else
/// `Banned`.
pub open spec fn actor_trust_spec(dir: Directory, actor: Seq<char>) -> Result<
    PersonRecord,
    FederationError,
> {
    match dir.person_by_ap_id_spec(actor) {
        None => Err(FederationError::NotFound),
        Some(p) => if p.banned {
            Err(FederationError::Banned)
        } else {
            Ok(p)
        },
    }
}

/// Checks that the identifier names a known person without an active ban, and
/// hands that person's record out.
pub fn trusted_actor<'a>(person_id: &Uri, dir: &'a Directory) -> (r: Result<
    &'a PersonRecord,
    FederationError,
>)
    ensures
        match actor_trust_spec(*dir, person_id@.text) {
            Ok(p) => r == Ok::<&PersonRecord, FederationError>(&p),
            Err(e) => r == Err::<&PersonRecord, FederationError>(e),
        },
{
    match dir.person_by_ap_id(person_id) {
        None => Err(FederationError::NotFound),
        Some(p) => {
            if p.banned {
                Err(FederationError::Banned)
            } else {
                Ok(p)
            }
        },
    }
}

/// The verdict of `verify_person`.
pub open spec fn verify_person_spec(dir: Directory, actor: Seq<char>) -> Result<(), FederationError> {
    match actor_trust_spec(dir, actor) {
        Ok(_) => Ok(()),
        Err(e) => Err(e),
    }
}

/// Checks that the identifier names a known person without an active ban.
pub fn verify_person(person_id: &Uri, dir: &Directory) -> (r: Result<(), FederationError>)
    ensures
        r == verify_person_spec(*dir, person_id@.text),
{
    match trusted_actor(person_id, dir) {
        Ok(_) => Ok(()),
        Err(e) => Err(e),
    }
}

/// The triple under which a person's membership of a community is filed.
pub open spec fn membership_key(person_id: u64, community_id: u64) -> FollowKey {
    FollowKey { follower_id: person_id, target_kind: TargetKind::Community, target_id: community_id }
}

/// A person is a current member of a community when the follow relationship
/// between the two is accepted.
pub open spec fn is_member_spec(
    follows: Map<FollowKey, FollowRelationship>,
    person_id: u64,
    community_id: u64,
) -> bool {
    follows.contains_key(membership_key(person_id, community_id)) && follows[membership_key(
        person_id,
        community_id,
    )].state == FollowState::Accepted
}

/// Whether the person is a current member of the community.
pub fn is_member(follows: &FollowStore, person_id: u64, community_id: u64) -> (b: bool)
    requires
        follows.wf(),
    ensures
        b == is_member_spec(follows@, person_id, community_id),
{
    let key = FollowKey {
        follower_id: person_id,
        target_kind: TargetKind::Community,
        target_id: community_id,
    };
    match follows.get(&key) {
        Some(r) => r.state == FollowState::Accepted,
        None => false,
    }
}

/// The verdict on an inbound activity, by the first check that fails:
/// the actor is unknown (`NotFound`) or banned (`Banned`); a declared target
/// differs from the object (`UrlVerificationError`); the object is a community
/// of which the actor is no current member, unless the activity asks for
/// membership (`NotAPartOfCommunity`).
pub open spec fn inbound_verdict(
    kind: ActivityKind,
    actor: UriView,
    object: UriView,
    to: Option<UriView>,
    dir: Directory,
    follows: Map<FollowKey, FollowRelationship>,
) -> Result<(), FederationError> {
    match actor_trust_spec(dir, actor.text) {
        Err(e) => Err(e),
        Ok(person) => {
            if to is Some && to->0.text != object.text {
                Err(FederationError::UrlVerificationError)
            } else {
                match dir.resolve_target_spec(object.text) {
                    Some(FollowTarget::Community(c)) => {
                        if kind.is_membership_request_spec() || is_member_spec(
                            follows,
                            person.id,
                            c.id,
                        ) {
                            Ok(())
                        } else {
                            Err(FederationError::NotAPartOfCommunity)
                        }
                    },
                    _ => Ok(()),
                }
            }
        },
    }
}

/// The view of an optional URL.
pub open spec fn opt_uri_view(o: Option<Uri>) -> Option<UriView> {
    match o {
        Some(u) => Some(u@),
        None => None,
    }
}

/// Runs the checks on an inbound activity in their order and stops at the
/// first that fails.
pub fn verify_inbound(
    kind: ActivityKind,
    actor: &Uri,
    object: &Uri,
    to: &Option<Uri>,
    dir: &Directory,
    follows: &FollowStore,
) -> (r: Result<(), FederationError>)
    requires
        follows.wf(),
    ensures
        r == inbound_verdict(kind, actor@, object@, opt_uri_view(*to), *dir, follows@),
{
    let person = trusted_actor(actor, dir)?;
    if let Some(t) = to {
        verify_urls_match(t, object)?;
    }
    match dir.resolve_target(object) {
        Some(FollowTarget::Community(c)) => {
            if kind.is_membership_request() || is_member(follows, person.id, c.id) {
                Ok(())
            } else {
                Err(FederationError::NotAPartOfCommunity)
            }
        },
        _ => Ok(()),
    }
}

/// The verdict on a moderation action in a community. An actor whose host is
/// the community's own is taken for an admin of the community's instance and
/// trusted without a look at its rights: a deliberate shortcut, weaker than a
/// check of the actor's admin status would be. It is given to no actor of
/// another host, and to none where actor or community has no host. Any other
/// actor must be known (`NotFound`) and be a moderator of the community or an
/// admin here (`NotAModerator`).
pub open spec fn mod_action_verdict(mod_id: UriView, community: CommunityRecord, dir: Directory) -> Result<
    (),
    FederationError,
> {
    if same_home_spec(mod_id, community.ap_id@) {
        Ok(())
    } else {
        match dir.person_by_ap_id_spec(mod_id.text) {
            None => Err(FederationError::NotFound),
            Some(p) => if dir.is_mod_or_admin_spec(p.id, community.id) {
                Ok(())
            } else {
                Err(FederationError::NotAModerator)
            },
        }
    }
}

/// Checks that a moderation action in a community comes from someone who may
/// moderate there.
pub fn verify_mod_action(mod_id: &Uri, community: &CommunityRecord, dir: &Directory) -> (r: Result<
    (),
    FederationError,
>)
    ensures
        r == mod_action_verdict(mod_id@, *community, *dir),
{
    if mod_id.same_host_as(&community.ap_id) {
        return Ok(());
    }
    match dir.person_by_ap_id(mod_id) {
        None => Err(FederationError::NotFound),
        Some(p) => {
            if dir.is_mod_or_admin(p.id, community.id) {
                Ok(())
            } else {
                Err(FederationError::NotAModerator)
            }
        },
    }
}

/// A deleted or removed community takes no new posts or comments.
pub fn check_community_deleted_or_removed(community: &CommunityRecord) -> (r: Result<
    (),
    FederationError,
>)
    ensures
        r == if community.deleted || community.removed {
            Err::<(), FederationError>(
                FederationError::CannotCreatePostOrCommentInDeletedOrRemovedCommunity,
            )
        } else {
            Ok::<(), FederationError>(())
        },
{
    if community.deleted || community.removed {
        Err(FederationError::CannotCreatePostOrCommentInDeletedOrRemovedCommunity)
    } else {
        Ok(())
    }
}

} // verus!
