use apub_engine::directory::{Directory, FollowTarget};
use apub_engine::error::FederationError;
use apub_engine::follow::{
    check_follower,
    decide_for_target,
    decide_with_instance,
    follow_state_for,
    lacks_private_community_support,
    CommunityOrMulti,
    TargetDecision,
};
use apub_engine::inbox::{InboxState, Submission};
use apub_engine::protocol::{AboutFollow, AboutFollowKind, Follow, Payload};
use apub_engine::records::{
    ActorType,
    CommunityRecord,
    InstanceRecord,
    MultiCommunityRecord,
    PersonRecord,
    TargetKind,
    TargetVisibility,
};
use apub_engine::store::{FollowKey, FollowRelationship, FollowState, FollowStore};
use apub_engine::uri::Uri;

const BASE: &str = "https://local.example";

fn uri(text: &str) -> Uri {
    Uri::parse(text).unwrap()
}

fn person(id: u64, ap_id: &str, instance_id: u64) -> PersonRecord {
    PersonRecord {
        id,
        ap_id: uri(ap_id),
        inbox: uri(&format!("{}/inbox", ap_id)),
        instance_id,
        local: false,
        banned: false,
    }
}

fn community(id: u64, ap_id: &str, visibility: TargetVisibility) -> CommunityRecord {
    CommunityRecord {
        id,
        ap_id: uri(ap_id),
        inbox: uri(&format!("{}/inbox", ap_id)),
        instance_id: 100,
        local: true,
        visibility,
        deleted: false,
        removed: false,
    }
}

fn directory() -> Directory {
    let mut dir = Directory::new();
    assert!(dir.add_person(person(1, "https://remote.example/u/alice", 1)));
    assert!(dir.add_person(person(2, "https://kbin.example/u/karl", 2)));
    assert!(dir.add_person(person(3, "https://mbin.example/u/mia", 3)));
    assert!(dir.add_person(person(4, "https://lost.example/u/lou", 4)));
    assert!(dir.add_person(person(5, "https://local.example/u/bob", 100)));
    let mut banned = person(6, "https://remote.example/u/mallory", 1);
    banned.banned = true;
    assert!(dir.add_person(banned));
    dir.add_instance(InstanceRecord {
        id: 1,
        software: Some("lemmy".to_string()),
        version: Some("0.19.5".to_string()),
    });
    dir.add_instance(InstanceRecord { id: 2, software: Some("kbin".to_string()), version: None });
    dir.add_instance(InstanceRecord { id: 3, software: Some("mbin".to_string()), version: None });
    assert!(dir.add_community(community(10, "https://local.example/c/open", TargetVisibility::Public)));
    assert!(dir.add_community(
        community(11, "https://local.example/c/quiet", TargetVisibility::Unlisted)
    ));
    assert!(dir.add_community(
        community(12, "https://local.example/c/closed", TargetVisibility::Private)
    ));
    assert!(dir.add_community(
        community(13, "https://local.example/c/home", TargetVisibility::LocalOnlyPublic)
    ));
    assert!(dir.add_community(
        community(14, "https://local.example/c/cellar", TargetVisibility::LocalOnlyPrivate)
    ));
    assert!(dir.add_multi_community(MultiCommunityRecord {
        id: 20,
        ap_id: uri("https://local.example/m/picks"),
        inbox: uri("https://local.example/m/picks/inbox"),
        local: true,
    }));
    dir
}

fn follow(id: &str, actor: &str, object: &str) -> Follow {
    Follow { actor: uri(actor), object: uri(object), to: Some(uri(object)), id: uri(id) }
}

fn undo(id: &str, inner: Follow) -> AboutFollow {
    AboutFollow {
        kind: AboutFollowKind::Undo,
        actor: inner.actor.clone(),
        to: Some(inner.object.clone()),
        object: inner,
        id: uri(id),
    }
}

fn answer(kind: AboutFollowKind, id: &str, inner: Follow) -> AboutFollow {
    AboutFollow {
        kind,
        actor: inner.object.clone(),
        to: Some(inner.actor.clone()),
        object: inner,
        id: uri(id),
    }
}

fn key(follower_id: u64, target_kind: TargetKind, target_id: u64) -> FollowKey {
    FollowKey { follower_id, target_kind, target_id }
}

#[test]
fn the_state_follows_from_visibility_and_platform() {
    assert_eq!(follow_state_for(TargetVisibility::Public, false), Ok(FollowState::Accepted));
    assert_eq!(follow_state_for(TargetVisibility::Public, true), Ok(FollowState::Accepted));
    assert_eq!(follow_state_for(TargetVisibility::Unlisted, false), Ok(FollowState::Accepted));
    assert_eq!(follow_state_for(TargetVisibility::Unlisted, true), Ok(FollowState::Accepted));
    assert_eq!(
        follow_state_for(TargetVisibility::Private, false),
        Ok(FollowState::ApprovalRequired)
    );
    assert_eq!(
        follow_state_for(TargetVisibility::Private, true),
        Err(FederationError::PlatformLackingPrivateCommunitySupport)
    );
    assert_eq!(
        follow_state_for(TargetVisibility::LocalOnlyPublic, false),
        Err(FederationError::NotFound)
    );
    assert_eq!(
        follow_state_for(TargetVisibility::LocalOnlyPrivate, false),
        Err(FederationError::NotFound)
    );
    assert_eq!(
        follow_state_for(TargetVisibility::LocalOnlyPrivate, true),
        Err(FederationError::NotFound)
    );
}

#[test]
fn kbin_and_mbin_lack_private_communities() {
    assert!(lacks_private_community_support(&Some("kbin".to_string())));
    assert!(lacks_private_community_support(&Some("mbin".to_string())));
    assert!(!lacks_private_community_support(&Some("lemmy".to_string())));
    assert!(!lacks_private_community_support(&Some("Kbin".to_string())));
    assert!(!lacks_private_community_support(&None));
}

#[test]
fn a_new_follow_is_addressed_to_its_object() {
    let actor = person(5, "https://local.example/u/bob", 100);
    let target = CommunityOrMulti::Community(community(
        30,
        "https://remote.example/c/far",
        TargetVisibility::Public,
    ));
    let f = Follow::new(&actor, &target, BASE).unwrap();
    assert_eq!(f.actor().as_str(), "https://local.example/u/bob");
    assert_eq!(f.object.as_str(), "https://remote.example/c/far");
    assert_eq!(f.to.as_ref().unwrap().as_str(), "https://remote.example/c/far");
    assert!(f.id().as_str().starts_with("https://local.example/activities/follow/"));
}

#[test]
fn a_new_follow_needs_a_base_that_is_a_url() {
    let actor = person(5, "https://local.example/u/bob", 100);
    let target = CommunityOrMulti::Community(community(
        30,
        "https://remote.example/c/far",
        TargetVisibility::Public,
    ));
    assert!(matches!(Follow::new(&actor, &target, "nowhere"), Err(FederationError::MalformedUrl)));
    assert!(matches!(Follow::send(&actor, &target, "nowhere"), Err(FederationError::MalformedUrl)));
}

#[test]
fn sending_a_follow_makes_one_sensitive_entry_for_the_target_inbox() {
    let actor = person(5, "https://local.example/u/bob", 100);
    let target = CommunityOrMulti::MultiCommunity(MultiCommunityRecord {
        id: 31,
        ap_id: uri("https://remote.example/m/far"),
        inbox: uri("https://remote.example/inbox"),
        local: false,
    });
    let record = Follow::send(&actor, &target, BASE).unwrap();
    assert!(record.sensitive);
    assert_eq!(record.actor_type, ActorType::Person);
    assert_eq!(record.actor_id.as_str(), "https://local.example/u/bob");
    assert_eq!(record.send_targets.inboxes().len(), 1);
    assert_eq!(record.send_targets.inboxes()[0].as_str(), "https://remote.example/inbox");
    assert!(!record.send_targets.all_instances());
    assert_eq!(record.send_targets.followers_of(), None);
    match &record.payload {
        Payload::Follow(f) => {
            assert_eq!(f.id, record.ap_id);
            assert_eq!(f.object.as_str(), "https://remote.example/m/far");
        }
        _ => panic!("a follow was expected"),
    }
}

#[test]
fn verify_rejects_a_target_other_than_the_object() {
    let dir = directory();
    let follows = FollowStore::new();
    let mut f = follow(
        "https://remote.example/activities/follow/1",
        "https://remote.example/u/alice",
        "https://local.example/c/open",
    );
    assert_eq!(f.verify(&dir, &follows), Ok(()));
    f.to = Some(uri("https://local.example/c/quiet"));
    assert_eq!(f.verify(&dir, &follows), Err(FederationError::UrlVerificationError));
    f.to = None;
    assert_eq!(f.verify(&dir, &follows), Ok(()));
}

#[test]
fn verify_rejects_unknown_and_banned_actors_and_unknown_objects() {
    let dir = directory();
    let follows = FollowStore::new();
    let unknown = follow(
        "https://remote.example/activities/follow/1",
        "https://remote.example/u/nobody",
        "https://local.example/c/open",
    );
    assert_eq!(unknown.verify(&dir, &follows), Err(FederationError::NotFound));
    let banned = follow(
        "https://remote.example/activities/follow/2",
        "https://remote.example/u/mallory",
        "https://local.example/c/open",
    );
    assert_eq!(banned.verify(&dir, &follows), Err(FederationError::Banned));
    let nothing = follow(
        "https://remote.example/activities/follow/3",
        "https://remote.example/u/alice",
        "https://local.example/c/nothing",
    );
    assert_eq!(nothing.verify(&dir, &follows), Err(FederationError::NotFound));
}

#[test]
fn following_a_person_is_accepted_and_answered() {
    let dir = directory();
    let mut follows = FollowStore::new();
    let f = follow(
        "https://remote.example/activities/follow/1",
        "https://remote.example/u/alice",
        "https://local.example/u/bob",
    );
    let sent = f.receive(&dir, &mut follows, BASE).unwrap().unwrap();
    assert_eq!(
        follows.get(&key(1, TargetKind::Person, 5)),
        Some(FollowRelationship::new(key(1, TargetKind::Person, 5), FollowState::Accepted))
    );
    assert!(sent.sensitive);
    assert_eq!(sent.actor_type, ActorType::Person);
    assert_eq!(sent.actor_id.as_str(), "https://local.example/u/bob");
    assert_eq!(sent.send_targets.inboxes().len(), 1);
    assert_eq!(sent.send_targets.inboxes()[0].as_str(), "https://remote.example/u/alice/inbox");
    match &sent.payload {
        Payload::AboutFollow(a) => {
            assert_eq!(a.kind, AboutFollowKind::Accept);
            assert_eq!(a.actor.as_str(), "https://local.example/u/bob");
            assert_eq!(a.to.as_ref().unwrap().as_str(), "https://remote.example/u/alice");
            assert_eq!(a.object.id.as_str(), "https://remote.example/activities/follow/1");
            assert!(a.id.as_str().starts_with("https://local.example/activities/accept/"));
            assert_eq!(a.id, sent.ap_id);
        }
        _ => panic!("an acceptance was expected"),
    }
}

#[test]
fn following_a_multi_community_is_accepted_and_answered() {
    let dir = directory();
    let mut follows = FollowStore::new();
    let f = follow(
        "https://remote.example/activities/follow/1",
        "https://remote.example/u/alice",
        "https://local.example/m/picks",
    );
    let sent = f.receive(&dir, &mut follows, BASE).unwrap().unwrap();
    assert_eq!(
        follows.get(&key(1, TargetKind::MultiCommunity, 20)).unwrap().state,
        FollowState::Accepted
    );
    assert_eq!(sent.actor_type, ActorType::MultiCommunity);
}

#[test]
fn a_public_and_an_unlisted_community_accept_and_answer() {
    let dir = directory();
    let mut follows = FollowStore::new();
    let open = follow(
        "https://remote.example/activities/follow/1",
        "https://remote.example/u/alice",
        "https://local.example/c/open",
    );
    let sent = open.receive(&dir, &mut follows, BASE).unwrap();
    assert!(sent.is_some());
    assert_eq!(sent.unwrap().actor_type, ActorType::Community);
    assert_eq!(follows.get(&key(1, TargetKind::Community, 10)).unwrap().state, FollowState::Accepted);
    let quiet = follow(
        "https://remote.example/activities/follow/2",
        "https://remote.example/u/alice",
        "https://local.example/c/quiet",
    );
    assert!(quiet.receive(&dir, &mut follows, BASE).unwrap().is_some());
    assert_eq!(follows.get(&key(1, TargetKind::Community, 11)).unwrap().state, FollowState::Accepted);
}

#[test]
fn a_private_community_asks_for_approval_and_does_not_answer() {
    let dir = directory();
    let mut follows = FollowStore::new();
    let f = follow(
        "https://remote.example/activities/follow/1",
        "https://remote.example/u/alice",
        "https://local.example/c/closed",
    );
    assert!(f.receive(&dir, &mut follows, BASE).unwrap().is_none());
    assert_eq!(
        follows.get(&key(1, TargetKind::Community, 12)).unwrap().state,
        FollowState::ApprovalRequired
    );
}

#[test]
fn a_private_community_turns_incompatible_platforms_away() {
    let dir = directory();
    let mut follows = FollowStore::new();
    let karl = follow(
        "https://kbin.example/activities/follow/1",
        "https://kbin.example/u/karl",
        "https://local.example/c/closed",
    );
    assert!(matches!(
        karl.receive(&dir, &mut follows, BASE),
        Err(FederationError::PlatformLackingPrivateCommunitySupport)
    ));
    let mia = follow(
        "https://mbin.example/activities/follow/1",
        "https://mbin.example/u/mia",
        "https://local.example/c/closed",
    );
    assert!(matches!(
        mia.receive(&dir, &mut follows, BASE),
        Err(FederationError::PlatformLackingPrivateCommunitySupport)
    ));
    assert_eq!(follows.len(), 0);
}

#[test]
fn an_incompatible_platform_may_follow_a_public_community() {
    let dir = directory();
    let mut follows = FollowStore::new();
    let karl = follow(
        "https://kbin.example/activities/follow/1",
        "https://kbin.example/u/karl",
        "https://local.example/c/open",
    );
    assert!(karl.receive(&dir, &mut follows, BASE).unwrap().is_some());
    assert_eq!(follows.get(&key(2, TargetKind::Community, 10)).unwrap().state, FollowState::Accepted);
}

#[test]
fn a_private_community_needs_the_follower_instance_to_be_known() {
    let dir = directory();
    let mut follows = FollowStore::new();
    let lou = follow(
        "https://lost.example/activities/follow/1",
        "https://lost.example/u/lou",
        "https://local.example/c/closed",
    );
    assert!(matches!(lou.receive(&dir, &mut follows, BASE), Err(FederationError::NotFound)));
    let lou = follow(
        "https://lost.example/activities/follow/2",
        "https://lost.example/u/lou",
        "https://local.example/c/open",
    );
    assert!(lou.receive(&dir, &mut follows, BASE).is_ok());
}

#[test]
fn a_local_only_community_is_hidden() {
    let dir = directory();
    let mut follows = FollowStore::new();
    for object in ["https://local.example/c/home", "https://local.example/c/cellar"] {
        let f = follow(
            "https://remote.example/activities/follow/1",
            "https://remote.example/u/alice",
            object,
        );
        assert!(matches!(f.receive(&dir, &mut follows, BASE), Err(FederationError::NotFound)));
    }
    assert_eq!(follows.len(), 0);
}

#[test]
fn nothing_is_written_when_the_acceptance_cannot_be_made() {
    let dir = directory();
    let mut follows = FollowStore::new();
    let f = follow(
        "https://remote.example/activities/follow/1",
        "https://remote.example/u/alice",
        "https://local.example/c/open",
    );
    assert!(matches!(f.receive(&dir, &mut follows, "nowhere"), Err(FederationError::MalformedUrl)));
    assert_eq!(follows.len(), 0);
    let f = follow(
        "https://remote.example/activities/follow/1",
        "https://remote.example/u/alice",
        "https://local.example/c/closed",
    );
    assert!(f.receive(&dir, &mut follows, "nowhere").unwrap().is_none());
    assert_eq!(follows.len(), 1);
}

#[test]
fn the_same_follow_twice_is_taken_in_once() {
    let dir = directory();
    let mut inbox = InboxState::new();
    let first = follow(
        "https://remote.example/activities/follow/1",
        "https://remote.example/u/alice",
        "https://local.example/c/open",
    );
    let second = first.copy();
    assert!(matches!(
        inbox.submit_follow(first, &dir, BASE),
        Ok(Submission::Applied(Some(_)))
    ));
    assert!(matches!(inbox.submit_follow(second, &dir, BASE), Ok(Submission::Replayed)));
    assert_eq!(inbox.follows.len(), 1);
    assert_eq!(
        inbox.follows.get(&key(1, TargetKind::Community, 10)).unwrap().state,
        FollowState::Accepted
    );
}

#[test]
fn the_state_does_not_depend_on_earlier_relationships() {
    let dir = directory();
    let mut fresh = InboxState::new();
    let mut used = InboxState::new();
    used.follows.upsert(FollowRelationship {
        follower_id: 1,
        target_kind: TargetKind::Community,
        target_id: 12,
        state: FollowState::Accepted,
        pending_undo: true,
    });
    used.follows.upsert(FollowRelationship::new(key(3, TargetKind::Community, 10), FollowState::Pending));
    let f = follow(
        "https://remote.example/activities/follow/1",
        "https://remote.example/u/alice",
        "https://local.example/c/closed",
    );
    let g = f.copy();
    assert!(matches!(fresh.submit_follow(f, &dir, BASE), Ok(Submission::Applied(None))));
    assert!(matches!(used.submit_follow(g, &dir, BASE), Ok(Submission::Applied(None))));
    let k = key(1, TargetKind::Community, 12);
    assert_eq!(fresh.follows.get(&k), used.follows.get(&k));
    assert_eq!(
        used.follows.get(&k),
        Some(FollowRelationship::new(k, FollowState::ApprovalRequired))
    );
    assert_eq!(used.follows.len(), 2);
}

#[test]
fn a_mismatched_target_is_rejected_before_anything_is_written() {
    let dir = directory();
    let mut inbox = InboxState::new();
    let mut f = follow(
        "https://remote.example/activities/follow/1",
        "https://remote.example/u/alice",
        "https://local.example/c/open",
    );
    f.to = Some(uri("https://local.example/c/quiet"));
    assert!(matches!(
        inbox.submit_follow(f, &dir, BASE),
        Err(FederationError::UrlVerificationError)
    ));
    assert_eq!(inbox.follows.len(), 0);
    assert!(!inbox.seen.contains("https://remote.example/activities/follow/1"));
}

#[test]
fn a_follow_of_a_local_only_private_community_leaves_no_trace() {
    let dir = directory();
    let mut inbox = InboxState::new();
    let f = follow(
        "https://remote.example/activities/follow/1",
        "https://remote.example/u/alice",
        "https://local.example/c/cellar",
    );
    assert!(matches!(inbox.submit_follow(f, &dir, BASE), Err(FederationError::NotFound)));
    assert_eq!(inbox.follows.len(), 0);
    assert!(!inbox.seen.contains("https://remote.example/activities/follow/1"));
}

#[test]
fn a_rejected_follow_may_be_submitted_again() {
    let mut dir = Directory::new();
    let mut inbox = InboxState::new();
    let f = follow(
        "https://remote.example/activities/follow/1",
        "https://remote.example/u/alice",
        "https://local.example/u/bob",
    );
    assert!(matches!(inbox.submit_follow(f.copy(), &dir, BASE), Err(FederationError::NotFound)));
    assert!(dir.add_person(person(1, "https://remote.example/u/alice", 1)));
    assert!(dir.add_person(person(5, "https://local.example/u/bob", 100)));
    assert!(matches!(inbox.submit_follow(f, &dir, BASE), Ok(Submission::Applied(Some(_)))));
}

#[test]
fn follow_then_undo_leaves_no_relationship() {
    let dir = directory();
    let mut inbox = InboxState::new();
    let f = follow(
        "https://remote.example/activities/follow/1",
        "https://remote.example/u/alice",
        "https://local.example/c/open",
    );
    let u = undo("https://remote.example/activities/undo/1", f.copy());
    assert!(matches!(inbox.submit_follow(f, &dir, BASE), Ok(Submission::Applied(Some(_)))));
    assert!(matches!(inbox.submit_about_follow(u, &dir), Ok(Submission::Applied(None))));
    assert_eq!(inbox.follows.get(&key(1, TargetKind::Community, 10)), None);
    assert_eq!(inbox.follows.len(), 0);
    assert!(inbox.seen.contains("https://remote.example/activities/follow/1"));
    assert!(inbox.seen.contains("https://remote.example/activities/undo/1"));
}

#[test]
fn undo_then_follow_leaves_the_relationship() {
    let dir = directory();
    let mut inbox = InboxState::new();
    let f = follow(
        "https://remote.example/activities/follow/1",
        "https://remote.example/u/alice",
        "https://local.example/c/open",
    );
    let u = undo("https://remote.example/activities/undo/1", f.copy());
    assert!(matches!(inbox.submit_about_follow(u, &dir), Ok(Submission::Applied(None))));
    assert!(matches!(inbox.submit_follow(f, &dir, BASE), Ok(Submission::Applied(Some(_)))));
    assert_eq!(
        inbox.follows.get(&key(1, TargetKind::Community, 10)),
        Some(FollowRelationship::new(key(1, TargetKind::Community, 10), FollowState::Accepted))
    );
    assert_eq!(inbox.follows.len(), 1);
    assert!(inbox.seen.contains("https://remote.example/activities/follow/1"));
    assert!(inbox.seen.contains("https://remote.example/activities/undo/1"));
}

#[test]
fn duplicates_in_any_order_do_not_change_the_end() {
    let dir = directory();
    let mut inbox = InboxState::new();
    let f = follow(
        "https://remote.example/activities/follow/1",
        "https://remote.example/u/alice",
        "https://local.example/c/open",
    );
    let u = undo("https://remote.example/activities/undo/1", f.copy());
    assert!(inbox.submit_follow(f.copy(), &dir, BASE).is_ok());
    assert!(inbox.submit_about_follow(undo("https://remote.example/activities/undo/1", f.copy()), &dir).is_ok());
    assert!(matches!(inbox.submit_follow(f, &dir, BASE), Ok(Submission::Replayed)));
    assert!(matches!(inbox.submit_about_follow(u, &dir), Ok(Submission::Replayed)));
    assert_eq!(inbox.follows.len(), 0);
}

#[test]
fn an_undo_must_come_from_the_follower() {
    let dir = directory();
    let mut inbox = InboxState::new();
    let f = follow(
        "https://remote.example/activities/follow/1",
        "https://remote.example/u/alice",
        "https://local.example/c/open",
    );
    assert!(inbox.submit_follow(f.copy(), &dir, BASE).is_ok());
    let mut forged = undo("https://kbin.example/activities/undo/1", f.copy());
    forged.actor = uri("https://kbin.example/u/karl");
    assert!(matches!(
        inbox.submit_about_follow(forged, &dir),
        Err(FederationError::UrlVerificationError)
    ));
    let mut misaddressed = undo("https://remote.example/activities/undo/2", f.copy());
    misaddressed.to = Some(uri("https://local.example/c/quiet"));
    assert!(matches!(
        inbox.submit_about_follow(misaddressed, &dir),
        Err(FederationError::UrlVerificationError)
    ));
    let mut unknown = undo("https://remote.example/activities/undo/3", f.copy());
    unknown.actor = uri("https://remote.example/u/nobody");
    assert!(matches!(inbox.submit_about_follow(unknown, &dir), Err(FederationError::NotFound)));
    let mut banned = undo("https://remote.example/activities/undo/4", f);
    banned.actor = uri("https://remote.example/u/mallory");
    assert!(matches!(inbox.submit_about_follow(banned, &dir), Err(FederationError::Banned)));
    assert_eq!(inbox.follows.len(), 1);
}

#[test]
fn an_acceptance_marks_the_relationship_accepted() {
    let dir = directory();
    let mut inbox = InboxState::new();
    let k = key(5, TargetKind::Community, 12);
    inbox.follows.upsert(FollowRelationship {
        follower_id: 5,
        target_kind: TargetKind::Community,
        target_id: 12,
        state: FollowState::Pending,
        pending_undo: true,
    });
    let f = follow(
        "https://local.example/activities/follow/1",
        "https://local.example/u/bob",
        "https://local.example/c/closed",
    );
    let a = answer(AboutFollowKind::Accept, "https://local.example/activities/accept/1", f);
    assert!(matches!(inbox.submit_about_follow(a, &dir), Ok(Submission::Applied(None))));
    assert_eq!(
        inbox.follows.get(&k),
        Some(FollowRelationship {
            follower_id: 5,
            target_kind: TargetKind::Community,
            target_id: 12,
            state: FollowState::Accepted,
            pending_undo: true,
        })
    );
}

#[test]
fn an_acceptance_without_a_relationship_is_dangling() {
    let dir = directory();
    let mut inbox = InboxState::new();
    let f = follow(
        "https://local.example/activities/follow/1",
        "https://local.example/u/bob",
        "https://local.example/c/closed",
    );
    let a = answer(AboutFollowKind::Accept, "https://local.example/activities/accept/1", f);
    assert!(matches!(inbox.submit_about_follow(a, &dir), Err(FederationError::NotFound)));
    assert_eq!(inbox.follows.len(), 0);
    assert!(!inbox.seen.contains("https://local.example/activities/accept/1"));
}

#[test]
fn a_rejection_deletes_the_relationship() {
    let dir = directory();
    let mut inbox = InboxState::new();
    let k = key(5, TargetKind::Community, 12);
    inbox.follows.upsert(FollowRelationship::new(k, FollowState::Pending));
    let f = follow(
        "https://local.example/activities/follow/1",
        "https://local.example/u/bob",
        "https://local.example/c/closed",
    );
    let r = answer(AboutFollowKind::Reject, "https://local.example/activities/reject/1", f.copy());
    assert!(matches!(inbox.submit_about_follow(r, &dir), Ok(Submission::Applied(None))));
    assert_eq!(inbox.follows.get(&k), None);
    let again = answer(AboutFollowKind::Reject, "https://local.example/activities/reject/2", f);
    assert!(matches!(inbox.submit_about_follow(again, &dir), Ok(Submission::Applied(None))));
    assert_eq!(inbox.follows.len(), 0);
}

#[test]
fn an_answer_must_come_from_the_target() {
    let dir = directory();
    let mut inbox = InboxState::new();
    let k = key(5, TargetKind::Community, 12);
    inbox.follows.upsert(FollowRelationship::new(k, FollowState::Pending));
    let f = follow(
        "https://local.example/activities/follow/1",
        "https://local.example/u/bob",
        "https://local.example/c/closed",
    );
    let mut forged = answer(AboutFollowKind::Accept, "https://local.example/activities/accept/1", f.copy());
    forged.actor = uri("https://local.example/c/open");
    assert!(matches!(
        inbox.submit_about_follow(forged, &dir),
        Err(FederationError::UrlVerificationError)
    ));
    let mut unknown = answer(AboutFollowKind::Accept, "https://local.example/activities/accept/2", f.copy());
    unknown.actor = uri("https://local.example/c/nothing");
    assert!(matches!(inbox.submit_about_follow(unknown, &dir), Err(FederationError::NotFound)));
    let mut misaddressed = answer(AboutFollowKind::Reject, "https://local.example/activities/reject/3", f);
    misaddressed.to = Some(uri("https://remote.example/u/alice"));
    assert!(matches!(
        inbox.submit_about_follow(misaddressed, &dir),
        Err(FederationError::UrlVerificationError)
    ));
    assert_eq!(inbox.follows.get(&k).unwrap().state, FollowState::Pending);
}

#[test]
fn the_follower_settles_the_first_checks() {
    let mut f = follow(
        "https://remote.example/activities/follow/1",
        "https://remote.example/u/alice",
        "https://local.example/c/open",
    );
    let alice = person(1, "https://remote.example/u/alice", 1);
    let mut mallory = person(6, "https://remote.example/u/mallory", 1);
    mallory.banned = true;
    assert_eq!(check_follower(&f, Some(&alice)), Ok(()));
    assert_eq!(check_follower(&f, None), Err(FederationError::NotFound));
    assert_eq!(check_follower(&f, Some(&mallory)), Err(FederationError::Banned));
    f.to = Some(uri("https://local.example/c/quiet"));
    assert_eq!(check_follower(&f, None), Err(FederationError::NotFound));
    assert_eq!(check_follower(&f, Some(&mallory)), Err(FederationError::Banned));
    assert_eq!(check_follower(&f, Some(&alice)), Err(FederationError::UrlVerificationError));
}

#[test]
fn only_a_private_community_asks_for_the_instance() {
    let alice = person(1, "https://remote.example/u/alice", 77);
    let bob = FollowTarget::Person(person(5, "https://local.example/u/bob", 100));
    assert_eq!(
        decide_for_target(Some(&bob), &alice),
        Ok(TargetDecision::Settled(FollowState::Accepted))
    );
    assert_eq!(decide_for_target(None, &alice), Err(FederationError::NotFound));
    let of = |v| FollowTarget::Community(community(10, "https://local.example/c/x", v));
    assert_eq!(
        decide_for_target(Some(&of(TargetVisibility::Public)), &alice),
        Ok(TargetDecision::Settled(FollowState::Accepted))
    );
    assert_eq!(
        decide_for_target(Some(&of(TargetVisibility::Unlisted)), &alice),
        Ok(TargetDecision::Settled(FollowState::Accepted))
    );
    assert_eq!(
        decide_for_target(Some(&of(TargetVisibility::Private)), &alice),
        Ok(TargetDecision::NeedsInstance(77))
    );
    assert_eq!(
        decide_for_target(Some(&of(TargetVisibility::LocalOnlyPublic)), &alice),
        Err(FederationError::NotFound)
    );
    assert_eq!(
        decide_for_target(Some(&of(TargetVisibility::LocalOnlyPrivate)), &alice),
        Err(FederationError::NotFound)
    );
    let lemmy = InstanceRecord { id: 77, software: Some("lemmy".to_string()), version: None };
    let kbin = InstanceRecord { id: 77, software: Some("kbin".to_string()), version: None };
    assert_eq!(decide_with_instance(Some(&lemmy)), Ok(FollowState::ApprovalRequired));
    assert_eq!(
        decide_with_instance(Some(&kbin)),
        Err(FederationError::PlatformLackingPrivateCommunitySupport)
    );
    assert_eq!(decide_with_instance(None), Err(FederationError::NotFound));
}
