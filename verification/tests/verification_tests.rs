use apub_engine::directory::Directory;
use apub_engine::error::FederationError;
use apub_engine::kinds::ActivityKind;
use apub_engine::records::{CommunityRecord, PersonRecord, TargetKind, TargetVisibility};
use apub_engine::store::{FollowKey, FollowRelationship, FollowState, FollowStore};
use apub_engine::uri::Uri;
use apub_engine::verification::{
    check_community_deleted_or_removed,
    is_member,
    verify_domains_match,
    verify_inbound,
    verify_is_remote_object,
    verify_mod_action,
    verify_person,
    verify_remote_origin,
    verify_urls_match,
    LocalDomain,
};

fn uri(text: &str) -> Uri {
    Uri::parse(text).unwrap()
}

fn person(id: u64, ap_id: &str, banned: bool) -> PersonRecord {
    PersonRecord {
        id,
        ap_id: uri(ap_id),
        inbox: uri(&format!("{}/inbox", ap_id)),
        instance_id: 1,
        local: false,
        banned,
    }
}

fn community(id: u64, ap_id: &str) -> CommunityRecord {
    CommunityRecord {
        id,
        ap_id: uri(ap_id),
        inbox: uri(&format!("{}/inbox", ap_id)),
        instance_id: 2,
        local: true,
        visibility: TargetVisibility::Public,
        deleted: false,
        removed: false,
    }
}

fn directory() -> Directory {
    let mut dir = Directory::new();
    assert!(dir.add_person(person(1, "https://remote.example/u/alice", false)));
    assert!(dir.add_person(person(2, "https://remote.example/u/mallory", true)));
    assert!(dir.add_person(person(3, "https://other.example/u/mod", false)));
    assert!(dir.add_person(person(4, "https://other.example/u/visitor", false)));
    assert!(dir.add_community(community(10, "https://local.example/c/main")));
    dir.add_moderator(10, 3);
    dir
}

#[test]
fn urls_match_only_when_identical() {
    let a = uri("https://example.com/abc");
    assert_eq!(verify_urls_match(&a, &uri("https://example.com/abc")), Ok(()));
    assert_eq!(
        verify_urls_match(&a, &uri("https://example.com/123")),
        Err(FederationError::UrlVerificationError)
    );
}

#[test]
fn domains_match_only_when_equal() {
    let a = uri("https://example.com/abc");
    assert_eq!(verify_domains_match(&a, &uri("https://example.com/xyz")), Ok(()));
    assert_eq!(
        verify_domains_match(&a, &uri("https://sample.net/abc")),
        Err(FederationError::DomainMismatch)
    );
}

#[test]
fn a_local_identifier_is_not_remote() {
    let local = LocalDomain { host: "local.example".to_string(), port: None };
    assert_eq!(
        verify_is_remote_object(&uri("https://local.example/pm/1"), &local),
        Err(FederationError::NotRemote)
    );
    assert_eq!(verify_is_remote_object(&uri("https://remote.example/pm/1"), &local), Ok(()));
    assert_eq!(verify_is_remote_object(&uri("https://local.example:8540/pm/1"), &local), Ok(()));
}

#[test]
fn a_local_domain_with_a_port_owns_only_that_port() {
    let local = LocalDomain { host: "localhost".to_string(), port: Some(8540) };
    assert!(local.owns(&uri("http://localhost:8540/u/a")));
    assert!(!local.owns(&uri("http://localhost:8541/u/a")));
    assert!(!local.owns(&uri("http://localhost/u/a")));
    assert!(!local.owns(&uri("mailto:a@localhost")));
}

#[test]
fn remote_origin_checks_locality_before_domains() {
    let local = LocalDomain { host: "local.example".to_string(), port: None };
    assert_eq!(
        verify_remote_origin(
            &uri("https://local.example/pm/1"),
            &uri("https://remote.example/u/alice"),
            &local
        ),
        Err(FederationError::NotRemote)
    );
    assert_eq!(
        verify_remote_origin(
            &uri("https://remote.example/pm/1"),
            &uri("https://other.example/u/alice"),
            &local
        ),
        Err(FederationError::DomainMismatch)
    );
    assert_eq!(
        verify_remote_origin(
            &uri("https://remote.example/pm/1"),
            &uri("https://remote.example/u/alice"),
            &local
        ),
        Ok(())
    );
}

#[test]
fn a_person_must_be_known_and_not_banned() {
    let dir = directory();
    assert_eq!(verify_person(&uri("https://remote.example/u/alice"), &dir), Ok(()));
    assert_eq!(
        verify_person(&uri("https://remote.example/u/nobody"), &dir),
        Err(FederationError::NotFound)
    );
    assert_eq!(
        verify_person(&uri("https://remote.example/u/mallory"), &dir),
        Err(FederationError::Banned)
    );
}

#[test]
fn the_actor_check_comes_before_the_addressing_check() {
    let dir = directory();
    let follows = FollowStore::new();
    let object = uri("https://local.example/c/main");
    let wrong = Some(uri("https://local.example/c/other"));
    assert_eq!(
        verify_inbound(
            ActivityKind::Follow,
            &uri("https://remote.example/u/nobody"),
            &object,
            &wrong,
            &dir,
            &follows
        ),
        Err(FederationError::NotFound)
    );
    assert_eq!(
        verify_inbound(
            ActivityKind::Follow,
            &uri("https://remote.example/u/mallory"),
            &object,
            &wrong,
            &dir,
            &follows
        ),
        Err(FederationError::Banned)
    );
    assert_eq!(
        verify_inbound(
            ActivityKind::Follow,
            &uri("https://remote.example/u/alice"),
            &object,
            &wrong,
            &dir,
            &follows
        ),
        Err(FederationError::UrlVerificationError)
    );
}

#[test]
fn the_addressing_check_comes_before_the_membership_check() {
    let dir = directory();
    let follows = FollowStore::new();
    assert_eq!(
        verify_inbound(
            ActivityKind::Create,
            &uri("https://remote.example/u/alice"),
            &uri("https://local.example/c/main"),
            &Some(uri("https://local.example/c/other")),
            &dir,
            &follows
        ),
        Err(FederationError::UrlVerificationError)
    );
}

#[test]
fn only_a_member_acts_in_a_community() {
    let dir = directory();
    let mut follows = FollowStore::new();
    let actor = uri("https://remote.example/u/alice");
    let object = uri("https://local.example/c/main");
    let to = Some(uri("https://local.example/c/main"));
    assert_eq!(
        verify_inbound(ActivityKind::Update, &actor, &object, &to, &dir, &follows),
        Err(FederationError::NotAPartOfCommunity)
    );
    let key = FollowKey { follower_id: 1, target_kind: TargetKind::Community, target_id: 10 };
    follows.upsert(FollowRelationship::new(key, FollowState::ApprovalRequired));
    assert!(!is_member(&follows, 1, 10));
    assert_eq!(
        verify_inbound(ActivityKind::Update, &actor, &object, &to, &dir, &follows),
        Err(FederationError::NotAPartOfCommunity)
    );
    follows.upsert(FollowRelationship::new(key, FollowState::Accepted));
    assert!(is_member(&follows, 1, 10));
    assert_eq!(verify_inbound(ActivityKind::Update, &actor, &object, &to, &dir, &follows), Ok(()));
}

#[test]
fn a_membership_request_needs_no_membership() {
    let dir = directory();
    let follows = FollowStore::new();
    assert_eq!(
        verify_inbound(
            ActivityKind::Follow,
            &uri("https://remote.example/u/alice"),
            &uri("https://local.example/c/main"),
            &None,
            &dir,
            &follows
        ),
        Ok(())
    );
}

#[test]
fn an_object_that_is_no_community_needs_no_membership() {
    let dir = directory();
    let follows = FollowStore::new();
    assert_eq!(
        verify_inbound(
            ActivityKind::Like,
            &uri("https://remote.example/u/alice"),
            &uri("https://local.example/post/5"),
            &None,
            &dir,
            &follows
        ),
        Ok(())
    );
}

#[test]
fn an_actor_of_the_community_domain_may_moderate_unchecked() {
    let dir = directory();
    let c = community(10, "https://local.example/c/main");
    assert_eq!(verify_mod_action(&uri("https://local.example/u/unknown"), &c, &dir), Ok(()));
}

#[test]
fn another_actor_must_be_a_known_moderator_or_admin() {
    let mut dir = directory();
    let c = community(10, "https://local.example/c/main");
    assert_eq!(verify_mod_action(&uri("https://other.example/u/mod"), &c, &dir), Ok(()));
    assert_eq!(
        verify_mod_action(&uri("https://other.example/u/visitor"), &c, &dir),
        Err(FederationError::NotAModerator)
    );
    assert_eq!(
        verify_mod_action(&uri("https://other.example/u/nobody"), &c, &dir),
        Err(FederationError::NotFound)
    );
    dir.add_admin(4);
    assert_eq!(verify_mod_action(&uri("https://other.example/u/visitor"), &c, &dir), Ok(()));
}

#[test]
fn a_deleted_or_removed_community_takes_no_content() {
    let mut c = community(10, "https://local.example/c/main");
    assert_eq!(check_community_deleted_or_removed(&c), Ok(()));
    c.deleted = true;
    assert_eq!(
        check_community_deleted_or_removed(&c),
        Err(FederationError::CannotCreatePostOrCommentInDeletedOrRemovedCommunity)
    );
    c.deleted = false;
    c.removed = true;
    assert_eq!(
        check_community_deleted_or_removed(&c),
        Err(FederationError::CannotCreatePostOrCommentInDeletedOrRemovedCommunity)
    );
}

#[test]
fn two_addresses_are_no_common_domain() {
    assert_eq!(
        verify_domains_match(&uri("http://10.0.0.1/u/x"), &uri("http://10.0.0.2/c/y")),
        Err(FederationError::DomainMismatch)
    );
    assert_eq!(verify_domains_match(&uri("http://10.0.0.1/u/x"), &uri("http://10.0.0.1/c/y")), Ok(()));
    assert_eq!(
        verify_domains_match(&uri("https://example.com/u/x"), &uri("http://10.0.0.1/c/y")),
        Err(FederationError::DomainMismatch)
    );
    assert_eq!(
        verify_domains_match(&uri("mailto:a@example.com"), &uri("mailto:a@example.com")),
        Err(FederationError::DomainMismatch)
    );
}

#[test]
fn an_actor_on_another_address_is_not_trusted_unchecked() {
    let mut dir = directory();
    assert!(dir.add_person(person(20, "http://10.0.0.1/u/x", false)));
    let c = community(30, "http://10.0.0.2/c/y");
    assert_eq!(
        verify_mod_action(&uri("http://10.0.0.1/u/x"), &c, &dir),
        Err(FederationError::NotAModerator)
    );
    assert_eq!(
        verify_mod_action(&uri("http://10.0.0.3/u/unknown"), &c, &dir),
        Err(FederationError::NotFound)
    );
    dir.add_moderator(30, 20);
    assert_eq!(verify_mod_action(&uri("http://10.0.0.1/u/x"), &c, &dir), Ok(()));
}

#[test]
fn an_actor_on_the_community_address_is_trusted_unchecked() {
    let dir = directory();
    let c = community(30, "http://10.0.0.2/c/y");
    assert_eq!(verify_mod_action(&uri("http://10.0.0.2/u/unknown"), &c, &dir), Ok(()));
}

#[test]
fn remote_origin_compares_addresses_too() {
    let local = LocalDomain { host: "local.example".to_string(), port: None };
    assert_eq!(
        verify_remote_origin(&uri("http://10.0.0.2/pm/1"), &uri("http://10.0.0.1/u/x"), &local),
        Err(FederationError::DomainMismatch)
    );
    assert_eq!(
        verify_remote_origin(&uri("http://10.0.0.1/pm/1"), &uri("http://10.0.0.1/u/x"), &local),
        Ok(())
    );
}
