use apub_engine::error::FederationError;
use apub_engine::ident::{
    activity_id_text,
    announce_id_text,
    new_activity_id,
    new_wrapped_activity_id,
};
use apub_engine::kinds::ActivityKind;

fn is_uuid_v4(text: &str) -> bool {
    let chars: Vec<char> = text.chars().collect();
    if chars.len() != 36 {
        return false;
    }
    for (i, c) in chars.iter().enumerate() {
        if i == 8 || i == 13 || i == 18 || i == 23 {
            if *c != '-' {
                return false;
            }
        } else if !(c.is_ascii_digit() || ('a'..='f').contains(c)) {
            return false;
        }
    }
    chars[14] == '4' && matches!(chars[19], '8' | '9' | 'a' | 'b')
}

#[test]
fn kind_names_are_the_wire_tags() {
    assert_eq!(ActivityKind::Follow.name(), "Follow");
    assert_eq!(ActivityKind::Accept.name(), "Accept");
    assert_eq!(ActivityKind::Announce.name(), "Announce");
    assert_eq!(ActivityKind::Resolve.name(), "Resolve");
}

#[test]
fn kind_segments_are_the_tags_in_small_letters() {
    let kinds = [
        ActivityKind::Accept,
        ActivityKind::Add,
        ActivityKind::Announce,
        ActivityKind::Block,
        ActivityKind::Create,
        ActivityKind::Delete,
        ActivityKind::Dislike,
        ActivityKind::Flag,
        ActivityKind::Follow,
        ActivityKind::Like,
        ActivityKind::Lock,
        ActivityKind::Reject,
        ActivityKind::Remove,
        ActivityKind::Resolve,
        ActivityKind::Undo,
        ActivityKind::Update,
    ];
    for kind in kinds {
        assert_eq!(kind.segment(), kind.name().to_lowercase());
    }
}

#[test]
fn only_a_follow_asks_for_membership() {
    assert!(ActivityKind::Follow.is_membership_request());
    assert!(!ActivityKind::Create.is_membership_request());
    assert!(!ActivityKind::Undo.is_membership_request());
}

#[test]
fn activity_id_text_is_the_concatenation() {
    let text = activity_id_text(
        ActivityKind::Create,
        "https://example.com",
        "202daf0a-1489-45df-8d2e-c8a3173fed36",
    );
    assert_eq!(text, "https://example.com/activities/create/202daf0a-1489-45df-8d2e-c8a3173fed36");
}

#[test]
fn announce_id_text_has_the_inner_kind() {
    let text = announce_id_text(
        ActivityKind::Like,
        "https://example.com",
        "202daf0a-1489-45df-8d2e-c8a3173fed36",
    );
    assert_eq!(
        text,
        "https://example.com/activities/announce/like/202daf0a-1489-45df-8d2e-c8a3173fed36"
    );
}

#[test]
fn new_activity_id_has_base_kind_and_uuid() {
    let id = new_activity_id(ActivityKind::Follow, "https://example.com").unwrap();
    let prefix = "https://example.com/activities/follow/";
    assert!(id.as_str().starts_with(prefix));
    assert!(is_uuid_v4(&id.as_str()[prefix.len()..]));
    assert_eq!(id.domain().as_deref(), Some("example.com"));
}

#[test]
fn new_activity_id_keeps_a_written_port() {
    let id = new_activity_id(ActivityKind::Delete, "http://localhost:8540").unwrap();
    let prefix = "http://localhost:8540/activities/delete/";
    assert!(id.as_str().starts_with(prefix));
    assert!(is_uuid_v4(&id.as_str()[prefix.len()..]));
    assert_eq!(id.port(), Some(8540));
}

#[test]
fn new_activity_id_does_not_repeat() {
    let a = new_activity_id(ActivityKind::Like, "https://example.com").unwrap();
    let b = new_activity_id(ActivityKind::Like, "https://example.com").unwrap();
    assert_ne!(a.as_str(), b.as_str());
}

#[test]
fn new_activity_id_rejects_a_base_that_is_no_url() {
    assert!(matches!(
        new_activity_id(ActivityKind::Follow, "example.com"),
        Err(FederationError::MalformedUrl)
    ));
    assert!(matches!(
        new_activity_id(ActivityKind::Follow, ""),
        Err(FederationError::MalformedUrl)
    ));
}

#[test]
fn new_wrapped_activity_id_has_both_kinds() {
    let id = new_wrapped_activity_id(ActivityKind::Create, "https://example.com").unwrap();
    let prefix = "https://example.com/activities/announce/create/";
    assert!(id.as_str().starts_with(prefix));
    assert!(is_uuid_v4(&id.as_str()[prefix.len()..]));
}

#[test]
fn new_wrapped_activity_id_rejects_a_base_that_is_no_url() {
    assert!(matches!(
        new_wrapped_activity_id(ActivityKind::Create, "::"),
        Err(FederationError::MalformedUrl)
    ));
}
