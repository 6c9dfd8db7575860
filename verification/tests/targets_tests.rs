use apub_engine::records::TargetKind;
use apub_engine::targets::{resolve_targets, ActivitySendTargets, Audience, Followed};
use apub_engine::uri::Uri;

fn uri(text: &str) -> Uri {
    Uri::parse(text).unwrap()
}

#[test]
fn empty_targets_name_no_receiver() {
    let t = ActivitySendTargets::empty();
    assert!(!t.is_addressed());
    assert!(t.inboxes().is_empty());
    assert!(!t.all_instances());
    assert_eq!(t.followers_of(), None);
}

#[test]
fn one_inbox_resolves_to_that_inbox() {
    let t = resolve_targets(Audience::Inbox(uri("https://b.example/inbox")));
    assert!(t.is_addressed());
    assert_eq!(t.inboxes().len(), 1);
    assert_eq!(t.inboxes()[0].as_str(), "https://b.example/inbox");
    assert!(!t.all_instances());
    assert_eq!(t.followers_of(), None);
}

#[test]
fn followers_resolve_to_the_marker() {
    let followed = Followed { kind: TargetKind::Community, id: 12 };
    let t = resolve_targets(Audience::FollowersOf(followed));
    assert!(t.is_addressed());
    assert!(t.inboxes().is_empty());
    assert!(!t.all_instances());
    assert_eq!(t.followers_of(), Some(followed));
}

#[test]
fn broadcast_resolves_to_the_flag() {
    let t = resolve_targets(Audience::AllInstances);
    assert!(t.is_addressed());
    assert!(t.inboxes().is_empty());
    assert!(t.all_instances());
    assert_eq!(t.followers_of(), None);
}

#[test]
fn an_inbox_is_listed_once() {
    let mut t = ActivitySendTargets::to_inbox(uri("https://b.example/inbox"));
    t.add_inbox(uri("https://c.example/inbox"));
    t.add_inbox(uri("https://b.example/inbox"));
    assert_eq!(t.inboxes().len(), 2);
    assert_eq!(t.inboxes()[0].as_str(), "https://b.example/inbox");
    assert_eq!(t.inboxes()[1].as_str(), "https://c.example/inbox");
}

#[test]
fn the_parts_combine() {
    let mut t = ActivitySendTargets::to_followers_of(Followed { kind: TargetKind::Community, id: 3 });
    t.add_inbox(uri("https://b.example/inbox"));
    t.set_all_instances();
    assert!(t.is_addressed());
    assert_eq!(t.inboxes().len(), 1);
    assert!(t.all_instances());
    assert_eq!(t.followers_of(), Some(Followed { kind: TargetKind::Community, id: 3 }));
}
