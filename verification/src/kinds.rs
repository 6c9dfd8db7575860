//! The closed set of activity kinds and how each is written.

use vstd::prelude::*;
use vstd::string::StringExecFns;

verus! {

/// The kind tag of an activity.
#[derive(Clone, Copy, Debug, PartialEq, Eq, Structural)]
pub enum ActivityKind {
    Accept,
    Add,
    Announce,
    Block,
    Create,
    Delete,
    Dislike,
    Flag,
    Follow,
    Like,
    Lock,
    Reject,
    Remove,
    Resolve,
    Undo,
    Update,
}

/// A letter of `A..=Z` becomes its small form; every other character stays.
pub open spec fn lower_char(c: char) -> char {
    if 'A' <= c && c <= 'Z' {
        ((c as u8) + 32) as char
    } else {
        c
    }
}

/// The text with each capital letter of `A..=Z` made small.
pub open spec fn lower_text(s: Seq<char>) -> Seq<char> {
    s.map_values(|c: char| lower_char(c))
}

impl ActivityKind {
    /// The tag as it stands in the `type` field of the wire form.
    pub open spec fn name_spec(self) -> Seq<char> {
        match self {
            ActivityKind::Accept => "Accept"@,
            ActivityKind::Add => "Add"@,
            ActivityKind::Announce => "Announce"@,
            ActivityKind::Block => "Block"@,
            ActivityKind::Create => "Create"@,
            ActivityKind::Delete => "Delete"@,
            ActivityKind::Dislike => "Dislike"@,
            ActivityKind::Flag => "Flag"@,
            ActivityKind::Follow => "Follow"@,
            ActivityKind::Like => "Like"@,
            ActivityKind::Lock => "Lock"@,
            ActivityKind::Reject => "Reject"@,
            ActivityKind::Remove => "Remove"@,
            ActivityKind::Resolve => "Resolve"@,
            ActivityKind::Undo => "Undo"@,
            ActivityKind::Update => "Update"@,
        }
    }

    /// The tag as it stands in an activity identifier: all in small letters.
    pub open spec fn segment_spec(self) -> Seq<char> {
        match self {
            ActivityKind::Accept => "accept"@,
            ActivityKind::Add => "add"@,
            ActivityKind::Announce => "announce"@,
            ActivityKind::Block => "block"@,
            ActivityKind::Create => "create"@,
            ActivityKind::Delete => "delete"@,
            ActivityKind::Dislike => "dislike"@,
            ActivityKind::Flag => "flag"@,
            ActivityKind::Follow => "follow"@,
            ActivityKind::Like => "like"@,
            ActivityKind::Lock => "lock"@,
            ActivityKind::Reject => "reject"@,
            ActivityKind::Remove => "remove"@,
            ActivityKind::Resolve => "resolve"@,
            ActivityKind::Undo => "undo"@,
            ActivityKind::Update => "update"@,
        }
    }

    /// The tag as it stands in the `type` field of the wire form.
    pub fn name(&self) -> (r: String)
        ensures
            r@ == self.name_spec(),
    {
        match self {
            ActivityKind::Accept => String::from_str("Accept"),
            ActivityKind::Add => String::from_str("Add"),
            ActivityKind::Announce => String::from_str("Announce"),
            ActivityKind::Block => String::from_str("Block"),
            ActivityKind::Create => String::from_str("Create"),
            ActivityKind::Delete => String::from_str("Delete"),
            ActivityKind::Dislike => String::from_str("Dislike"),
            ActivityKind::Flag => String::from_str("Flag"),
            ActivityKind::Follow => String::from_str("Follow"),
            ActivityKind::Like => String::from_str("Like"),
            ActivityKind::Lock => String::from_str("Lock"),
            ActivityKind::Reject => String::from_str("Reject"),
            ActivityKind::Remove => String::from_str("Remove"),
            ActivityKind::Resolve => String::from_str("Resolve"),
            ActivityKind::Undo => String::from_str("Undo"),
            ActivityKind::Update => String::from_str("Update"),
        }
    }

    /// The tag in small letters, as one path segment of an identifier.
    pub fn segment(&self) -> (r: String)
        ensures
            r@ == self.segment_spec(),
            r@ == lower_text(self.name_spec()),
    {
        proof {
            self.lemma_segment_is_lowercase_name();
        }
        match self {
            ActivityKind::Accept => String::from_str("accept"),
            ActivityKind::Add => String::from_str("add"),
            ActivityKind::Announce => String::from_str("announce"),
            ActivityKind::Block => String::from_str("block"),
            ActivityKind::Create => String::from_str("create"),
            ActivityKind::Delete => String::from_str("delete"),
            ActivityKind::Dislike => String::from_str("dislike"),
            ActivityKind::Flag => String::from_str("flag"),
            ActivityKind::Follow => String::from_str("follow"),
            ActivityKind::Like => String::from_str("like"),
            ActivityKind::Lock => String::from_str("lock"),
            ActivityKind::Reject => String::from_str("reject"),
            ActivityKind::Remove => String::from_str("remove"),
            ActivityKind::Resolve => String::from_str("resolve"),
            ActivityKind::Undo => String::from_str("undo"),
            ActivityKind::Update => String::from_str("update"),
        }
    }

    /// A membership request asks to join its object; it is exempt from the
    /// membership check that other activities in a community must pass.
    pub open spec fn is_membership_request_spec(self) -> bool {
        self == ActivityKind::Follow
    }

    /// Whether this kind asks for membership of its object.
    pub fn is_membership_request(&self) -> (b: bool)
        ensures
            b == self.is_membership_request_spec(),
    {
        match self {
            ActivityKind::Follow => true,
            _ => false,
        }
    }

    /// The identifier segment of every kind is its wire tag in small letters.
    pub proof fn lemma_segment_is_lowercase_name(self)
        ensures
            self.segment_spec() == lower_text(self.name_spec()),
    {
        reveal_strlit("Accept");
        reveal_strlit("accept");
        reveal_strlit("Add");
        reveal_strlit("add");
        reveal_strlit("Announce");
        reveal_strlit("announce");
        reveal_strlit("Block");
        reveal_strlit("block");
        reveal_strlit("Create");
        reveal_strlit("create");
        reveal_strlit("Delete");
        reveal_strlit("delete");
        reveal_strlit("Dislike");
        reveal_strlit("dislike");
        reveal_strlit("Flag");
        reveal_strlit("flag");
        reveal_strlit("Follow");
        reveal_strlit("follow");
        reveal_strlit("Like");
        reveal_strlit("like");
        reveal_strlit("Lock");
        reveal_strlit("lock");
        reveal_strlit("Reject");
        reveal_strlit("reject");
        reveal_strlit("Remove");
        reveal_strlit("remove");
        reveal_strlit("Resolve");
        reveal_strlit("resolve");
        reveal_strlit("Undo");
        reveal_strlit("undo");
        reveal_strlit("Update");
        reveal_strlit("update");
        assert(self.segment_spec() =~= lower_text(self.name_spec()));
    }
}

} // verus!
