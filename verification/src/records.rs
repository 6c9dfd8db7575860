//! The records that the engine reads: actors, instances and content, as plain
//! values.

use vstd::prelude::*;
use crate::text::clone_opt_text;
use crate::uri::Uri;

verus! {

/// Who may see and join a followable entity.
#[derive(Clone, Copy, Debug, PartialEq, Eq, Structural)]
pub enum TargetVisibility {
    Public,
    Unlisted,
    Private,
    LocalOnlyPublic,
    LocalOnlyPrivate,
}

/// The kind of an actor that sends an activity.
#[derive(Clone, Copy, Debug, PartialEq, Eq, Structural)]
pub enum ActorType {
    Site,
    Community,
    Person,
    MultiCommunity,
}

/// The kind of entity that a follow relationship points at.
#[derive(Clone, Copy, Debug, PartialEq, Eq, Structural)]
pub enum TargetKind {
    Person,
    Community,
    MultiCommunity,
}

/// A record that is found by its local number or by the text of its global
/// identifier.
pub trait Record: Sized {
    /// The local number.
    spec fn id_spec(&self) -> u64;

    /// The canonical text of the global identifier.
    spec fn ap_id_spec(&self) -> Seq<char>;

    /// The local number.
    fn record_id(&self) -> (r: u64)
        ensures
            r == self.id_spec(),
    ;

    /// The global identifier.
    fn record_ap_id(&self) -> (r: &Uri)
        ensures
            r@.text == self.ap_id_spec(),
    ;

    /// A copy of the record.
    fn copy(&self) -> (r: Self)
        ensures
            r == *self,
    ;
}

/// A person, local or remote, with the receiving instance's ban verdict.
#[derive(Debug)]
pub struct PersonRecord {
    pub id: u64,
    pub ap_id: Uri,
    pub inbox: Uri,
    pub instance_id: u64,
    pub local: bool,
    /// Whether the person's ban on this instance is active.
    pub banned: bool,
}

/// A community.
#[derive(Debug)]
pub struct CommunityRecord {
    pub id: u64,
    pub ap_id: Uri,
    pub inbox: Uri,
    pub instance_id: u64,
    pub local: bool,
    pub visibility: TargetVisibility,
    pub deleted: bool,
    pub removed: bool,
}

/// A curated set of communities that is followed as one unit.
#[derive(Debug)]
pub struct MultiCommunityRecord {
    pub id: u64,
    pub ap_id: Uri,
    pub inbox: Uri,
    pub local: bool,
}

/// A known instance and what it advertises of its software.
#[derive(Debug)]
pub struct InstanceRecord {
    pub id: u64,
    pub software: Option<String>,
    pub version: Option<String>,
}

/// The site actor of an instance.
#[derive(Debug)]
pub struct SiteRecord {
    pub ap_id: Uri,
    pub inbox: Uri,
}

/// A post.
#[derive(Debug)]
pub struct PostRecord {
    pub id: u64,
    pub ap_id: Uri,
    pub creator_id: u64,
    pub community_id: u64,
    pub deleted: bool,
    pub removed: bool,
}

/// A comment.
#[derive(Debug)]
pub struct CommentRecord {
    pub id: u64,
    pub ap_id: Uri,
    pub creator_id: u64,
    pub community_id: u64,
    pub deleted: bool,
    pub removed: bool,
}

impl Record for PersonRecord {
    open spec fn id_spec(&self) -> u64 {
        self.id
    }

    open spec fn ap_id_spec(&self) -> Seq<char> {
        self.ap_id@.text
    }

    fn record_id(&self) -> (r: u64) {
        self.id
    }

    fn record_ap_id(&self) -> (r: &Uri) {
        &self.ap_id
    }

    fn copy(&self) -> (r: Self) {
        PersonRecord {
            id: self.id,
            ap_id: self.ap_id.clone(),
            inbox: self.inbox.clone(),
            instance_id: self.instance_id,
            local: self.local,
            banned: self.banned,
        }
    }
}

impl Record for CommunityRecord {
    open spec fn id_spec(&self) -> u64 {
        self.id
    }

    open spec fn ap_id_spec(&self) -> Seq<char> {
        self.ap_id@.text
    }

    fn record_id(&self) -> (r: u64) {
        self.id
    }

    fn record_ap_id(&self) -> (r: &Uri) {
        &self.ap_id
    }

    fn copy(&self) -> (r: Self) {
        CommunityRecord {
            id: self.id,
            ap_id: self.ap_id.clone(),
            inbox: self.inbox.clone(),
            instance_id: self.instance_id,
            local: self.local,
            visibility: self.visibility,
            deleted: self.deleted,
            removed: self.removed,
        }
    }
}

impl Record for MultiCommunityRecord {
    open spec fn id_spec(&self) -> u64 {
        self.id
    }

    open spec fn ap_id_spec(&self) -> Seq<char> {
        self.ap_id@.text
    }

    fn record_id(&self) -> (r: u64) {
        self.id
    }

    fn record_ap_id(&self) -> (r: &Uri) {
        &self.ap_id
    }

    fn copy(&self) -> (r: Self) {
        MultiCommunityRecord {
            id: self.id,
            ap_id: self.ap_id.clone(),
            inbox: self.inbox.clone(),
            local: self.local,
        }
    }
}

impl InstanceRecord {
    /// A copy of the record.
    pub fn copy(&self) -> (r: Self)
        ensures
            r == *self,
    {
        InstanceRecord {
            id: self.id,
            software: clone_opt_text(&self.software),
            version: clone_opt_text(&self.version),
        }
    }
}

} // verus!
