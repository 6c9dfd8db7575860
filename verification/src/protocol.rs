//! The wire objects, as values. Field names follow the wire form; a field that
//! the wire form writes as a list of one holds that one value here.

use vstd::prelude::*;
use crate::kinds::ActivityKind;
use crate::uri::Uri;

verus! {

/// Copies an optional URL.
pub fn clone_opt_uri(o: &Option<Uri>) -> (r: Option<Uri>)
    ensures
        r == *o,
{
    match o {
        Some(u) => Some(u.clone()),
        None => None,
    }
}

/// A request to follow `object`, sent by `actor`.
#[derive(Debug)]
pub struct Follow {
    pub actor: Uri,
    pub object: Uri,
    /// The declared target; the wire form writes it as a list of one.
    pub to: Option<Uri>,
    pub id: Uri,
}

impl Follow {
    /// A copy of the activity.
    pub fn copy(&self) -> (r: Follow)
        ensures
            r == *self,
    {
        Follow {
            actor: self.actor.clone(),
            object: self.object.clone(),
            to: clone_opt_uri(&self.to),
            id: self.id.clone(),
        }
    }
}

/// What an activity about a follow does with it.
#[derive(Clone, Copy, Debug, PartialEq, Eq, Structural)]
pub enum AboutFollowKind {
    Accept,
    Reject,
    Undo,
}

impl AboutFollowKind {
    /// The activity kind that the wire form writes.
    pub open spec fn kind_spec(self) -> ActivityKind {
        match self {
            AboutFollowKind::Accept => ActivityKind::Accept,
            AboutFollowKind::Reject => ActivityKind::Reject,
            AboutFollowKind::Undo => ActivityKind::Undo,
        }
    }

    /// The activity kind that the wire form writes.
    pub fn kind(&self) -> (k: ActivityKind)
        ensures
            k == self.kind_spec(),
    {
        match self {
            AboutFollowKind::Accept => ActivityKind::Accept,
            AboutFollowKind::Reject => ActivityKind::Reject,
            AboutFollowKind::Undo => ActivityKind::Undo,
        }
    }
}

/// The acceptance, rejection or undoing of a follow, which it carries whole.
#[derive(Debug)]
pub struct AboutFollow {
    pub kind: AboutFollowKind,
    pub actor: Uri,
    pub to: Option<Uri>,
    pub object: Follow,
    pub id: Uri,
}

/// An activity whose object is named by its identifier.
#[derive(Debug)]
pub struct Activity {
    pub id: Uri,
    pub kind: ActivityKind,
    pub actor: Uri,
    pub object: Uri,
    pub to: Option<Uri>,
    /// For an `Undo`, the kind of the activity that is undone.
    pub undoes: Option<ActivityKind>,
    /// The reason given, if any.
    pub summary: Option<String>,
}

/// The tag of a private message on the wire.
#[derive(Clone, Copy, Debug, PartialEq, Eq, Structural)]
pub enum PrivateMessageType {
    /// The current tag.
    Note,
    /// The tag that peers on the legacy dialect expect.
    ChatMessage,
}

/// The format of a text on the wire.
#[derive(Clone, Copy, Debug, PartialEq, Eq, Structural)]
pub enum MediaType {
    Html,
    Markdown,
}

/// A text as its author wrote it.
#[derive(Debug)]
pub struct Source {
    pub content: String,
    pub media_type: MediaType,
}

/// A private message on the wire.
#[derive(Debug)]
pub struct PrivateMessage {
    pub kind: PrivateMessageType,
    pub id: Uri,
    pub attributed_to: Uri,
    pub to: Vec<Uri>,
    pub content: String,
    pub media_type: Option<MediaType>,
    pub source: Option<Source>,
    /// Microseconds since the Unix epoch.
    pub published: Option<i64>,
    /// Microseconds since the Unix epoch.
    pub updated: Option<i64>,
}

/// Whether a private message is sent for the first time or again after a
/// change.
#[derive(Clone, Copy, Debug, PartialEq, Eq, Structural)]
pub enum CreateOrUpdateType {
    Create,
    Update,
}

impl CreateOrUpdateType {
    /// The activity kind that the wire form writes.
    pub open spec fn kind_spec(self) -> ActivityKind {
        match self {
            CreateOrUpdateType::Create => ActivityKind::Create,
            CreateOrUpdateType::Update => ActivityKind::Update,
        }
    }

    /// The activity kind that the wire form writes.
    pub fn kind(&self) -> (k: ActivityKind)
        ensures
            k == self.kind_spec(),
    {
        match self {
            CreateOrUpdateType::Create => ActivityKind::Create,
            CreateOrUpdateType::Update => ActivityKind::Update,
        }
    }
}

/// The sending of a private message, which it carries whole.
#[derive(Debug)]
pub struct CreateOrUpdatePrivateMessage {
    pub id: Uri,
    pub actor: Uri,
    pub to: Option<Uri>,
    pub object: PrivateMessage,
    pub kind: CreateOrUpdateType,
}

/// What an outbox entry carries.
#[derive(Debug)]
pub enum Payload {
    Follow(Follow),
    AboutFollow(AboutFollow),
    PrivateMessage(CreateOrUpdatePrivateMessage),
    Activity(Activity),
}

impl Payload {
    /// The identifier of the carried activity.
    pub open spec fn id_spec(self) -> Uri {
        match self {
            Payload::Follow(f) => f.id,
            Payload::AboutFollow(a) => a.id,
            Payload::PrivateMessage(c) => c.id,
            Payload::Activity(a) => a.id,
        }
    }

    /// The actor of the carried activity.
    pub open spec fn actor_spec(self) -> Uri {
        match self {
            Payload::Follow(f) => f.actor,
            Payload::AboutFollow(a) => a.actor,
            Payload::PrivateMessage(c) => c.actor,
            Payload::Activity(a) => a.actor,
        }
    }

    /// The kind of the carried activity.
    pub open spec fn kind_spec(self) -> ActivityKind {
        match self {
            Payload::Follow(_) => ActivityKind::Follow,
            Payload::AboutFollow(a) => a.kind.kind_spec(),
            Payload::PrivateMessage(c) => c.kind.kind_spec(),
            Payload::Activity(a) => a.kind,
        }
    }

    /// The identifier of the carried activity.
    pub fn id(&self) -> (r: &Uri)
        ensures
            *r == self.id_spec(),
    {
        match self {
            Payload::Follow(f) => &f.id,
            Payload::AboutFollow(a) => &a.id,
            Payload::PrivateMessage(c) => &c.id,
            Payload::Activity(a) => &a.id,
        }
    }

    /// The actor of the carried activity.
    pub fn actor(&self) -> (r: &Uri)
        ensures
            *r == self.actor_spec(),
    {
        match self {
            Payload::Follow(f) => &f.actor,
            Payload::AboutFollow(a) => &a.actor,
            Payload::PrivateMessage(c) => &c.actor,
            Payload::Activity(a) => &a.actor,
        }
    }

    /// The kind of the carried activity.
    pub fn kind(&self) -> (k: ActivityKind)
        ensures
            k == self.kind_spec(),
    {
        match self {
            Payload::Follow(_) => ActivityKind::Follow,
            Payload::AboutFollow(a) => a.kind.kind(),
            Payload::PrivateMessage(c) => c.kind.kind(),
            Payload::Activity(a) => a.kind,
        }
    }
}

} // verus!
