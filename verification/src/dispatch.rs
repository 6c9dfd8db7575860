//! The outgoing side: each domain event becomes one outbox entry, or fails as
//! a whole.

use vstd::prelude::*;
use crate::directory::Directory;
use crate::error::FederationError;
use crate::ident::{is_fresh_id_outcome, new_activity_id};
use crate::kinds::ActivityKind;
use crate::outbox::{send_lemmy_activity, SentActivityRecord};
use crate::private_message::{
    is_wire_form,
    wire_parties_spec,
    ApubPrivateMessage,
    DbPrivateMessage,
};
use crate::protocol::{
    AboutFollow,
    AboutFollowKind,
    Activity,
    CreateOrUpdatePrivateMessage,
    CreateOrUpdateType,
    Follow,
    Payload,
};
use crate::records::{
    ActorType,
    CommentRecord,
    CommunityRecord,
    MultiCommunityRecord,
    PersonRecord,
    PostRecord,
    SiteRecord,
    TargetKind,
};
use crate::targets::{resolve_targets, resolve_targets_spec, Audience, Followed};
use crate::text::{clone_opt_text, opt_text};
use crate::uri::Uri;

verus! {

/// A private message together with its rendered text.
#[derive(Debug)]
pub struct RenderedPrivateMessage {
    pub message: DbPrivateMessage,
    pub content_html: String,
}

/// Who takes a report.
#[derive(Debug)]
pub enum ReportReceiver {
    Site(SiteRecord),
    Community(CommunityRecord),
}

/// A domain event that is to be told to other instances.
#[derive(Debug)]
#[allow(inconsistent_fields)]
pub enum SendActivityData {
    CreatePost(PostRecord),
    UpdatePost(PostRecord),
    /// A post, who deleted or restored it, and whether it is now deleted.
    DeletePost(PostRecord, PersonRecord, bool),
    RemovePost { post: PostRecord, moderator: PersonRecord, reason: Option<String>, removed: bool },
    /// A post, who locked or unlocked it, whether it is now locked, and why.
    LockPost(PostRecord, PersonRecord, bool, Option<String>),
    /// A post, who featured it or ended that, and whether it is now featured.
    FeaturePost(PostRecord, PersonRecord, bool),
    CreateComment(CommentRecord),
    UpdateComment(CommentRecord),
    DeleteComment(CommentRecord, PersonRecord, CommunityRecord),
    RemoveComment {
        comment: CommentRecord,
        moderator: PersonRecord,
        community: CommunityRecord,
        reason: Option<String>,
    },
    LikePostOrComment {
        object_id: Uri,
        actor: PersonRecord,
        community: CommunityRecord,
        previous_score: Option<i16>,
        new_score: i16,
    },
    /// A community, a local person, and whether the person now follows it.
    FollowCommunity(CommunityRecord, PersonRecord, bool),
    /// As `FollowCommunity`, for a multi-community.
    FollowMultiCommunity(MultiCommunityRecord, PersonRecord, bool),
    UpdateCommunity(PersonRecord, CommunityRecord),
    /// Who deleted or restored a community, and whether it is now deleted.
    DeleteCommunity(PersonRecord, CommunityRecord, bool),
    RemoveCommunity {
        moderator: PersonRecord,
        community: CommunityRecord,
        reason: Option<String>,
        removed: bool,
    },
    AddModToCommunity { moderator: PersonRecord, community_id: u64, target: u64, added: bool },
    BanFromCommunity {
        moderator: PersonRecord,
        community_id: u64,
        target: PersonRecord,
        reason: Option<String>,
        ban: bool,
    },
    BanFromSite {
        moderator: PersonRecord,
        banned_user: PersonRecord,
        reason: Option<String>,
        remove_or_restore_data: Option<bool>,
        ban: bool,
        expires_at: Option<i64>,
    },
    CreatePrivateMessage(RenderedPrivateMessage),
    UpdatePrivateMessage(RenderedPrivateMessage),
    /// Who deleted or restored a private message, and whether it is now
    /// deleted.
    DeletePrivateMessage(PersonRecord, DbPrivateMessage, bool),
    /// A person who left, and whether what the person wrote is to go too.
    DeleteUser(PersonRecord, bool),
    CreateReport { object_id: Uri, actor: PersonRecord, receiver: ReportReceiver, reason: String },
    SendResolveReport {
        object_id: Uri,
        actor: PersonRecord,
        report_creator: PersonRecord,
        receiver: ReportReceiver,
    },
    /// The community and the person whose follow the community accepts.
    AcceptFollower(u64, u64),
    /// The community and the person whose follow the community rejects.
    RejectFollower(u64, u64),
    UpdateMultiCommunity(MultiCommunityRecord, PersonRecord),
}

/// Whom an outgoing activity concerns, which decides where it goes.
pub enum Scope {
    /// A community: its followers, where it lives here, else its inbox.
    Community(CommunityRecord),
    /// A multi-community that lives here: its followers.
    MultiCommunity(MultiCommunityRecord),
    /// One actor, reached at one inbox.
    Direct { ap_id: Uri, inbox: Uri },
    /// Every known instance.
    Everyone,
}

/// The form of the activity that an event becomes.
pub enum Shape {
    /// An activity that names its object by identifier.
    Plain,
    /// A follow.
    Follow,
    /// An activity that carries a follow whole.
    AboutFollow(AboutFollowKind),
    /// An activity that carries a private message whole.
    PrivateMessage(CreateOrUpdateType),
}

/// The one kind for an action and the undoing of it: the action's kind where
/// `done` holds, else `Undo`.
pub open spec fn done_or_undone(done: bool, kind: ActivityKind) -> ActivityKind {
    if done {
        kind
    } else {
        ActivityKind::Undo
    }
}

/// The kind of the vote that a score stands for.
pub open spec fn vote_kind(score: i16) -> ActivityKind {
    if score < 0 {
        ActivityKind::Dislike
    } else {
        ActivityKind::Like
    }
}

/// The kind of the vote that is taken back when a score returns to zero.
pub open spec fn previous_vote_kind(previous_score: Option<i16>) -> ActivityKind {
    match previous_score {
        Some(s) => vote_kind(s),
        None => ActivityKind::Like,
    }
}

/// The action that an event tells of, whether it is done or undone.
pub open spec fn event_action(event: SendActivityData) -> ActivityKind {
    match event {
        SendActivityData::CreatePost(_) => ActivityKind::Create,
        SendActivityData::UpdatePost(_) => ActivityKind::Update,
        SendActivityData::DeletePost(..) => ActivityKind::Delete,
        SendActivityData::RemovePost { .. } => ActivityKind::Delete,
        SendActivityData::LockPost(..) => ActivityKind::Lock,
        SendActivityData::FeaturePost(_, _, featured) => if featured {
            ActivityKind::Add
        } else {
            ActivityKind::Remove
        },
        SendActivityData::CreateComment(_) => ActivityKind::Create,
        SendActivityData::UpdateComment(_) => ActivityKind::Update,
        SendActivityData::DeleteComment(..) => ActivityKind::Delete,
        SendActivityData::RemoveComment { .. } => ActivityKind::Delete,
        SendActivityData::LikePostOrComment { previous_score, new_score, .. } => if new_score
            == 0 {
            previous_vote_kind(previous_score)
        } else {
            vote_kind(new_score)
        },
        SendActivityData::FollowCommunity(..) => ActivityKind::Follow,
        SendActivityData::FollowMultiCommunity(..) => ActivityKind::Follow,
        SendActivityData::UpdateCommunity(..) => ActivityKind::Update,
        SendActivityData::DeleteCommunity(..) => ActivityKind::Delete,
        SendActivityData::RemoveCommunity { .. } => ActivityKind::Delete,
        SendActivityData::AddModToCommunity { added, .. } => if added {
            ActivityKind::Add
        } else {
            ActivityKind::Remove
        },
        SendActivityData::BanFromCommunity { .. } => ActivityKind::Block,
        SendActivityData::BanFromSite { .. } => ActivityKind::Block,
        SendActivityData::CreatePrivateMessage(_) => ActivityKind::Create,
        SendActivityData::UpdatePrivateMessage(_) => ActivityKind::Update,
        SendActivityData::DeletePrivateMessage(..) => ActivityKind::Delete,
        SendActivityData::DeleteUser(..) => ActivityKind::Delete,
        SendActivityData::CreateReport { .. } => ActivityKind::Flag,
        SendActivityData::SendResolveReport { .. } => ActivityKind::Resolve,
        SendActivityData::AcceptFollower(..) => ActivityKind::Accept,
        SendActivityData::RejectFollower(..) => ActivityKind::Reject,
        SendActivityData::UpdateMultiCommunity(..) => ActivityKind::Update,
    }
}

/// Whether an event tells that its action is done, and not that it is taken
/// back.
pub open spec fn event_is_done(event: SendActivityData) -> bool {
    match event {
        SendActivityData::DeletePost(_, _, deleted) => deleted,
        SendActivityData::RemovePost { removed, .. } => removed,
        SendActivityData::LockPost(_, _, locked, _) => locked,
        SendActivityData::DeleteComment(comment, _, _) => comment.deleted,
        SendActivityData::RemoveComment { comment, .. } => comment.removed,
        SendActivityData::LikePostOrComment { new_score, .. } => new_score != 0,
        SendActivityData::FollowCommunity(_, _, follow) => follow,
        SendActivityData::FollowMultiCommunity(_, _, follow) => follow,
        SendActivityData::DeleteCommunity(_, _, removed) => removed,
        SendActivityData::RemoveCommunity { removed, .. } => removed,
        SendActivityData::BanFromCommunity { ban, .. } => ban,
        SendActivityData::BanFromSite { ban, .. } => ban,
        SendActivityData::DeletePrivateMessage(_, _, deleted) => deleted,
        _ => true,
    }
}

/// The kind of the activity that an event becomes.
pub open spec fn event_kind(event: SendActivityData) -> ActivityKind {
    done_or_undone(event_is_done(event), event_action(event))
}

/// For an event that becomes an `Undo`, the kind of what is undone.
pub open spec fn event_undoes(event: SendActivityData) -> Option<ActivityKind> {
    if event_is_done(event) {
        None
    } else {
        Some(event_action(event))
    }
}

/// The form of the activity that an event becomes.
pub open spec fn event_shape(event: SendActivityData) -> Shape {
    match event {
        SendActivityData::FollowCommunity(_, _, follow) => if follow {
            Shape::Follow
        } else {
            Shape::AboutFollow(AboutFollowKind::Undo)
        },
        SendActivityData::FollowMultiCommunity(_, _, follow) => if follow {
            Shape::Follow
        } else {
            Shape::AboutFollow(AboutFollowKind::Undo)
        },
        SendActivityData::AcceptFollower(..) => Shape::AboutFollow(AboutFollowKind::Accept),
        SendActivityData::RejectFollower(..) => Shape::AboutFollow(AboutFollowKind::Reject),
        SendActivityData::CreatePrivateMessage(_) => Shape::PrivateMessage(
            CreateOrUpdateType::Create,
        ),
        SendActivityData::UpdatePrivateMessage(_) => Shape::PrivateMessage(
            CreateOrUpdateType::Update,
        ),
        _ => Shape::Plain,
    }
}

/// The kind of actor that sends the activity: the community for the answer
/// to a follower, a person for everything else.
pub open spec fn event_actor_type(event: SendActivityData) -> ActorType {
    match event {
        SendActivityData::AcceptFollower(..) => ActorType::Community,
        SendActivityData::RejectFollower(..) => ActorType::Community,
        _ => ActorType::Person,
    }
}

/// The identifier of a known person.
pub open spec fn person_ap_id(dir: Directory, id: u64) -> Option<Uri> {
    match dir.person_spec(id) {
        Some(p) => Some(p.ap_id),
        None => None,
    }
}

/// The identifier of a known community.
pub open spec fn community_ap_id(dir: Directory, id: u64) -> Option<Uri> {
    match dir.community_spec(id) {
        Some(c) => Some(c.ap_id),
        None => None,
    }
}

/// Who sends the activity; `None` where that record is not known.
pub open spec fn event_actor(event: SendActivityData, dir: Directory) -> Option<Uri> {
    match event {
        SendActivityData::CreatePost(post) => person_ap_id(dir, post.creator_id),
        SendActivityData::UpdatePost(post) => person_ap_id(dir, post.creator_id),
        SendActivityData::DeletePost(_, person, _) => Some(person.ap_id),
        SendActivityData::RemovePost { moderator, .. } => Some(moderator.ap_id),
        SendActivityData::LockPost(_, actor, _, _) => Some(actor.ap_id),
        SendActivityData::FeaturePost(_, actor, _) => Some(actor.ap_id),
        SendActivityData::CreateComment(comment) => person_ap_id(dir, comment.creator_id),
        SendActivityData::UpdateComment(comment) => person_ap_id(dir, comment.creator_id),
        SendActivityData::DeleteComment(_, actor, _) => Some(actor.ap_id),
        SendActivityData::RemoveComment { moderator, .. } => Some(moderator.ap_id),
        SendActivityData::LikePostOrComment { actor, .. } => Some(actor.ap_id),
        SendActivityData::FollowCommunity(_, person, _) => Some(person.ap_id),
        SendActivityData::FollowMultiCommunity(_, person, _) => Some(person.ap_id),
        SendActivityData::UpdateCommunity(actor, _) => Some(actor.ap_id),
        SendActivityData::DeleteCommunity(actor, _, _) => Some(actor.ap_id),
        SendActivityData::RemoveCommunity { moderator, .. } => Some(moderator.ap_id),
        SendActivityData::AddModToCommunity { moderator, .. } => Some(moderator.ap_id),
        SendActivityData::BanFromCommunity { moderator, .. } => Some(moderator.ap_id),
        SendActivityData::BanFromSite { moderator, .. } => Some(moderator.ap_id),
        SendActivityData::CreatePrivateMessage(pm) => person_ap_id(dir, pm.message.creator_id),
        SendActivityData::UpdatePrivateMessage(pm) => person_ap_id(dir, pm.message.creator_id),
        SendActivityData::DeletePrivateMessage(person, _, _) => Some(person.ap_id),
        SendActivityData::DeleteUser(person, _) => Some(person.ap_id),
        SendActivityData::CreateReport { actor, .. } => Some(actor.ap_id),
        SendActivityData::SendResolveReport { actor, .. } => Some(actor.ap_id),
        SendActivityData::AcceptFollower(community_id, _) => community_ap_id(dir, community_id),
        SendActivityData::RejectFollower(community_id, _) => community_ap_id(dir, community_id),
        SendActivityData::UpdateMultiCommunity(_, actor) => Some(actor.ap_id),
    }
}

/// What the activity is about; `None` where that record is not known. For a
/// follow and for an activity about a follow it is the other party.
pub open spec fn event_object(event: SendActivityData, dir: Directory) -> Option<Uri> {
    match event {
        SendActivityData::CreatePost(post) => Some(post.ap_id),
        SendActivityData::UpdatePost(post) => Some(post.ap_id),
        SendActivityData::DeletePost(post, _, _) => Some(post.ap_id),
        SendActivityData::RemovePost { post, .. } => Some(post.ap_id),
        SendActivityData::LockPost(post, _, _, _) => Some(post.ap_id),
        SendActivityData::FeaturePost(post, _, _) => Some(post.ap_id),
        SendActivityData::CreateComment(comment) => Some(comment.ap_id),
        SendActivityData::UpdateComment(comment) => Some(comment.ap_id),
        SendActivityData::DeleteComment(comment, _, _) => Some(comment.ap_id),
        SendActivityData::RemoveComment { comment, .. } => Some(comment.ap_id),
        SendActivityData::LikePostOrComment { object_id, .. } => Some(object_id),
        SendActivityData::FollowCommunity(community, _, _) => Some(community.ap_id),
        SendActivityData::FollowMultiCommunity(multi, _, _) => Some(multi.ap_id),
        SendActivityData::UpdateCommunity(_, community) => Some(community.ap_id),
        SendActivityData::DeleteCommunity(_, community, _) => Some(community.ap_id),
        SendActivityData::RemoveCommunity { community, .. } => Some(community.ap_id),
        SendActivityData::AddModToCommunity { target, .. } => person_ap_id(dir, target),
        SendActivityData::BanFromCommunity { target, .. } => Some(target.ap_id),
        SendActivityData::BanFromSite { banned_user, .. } => Some(banned_user.ap_id),
        SendActivityData::CreatePrivateMessage(pm) => Some(pm.message.ap_id),
        SendActivityData::UpdatePrivateMessage(pm) => Some(pm.message.ap_id),
        SendActivityData::DeletePrivateMessage(_, pm, _) => Some(pm.ap_id),
        SendActivityData::DeleteUser(person, _) => Some(person.ap_id),
        SendActivityData::CreateReport { object_id, .. } => Some(object_id),
        SendActivityData::SendResolveReport { object_id, .. } => Some(object_id),
        SendActivityData::AcceptFollower(_, person_id) => person_ap_id(dir, person_id),
        SendActivityData::RejectFollower(_, person_id) => person_ap_id(dir, person_id),
        SendActivityData::UpdateMultiCommunity(multi, _) => Some(multi.ap_id),
    }
}

/// The scope that a known community is.
pub open spec fn community_scope(dir: Directory, id: u64) -> Option<Scope> {
    match dir.community_spec(id) {
        Some(c) => Some(Scope::Community(c)),
        None => None,
    }
}

/// The scope that a known person, reached directly, is.
pub open spec fn person_scope(dir: Directory, id: u64) -> Option<Scope> {
    match dir.person_spec(id) {
        Some(p) => Some(Scope::Direct { ap_id: p.ap_id, inbox: p.inbox }),
        None => None,
    }
}

/// The scope that the receiver of a report is.
pub open spec fn receiver_scope(receiver: ReportReceiver) -> Scope {
    match receiver {
        ReportReceiver::Site(site) => Scope::Direct { ap_id: site.ap_id, inbox: site.inbox },
        ReportReceiver::Community(community) => Scope::Direct {
            ap_id: community.ap_id,
            inbox: community.inbox,
        },
    }
}

/// Whom the activity concerns; `None` where that record is not known.
pub open spec fn event_scope(event: SendActivityData, dir: Directory) -> Option<Scope> {
    match event {
        SendActivityData::CreatePost(post) => community_scope(dir, post.community_id),
        SendActivityData::UpdatePost(post) => community_scope(dir, post.community_id),
        SendActivityData::DeletePost(post, _, _) => community_scope(dir, post.community_id),
        SendActivityData::RemovePost { post, .. } => community_scope(dir, post.community_id),
        SendActivityData::LockPost(post, _, _, _) => community_scope(dir, post.community_id),
        SendActivityData::FeaturePost(post, _, _) => community_scope(dir, post.community_id),
        SendActivityData::CreateComment(comment) => community_scope(dir, comment.community_id),
        SendActivityData::UpdateComment(comment) => community_scope(dir, comment.community_id),
        SendActivityData::DeleteComment(_, _, community) => Some(Scope::Community(community)),
        SendActivityData::RemoveComment { community, .. } => Some(Scope::Community(community)),
        SendActivityData::LikePostOrComment { community, .. } => Some(Scope::Community(community)),
        SendActivityData::FollowCommunity(community, _, _) => Some(
            Scope::Direct { ap_id: community.ap_id, inbox: community.inbox },
        ),
        SendActivityData::FollowMultiCommunity(multi, _, _) => Some(
            Scope::Direct { ap_id: multi.ap_id, inbox: multi.inbox },
        ),
        SendActivityData::UpdateCommunity(_, community) => Some(Scope::Community(community)),
        SendActivityData::DeleteCommunity(_, community, _) => Some(Scope::Community(community)),
        SendActivityData::RemoveCommunity { community, .. } => Some(Scope::Community(community)),
        SendActivityData::AddModToCommunity { community_id, .. } => community_scope(
            dir,
            community_id,
        ),
        SendActivityData::BanFromCommunity { community_id, .. } => community_scope(
            dir,
            community_id,
        ),
        SendActivityData::BanFromSite { .. } => Some(Scope::Everyone),
        SendActivityData::CreatePrivateMessage(pm) => person_scope(dir, pm.message.recipient_id),
        SendActivityData::UpdatePrivateMessage(pm) => person_scope(dir, pm.message.recipient_id),
        SendActivityData::DeletePrivateMessage(_, pm, _) => person_scope(dir, pm.recipient_id),
        SendActivityData::DeleteUser(..) => Some(Scope::Everyone),
        SendActivityData::CreateReport { receiver, .. } => Some(receiver_scope(receiver)),
        SendActivityData::SendResolveReport { receiver, .. } => Some(receiver_scope(receiver)),
        SendActivityData::AcceptFollower(_, person_id) => person_scope(dir, person_id),
        SendActivityData::RejectFollower(_, person_id) => person_scope(dir, person_id),
        SendActivityData::UpdateMultiCommunity(multi, _) => Some(Scope::MultiCommunity(multi)),
    }
}

/// The reason that goes with the activity. A moderator's removal of a post
/// or of a community always carries one, empty where none was given.
pub open spec fn event_summary(event: SendActivityData) -> Option<Seq<char>> {
    match event {
        SendActivityData::RemovePost { reason, .. } => Some(
            match reason {
                Some(r) => r@,
                None => Seq::empty(),
            },
        ),
        SendActivityData::RemoveCommunity { reason, .. } => Some(
            match reason {
                Some(r) => r@,
                None => Seq::empty(),
            },
        ),
        SendActivityData::LockPost(_, _, _, reason) => opt_text(reason),
        SendActivityData::RemoveComment { reason, .. } => opt_text(reason),
        SendActivityData::BanFromCommunity { reason, .. } => opt_text(reason),
        SendActivityData::BanFromSite { reason, .. } => opt_text(reason),
        SendActivityData::CreateReport { reason, .. } => Some(reason@),
        _ => None,
    }
}

/// Whether the activity must be kept from public view: everything about
/// following and about private messages.
pub open spec fn event_sensitive(event: SendActivityData) -> bool {
    match event {
        SendActivityData::FollowCommunity(..) => true,
        SendActivityData::FollowMultiCommunity(..) => true,
        SendActivityData::AcceptFollower(..) => true,
        SendActivityData::RejectFollower(..) => true,
        SendActivityData::CreatePrivateMessage(_) => true,
        SendActivityData::UpdatePrivateMessage(_) => true,
        SendActivityData::DeletePrivateMessage(..) => true,
        _ => false,
    }
}

/// Where an activity with the given scope goes.
pub open spec fn scope_audience(scope: Scope) -> Audience {
    match scope {
        Scope::Community(c) => if c.local {
            Audience::FollowersOf(Followed { kind: TargetKind::Community, id: c.id })
        } else {
            Audience::Inbox(c.inbox)
        },
        Scope::MultiCommunity(m) => Audience::FollowersOf(
            Followed { kind: TargetKind::MultiCommunity, id: m.id },
        ),
        Scope::Direct { inbox, .. } => Audience::Inbox(inbox),
        Scope::Everyone => Audience::AllInstances,
    }
}

/// The declared target of an activity with the given scope.
pub open spec fn scope_to(scope: Scope) -> Option<Uri> {
    match scope {
        Scope::Community(c) => Some(c.ap_id),
        Scope::MultiCommunity(m) => Some(m.ap_id),
        Scope::Direct { ap_id, .. } => Some(ap_id),
        Scope::Everyone => None,
    }
}

/// The private message that an event carries, if it carries one.
pub open spec fn event_message(event: SendActivityData) -> Option<RenderedPrivateMessage> {
    match event {
        SendActivityData::CreatePrivateMessage(pm) => Some(pm),
        SendActivityData::UpdatePrivateMessage(pm) => Some(pm),
        _ => None,
    }
}

/// Why an event cannot be told, if it cannot: a record that it needs is not
/// known (`NotFound`), or the private message that it carries has no wire
/// form (the failure of that translation).
pub open spec fn event_failure(event: SendActivityData, dir: Directory) -> Option<FederationError> {
    if event_actor(event, dir) is None || event_object(event, dir) is None || event_scope(
        event,
        dir,
    ) is None {
        Some(FederationError::NotFound)
    } else {
        match event_message(event) {
            Some(pm) => match wire_parties_spec(pm.message, dir) {
                Err(e) => Some(e),
                Ok(_) => None,
            },
            None => None,
        }
    }
}

/// Whether `follow` is the follow of `object` by `actor`, addressed to the
/// object.
pub open spec fn is_follow_of(follow: Follow, actor: Uri, object: Uri) -> bool {
    follow.actor == actor && follow.object == object && follow.to == Some(object)
}

/// Whether the payload has the form and the content that the event asks for.
pub open spec fn payload_conforms(payload: Payload, event: SendActivityData, dir: Directory) -> bool {
    let actor = event_actor(event, dir)->0;
    let object = event_object(event, dir)->0;
    let to = scope_to(event_scope(event, dir)->0);
    match event_shape(event) {
        Shape::Plain => {
            &&& payload matches Payload::Activity(a)
            &&& a.kind == event_kind(event)
            &&& a.actor == actor
            &&& a.object == object
            &&& a.to == to
            &&& a.undoes == event_undoes(event)
            &&& opt_text(a.summary) == event_summary(event)
        },
        Shape::Follow => {
            &&& payload matches Payload::Follow(f)
            &&& is_follow_of(f, actor, object)
        },
        Shape::AboutFollow(kind) => {
            &&& payload matches Payload::AboutFollow(a)
            &&& a.kind == kind
            &&& a.actor == actor
            &&& a.to == Some(object)
            &&& if kind == AboutFollowKind::Undo {
                is_follow_of(a.object, actor, object)
            } else {
                is_follow_of(a.object, object, actor)
            }
        },
        Shape::PrivateMessage(kind) => {
            &&& payload matches Payload::PrivateMessage(c)
            &&& c.kind == kind
            &&& c.actor == actor
            &&& c.to == to
            &&& wire_parties_spec(event_message(event)->0.message, dir) matches Ok(parties)
            &&& is_wire_form(
                c.object,
                event_message(event)->0.message,
                parties.0,
                parties.1,
                parties.2,
                event_message(event)->0.content_html,
            )
        },
    }
}

/// Whether `record` is the outbox entry that the event asks for.
pub open spec fn record_conforms(
    record: SentActivityRecord,
    event: SendActivityData,
    dir: Directory,
) -> bool {
    &&& record.wf()
    &&& record.payload.kind_spec() == event_kind(event)
    &&& payload_conforms(record.payload, event, dir)
    &&& record.sensitive == event_sensitive(event)
    &&& record.send_targets@ == resolve_targets_spec(scope_audience(event_scope(event, dir)->0))
    &&& record.actor_type == event_actor_type(event)
    &&& record.actor_id == event_actor(event, dir)->0
}

/// What the router hands out for an event: the entry that the event asks
/// for, under a fresh identifier, with a fresh identifier of its own for the
/// follow that an activity about a follow carries; or the event's own
/// failure; or `MalformedUrl` where a fresh identifier could not be made.
pub open spec fn is_dispatch_outcome(
    r: Result<SentActivityRecord, FederationError>,
    event: SendActivityData,
    dir: Directory,
    base_url: Seq<char>,
) -> bool {
    match r {
        Ok(record) => {
            &&& event_failure(event, dir) is None
            &&& record_conforms(record, event, dir)
            &&& is_fresh_id_outcome(event_kind(event), base_url, Ok(record.ap_id@))
            &&& record.payload matches Payload::AboutFollow(about) ==> is_fresh_id_outcome(
                ActivityKind::Follow,
                base_url,
                Ok(about.object.id@),
            )
        },
        Err(e) => {
            ||| event_failure(event, dir) == Some(e)
            ||| {
                &&& event_failure(event, dir) is None
                &&& e == FederationError::MalformedUrl
                &&& {
                    ||| is_fresh_id_outcome(event_kind(event), base_url, Err(e))
                    ||| event_shape(event) is AboutFollow && is_fresh_id_outcome(
                        ActivityKind::Follow,
                        base_url,
                        Err(e),
                    )
                }
            }
        },
    }
}

/// What the router works with: the known records and the base of this
/// instance's identifiers.
#[derive(Debug)]
pub struct FederationContext {
    pub directory: Directory,
    /// The scheme and host under which this instance's identifiers stand.
    pub base_url: String,
}

/// What is settled of a plain activity before its identifier is made.
struct Outgoing {
    kind: ActivityKind,
    undoes: Option<ActivityKind>,
    actor: Uri,
    object: Uri,
    summary: Option<String>,
}

fn community_for<'a>(dir: &'a Directory, id: u64) -> (r: Result<&'a CommunityRecord, FederationError>)
    ensures
        match dir.community_spec(id) {
            Some(c) => r == Ok::<&CommunityRecord, FederationError>(&c),
            None => r == Err::<&CommunityRecord, FederationError>(FederationError::NotFound),
        },
{
    match dir.community(id) {
        Some(c) => Ok(c),
        None => Err(FederationError::NotFound),
    }
}

fn person_for<'a>(dir: &'a Directory, id: u64) -> (r: Result<&'a PersonRecord, FederationError>)
    ensures
        match dir.person_spec(id) {
            Some(p) => r == Ok::<&PersonRecord, FederationError>(&p),
            None => r == Err::<&PersonRecord, FederationError>(FederationError::NotFound),
        },
{
    match dir.person(id) {
        Some(p) => Ok(p),
        None => Err(FederationError::NotFound),
    }
}

fn audience_of_community(community: &CommunityRecord) -> (a: Audience)
    ensures
        a == scope_audience(Scope::Community(*community)),
{
    if community.local {
        Audience::FollowersOf(Followed { kind: TargetKind::Community, id: community.id })
    } else {
        Audience::Inbox(community.inbox.clone())
    }
}

fn kind_or_undo(done: bool, kind: ActivityKind) -> (r: (ActivityKind, Option<ActivityKind>))
    ensures
        r.0 == done_or_undone(done, kind),
        r.1 == if done {
            None
        } else {
            Some(kind)
        },
{
    if done {
        (kind, None)
    } else {
        (ActivityKind::Undo, Some(kind))
    }
}

fn kind_of_vote(score: i16) -> (k: ActivityKind)
    ensures
        k == vote_kind(score),
{
    if score < 0 {
        ActivityKind::Dislike
    } else {
        ActivityKind::Like
    }
}

fn reason_or_empty(reason: &Option<String>) -> (r: Option<String>)
    ensures
        opt_text(r) == Some(
            match *reason {
                Some(t) => t@,
                None => Seq::empty(),
            },
        ),
{
    match reason {
        Some(t) => Some(t.clone()),
        None => Some(String::new()),
    }
}

/// Makes the entry of a plain activity that concerns a community, a
/// multi-community, one actor or everyone.
fn send_plain(
    outgoing: Outgoing,
    to: Option<Uri>,
    audience: Audience,
    sensitive: bool,
    base_url: &str,
) -> (r: Result<SentActivityRecord, FederationError>)
    ensures
        is_fresh_id_outcome(
            outgoing.kind,
            base_url@,
            match r {
                Ok(record) => Ok(record.ap_id@),
                Err(e) => Err(e),
            },
        ),
        r matches Err(e) ==> e == FederationError::MalformedUrl,
        r matches Ok(record) ==> {
            &&& record.wf()
            &&& record.payload matches Payload::Activity(a)
            &&& a.kind == outgoing.kind
            &&& a.actor == outgoing.actor
            &&& a.object == outgoing.object
            &&& a.to == to
            &&& a.undoes == outgoing.undoes
            &&& a.summary == outgoing.summary
            &&& record.sensitive == sensitive
            &&& record.send_targets@ == resolve_targets_spec(audience)
            &&& record.actor_type == ActorType::Person
            &&& record.actor_id == outgoing.actor
        },
{
    let id = match new_activity_id(outgoing.kind, base_url) {
        Ok(id) => id,
        Err(_) => return Err(FederationError::MalformedUrl),
    };
    let actor_id = outgoing.actor.clone();
    let activity = Activity {
        id,
        kind: outgoing.kind,
        actor: outgoing.actor,
        object: outgoing.object,
        to,
        undoes: outgoing.undoes,
        summary: outgoing.summary,
    };
    let targets = resolve_targets(audience);
    Ok(
        send_lemmy_activity(
            Payload::Activity(activity),
            ActorType::Person,
            &actor_id,
            targets,
            sensitive,
        ),
    )
}

/// Makes the entry of an activity that concerns a community.
fn send_in_community(outgoing: Outgoing, community: &CommunityRecord, base_url: &str) -> (r: Result<
    SentActivityRecord,
    FederationError,
>)
    ensures
        is_fresh_id_outcome(
            outgoing.kind,
            base_url@,
            match r {
                Ok(record) => Ok(record.ap_id@),
                Err(e) => Err(e),
            },
        ),
        r matches Err(e) ==> e == FederationError::MalformedUrl,
        r matches Ok(record) ==> {
            &&& record.wf()
            &&& record.payload matches Payload::Activity(a)
            &&& a.kind == outgoing.kind
            &&& a.actor == outgoing.actor
            &&& a.object == outgoing.object
            &&& a.to == Some(community.ap_id)
            &&& a.undoes == outgoing.undoes
            &&& a.summary == outgoing.summary
            &&& !record.sensitive
            &&& record.send_targets@ == resolve_targets_spec(
                scope_audience(Scope::Community(*community)),
            )
            &&& record.actor_type == ActorType::Person
            &&& record.actor_id == outgoing.actor
        },
{
    send_plain(
        outgoing,
        Some(community.ap_id.clone()),
        audience_of_community(community),
        false,
        base_url,
    )
}

/// Makes the entry of an activity that goes to one actor's inbox.
fn send_direct(
    outgoing: Outgoing,
    ap_id: &Uri,
    inbox: &Uri,
    sensitive: bool,
    base_url: &str,
) -> (r: Result<SentActivityRecord, FederationError>)
    ensures
        is_fresh_id_outcome(
            outgoing.kind,
            base_url@,
            match r {
                Ok(record) => Ok(record.ap_id@),
                Err(e) => Err(e),
            },
        ),
        r matches Err(e) ==> e == FederationError::MalformedUrl,
        r matches Ok(record) ==> {
            &&& record.wf()
            &&& record.payload matches Payload::Activity(a)
            &&& a.kind == outgoing.kind
            &&& a.actor == outgoing.actor
            &&& a.object == outgoing.object
            &&& a.to == Some(*ap_id)
            &&& a.undoes == outgoing.undoes
            &&& a.summary == outgoing.summary
            &&& record.sensitive == sensitive
            &&& record.send_targets@ == resolve_targets_spec(Audience::Inbox(*inbox))
            &&& record.actor_type == ActorType::Person
            &&& record.actor_id == outgoing.actor
        },
{
    send_plain(outgoing, Some(ap_id.clone()), Audience::Inbox(inbox.clone()), sensitive, base_url)
}

/// Makes the entry of an activity about a follow of `followed` by
/// `follower`: sent by `actor` to `other`, whose inbox is `inbox`.
fn send_about_follow(
    kind: AboutFollowKind,
    follower: &Uri,
    followed: &Uri,
    actor: &Uri,
    actor_type: ActorType,
    other: &Uri,
    inbox: &Uri,
    base_url: &str,
) -> (r: Result<SentActivityRecord, FederationError>)
    ensures
        r matches Err(e) ==> e == FederationError::MalformedUrl && (is_fresh_id_outcome(
            kind.kind_spec(),
            base_url@,
            Err(e),
        ) || is_fresh_id_outcome(ActivityKind::Follow, base_url@, Err(e))),
        r matches Ok(record) ==> {
            &&& is_fresh_id_outcome(kind.kind_spec(), base_url@, Ok(record.ap_id@))
            &&& record.wf()
            &&& record.payload matches Payload::AboutFollow(a)
            &&& a.kind == kind
            &&& a.actor == *actor
            &&& a.to == Some(*other)
            &&& is_follow_of(a.object, *follower, *followed)
            &&& is_fresh_id_outcome(ActivityKind::Follow, base_url@, Ok(a.object.id@))
            &&& record.sensitive
            &&& record.send_targets@ == resolve_targets_spec(Audience::Inbox(*inbox))
            &&& record.actor_type == actor_type
            &&& record.actor_id == *actor
        },
{
    let follow_id = match new_activity_id(ActivityKind::Follow, base_url) {
        Ok(id) => id,
        Err(_) => return Err(FederationError::MalformedUrl),
    };
    let id = match new_activity_id(kind.kind(), base_url) {
        Ok(id) => id,
        Err(_) => return Err(FederationError::MalformedUrl),
    };
    let follow = Follow {
        actor: follower.clone(),
        object: followed.clone(),
        to: Some(followed.clone()),
        id: follow_id,
    };
    let about = AboutFollow { kind, actor: actor.clone(), to: Some(other.clone()), object: follow, id };
    let targets = resolve_targets(Audience::Inbox(inbox.clone()));
    Ok(send_lemmy_activity(Payload::AboutFollow(about), actor_type, actor, targets, true))
}

/// Makes the entry of a follow, or of its undoing, of a target on another
/// instance by a local person.
fn send_follow(
    target_ap_id: &Uri,
    target_inbox: &Uri,
    person: &PersonRecord,
    follow: bool,
    base_url: &str,
) -> (r: Result<SentActivityRecord, FederationError>)
    ensures
        r matches Err(e) ==> e == FederationError::MalformedUrl && (is_fresh_id_outcome(
            done_or_undone(follow, ActivityKind::Follow),
            base_url@,
            Err(e),
        ) || (!follow && is_fresh_id_outcome(ActivityKind::Follow, base_url@, Err(e)))),
        r matches Ok(record) ==> {
            &&& is_fresh_id_outcome(
                done_or_undone(follow, ActivityKind::Follow),
                base_url@,
                Ok(record.ap_id@),
            )
            &&& record.wf()
            &&& record.sensitive
            &&& record.send_targets@ == resolve_targets_spec(Audience::Inbox(*target_inbox))
            &&& record.actor_type == ActorType::Person
            &&& record.actor_id == person.ap_id
            &&& if follow {
                record.payload matches Payload::Follow(f) && is_follow_of(
                    f,
                    person.ap_id,
                    *target_ap_id,
                )
            } else {
                record.payload matches Payload::AboutFollow(a) && a.kind == AboutFollowKind::Undo
                    && a.actor == person.ap_id && a.to == Some(*target_ap_id) && is_follow_of(
                    a.object,
                    person.ap_id,
                    *target_ap_id,
                ) && is_fresh_id_outcome(ActivityKind::Follow, base_url@, Ok(a.object.id@))
            }
        },
{
    if follow {
        let id = match new_activity_id(ActivityKind::Follow, base_url) {
            Ok(id) => id,
            Err(_) => return Err(FederationError::MalformedUrl),
        };
        let activity = Follow {
            actor: person.ap_id.clone(),
            object: target_ap_id.clone(),
            to: Some(target_ap_id.clone()),
            id,
        };
        let targets = resolve_targets(Audience::Inbox(target_inbox.clone()));
        Ok(
            send_lemmy_activity(
                Payload::Follow(activity),
                ActorType::Person,
                &person.ap_id,
                targets,
                true,
            ),
        )
    } else {
        send_about_follow(
            AboutFollowKind::Undo,
            &person.ap_id,
            target_ap_id,
            &person.ap_id,
            ActorType::Person,
            target_ap_id,
            target_inbox,
            base_url,
        )
    }
}

/// Makes the entry of a community's answer to a follower.
fn send_accept_or_reject_follow(
    community_id: u64,
    person_id: u64,
    accepted: bool,
    context: &FederationContext,
) -> (r: Result<SentActivityRecord, FederationError>)
    ensures
        is_dispatch_outcome(
            r,
            if accepted {
                SendActivityData::AcceptFollower(community_id, person_id)
            } else {
                SendActivityData::RejectFollower(community_id, person_id)
            },
            context.directory,
            context.base_url@,
        ),
{
    let community = community_for(&context.directory, community_id)?;
    let person = person_for(&context.directory, person_id)?;
    let kind = if accepted {
        AboutFollowKind::Accept
    } else {
        AboutFollowKind::Reject
    };
    send_about_follow(
        kind,
        &person.ap_id,
        &community.ap_id,
        &community.ap_id,
        ActorType::Community,
        &person.ap_id,
        &person.inbox,
        context.base_url.as_str(),
    )
}

/// Makes the entry that sends a private message for the first time or again.
fn send_create_or_update_pm(
    pm: &RenderedPrivateMessage,
    kind: CreateOrUpdateType,
    context: &FederationContext,
) -> (r: Result<SentActivityRecord, FederationError>)
    ensures
        match r {
            Ok(record) => {
                &&& person_ap_id(context.directory, pm.message.creator_id) is Some
                &&& person_scope(context.directory, pm.message.recipient_id) is Some
                &&& record.wf()
                &&& record.payload matches Payload::PrivateMessage(c)
                &&& c.kind == kind
                &&& c.actor == person_ap_id(context.directory, pm.message.creator_id)->0
                &&& c.to == scope_to(person_scope(context.directory, pm.message.recipient_id)->0)
                &&& wire_parties_spec(pm.message, context.directory) matches Ok(parties)
                &&& is_wire_form(
                    c.object,
                    pm.message,
                    parties.0,
                    parties.1,
                    parties.2,
                    pm.content_html,
                )
                &&& record.sensitive
                &&& record.send_targets@ == resolve_targets_spec(
                    scope_audience(
                        person_scope(context.directory, pm.message.recipient_id)->0,
                    ),
                )
                &&& record.actor_type == ActorType::Person
                &&& record.actor_id == c.actor
                &&& is_fresh_id_outcome(kind.kind_spec(), context.base_url@, Ok(record.ap_id@))
            },
            Err(e) => {
                ||| (person_ap_id(context.directory, pm.message.creator_id) is None
                    || person_scope(context.directory, pm.message.recipient_id) is None) && e
                    == FederationError::NotFound
                ||| person_ap_id(context.directory, pm.message.creator_id) is Some && person_scope(
                    context.directory,
                    pm.message.recipient_id,
                ) is Some && wire_parties_spec(pm.message, context.directory) == Err::<
                    (PersonRecord, PersonRecord, crate::protocol::PrivateMessageType),
                    FederationError,
                >(e)
                ||| person_ap_id(context.directory, pm.message.creator_id) is Some && person_scope(
                    context.directory,
                    pm.message.recipient_id,
                ) is Some && wire_parties_spec(pm.message, context.directory) is Ok && e
                    == FederationError::MalformedUrl && is_fresh_id_outcome(
                    kind.kind_spec(),
                    context.base_url@,
                    Err(e),
                )
            },
        },
{
    let creator = person_for(&context.directory, pm.message.creator_id)?;
    let recipient = person_for(&context.directory, pm.message.recipient_id)?;
    let note = ApubPrivateMessage(pm.message.copy()).into_json(
        &context.directory,
        pm.content_html.clone(),
    )?;
    let id = match new_activity_id(kind.kind(), context.base_url.as_str()) {
        Ok(id) => id,
        Err(_) => return Err(FederationError::MalformedUrl),
    };
    let activity = CreateOrUpdatePrivateMessage {
        id,
        actor: creator.ap_id.clone(),
        to: Some(recipient.ap_id.clone()),
        object: note,
        kind,
    };
    let targets = resolve_targets(Audience::Inbox(recipient.inbox.clone()));
    Ok(
        send_lemmy_activity(
            Payload::PrivateMessage(activity),
            ActorType::Person,
            &creator.ap_id,
            targets,
            true,
        ),
    )
}

fn receiver_parts(receiver: &ReportReceiver) -> (r: (&Uri, &Uri))
    ensures
        receiver_scope(*receiver) == (Scope::Direct { ap_id: *r.0, inbox: *r.1 }),
{
    match receiver {
        ReportReceiver::Site(site) => (&site.ap_id, &site.inbox),
        ReportReceiver::Community(community) => (&community.ap_id, &community.inbox),
    }
}

/// Makes the outbox entry for one domain event. The records that the event
/// does not carry are looked up; where one is not known, or the activity
/// cannot be built in full, the event fails as a whole and no entry is made.
pub fn match_outgoing_activities(data: SendActivityData, context: &FederationContext) -> (r: Result<
    SentActivityRecord,
    FederationError,
>)
    ensures
        is_dispatch_outcome(r, data, context.directory, context.base_url@),
{
    let dir = &context.directory;
    let base_url = context.base_url.as_str();
    match &data {
        SendActivityData::CreatePost(post) => {
            let creator = person_for(dir, post.creator_id)?;
            let community = community_for(dir, post.community_id)?;
            let outgoing = Outgoing {
                kind: ActivityKind::Create,
                undoes: None,
                actor: creator.ap_id.clone(),
                object: post.ap_id.clone(),
                summary: None,
            };
            send_in_community(outgoing, community, base_url)
        },
        SendActivityData::UpdatePost(post) => {
            let creator = person_for(dir, post.creator_id)?;
            let community = community_for(dir, post.community_id)?;
            let outgoing = Outgoing {
                kind: ActivityKind::Update,
                undoes: None,
                actor: creator.ap_id.clone(),
                object: post.ap_id.clone(),
                summary: None,
            };
            send_in_community(outgoing, community, base_url)
        },
        SendActivityData::DeletePost(post, person, deleted) => {
            let community = community_for(dir, post.community_id)?;
            let (kind, undoes) = kind_or_undo(*deleted, ActivityKind::Delete);
            let outgoing = Outgoing {
                kind,
                undoes,
                actor: person.ap_id.clone(),
                object: post.ap_id.clone(),
                summary: None,
            };
            send_in_community(outgoing, community, base_url)
        },
        SendActivityData::RemovePost { post, moderator, reason, removed } => {
            let community = community_for(dir, post.community_id)?;
            let (kind, undoes) = kind_or_undo(*removed, ActivityKind::Delete);
            let outgoing = Outgoing {
                kind,
                undoes,
                actor: moderator.ap_id.clone(),
                object: post.ap_id.clone(),
                summary: reason_or_empty(reason),
            };
            send_in_community(outgoing, community, base_url)
        },
        SendActivityData::LockPost(post, actor, locked, reason) => {
            let community = community_for(dir, post.community_id)?;
            let (kind, undoes) = kind_or_undo(*locked, ActivityKind::Lock);
            let outgoing = Outgoing {
                kind,
                undoes,
                actor: actor.ap_id.clone(),
                object: post.ap_id.clone(),
                summary: clone_opt_text(reason),
            };
            send_in_community(outgoing, community, base_url)
        },
        SendActivityData::FeaturePost(post, actor, featured) => {
            let community = community_for(dir, post.community_id)?;
            let kind = if *featured {
                ActivityKind::Add
            } else {
                ActivityKind::Remove
            };
            let outgoing = Outgoing {
                kind,
                undoes: None,
                actor: actor.ap_id.clone(),
                object: post.ap_id.clone(),
                summary: None,
            };
            send_in_community(outgoing, community, base_url)
        },
        SendActivityData::CreateComment(comment) => {
            let creator = person_for(dir, comment.creator_id)?;
            let community = community_for(dir, comment.community_id)?;
            let outgoing = Outgoing {
                kind: ActivityKind::Create,
                undoes: None,
                actor: creator.ap_id.clone(),
                object: comment.ap_id.clone(),
                summary: None,
            };
            send_in_community(outgoing, community, base_url)
        },
        SendActivityData::UpdateComment(comment) => {
            let creator = person_for(dir, comment.creator_id)?;
            let community = community_for(dir, comment.community_id)?;
            let outgoing = Outgoing {
                kind: ActivityKind::Update,
                undoes: None,
                actor: creator.ap_id.clone(),
                object: comment.ap_id.clone(),
                summary: None,
            };
            send_in_community(outgoing, community, base_url)
        },
        SendActivityData::DeleteComment(comment, actor, community) => {
            let (kind, undoes) = kind_or_undo(comment.deleted, ActivityKind::Delete);
            let outgoing = Outgoing {
                kind,
                undoes,
                actor: actor.ap_id.clone(),
                object: comment.ap_id.clone(),
                summary: None,
            };
            send_in_community(outgoing, community, base_url)
        },
        SendActivityData::RemoveComment { comment, moderator, community, reason } => {
            let (kind, undoes) = kind_or_undo(comment.removed, ActivityKind::Delete);
            let outgoing = Outgoing {
                kind,
                undoes,
                actor: moderator.ap_id.clone(),
                object: comment.ap_id.clone(),
                summary: clone_opt_text(reason),
            };
            send_in_community(outgoing, community, base_url)
        },
        SendActivityData::LikePostOrComment {
            object_id,
            actor,
            community,
            previous_score,
            new_score,
        } => {
            let (kind, undoes) = if *new_score != 0 {
                (kind_of_vote(*new_score), None)
            } else {
                let previous = match previous_score {
                    Some(s) => kind_of_vote(*s),
                    None => ActivityKind::Like,
                };
                (ActivityKind::Undo, Some(previous))
            };
            let outgoing = Outgoing {
                kind,
                undoes,
                actor: actor.ap_id.clone(),
                object: object_id.clone(),
                summary: None,
            };
            send_in_community(outgoing, community, base_url)
        },
        SendActivityData::FollowCommunity(community, person, follow) => {
            send_follow(&community.ap_id, &community.inbox, person, *follow, base_url)
        },
        SendActivityData::FollowMultiCommunity(multi, person, follow) => {
            send_follow(&multi.ap_id, &multi.inbox, person, *follow, base_url)
        },
        SendActivityData::UpdateCommunity(actor, community) => {
            let outgoing = Outgoing {
                kind: ActivityKind::Update,
                undoes: None,
                actor: actor.ap_id.clone(),
                object: community.ap_id.clone(),
                summary: None,
            };
            send_in_community(outgoing, community, base_url)
        },
        SendActivityData::DeleteCommunity(actor, community, removed) => {
            let (kind, undoes) = kind_or_undo(*removed, ActivityKind::Delete);
            let outgoing = Outgoing {
                kind,
                undoes,
                actor: actor.ap_id.clone(),
                object: community.ap_id.clone(),
                summary: None,
            };
            send_in_community(outgoing, community, base_url)
        },
        SendActivityData::RemoveCommunity { moderator, community, reason, removed } => {
            let (kind, undoes) = kind_or_undo(*removed, ActivityKind::Delete);
            let outgoing = Outgoing {
                kind,
                undoes,
                actor: moderator.ap_id.clone(),
                object: community.ap_id.clone(),
                summary: reason_or_empty(reason),
            };
            send_in_community(outgoing, community, base_url)
        },
        SendActivityData::AddModToCommunity { moderator, community_id, target, added } => {
            let community = community_for(dir, *community_id)?;
            let person = person_for(dir, *target)?;
            let kind = if *added {
                ActivityKind::Add
            } else {
                ActivityKind::Remove
            };
            let outgoing = Outgoing {
                kind,
                undoes: None,
                actor: moderator.ap_id.clone(),
                object: person.ap_id.clone(),
                summary: None,
            };
            send_in_community(outgoing, community, base_url)
        },
        SendActivityData::BanFromCommunity { moderator, community_id, target, reason, ban } => {
            let community = community_for(dir, *community_id)?;
            let (kind, undoes) = kind_or_undo(*ban, ActivityKind::Block);
            let outgoing = Outgoing {
                kind,
                undoes,
                actor: moderator.ap_id.clone(),
                object: target.ap_id.clone(),
                summary: clone_opt_text(reason),
            };
            send_in_community(outgoing, community, base_url)
        },
        SendActivityData::BanFromSite {
            moderator,
            banned_user,
            reason,
            remove_or_restore_data: _,
            ban,
            expires_at: _,
        } => {
            let (kind, undoes) = kind_or_undo(*ban, ActivityKind::Block);
            let outgoing = Outgoing {
                kind,
                undoes,
                actor: moderator.ap_id.clone(),
                object: banned_user.ap_id.clone(),
                summary: clone_opt_text(reason),
            };
            send_plain(outgoing, None, Audience::AllInstances, false, base_url)
        },
        SendActivityData::CreatePrivateMessage(pm) => {
            send_create_or_update_pm(pm, CreateOrUpdateType::Create, context)
        },
        SendActivityData::UpdatePrivateMessage(pm) => {
            send_create_or_update_pm(pm, CreateOrUpdateType::Update, context)
        },
        SendActivityData::DeletePrivateMessage(person, pm, deleted) => {
            let recipient = person_for(dir, pm.recipient_id)?;
            let (kind, undoes) = kind_or_undo(*deleted, ActivityKind::Delete);
            let outgoing = Outgoing {
                kind,
                undoes,
                actor: person.ap_id.clone(),
                object: pm.ap_id.clone(),
                summary: None,
            };
            send_direct(outgoing, &recipient.ap_id, &recipient.inbox, true, base_url)
        },
        SendActivityData::DeleteUser(person, _) => {
            let outgoing = Outgoing {
                kind: ActivityKind::Delete,
                undoes: None,
                actor: person.ap_id.clone(),
                object: person.ap_id.clone(),
                summary: None,
            };
            send_plain(outgoing, None, Audience::AllInstances, false, base_url)
        },
        SendActivityData::CreateReport { object_id, actor, receiver, reason } => {
            let (ap_id, inbox) = receiver_parts(receiver);
            let outgoing = Outgoing {
                kind: ActivityKind::Flag,
                undoes: None,
                actor: actor.ap_id.clone(),
                object: object_id.clone(),
                summary: Some(reason.clone()),
            };
            send_direct(outgoing, ap_id, inbox, false, base_url)
        },
        SendActivityData::SendResolveReport { object_id, actor, report_creator: _, receiver } => {
            let (ap_id, inbox) = receiver_parts(receiver);
            let outgoing = Outgoing {
                kind: ActivityKind::Resolve,
                undoes: None,
                actor: actor.ap_id.clone(),
                object: object_id.clone(),
                summary: None,
            };
            send_direct(outgoing, ap_id, inbox, false, base_url)
        },
        SendActivityData::AcceptFollower(community_id, person_id) => {
            send_accept_or_reject_follow(*community_id, *person_id, true, context)
        },
        SendActivityData::RejectFollower(community_id, person_id) => {
            send_accept_or_reject_follow(*community_id, *person_id, false, context)
        },
        SendActivityData::UpdateMultiCommunity(multi, actor) => {
            let outgoing = Outgoing {
                kind: ActivityKind::Update,
                undoes: None,
                actor: actor.ap_id.clone(),
                object: multi.ap_id.clone(),
                summary: None,
            };
            send_plain(
                outgoing,
                Some(multi.ap_id.clone()),
                Audience::FollowersOf(Followed { kind: TargetKind::MultiCommunity, id: multi.id }),
                false,
                base_url,
            )
        },
    }
}

/// Works through the events that were taken from the queue, in their order.
/// Each event ends on its own: one that fails leaves its failure in its place
/// and the events after it are still told.
pub fn handle_outgoing_activities(events: Vec<SendActivityData>, context: &FederationContext) -> (outcomes:
    Vec<Result<SentActivityRecord, FederationError>>)
    ensures
        outcomes@.len() == events@.len(),
        forall|i: int|
            0 <= i < events@.len() ==> is_dispatch_outcome(
                #[trigger] outcomes@[i],
                events@[i],
                context.directory,
                context.base_url@,
            ),
{
    let mut outcomes: Vec<Result<SentActivityRecord, FederationError>> = Vec::new();
    for event in it: events
        invariant
            outcomes@.len() == it.index(),
            forall|i: int|
                0 <= i < outcomes@.len() ==> is_dispatch_outcome(
                    #[trigger] outcomes@[i],
                    it.seq()[i],
                    context.directory,
                    context.base_url@,
                ),
    {
        let outcome = match_outgoing_activities(event, context);
        outcomes.push(outcome);
    }
    outcomes
}

} // verus!
