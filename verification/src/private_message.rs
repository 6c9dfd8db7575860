//! Private messages: the stored record, its wire form, and the translation
//! between the two.

use vstd::prelude::*;
use vstd::string::StringExecFns;
use crate::directory::Directory;
use crate::error::FederationError;
use crate::protocol::{MediaType, PrivateMessage, PrivateMessageType, Source};
use crate::records::{InstanceRecord, PersonRecord};
use crate::text::text_is;
use crate::uri::{Uri, UriView};
use crate::verification::{
    actor_trust_spec,
    same_home_spec,
    verify_domains_match,
    verify_person,
    verify_remote_origin,
    LocalDomain,
};

verus! {

/// A private message as it is stored.
#[derive(Debug)]
pub struct DbPrivateMessage {
    pub id: u64,
    pub creator_id: u64,
    pub recipient_id: u64,
    /// The text as its author wrote it.
    pub content: String,
    pub deleted: bool,
    pub read: bool,
    /// Microseconds since the Unix epoch.
    pub published_at: i64,
    /// Microseconds since the Unix epoch.
    pub updated_at: Option<i64>,
    pub ap_id: Uri,
    pub local: bool,
    pub removed: bool,
}

impl DbPrivateMessage {
    /// A copy of the record.
    pub fn copy(&self) -> (r: DbPrivateMessage)
        ensures
            r == *self,
    {
        DbPrivateMessage {
            id: self.id,
            creator_id: self.creator_id,
            recipient_id: self.recipient_id,
            content: self.content.clone(),
            deleted: self.deleted,
            read: self.read,
            published_at: self.published_at,
            updated_at: self.updated_at,
            ap_id: self.ap_id.clone(),
            local: self.local,
            removed: self.removed,
        }
    }
}

/// A stored private message in its role as a federated object.
#[derive(Debug)]
pub struct ApubPrivateMessage(pub DbPrivateMessage);

/// What is to be stored for a private message that came in.
#[derive(Debug)]
pub struct PrivateMessageInsertForm {
    pub creator_id: u64,
    pub recipient_id: u64,
    pub content: String,
    pub published_at: Option<i64>,
    pub updated_at: Option<i64>,
    pub deleted: Option<bool>,
    pub read: Option<bool>,
    pub ap_id: Option<Uri>,
    pub local: Option<bool>,
}

/// The form to store, and the time under which to store it.
#[derive(Debug)]
pub struct InsertRequest {
    pub form: PrivateMessageInsertForm,
    /// Microseconds since the Unix epoch.
    pub timestamp: i64,
}

#[verifier::external_type_specification]
#[verifier::external_body]
pub struct ExSemverError(semver::Error);

/// Whether the version that `version` spells satisfies the requirement that
/// `requirement` spells, by `semver::VersionReq::matches`; `None` where either
/// text does not parse.
pub uninterp spec fn semver_satisfies(requirement: Seq<char>, version: Seq<char>) -> Option<bool>;

/// Parses the requirement with `semver::VersionReq::parse` and the version
/// with `semver::Version::parse`, and asks `semver::VersionReq::matches`. The
/// contract claims only that the outcome is a function of the two texts.
#[verifier::external_body]
fn version_satisfies(requirement: &str, version: &str) -> (r: Result<bool, semver::Error>)
    ensures
        r matches Ok(b) ==> semver_satisfies(requirement@, version@) == Some(b),
        r is Err ==> semver_satisfies(requirement@, version@) is None,
{
    let req = semver::VersionReq::parse(requirement)?;
    let v = semver::Version::parse(version)?;
    Ok(req.matches(&v))
}

/// Reads the clock through `chrono::Utc::now` and gives the moment in
/// microseconds since the Unix epoch. Nothing is claimed of the value.
#[verifier::external_body]
fn current_time() -> i64 {
    chrono::Utc::now().timestamp_micros()
}

/// Whether a peer speaks the legacy dialect, given whether its software is
/// the implementation that once spoke it and how its version compares with
/// the first version that no longer does. A version that cannot be compared
/// is an error for that software, and of no interest for any other.
pub open spec fn legacy_verdict_spec(is_legacy_software: bool, satisfied: Option<bool>) -> Result<
    bool,
    FederationError,
> {
    if !is_legacy_software {
        Ok(false)
    } else {
        match satisfied {
            Some(b) => Ok(b),
            None => Err(FederationError::InvalidVersion),
        }
    }
}

/// Whether a peer with the given software name and version speaks the legacy
/// dialect: the software is `lemmy` and the version is below `0.20`.
pub open spec fn legacy_peer_spec(software_name: Seq<char>, version: Seq<char>) -> Result<
    bool,
    FederationError,
> {
    legacy_verdict_spec(software_name == "lemmy"@, semver_satisfies("<0.20"@, version))
}

/// The tag for a peer on the legacy dialect, or on the current one.
pub open spec fn dialect_tag_spec(legacy: bool) -> PrivateMessageType {
    if legacy {
        PrivateMessageType::ChatMessage
    } else {
        PrivateMessageType::Note
    }
}

/// The tag under which a private message goes to an instance: the current
/// one, unless the instance advertises both a software name and a version and
/// these mark a legacy peer.
pub open spec fn dialect_spec(instance: InstanceRecord) -> Result<
    PrivateMessageType,
    FederationError,
> {
    match (instance.software, instance.version) {
        (Some(software), Some(version)) => match legacy_peer_spec(software@, version@) {
            Ok(legacy) => Ok(dialect_tag_spec(legacy)),
            Err(e) => Err(e),
        },
        _ => Ok(PrivateMessageType::Note),
    }
}

/// Decides on the legacy dialect from the two facts that matter.
pub fn legacy_verdict(is_legacy_software: bool, satisfied: Option<bool>) -> (r: Result<
    bool,
    FederationError,
>)
    ensures
        r == legacy_verdict_spec(is_legacy_software, satisfied),
{
    if !is_legacy_software {
        Ok(false)
    } else {
        match satisfied {
            Some(b) => Ok(b),
            None => Err(FederationError::InvalidVersion),
        }
    }
}

/// Whether a peer with the given software name and version speaks the legacy
/// dialect.
pub fn is_legacy_peer(software_name: &str, version: &str) -> (r: Result<bool, FederationError>)
    ensures
        r == legacy_peer_spec(software_name@, version@),
{
    let software = String::from_str(software_name);
    if !text_is(&software, "lemmy") {
        return legacy_verdict(false, None);
    }
    let satisfied = match version_satisfies("<0.20", version) {
        Ok(b) => Some(b),
        Err(_) => None,
    };
    legacy_verdict(true, satisfied)
}

/// The tag under which a private message goes to an instance.
pub fn dialect_for(instance: &InstanceRecord) -> (r: Result<PrivateMessageType, FederationError>)
    ensures
        r == dialect_spec(*instance),
{
    match (&instance.software, &instance.version) {
        (Some(software), Some(version)) => {
            if is_legacy_peer(software.as_str(), version.as_str())? {
                Ok(PrivateMessageType::ChatMessage)
            } else {
                Ok(PrivateMessageType::Note)
            }
        },
        _ => Ok(PrivateMessageType::Note),
    }
}

/// The creator, the recipient and the tag for a message that goes out, or why
/// it cannot go: creator, recipient or the recipient's instance is unknown
/// (`NotFound`, in that order), or the instance's version cannot be read
/// (`InvalidVersion`).
pub open spec fn wire_parties_spec(message: DbPrivateMessage, dir: Directory) -> Result<
    (PersonRecord, PersonRecord, PrivateMessageType),
    FederationError,
> {
    match dir.person_spec(message.creator_id) {
        None => Err(FederationError::NotFound),
        Some(creator) => match dir.person_spec(message.recipient_id) {
            None => Err(FederationError::NotFound),
            Some(recipient) => match dir.instance_spec(recipient.instance_id) {
                None => Err(FederationError::NotFound),
                Some(instance) => match dialect_spec(instance) {
                    Err(e) => Err(e),
                    Ok(kind) => Ok((creator, recipient, kind)),
                },
            },
        },
    }
}

/// Whether `note` is the wire form of `message` from `creator` to `recipient`
/// under the tag `kind`, with `content_html` as the rendered text.
pub open spec fn is_wire_form(
    note: PrivateMessage,
    message: DbPrivateMessage,
    creator: PersonRecord,
    recipient: PersonRecord,
    kind: PrivateMessageType,
    content_html: String,
) -> bool {
    &&& note.kind == kind
    &&& note.id == message.ap_id
    &&& note.attributed_to == creator.ap_id
    &&& note.to@ == seq![recipient.ap_id]
    &&& note.content == content_html
    &&& note.media_type == Some(MediaType::Html)
    &&& note.source == Some(Source { content: message.content, media_type: MediaType::Markdown })
    &&& note.published == Some(message.published_at)
    &&& note.updated == message.updated_at
}

/// The text to store for a message that came in: what its author wrote where
/// the wire form carries that, else the rendered text.
pub open spec fn stored_content_spec(note: PrivateMessage) -> String {
    match note.source {
        Some(source) => source.content,
        None => note.content,
    }
}

/// What is to be stored for a message that came in, or why nothing is: it
/// names no recipient (`SerializationError`); its author or its first
/// recipient is unknown (`NotFound`); the recipient has blocked the author
/// (`PersonIsBlocked`) or takes no private messages
/// (`PrivateMessagesDisabled`).
pub open spec fn insert_form_spec(note: PrivateMessage, dir: Directory) -> Result<
    PrivateMessageInsertForm,
    FederationError,
> {
    if note.to@.len() == 0 {
        Err(FederationError::SerializationError)
    } else {
        match dir.person_by_ap_id_spec(note.attributed_to@.text) {
            None => Err(FederationError::NotFound),
            Some(creator) => match dir.person_by_ap_id_spec(note.to@[0]@.text) {
                None => Err(FederationError::NotFound),
                Some(recipient) => if dir.has_blocked_spec(recipient.id, creator.id) {
                    Err(FederationError::PersonIsBlocked)
                } else if !dir.takes_private_messages_spec(recipient.id) {
                    Err(FederationError::PrivateMessagesDisabled)
                } else {
                    Ok(
                        PrivateMessageInsertForm {
                            creator_id: creator.id,
                            recipient_id: recipient.id,
                            content: stored_content_spec(note),
                            published_at: note.published,
                            updated_at: note.updated,
                            deleted: Some(false),
                            read: None,
                            ap_id: Some(note.id),
                            local: Some(false),
                        },
                    )
                },
            },
        }
    }
}

/// The time under which a message that came in is stored: when it was last
/// changed, else when it was published, else now.
pub open spec fn insert_timestamp_spec(updated: Option<i64>, published: Option<i64>, now: i64) -> i64 {
    match updated {
        Some(u) => u,
        None => match published {
            Some(p) => p,
            None => now,
        },
    }
}

/// The time under which a message that came in is stored.
pub fn insert_timestamp(updated: Option<i64>, published: Option<i64>, now: i64) -> (t: i64)
    ensures
        t == insert_timestamp_spec(updated, published, now),
{
    match updated {
        Some(u) => u,
        None => match published {
            Some(p) => p,
            None => now,
        },
    }
}

/// The verdict on a private message that came in from `expected_domain`: it
/// must not carry this instance's address (`NotRemote`); its author's host
/// and the host it came from must both be its identifier's
/// (`DomainMismatch`); its author must be known (`NotFound`) and not banned
/// here (`Banned`).
pub open spec fn private_message_verdict(
    note: PrivateMessage,
    expected_domain: UriView,
    dir: Directory,
    local: LocalDomain,
) -> Result<(), FederationError> {
    if local.owns_spec(note.id@) {
        Err(FederationError::NotRemote)
    } else if !same_home_spec(note.attributed_to@, note.id@) {
        Err(FederationError::DomainMismatch)
    } else if !same_home_spec(note.id@, expected_domain) {
        Err(FederationError::DomainMismatch)
    } else {
        match actor_trust_spec(dir, note.attributed_to@.text) {
            Ok(_) => Ok(()),
            Err(e) => Err(e),
        }
    }
}

impl std::ops::Deref for ApubPrivateMessage {
    type Target = DbPrivateMessage;

    /// The stored record.
    fn deref(&self) -> (r: &DbPrivateMessage)
        ensures
            *r == self.0,
    {
        &self.0
    }
}

impl ApubPrivateMessage {
    /// The message's global identifier.
    pub fn id(&self) -> (r: &Uri)
        ensures
            *r == self.0.ap_id,
    {
        &self.0.ap_id
    }

    /// The first stored message with the given identifier.
    pub fn read_from_id(object_id: &Uri, stored: &Vec<DbPrivateMessage>) -> (r: Option<
        ApubPrivateMessage,
    >)
        ensures
            match r {
                Some(m) => exists|i: int|
                    0 <= i < stored@.len() && m.0 == #[trigger] stored@[i] && stored@[i].ap_id@.text
                        == object_id@.text && forall|j: int|
                        0 <= j < i ==> (#[trigger] stored@[j]).ap_id@.text != object_id@.text,
                None => forall|j: int|
                    0 <= j < stored@.len() ==> (#[trigger] stored@[j]).ap_id@.text
                        != object_id@.text,
            },
    {
        let mut i: usize = 0;
        while i < stored.len()
            invariant
                i <= stored.len(),
                forall|j: int|
                    0 <= j < i ==> (#[trigger] stored@[j]).ap_id@.text != object_id@.text,
            decreases stored.len() - i,
        {
            if stored[i].ap_id.same_as(object_id) {
                return Some(ApubPrivateMessage(stored[i].copy()));
            }
            i += 1;
        }
        None
    }

    /// A private message cannot be fetched by others, so there is nothing to
    /// delete on their behalf: the answer is always `NotFound`.
    pub fn delete(self) -> (r: Result<(), FederationError>)
        ensures
            r == Err::<(), FederationError>(FederationError::NotFound),
    {
        Err(FederationError::NotFound)
    }

    /// Whether the message is deleted by its author or removed by a
    /// moderator.
    pub fn is_deleted(&self) -> (b: bool)
        ensures
            b == (self.0.removed || self.0.deleted),
    {
        self.0.removed || self.0.deleted
    }

    /// The wire form of the message, with `content_html` as the rendered
    /// text. The tag follows the dialect of the recipient's instance; every
    /// other field is the same for both dialects.
    pub fn into_json(self, dir: &Directory, content_html: String) -> (r: Result<
        PrivateMessage,
        FederationError,
    >)
        ensures
            match r {
                Ok(note) => wire_parties_spec(self.0, *dir) matches Ok(parties) && is_wire_form(
                    note,
                    self.0,
                    parties.0,
                    parties.1,
                    parties.2,
                    content_html,
                ),
                Err(e) => wire_parties_spec(self.0, *dir) == Err::<
                    (PersonRecord, PersonRecord, PrivateMessageType),
                    FederationError,
                >(e),
            },
    {
        let creator = match dir.person(self.0.creator_id) {
            Some(p) => p,
            None => return Err(FederationError::NotFound),
        };
        let recipient = match dir.person(self.0.recipient_id) {
            Some(p) => p,
            None => return Err(FederationError::NotFound),
        };
        let instance = match dir.instance(recipient.instance_id) {
            Some(i) => i,
            None => return Err(FederationError::NotFound),
        };
        let kind = dialect_for(instance)?;
        let mut to: Vec<Uri> = Vec::new();
        to.push(recipient.ap_id.clone());
        let message = self.0;
        let note = PrivateMessage {
            kind,
            id: message.ap_id,
            attributed_to: creator.ap_id.clone(),
            to,
            content: content_html,
            media_type: Some(MediaType::Html),
            source: Some(Source { content: message.content, media_type: MediaType::Markdown }),
            published: Some(message.published_at),
            updated: message.updated_at,
        };
        Ok(note)
    }

    /// Checks a private message that came in from `expected_domain`.
    pub fn verify(
        note: &PrivateMessage,
        expected_domain: &Uri,
        dir: &Directory,
        local: &LocalDomain,
    ) -> (r: Result<(), FederationError>)
        ensures
            r == private_message_verdict(*note, expected_domain@, *dir, *local),
    {
        verify_remote_origin(&note.id, &note.attributed_to, local)?;
        verify_domains_match(&note.id, expected_domain)?;
        verify_person(&note.attributed_to, dir)
    }

    /// Reads a private message that came in: resolves its author and its
    /// first recipient, asks whether the recipient takes the author's
    /// messages, and makes the form to store. Nothing is stored here.
    pub fn from_json(note: PrivateMessage, dir: &Directory) -> (r: Result<
        InsertRequest,
        FederationError,
    >)
        ensures
            match r {
                Ok(request) => insert_form_spec(note, *dir) == Ok::<
                    PrivateMessageInsertForm,
                    FederationError,
                >(request.form) && exists|now: i64|
                    request.timestamp == #[trigger] insert_timestamp_spec(
                        note.updated,
                        note.published,
                        now,
                    ),
                Err(e) => insert_form_spec(note, *dir) == Err::<
                    PrivateMessageInsertForm,
                    FederationError,
                >(e),
            },
    {
        if note.to.len() == 0 {
            return Err(FederationError::SerializationError);
        }
        let creator = match dir.person_by_ap_id(&note.attributed_to) {
            Some(p) => p,
            None => return Err(FederationError::NotFound),
        };
        let recipient = match dir.person_by_ap_id(&note.to[0]) {
            Some(p) => p,
            None => return Err(FederationError::NotFound),
        };
        if dir.has_blocked(recipient.id, creator.id) {
            return Err(FederationError::PersonIsBlocked);
        }
        if !dir.takes_private_messages(recipient.id) {
            return Err(FederationError::PrivateMessagesDisabled);
        }
        let now = if note.updated.is_none() && note.published.is_none() {
            current_time()
        } else {
            0
        };
        let timestamp = insert_timestamp(note.updated, note.published, now);
        let content = match note.source {
            Some(source) => source.content,
            None => note.content,
        };
        let form = PrivateMessageInsertForm {
            creator_id: creator.id,
            recipient_id: recipient.id,
            content,
            published_at: note.published,
            updated_at: note.updated,
            deleted: Some(false),
            read: None,
            ap_id: Some(note.id),
            local: Some(false),
        };
        Ok(InsertRequest { form, timestamp })
    }
}

impl From<DbPrivateMessage> for ApubPrivateMessage {
    fn from(pm: DbPrivateMessage) -> (r: ApubPrivateMessage) {
        ApubPrivateMessage(pm)
    }
}

impl vstd::std_specs::convert::FromSpecImpl<DbPrivateMessage> for ApubPrivateMessage {
    open spec fn obeys_from_spec() -> bool {
        true
    }

    open spec fn from_spec(pm: DbPrivateMessage) -> ApubPrivateMessage {
        ApubPrivateMessage(pm)
    }
}

/// A message that went out and came back is stored with the text, the author
/// and the recipient that it had, whichever tag it travelled under. It is
/// stored unless the recipient has blocked the author or takes no private
/// messages.
pub proof fn lemma_private_message_round_trip(
    message: DbPrivateMessage,
    dir: Directory,
    content_html: String,
    note: PrivateMessage,
)
    requires
        dir.wf(),
        wire_parties_spec(message, dir) matches Ok(parties) && is_wire_form(
            note,
            message,
            parties.0,
            parties.1,
            parties.2,
            content_html,
        ),
    ensures
        dir.person_by_ap_id_spec(note.attributed_to@.text) == dir.person_spec(message.creator_id),
        dir.person_by_ap_id_spec(note.to@[0]@.text) == dir.person_spec(message.recipient_id),
        match insert_form_spec(note, dir) {
            Ok(form) => {
                &&& form.content == message.content
                &&& form.creator_id == message.creator_id
                &&& form.recipient_id == message.recipient_id
                &&& form.ap_id == Some(message.ap_id)
                &&& !dir.has_blocked_spec(message.recipient_id, message.creator_id)
                &&& dir.takes_private_messages_spec(message.recipient_id)
            },
            Err(e) => if dir.has_blocked_spec(message.recipient_id, message.creator_id) {
                e == FederationError::PersonIsBlocked
            } else {
                e == FederationError::PrivateMessagesDisabled && !dir.takes_private_messages_spec(
                    message.recipient_id,
                )
            },
        },
{
    crate::directory::lemma_id_then_ap_id(dir.persons(), message.creator_id);
    crate::directory::lemma_id_then_ap_id(dir.persons(), message.recipient_id);
    crate::directory::lemma_first_by_id_none(dir.persons(), message.creator_id);
    crate::directory::lemma_first_by_id_none(dir.persons(), message.recipient_id);
}

} // verus!
