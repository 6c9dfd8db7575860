use vstd::prelude::*;

verus! {

/// Why an inbound activity was rejected or an outgoing send could not be built.
#[derive(Clone, Copy, Debug, PartialEq, Eq, Structural)]
pub enum FederationError {
    /// A referenced entity is absent, or deliberately hidden from federation.
    NotFound,
    /// Two identifiers that must share a domain do not.
    DomainMismatch,
    /// The declared addressing does not match the activity's object.
    UrlVerificationError,
    /// An object that must be externally authored carries the local domain.
    NotRemote,
    /// The actor is banned on the receiving instance.
    Banned,
    /// The actor is not a current member of the community.
    NotAPartOfCommunity,
    /// The actor is neither a moderator of the community nor an admin.
    NotAModerator,
    /// The follower's platform cannot take part in private communities.
    PlatformLackingPrivateCommunitySupport,
    /// A string that must be an absolute URL is not one.
    MalformedUrl,
    /// A payload lacks a required field or cannot be put into its wire form.
    SerializationError,
    /// The community is deleted or removed and takes no new content.
    CannotCreatePostOrCommentInDeletedOrRemovedCommunity,
    /// A peer advertises a version string that is no semantic version.
    InvalidVersion,
    /// The recipient has blocked the author.
    PersonIsBlocked,
    /// The recipient takes no private messages.
    PrivateMessagesDisabled,
}

} // verus!
