//! Fresh identifiers for outgoing activities.

use vstd::prelude::*;
use vstd::string::StringExecFns;
use crate::error::FederationError;
use crate::kinds::ActivityKind;
use crate::uri::{parse_outcome, parsed_url, uri_result_view, Uri, UriView};

verus! {

/// A digit or a small letter of `a..=f`.
pub open spec fn is_lower_hex(c: char) -> bool {
    ('0' <= c && c <= '9') || ('a' <= c && c <= 'f')
}

/// The hyphenated small-letter form of a random (version 4) UUID: 36
/// characters in groups of 8, 4, 4, 4 and 12 hexadecimal digits, the third
/// group starting with `4` and the fourth with one of `8`, `9`, `a`, `b`.
pub open spec fn is_uuid_v4_text(s: Seq<char>) -> bool {
    &&& s.len() == 36
    &&& forall|i: int|
        0 <= i < 36 ==> if i == 8 || i == 13 || i == 18 || i == 23 {
            #[trigger] s[i] == '-'
        } else {
            is_lower_hex(s[i])
        }
    &&& s[14] == '4'
    &&& (s[19] == '8' || s[19] == '9' || s[19] == 'a' || s[19] == 'b')
}

/// Calls `uuid::Uuid::new_v4` and writes the value with its `Display`. The
/// value is random; the contract claims only the shape that every such text
/// has.
#[verifier::external_body]
fn fresh_uuid() -> (r: String)
    ensures
        is_uuid_v4_text(r@),
{
    uuid::Uuid::new_v4().to_string()
}

/// The text of an activity identifier: the base, `/activities/`, the kind in
/// small letters, `/`, and the unique part.
pub open spec fn activity_id_text_spec(kind: ActivityKind, base: Seq<char>, unique: Seq<char>) -> Seq<
    char,
> {
    base + "/activities/"@ + kind.segment_spec() + "/"@ + unique
}

/// The text of the identifier of an announce that relays an activity of kind
/// `inner`: as `activity_id_text_spec` for `Announce`, with the inner kind in
/// small letters as one more segment before the unique part.
pub open spec fn announce_id_text_spec(inner: ActivityKind, base: Seq<char>, unique: Seq<char>) -> Seq<
    char,
> {
    base + "/activities/"@ + ActivityKind::Announce.segment_spec() + "/"@ + inner.segment_spec()
        + "/"@ + unique
}

/// What making a fresh identifier of the given kind under `base` may give:
/// the parsed form of an identifier text with some UUID as its unique part,
/// or `MalformedUrl` where that text is no absolute URL.
pub open spec fn is_fresh_id_outcome(
    kind: ActivityKind,
    base: Seq<char>,
    outcome: Result<UriView, FederationError>,
) -> bool {
    exists|unique: Seq<char>|
        is_uuid_v4_text(unique) && outcome == parse_outcome(
            parsed_url(#[trigger] activity_id_text_spec(kind, base, unique)),
        )
}

/// As `is_fresh_id_outcome`, for the identifier of an announce that relays an
/// activity of kind `inner`.
pub open spec fn is_fresh_announce_id_outcome(
    inner: ActivityKind,
    base: Seq<char>,
    outcome: Result<UriView, FederationError>,
) -> bool {
    exists|unique: Seq<char>|
        is_uuid_v4_text(unique) && outcome == parse_outcome(
            parsed_url(#[trigger] announce_id_text_spec(inner, base, unique)),
        )
}

/// Writes the identifier text of an activity of the given kind.
pub fn activity_id_text(kind: ActivityKind, base_url: &str, unique: &str) -> (r: String)
    ensures
        r@ == activity_id_text_spec(kind, base_url@, unique@),
{
    let mut id = String::from_str(base_url);
    id.append("/activities/");
    id.append(kind.segment().as_str());
    id.append("/");
    id.append(unique);
    id
}

/// Writes the identifier text of an announce that relays an activity of kind
/// `inner`.
pub fn announce_id_text(inner: ActivityKind, base_url: &str, unique: &str) -> (r: String)
    ensures
        r@ == announce_id_text_spec(inner, base_url@, unique@),
{
    let mut id = String::from_str(base_url);
    id.append("/activities/");
    id.append(ActivityKind::Announce.segment().as_str());
    id.append("/");
    id.append(inner.segment().as_str());
    id.append("/");
    id.append(unique);
    id
}

/// A fresh identifier for an activity of the given kind under `base_url`.
///
/// The unique part is a random UUID, so two calls give different identifiers
/// but for a collision of 122 random bits. The call fails with `MalformedUrl`
/// exactly when the text so built is no absolute URL.
pub fn new_activity_id(kind: ActivityKind, base_url: &str) -> (r: Result<Uri, FederationError>)
    ensures
        is_fresh_id_outcome(kind, base_url@, uri_result_view(r)),
{
    let unique = fresh_uuid();
    let text = activity_id_text(kind, base_url, unique.as_str());
    Uri::parse(text.as_str())
}

/// A fresh identifier for an announce that relays an activity of kind `inner`.
/// It fails with `MalformedUrl` exactly when the text built is no absolute URL.
pub fn new_wrapped_activity_id(inner: ActivityKind, base_url: &str) -> (r: Result<
    Uri,
    FederationError,
>)
    ensures
        is_fresh_announce_id_outcome(inner, base_url@, uri_result_view(r)),
{
    let unique = fresh_uuid();
    let text = announce_id_text(inner, base_url, unique.as_str());
    Uri::parse(text.as_str())
}

/// The text of an identifier starts with the base, goes on with
/// `/activities/`, the kind's wire tag in small letters and `/`, and ends
/// with the unique part.
pub proof fn lemma_id_text_shape(kind: ActivityKind, base: Seq<char>, unique: Seq<char>)
    ensures
        ({
            let text = activity_id_text_spec(kind, base, unique);
            let middle = "/activities/"@ + crate::kinds::lower_text(kind.name_spec()) + "/"@;
            &&& text.len() == base.len() + middle.len() + unique.len()
            &&& text.subrange(0, base.len() as int) == base
            &&& text.subrange(base.len() as int, (base.len() + middle.len()) as int) == middle
            &&& text.subrange((base.len() + middle.len()) as int, text.len() as int) == unique
        }),
{
    kind.lemma_segment_is_lowercase_name();
    let text = activity_id_text_spec(kind, base, unique);
    let middle = "/activities/"@ + crate::kinds::lower_text(kind.name_spec()) + "/"@;
    assert(text =~= base + middle + unique);
    assert(text.subrange(0, base.len() as int) =~= base);
    assert(text.subrange(base.len() as int, (base.len() + middle.len()) as int) =~= middle);
    assert(text.subrange((base.len() + middle.len()) as int, text.len() as int) =~= unique);
}

/// Two identifier texts of one kind under one base are the same only if
/// their unique parts are: identifiers collide only where UUIDs do.
pub proof fn lemma_id_texts_differ_with_unique_parts(
    kind: ActivityKind,
    base: Seq<char>,
    first: Seq<char>,
    second: Seq<char>,
)
    requires
        activity_id_text_spec(kind, base, first) == activity_id_text_spec(kind, base, second),
    ensures
        first == second,
{
    lemma_id_text_shape(kind, base, first);
    lemma_id_text_shape(kind, base, second);
    let middle = "/activities/"@ + crate::kinds::lower_text(kind.name_spec()) + "/"@;
    let a = activity_id_text_spec(kind, base, first);
    let b = activity_id_text_spec(kind, base, second);
    assert(a.len() == b.len());
    assert(first.len() == second.len());
    assert(a.subrange((base.len() + middle.len()) as int, a.len() as int) == first);
    assert(b.subrange((base.len() + middle.len()) as int, b.len() as int) == second);
}

} // verus!
