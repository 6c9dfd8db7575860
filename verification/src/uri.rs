//! Absolute URLs as the engine sees them: the canonical text and the parts of
//! it that the checks read.

use vstd::prelude::*;
use crate::error::FederationError;
use crate::text::{clone_opt_text, opt_text, opt_text_eq};

verus! {

/// What the engine reads of a parsed URL.
pub struct UriView {
    /// The canonical serialization.
    pub text: Seq<char>,
    /// The host, when it is a domain name.
    pub domain: Option<Seq<char>>,
    /// The host in any form (domain name or address).
    pub host: Option<Seq<char>>,
    /// The port, when it is written and is not the scheme's default.
    pub port: Option<u16>,
}

/// A parsed absolute URL. Its fields are filled by the parser alone.
#[derive(Debug)]
pub struct Uri {
    text: String,
    domain: Option<String>,
    host: Option<String>,
    port: Option<u16>,
}

impl View for Uri {
    type V = UriView;

    closed spec fn view(&self) -> UriView {
        UriView {
            text: self.text@,
            domain: opt_text(self.domain),
            host: opt_text(self.host),
            port: self.port,
        }
    }
}

#[verifier::external_type_specification]
#[verifier::external_body]
pub struct ExUrlParseError(url::ParseError);

/// The result of `url::Url::parse` on `text`: `None` where the parser rejects
/// it, else the parsed URL's serialization, domain, host and port.
pub uninterp spec fn parsed_url(text: Seq<char>) -> Option<UriView>;

/// Calls `url::Url::parse` and keeps, of an accepted URL, what `as_str`,
/// `domain`, `host_str` and `port` return. The contract claims only that this
/// outcome is a function of the input text.
#[verifier::external_body]
fn parse_url(text: &str) -> (r: Result<Uri, url::ParseError>)
    ensures
        r matches Ok(u) ==> parsed_url(text@) == Some(u@),
        r is Err ==> parsed_url(text@) is None,
{
    match url::Url::parse(text) {
        Ok(u) => Ok(
            Uri {
                text: u.as_str().to_owned(),
                domain: u.domain().map(str::to_owned),
                host: u.host_str().map(str::to_owned),
                port: u.port(),
            },
        ),
        Err(e) => Err(e),
    }
}

/// What `Uri::parse` returns for each outcome of the parser.
pub open spec fn parse_outcome(parsed: Option<UriView>) -> Result<UriView, FederationError> {
    match parsed {
        Some(u) => Ok(u),
        None => Err(FederationError::MalformedUrl),
    }
}

/// The views of a parse result.
pub open spec fn uri_result_view(r: Result<Uri, FederationError>) -> Result<
    UriView,
    FederationError,
> {
    match r {
        Ok(u) => Ok(u@),
        Err(e) => Err(e),
    }
}

impl Uri {
    /// Parses an absolute URL; a text that is none gives `MalformedUrl`.
    pub fn parse(text: &str) -> (r: Result<Uri, FederationError>)
        ensures
            uri_result_view(r) == parse_outcome(parsed_url(text@)),
    {
        match parse_url(text) {
            Ok(u) => Ok(u),
            Err(_) => Err(FederationError::MalformedUrl),
        }
    }

    /// The canonical text.
    pub fn as_str(&self) -> (s: &str)
        ensures
            s@ == self@.text,
    {
        self.text.as_str()
    }

    /// The host, when it is a domain name.
    pub fn domain(&self) -> (d: &Option<String>)
        ensures
            opt_text(*d) == self@.domain,
    {
        &self.domain
    }

    /// The host in any form.
    pub fn host(&self) -> (h: &Option<String>)
        ensures
            opt_text(*h) == self@.host,
    {
        &self.host
    }

    /// The port, when it is written and is not the scheme's default.
    pub fn port(&self) -> (p: Option<u16>)
        ensures
            p == self@.port,
    {
        self.port
    }

    /// Two URLs are the same when their canonical texts are.
    pub fn same_as(&self, other: &Uri) -> (b: bool)
        ensures
            b == (self@.text == other@.text),
    {
        self.text == other.text
    }

    /// Whether both URLs have a host and it is the same. A URL without a
    /// host is of no host, so it is never of the same host as another.
    pub fn same_host_as(&self, other: &Uri) -> (b: bool)
        ensures
            b == (self@.host is Some && self@.host == other@.host),
    {
        match &self.host {
            Some(_) => opt_text_eq(&self.host, &other.host),
            None => false,
        }
    }

    /// Whether both URLs have the same domain name, or both have none.
    pub fn same_domain_as(&self, other: &Uri) -> (b: bool)
        ensures
            b == (self@.domain == other@.domain),
    {
        opt_text_eq(&self.domain, &other.domain)
    }
}

impl Clone for Uri {
    fn clone(&self) -> (r: Self)
        ensures
            r == *self,
    {
        Uri {
            text: self.text.clone(),
            domain: clone_opt_text(&self.domain),
            host: clone_opt_text(&self.host),
            port: self.port,
        }
    }
}

impl PartialEq for Uri {
    fn eq(&self, other: &Uri) -> (b: bool) {
        self.text == other.text
    }
}

impl vstd::std_specs::cmp::PartialEqSpecImpl for Uri {
    open spec fn obeys_eq_spec() -> bool {
        true
    }

    open spec fn eq_spec(&self, other: &Uri) -> bool {
        self@.text == other@.text
    }
}

} // verus!
