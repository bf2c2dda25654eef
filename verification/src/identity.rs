//! Identity texts that the HTTP layer's URI parser accepts.
//!
//! The HTTP layer that consumes a connection wants its identity as a
//! `Uri`. Whether a text is one is decided by the parser of the `http`
//! crate, reached here as `actix_http::http::Uri`; this module is the only
//! place that calls it.

use actix_http::http::uri::InvalidUri;
use actix_http::http::Uri;
use vstd::prelude::*;

verus! {

/// `http::Uri`, carried as an opaque value.
#[verifier::external_type_specification]
#[verifier::external_body]
pub struct ExUri(actix_http::http::Uri);

/// `http::uri::InvalidUri`, the parser's error, carried as an opaque value.
#[verifier::external_type_specification]
#[verifier::external_body]
pub struct ExInvalidUri(actix_http::http::uri::InvalidUri);

/// Whether `Uri::try_from` accepts `text`. The parser reads nothing but the
/// text, so the answer is a function of it.
pub uninterp spec fn uri_accepts(text: Seq<char>) -> bool;

/// Calls `Uri::try_from` on `text`. Trusted: the call returns `Ok` exactly
/// on the texts that `uri_accepts` names; nothing is claimed of the `Uri`
/// or of the error inside.
#[verifier::external_body]
fn parse_uri(text: &String) -> (parsed: Result<Uri, InvalidUri>)
    ensures
        parsed is Ok <==> uri_accepts(text@),
{
    Uri::try_from(text)
}

/// An identity text together with the `Uri` that the parser made of it.
///
/// A value exists only for a text that the parser accepts.
#[derive(Debug)]
pub struct Identity {
    text: String,
    uri: Uri,
}

impl View for Identity {
    type V = Seq<char>;

    closed spec fn view(&self) -> Seq<char> {
        self.text@
    }
}

/// An identity text that the parser refused, together with the parser's
/// error.
#[derive(Debug)]
pub struct MalformedIdentity {
    text: String,
    reason: InvalidUri,
}

impl View for MalformedIdentity {
    type V = Seq<char>;

    closed spec fn view(&self) -> Seq<char> {
        self.text@
    }
}

impl MalformedIdentity {
    #[verifier::type_invariant]
    spec fn refused(self) -> bool {
        !uri_accepts(self.text@)
    }

    /// The parser's error held for the text.
    pub closed spec fn cause(self) -> InvalidUri {
        self.reason
    }

    /// The text that the parser refused.
    pub fn as_str(&self) -> (s: &str)
        ensures
            s@ == self@,
            !uri_accepts(self@),
    {
        proof {
            use_type_invariant(self);
        }
        self.text.as_str()
    }

    /// The parser's error.
    pub fn reason(&self) -> (e: &InvalidUri)
        ensures
            *e == self.cause(),
    {
        &self.reason
    }

    /// Gives up the text and keeps the parser's error.
    pub fn into_reason(self) -> (e: InvalidUri)
        ensures
            e == self.cause(),
    {
        self.reason
    }
}

impl Identity {
    #[verifier::type_invariant]
    spec fn accepted(self) -> bool {
        uri_accepts(self.text@)
    }

    /// The `Uri` held for the text.
    pub closed spec fn parsed(self) -> Uri {
        self.uri
    }

    /// Parses `text`. Succeeds exactly when the parser accepts the text.
    /// Either way the text is kept as it is: with the `Uri` made of it, or
    /// with the parser's error.
    pub fn parse(text: String) -> (r: Result<Identity, MalformedIdentity>)
        ensures
            r is Ok <==> uri_accepts(text@),
            match r {
                Ok(identity) => identity@ == text@,
                Err(refused) => refused@ == text@,
            },
    {
        match parse_uri(&text) {
            Ok(uri) => Ok(Identity { text, uri }),
            Err(reason) => Err(MalformedIdentity { text, reason }),
        }
    }

    /// The identity text.
    pub fn as_str(&self) -> (s: &str)
        ensures
            s@ == self@,
            uri_accepts(self@),
    {
        proof {
            use_type_invariant(self);
        }
        self.text.as_str()
    }

    /// The identity as the HTTP layer takes it.
    pub fn uri(&self) -> (u: &Uri)
        ensures
            *u == self.parsed(),
    {
        &self.uri
    }

    /// Gives up the text and keeps the `Uri`.
    pub fn into_uri(self) -> (u: Uri)
        ensures
            u == self.parsed(),
    {
        self.uri
    }
}

} // verus!
