//! An established connection.

use crate::identity::uri_accepts;
use crate::identity::Identity;
use crate::identity::MalformedIdentity;
use actix_http::http::Uri;
use vstd::prelude::*;

verus! {

/// What a connection is: the stream that the handshake established, and the
/// identity text that the connection reports.
pub ghost struct ConnectionView<S> {
    pub stream: S,
    pub identity: Seq<char>,
}

/// An established stream, bound to the identity of the destination that was
/// asked for. The connection owns the stream until it is taken apart.
#[derive(Debug)]
pub struct Connection<S> {
    stream: S,
    identity: Identity,
}

impl<S> View for Connection<S> {
    type V = ConnectionView<S>;

    closed spec fn view(&self) -> ConnectionView<S> {
        ConnectionView { stream: self.stream, identity: self.identity@ }
    }
}

impl<S> Connection<S> {
    /// The identity value that the connection holds.
    pub closed spec fn bound(self) -> Identity {
        self.identity
    }

    /// Binds `stream` to `identity`.
    pub fn new(stream: S, identity: Identity) -> (conn: Self)
        ensures
            conn@ == (ConnectionView { stream, identity: identity@ }),
            conn.bound() == identity,
    {
        Connection { stream, identity }
    }

    /// Binds `stream` to the identity that the parser made. Where it made
    /// none, the stream is dropped and the refusal is handed on.
    pub fn from_parsed(stream: S, parsed: Result<Identity, MalformedIdentity>) -> (r: Result<
        Self,
        MalformedIdentity,
    >)
        ensures
            match parsed {
                Ok(identity) => r matches Ok(conn) && conn@ == (ConnectionView {
                    stream,
                    identity: identity@,
                }) && conn.bound() == identity,
                Err(refused) => r == Err::<Self, MalformedIdentity>(refused),
            },
    {
        match parsed {
            Ok(identity) => Ok(Connection::new(stream, identity)),
            Err(e) => Err(e),
        }
    }

    /// The identity text that the connection reports.
    pub fn identity(&self) -> (text: &str)
        ensures
            text@ == self@.identity,
            uri_accepts(self@.identity),
    {
        self.identity.as_str()
    }

    /// The identity as the HTTP layer takes it.
    pub fn uri(&self) -> (u: &Uri)
        ensures
            *u == self.bound().parsed(),
    {
        self.identity.uri()
    }

    /// The stream.
    pub fn get_ref(&self) -> (stream: &S)
        ensures
            *stream == self@.stream,
    {
        &self.stream
    }

    /// Takes the connection apart.
    pub fn into_parts(self) -> (parts: (S, Identity))
        ensures
            parts.0 == self@.stream,
            parts.1 == self.bound(),
            parts.1@ == self@.identity,
    {
        (self.stream, self.identity)
    }
}

} // verus!
