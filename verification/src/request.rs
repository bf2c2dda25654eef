//! The request that a caller hands to the connector.

use crate::authority::authority_text;
use vstd::prelude::*;

verus! {

/// A destination as the caller names it: a host, kept as text and never
/// resolved here, and a port.
pub ghost struct Destination {
    pub host: Seq<char>,
    pub port: u16,
}

impl Destination {
    /// The identity text of the destination.
    pub open spec fn identity(self) -> Seq<char> {
        authority_text(self.host, self.port)
    }
}

/// A request to connect to a destination.
#[derive(Debug)]
pub struct ConnectRequest {
    host: String,
    port: u16,
}

impl View for ConnectRequest {
    type V = Destination;

    closed spec fn view(&self) -> Destination {
        Destination { host: self.host@, port: self.port }
    }
}

impl ConnectRequest {
    /// A request for `host`, `port`. Nothing is checked: any text is taken
    /// as the host.
    pub fn new(host: String, port: u16) -> (req: Self)
        ensures
            req@ == (Destination { host: host@, port }),
    {
        ConnectRequest { host, port }
    }

    /// The host of the destination.
    pub fn host(&self) -> (host: &str)
        ensures
            host@ == self@.host,
    {
        self.host.as_str()
    }

    /// The port of the destination.
    pub fn port(&self) -> (port: u16)
        ensures
            port == self@.port,
    {
        self.port
    }
}

} // verus!
