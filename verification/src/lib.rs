//! A connector that reaches its destinations through a SOCKS5 proxy.
//!
//! A [`connector::SocksConnector`] holds the address of a proxy. A call on
//! it for a [`request::ConnectRequest`] starts a
//! [`connector::PendingConnect`], which says what the SOCKS5 handshake is to
//! be asked for: the proxy to dial, and the destination as a domain name and
//! a port, so that the name is resolved by the proxy and never here. The
//! handshake itself is run by the caller. Its outcome completes the connect:
//! a stream becomes a [`connection::Connection`] that reports the identity of
//! the destination that was asked for, and a failure becomes an
//! [`error::ConnectError`] around its cause.
//!
//! The connector keeps no state between calls. What that means for runs of
//! calls is stated in [`laws`].

pub mod authority;
pub mod connection;
pub mod connector;
pub mod error;
pub mod identity;
pub mod laws;
pub mod request;
