//! What holds of a connector over any run of uses.

use crate::authority::authority_text;
use crate::connector::resolution;
use crate::connector::PendingView;
use crate::connector::Resolution;
use crate::connector::SocksConnector;
use crate::connector::Use;
use crate::identity::uri_accepts;
use crate::request::Destination;
use vstd::prelude::*;

verus! {

/// No use changes a connector: after any run of readiness checks and calls,
/// in any order, it is the connector that was made.
pub proof fn lemma_run_leaves_connector<P>(connector: SocksConnector<P>, uses: Seq<Use>)
    ensures
        connector.run(uses) == connector,
    decreases uses.len(),
{
    if uses.len() > 0 {
        lemma_run_leaves_connector(connector, uses.drop_last());
    }
}

/// A connector is ready after any run of readiness checks and calls, however
/// they are interleaved.
pub proof fn lemma_always_ready<P>(connector: SocksConnector<P>, uses: Seq<Use>)
    ensures
        connector.run(uses).ready(),
{
}

/// A call is not touched by the calls before it: after a first call, however
/// its handshake ended, a second call starts the connect that it would have
/// started on the unused connector, and that connect ends as its own
/// destination and its own handshake decide.
pub proof fn lemma_calls_do_not_interfere<P, S, E>(
    connector: SocksConnector<P>,
    first: Destination,
    first_outcome: Result<S, E>,
    second: Destination,
    second_outcome: Result<S, E>,
)
    ensures
        connector.step(Use::Call(first)).pending(second) == connector.pending(second),
        connector.step(Use::Call(first)).pending(second) == (PendingView {
            proxy: connector@,
            destination: second,
        }),
        resolution(connector.step(Use::Call(first)).pending(second).destination, second_outcome)
            == resolution(second, second_outcome),
{
}

/// Of any number of calls through one connector, whatever else was done with
/// it before, each starts the connect of its own destination through the
/// connector's proxy, and that connect ends as its own handshake decides. No
/// other call and no other handshake has a part in it, so the connects may
/// end in any order.
pub proof fn lemma_calls_are_independent<P, S, E>(
    connector: SocksConnector<P>,
    earlier: Seq<Use>,
    destination: Destination,
    outcome: Result<S, E>,
)
    ensures
        connector.run(earlier).pending(destination) == (PendingView {
            proxy: connector@,
            destination,
        }),
        resolution(connector.run(earlier).pending(destination).destination, outcome)
            == resolution(destination, outcome),
{
    lemma_run_leaves_connector(connector, earlier);
}

/// A connect whose handshake gave a stream reports the identity text of the
/// destination that was asked for, whichever proxy it went through and
/// whatever stream the handshake gave: it ends connected with that text where
/// the text is a URI, and with the text refused where it is none.
pub proof fn lemma_identity_is_the_destination<P, S, E>(
    connector: SocksConnector<P>,
    destination: Destination,
    stream: S,
)
    ensures
        connector.pending(destination).destination == destination,
        uri_accepts(authority_text(destination.host, destination.port)) ==> resolution::<S, E>(
            destination,
            Ok(stream),
        ) == (Resolution::<S, E>::Connected {
            stream,
            identity: authority_text(destination.host, destination.port),
        }),
        !uri_accepts(authority_text(destination.host, destination.port)) ==> resolution::<S, E>(
            destination,
            Ok(stream),
        ) == (Resolution::<S, E>::Malformed {
            identity: authority_text(destination.host, destination.port),
        }),
{
}

/// Every failure of the handshake ends the connect as failed, with that
/// failure as the cause, whatever the destination is.
pub proof fn lemma_failures_are_wrapped<S, E>(destination: Destination, cause: E)
    ensures
        resolution::<S, E>(destination, Err(cause)) == (Resolution::<S, E>::Failed { cause }),
{
}

} // verus!
