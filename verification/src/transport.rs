//! Physical transport requirements for the OCP Recovery protocol.  The
//! recovery protocol currently defines 3 transport mediums:
//! 1. SMBus
//! 2. I3C
//! 3. USB
//!
//! While the packaging of the bytes differs per protocol, the state machine
//! each interacts with is the same, so a common interface lets the state
//! machine receive and send messages uniformly.

use vstd::prelude::*;

use crate::error::OcpError;

verus! {

/// Specify the timeout for a transport operation.
pub enum Timeout {
    /// Wait infinitely for a message to arrive.
    Never,
    /// If a message is not received within the given timeframe, return an
    /// error.  If the time is 0 the transport runs its message processing
    /// at least once.
    Milliseconds(usize),
}

/// A common interface for receiving OCP Recovery Messages over arbitrary transports.
///
/// Spec functions name what an implementation does, so that the state
/// machine's contracts can say what it receives and sends: the outcome of the
/// next receive, the outcome a send of a given message would have, and the
/// log of messages sent so far. A verified implementation defines them to
/// meet the methods' contracts; the defaults name no particular value.
pub trait Transport {
    /// What `recv_msg` with this timeout hands over next: a message, or the
    /// error it fails with.
    closed spec fn spec_next_recv(&self, timeout: Timeout) -> Result<Seq<u8>, OcpError> {
        arbitrary()
    }

    /// What sending `msg` would return.
    closed spec fn spec_send_result(&self, msg: Seq<u8>) -> Result<(), OcpError> {
        arbitrary()
    }

    /// The messages sent so far, oldest first.
    closed spec fn spec_sent(&self) -> Seq<Seq<u8>> {
        arbitrary()
    }

    /// A blocking call to receive a complete OCP Recovery Command from the
    /// underlying transport, which stitches partial packets together.
    ///
    /// This could return an error if the underlying transport media
    /// encounters an error, or no message arrives within the timeout.
    /// Receiving sends nothing and does not change what a send would return.
    fn recv_msg(&mut self, timeout: Timeout) -> (r: Result<&[u8], OcpError>)
        ensures
            match old(self).spec_next_recv(timeout) {
                Ok(m) => r matches Ok(bytes) && bytes@ == m,
                Err(e) => r == Err::<&[u8], OcpError>(e),
            },
            final(self).spec_sent() == old(self).spec_sent(),
            forall|m: Seq<u8>| #[trigger]
                final(self).spec_send_result(m) == old(self).spec_send_result(m),
    ;

    /// A blocking call to send a message over the underlying transport,
    /// which chunks it into packets as its medium requires.
    ///
    /// This could return an error if the underlying transport media encounters an error.
    /// A message that is sent joins the log; a failed send logs nothing.
    fn send_msg(&mut self, msg: &[u8]) -> (r: Result<(), OcpError>)
        ensures
            r == old(self).spec_send_result(msg@),
            r is Ok ==> final(self).spec_sent() == old(self).spec_sent().push(msg@),
            r is Err ==> final(self).spec_sent() == old(self).spec_sent(),
    ;
}

} // verus!
