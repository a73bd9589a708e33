//! Length-exact transport bookkeeping over a byte stream.
//!
//! A stream socket may deliver a read in arbitrarily small chunks and
//! accept a write only partially, so both directions need a loop.  The
//! loops themselves sit next to the socket calls, outside this crate; what
//! stands here is the verified state they drive:
//!
//! - [`ExactReader`] accumulates chunks until exactly `n` bytes have been
//!   collected, and treats a zero-length chunk — a stream socket's signal
//!   that the peer closed — as an authoritative end of stream, never as
//!   "no data yet".
//! - [`SendBuffer`] tracks how much of an outgoing buffer has been
//!   delivered, so a partial write is retried with exactly the unsent rest.

use vstd::prelude::*;
use vstd::slice::slice_subrange;

use crate::error::TransportError;

verus! {

/// Accumulator for reading exactly `n` bytes from a stream that delivers
/// them in arbitrary chunks.
pub struct ExactReader {
    wanted: usize,
    collected: Vec<u8>,
}

impl ExactReader {
    /// The exact byte count this reader must collect.
    pub closed spec fn wanted(&self) -> int {
        self.wanted as int
    }

    /// The bytes collected so far, in arrival order.
    pub closed spec fn collected(&self) -> Seq<u8> {
        self.collected@
    }

    /// A reader never holds more than it wants.
    pub open spec fn wf(&self) -> bool {
        self.collected().len() <= self.wanted()
    }

    /// A reader is complete when it holds exactly the wanted count.
    pub open spec fn is_complete(&self) -> bool {
        self.collected().len() == self.wanted()
    }

    /// Start collecting `n` bytes.
    pub fn new(n: usize) -> (r: ExactReader)
        ensures
            r.wf(),
            r.wanted() == n,
            r.collected() == Seq::<u8>::empty(),
    {
        ExactReader { wanted: n, collected: Vec::new() }
    }

    /// How many bytes are still missing.  The stream is asked for at most
    /// this many at a time, so a chunk can never overshoot the target.
    pub fn remaining(&self) -> (r: usize)
        requires
            self.wf(),
        ensures
            r == self.wanted() - self.collected().len(),
    {
        self.wanted - self.collected.len()
    }

    /// Whether the wanted count has been collected.
    pub fn complete(&self) -> (r: bool)
        requires
            self.wf(),
        ensures
            r == self.is_complete(),
    {
        self.collected.len() == self.wanted
    }

    /// Account for one read from the stream.  Every delivered byte is
    /// appended, none lost, none duplicated; a zero-length chunk before the
    /// reader is complete means the peer closed the stream, which fails the
    /// whole read rather than being silently retried.
    pub fn feed(&mut self, chunk: &[u8]) -> (r: Result<(), TransportError>)
        requires
            old(self).wf(),
            !old(self).is_complete(),
            chunk@.len() <= old(self).wanted() - old(self).collected().len(),
        ensures
            final(self).wf(),
            final(self).wanted() == old(self).wanted(),
            chunk@.len() == 0 ==> r == Err::<(), TransportError>(TransportError::ConnectionClosed)
                && final(self).collected() == old(self).collected(),
            chunk@.len() > 0 ==> r == Ok::<(), TransportError>(())
                && final(self).collected() == old(self).collected() + chunk@,
    {
        if chunk.len() == 0 {
            Err(TransportError::ConnectionClosed)
        } else {
            let mut i: usize = 0;
            while i < chunk.len()
                invariant
                    i <= chunk@.len(),
                    self.wanted == old(self).wanted,
                    self.collected@ == old(self).collected@ + chunk@.subrange(0, i as int),
                    self.collected@.len() <= self.wanted,
                    chunk@.len() <= self.wanted - old(self).collected@.len(),
                decreases chunk@.len() - i,
            {
                self.collected.push(chunk[i]);
                i = i + 1;
                proof {
                    assert(self.collected@ =~= old(self).collected@ + chunk@.subrange(
                        0,
                        i as int,
                    ));
                }
            }
            proof {
                assert(chunk@.subrange(0, chunk@.len() as int) =~= chunk@);
            }
            Ok(())
        }
    }

    /// Hand out the collected bytes: exactly the wanted count, exactly the
    /// bytes that arrived.
    pub fn take(self) -> (r: Vec<u8>)
        requires
            self.wf(),
            self.is_complete(),
        ensures
            r@ == self.collected(),
            r@.len() == self.wanted(),
    {
        self.collected
    }
}

/// Progress record for writing one whole buffer to a stream that may
/// accept it only partially.
pub struct SendBuffer {
    data: Vec<u8>,
    sent: usize,
}

impl SendBuffer {
    /// The whole buffer being delivered.
    pub closed spec fn payload(&self) -> Seq<u8> {
        self.data@
    }

    /// How many leading bytes have been delivered already.
    pub closed spec fn sent(&self) -> int {
        self.sent as int
    }

    /// Never more delivered than there is.
    pub open spec fn wf(&self) -> bool {
        0 <= self.sent() <= self.payload().len()
    }

    /// Everything delivered.
    pub open spec fn is_done(&self) -> bool {
        self.sent() == self.payload().len()
    }

    /// Start delivering `data`.
    pub fn new(data: Vec<u8>) -> (r: SendBuffer)
        ensures
            r.wf(),
            r.payload() == data@,
            r.sent() == 0,
    {
        SendBuffer { data, sent: 0 }
    }

    /// Whether the whole buffer has been delivered.
    pub fn done(&self) -> (r: bool)
        requires
            self.wf(),
        ensures
            r == self.is_done(),
    {
        self.sent == self.data.len()
    }

    /// The bytes still to deliver: the payload with its already-sent
    /// prefix cut off.  This is what the next write call is given.
    pub fn unsent(&self) -> (r: &[u8])
        requires
            self.wf(),
        ensures
            r@ == self.payload().subrange(self.sent(), self.payload().len() as int),
    {
        slice_subrange(self.data.as_slice(), self.sent, self.data.len())
    }

    /// Account for one write that delivered `n` bytes of the unsent rest.
    /// A write that made no progress fails the send: the buffer cannot be
    /// delivered by retrying it forever.
    pub fn advance(&mut self, n: usize) -> (r: Result<(), TransportError>)
        requires
            old(self).wf(),
            !old(self).is_done(),
            n <= old(self).payload().len() - old(self).sent(),
        ensures
            final(self).wf(),
            final(self).payload() == old(self).payload(),
            n == 0 ==> r == Err::<(), TransportError>(TransportError::WriteError)
                && final(self).sent() == old(self).sent(),
            n > 0 ==> r == Ok::<(), TransportError>(())
                && final(self).sent() == old(self).sent() + n,
    {
        if n == 0 {
            Err(TransportError::WriteError)
        } else {
            let len = self.data.len();
            assert(self.sent + n <= len);
            self.sent = self.sent + n;
            Ok(())
        }
    }
}

} // verus!
