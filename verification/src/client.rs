//! The model of the single live transport connection. The connection's
//! observable face toward this core is a byte stream of everything handed
//! outward — each write appends its whole payload as one contiguous run —
//! and a queue of inbound packets that the wire delivered and nothing has
//! taken yet.

use vstd::prelude::*;
use crate::error::{SshError, SshResult};

verus! {

/// One transport connection: the bytes the transport has been handed to
/// send, in order, and the packets read off the wire that no caller has
/// collected yet.
pub struct Client {
    pub stream: Vec<u8>,
    pub inbound: Vec<Vec<u8>>,
}

impl Client {
    pub fn new() -> (r: Client)
        ensures
            r.stream@ == Seq::<u8>::empty(),
            r.inbound@ == Seq::<Vec<u8>>::empty(),
    {
        Client { stream: Vec::new(), inbound: Vec::new() }
    }

    /// Hands one payload to the transport. The whole payload lands on the
    /// stream as one contiguous run, with nothing interleaved inside it.
    pub fn write(&mut self, v: &[u8]) -> (r: SshResult<()>)
        ensures
            r == Ok::<(), SshError>(()),
            final(self).stream@ == old(self).stream@ + v@,
            final(self).inbound == old(self).inbound,
    {
        self.stream.extend_from_slice(v);
        Ok(())
    }

    /// Collects every packet the wire has delivered so far, in arrival
    /// order, leaving the queue empty.
    pub fn read(&mut self) -> (r: SshResult<Vec<Vec<u8>>>)
        ensures
            r matches Ok(ps) && ps@ == old(self).inbound@,
            final(self).inbound@ == Seq::<Vec<u8>>::empty(),
            final(self).stream == old(self).stream,
    {
        let mut out: Vec<Vec<u8>> = Vec::new();
        core::mem::swap(&mut out, &mut self.inbound);
        Ok(out)
    }

    /// The wire delivered one more packet; it queues after everything
    /// already waiting.
    pub fn feed(&mut self, packet: Vec<u8>)
        ensures
            final(self).inbound@ == old(self).inbound@.push(packet),
            final(self).stream == old(self).stream,
    {
        self.inbound.push(packet);
    }
}

} // verus!
