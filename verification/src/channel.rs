//! A model of one multiplexed channel over the transport, as the shell
//! layer consumes it: the channel keeps the messages it handed to the
//! transport, in order, and a queue of inbound data packets that the
//! demultiplexer beneath has already delivered for this channel. The
//! transport's own send/receive machinery (framing, encryption, window
//! accounting against the peer) lies beneath this interface.

use vstd::prelude::*;
use crate::error::{SshError, SshResult};
use crate::model::Data;

verus! {

/// The bytes of a sequence of packets, concatenated in arrival order.
pub open spec fn concat_packets(ps: Seq<Seq<u8>>) -> Seq<u8>
    decreases ps.len(),
{
    if ps.len() == 0 {
        Seq::empty()
    } else {
        concat_packets(ps.drop_last()) + ps.last()
    }
}

/// Every packet in the sequence carries at least one byte.
pub open spec fn all_nonempty(ps: Seq<Seq<u8>>) -> bool {
    forall|i: int| 0 <= i < ps.len() ==> #[trigger] ps[i].len() > 0
}

/// A step of the concatenation: taking one more packet appends exactly
/// that packet's bytes.
pub proof fn lemma_concat_take_step(ps: Seq<Seq<u8>>, k: int)
    requires
        0 <= k < ps.len(),
    ensures
        concat_packets(ps.take(k + 1)) == concat_packets(ps.take(k)) + ps[k],
{
    assert(ps.take(k + 1).drop_last() =~= ps.take(k));
    assert(ps.take(k + 1).last() == ps[k]);
}

/// The concatenation of at least one packet, none of them empty, is not
/// empty.
pub proof fn lemma_concat_nonempty(ps: Seq<Seq<u8>>)
    requires
        ps.len() > 0,
        all_nonempty(ps),
    ensures
        concat_packets(ps).len() > 0,
{
    assert(concat_packets(ps) == concat_packets(ps.drop_last()) + ps.last());
    assert(ps.last().len() > 0);
}

/// One multiplexed channel: its numbers and window on both sides of the
/// conversation, the messages handed outward, and the inbound packets
/// queued for it. `broken` records that the transport beneath reported a
/// failure; every later operation surfaces that failure unchanged.
pub struct ChannelBroker {
    pub client_channel_no: u32,
    pub server_channel_no: u32,
    pub window_size: u32,
    pub broken: bool,
    pub sent: Vec<Vec<u8>>,
    pub pending: Vec<Vec<u8>>,
}

/// The flow-control bookkeeping two broker states share: same channel
/// numbers, same window.
pub open spec fn same_numbers(a: ChannelBroker, b: ChannelBroker) -> bool {
    &&& a.client_channel_no == b.client_channel_no
    &&& a.server_channel_no == b.server_channel_no
    &&& a.window_size == b.window_size
}

impl ChannelBroker {
    /// Validity of the inbound queue: the demultiplexer beneath only
    /// delivers data payloads that carry bytes, so every queued packet is
    /// non-empty.
    pub open spec fn wf(&self) -> bool {
        all_nonempty(self.pending.deep_view())
    }

    pub fn new(client_channel_no: u32, server_channel_no: u32, window_size: u32) -> (r:
        ChannelBroker)
        ensures
            r.client_channel_no == client_channel_no,
            r.server_channel_no == server_channel_no,
            r.window_size == window_size,
            !r.broken,
            r.sent@ == Seq::<Vec<u8>>::empty(),
            r.pending@ == Seq::<Vec<u8>>::empty(),
            r.wf(),
    {
        ChannelBroker {
            client_channel_no,
            server_channel_no,
            window_size,
            broken: false,
            sent: Vec::new(),
            pending: Vec::new(),
        }
    }

    /// Hands one finished protocol message to the transport.
    pub fn send(&mut self, data: Data) -> (r: SshResult<()>)
        ensures
            old(self).broken ==> r == Err::<(), SshError>(SshError::TransportError) && *final(self)
                == *old(self),
            !old(self).broken ==> {
                &&& r == Ok::<(), SshError>(())
                &&& final(self).sent.deep_view() == old(self).sent.deep_view().push(data@)
                &&& final(self).pending == old(self).pending
                &&& !final(self).broken
                &&& same_numbers(*old(self), *final(self))
            },
    {
        if self.broken {
            return Err(SshError::TransportError);
        }
        let ghost d: Seq<u8> = data@;
        let bytes = data.into_bytes();
        self.sent.push(bytes);
        proof {
            assert(final(self).sent.deep_view() =~~= old(self).sent.deep_view().push(d));
        }
        Ok(())
    }

    /// Hands one raw data payload to the transport for this channel.
    pub fn send_data(&mut self, buf: Vec<u8>) -> (r: SshResult<()>)
        ensures
            old(self).broken ==> r == Err::<(), SshError>(SshError::TransportError) && *final(self)
                == *old(self),
            !old(self).broken ==> {
                &&& r == Ok::<(), SshError>(())
                &&& final(self).sent.deep_view() == old(self).sent.deep_view().push(buf@)
                &&& final(self).pending == old(self).pending
                &&& !final(self).broken
                &&& same_numbers(*old(self), *final(self))
            },
    {
        if self.broken {
            return Err(SshError::TransportError);
        }
        let ghost b: Seq<u8> = buf@;
        self.sent.push(buf);
        proof {
            assert(final(self).sent.deep_view() =~~= old(self).sent.deep_view().push(b));
        }
        Ok(())
    }

    /// Takes the first queued inbound packet; stands for the blocking
    /// receive. A verified model cannot block, so an empty queue surfaces
    /// the timeout kind instead of waiting.
    pub fn recv(&mut self) -> (r: SshResult<Vec<u8>>)
        ensures
            old(self).broken ==> r == Err::<Vec<u8>, SshError>(SshError::TransportError)
                && *final(self) == *old(self),
            !old(self).broken && old(self).pending@.len() == 0 ==> r == Err::<Vec<u8>, SshError>(
                SshError::TimeoutError,
            ) && *final(self) == *old(self),
            !old(self).broken && old(self).pending@.len() > 0 ==> {
                &&& r matches Ok(p) && p@ == old(self).pending.deep_view()[0]
                &&& final(self).pending.deep_view() == old(self).pending.deep_view().skip(1)
                &&& final(self).sent == old(self).sent
                &&& !final(self).broken
                &&& same_numbers(*old(self), *final(self))
            },
            old(self).wf() ==> final(self).wf(),
    {
        if self.broken {
            return Err(SshError::TransportError);
        }
        if self.pending.len() == 0 {
            return Err(SshError::TimeoutError);
        }
        let p = self.pending.remove(0);
        proof {
            assert(final(self).pending.deep_view() =~= old(self).pending.deep_view().skip(1));
            if old(self).wf() {
                let post = *final(self);
                assert forall|i: int|
                    0 <= i < post.pending.deep_view().len() implies #[trigger] post.pending.deep_view()[i].len() > 0 by {
                    assert(old(self).pending.deep_view()[i + 1].len() > 0);
                }
            }
        }
        Ok(p)
    }

    /// Takes the first queued inbound packet if one is already there; the
    /// non-blocking receive. Never waits: an empty queue is `None`.
    pub fn try_recv(&mut self) -> (r: SshResult<Option<Vec<u8>>>)
        ensures
            old(self).broken ==> r == Err::<Option<Vec<u8>>, SshError>(SshError::TransportError)
                && *final(self) == *old(self),
            !old(self).broken && old(self).pending@.len() == 0 ==> r == Ok::<
                Option<Vec<u8>>,
                SshError,
            >(None) && *final(self) == *old(self),
            !old(self).broken && old(self).pending@.len() > 0 ==> {
                &&& r matches Ok(q) && q matches Some(p) && p@ == old(self).pending.deep_view()[0]
                &&& final(self).pending.deep_view() == old(self).pending.deep_view().skip(1)
                &&& final(self).sent == old(self).sent
                &&& !final(self).broken
                &&& same_numbers(*old(self), *final(self))
            },
            old(self).wf() ==> final(self).wf(),
    {
        if self.broken {
            return Err(SshError::TransportError);
        }
        if self.pending.len() == 0 {
            return Ok(None);
        }
        let p = self.pending.remove(0);
        proof {
            assert(final(self).pending.deep_view() =~= old(self).pending.deep_view().skip(1));
            if old(self).wf() {
                let post = *final(self);
                assert forall|i: int|
                    0 <= i < post.pending.deep_view().len() implies #[trigger] post.pending.deep_view()[i].len() > 0 by {
                    assert(old(self).pending.deep_view()[i + 1].len() > 0);
                }
            }
        }
        Ok(Some(p))
    }

    /// The demultiplexer beneath hands this channel one inbound data
    /// packet, queued after everything already waiting.
    pub fn deliver(&mut self, packet: Vec<u8>)
        requires
            packet@.len() > 0,
        ensures
            old(self).wf() ==> final(self).wf(),
            final(self).pending.deep_view() == old(self).pending.deep_view().push(packet@),
            final(self).sent == old(self).sent,
            final(self).broken == old(self).broken,
            same_numbers(*old(self), *final(self)),
    {
        let ghost p: Seq<u8> = packet@;
        self.pending.push(packet);
        proof {
            assert(final(self).pending.deep_view() =~~= old(self).pending.deep_view().push(p));
        }
    }

    /// The transport beneath reports that this channel's connection failed.
    pub fn mark_broken(&mut self)
        ensures
            final(self).broken,
            final(self).sent == old(self).sent,
            final(self).pending == old(self).pending,
            same_numbers(*old(self), *final(self)),
    {
        self.broken = true;
    }

    /// Releases the channel number and its bookkeeping; the channel value
    /// is consumed and cannot be used again.
    pub fn close(self) -> (r: SshResult<()>)
        ensures
            r == Ok::<(), SshError>(()) <==> !self.broken,
            self.broken ==> r == Err::<(), SshError>(SshError::TransportError),
    {
        if self.broken {
            Err(SshError::TransportError)
        } else {
            Ok(())
        }
    }
}

} // verus!
