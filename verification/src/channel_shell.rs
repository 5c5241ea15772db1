//! The interactive shell layered on one multiplexed channel: pseudo-terminal
//! negotiation, shell invocation, blocking-then-drain read, raw write, and
//! consuming close.

use vstd::prelude::*;
use vstd::string::StringSliceAdditionalSpecFns;
use vstd::slice::slice_to_vec;
use crate::channel::{ChannelBroker, all_nonempty, concat_packets, lemma_concat_nonempty,
    lemma_concat_take_step, same_numbers};
use crate::constant::{CHANNEL_REQUEST, PTY_REQ, SHELL, XTERM_VAR};
use crate::error::{SshError, SshResult};
use crate::model::{Data, encode_str, u32_be};
use crate::terminal::TerminalSize;

verus! {

/// The fixed terminal-modes trailer of the pseudo-terminal request: input
/// speed 115200, output speed 115200, end of list.
pub open spec fn terminal_modes() -> Seq<u8> {
    seq![128u8, 0u8, 1u8, 0xc2u8, 0u8, 129u8, 0u8, 1u8, 0xc2u8, 0u8, 0u8]
}

/// The exact byte layout of the pseudo-terminal request: type tag,
/// recipient channel, request name, want-reply, terminal type, the four
/// size quantities in width-chars, height-chars, width-pixels,
/// height-pixels order, and the fixed terminal-modes trailer.
pub open spec fn pty_req_msg(server_channel_no: u32, tv: TerminalSize) -> Seq<u8> {
    seq![CHANNEL_REQUEST] + u32_be(server_channel_no) + encode_str(PTY_REQ.spec_bytes())
        + seq![1u8] + encode_str(XTERM_VAR.spec_bytes()) + u32_be(tv.width) + u32_be(tv.height)
        + u32_be(tv.width_pixels) + u32_be(tv.height_pixels) + terminal_modes()
}

/// The exact byte layout of the shell request: type tag, recipient
/// channel, request name, want-reply. It has one shape whatever terminal
/// was negotiated before.
pub open spec fn shell_msg(server_channel_no: u32) -> Seq<u8> {
    seq![CHANNEL_REQUEST] + u32_be(server_channel_no) + encode_str(SHELL.spec_bytes())
        + seq![1u8]
}

/// A shell conversation over exactly one channel. `open` is the intended
/// way in: it must complete the pseudo-terminal request and then the shell
/// request, and either failure surfaces the error with no shell channel
/// produced.
pub struct ShellBrocker(pub ChannelBroker);

impl ShellBrocker {
    /// Opens the shell: requests a pseudo-terminal, then the shell itself,
    /// strictly in that order. A transport failure aborts construction; the
    /// partially opened channel is consumed and must be treated as
    /// unusable.
    pub fn open(channel: ChannelBroker, tv: TerminalSize) -> (r: SshResult<ShellBrocker>)
        ensures
            channel.broken ==> r == Err::<ShellBrocker, SshError>(SshError::TransportError),
            !channel.broken ==> {
                &&& r matches Ok(sb)
                &&& sb.0.sent.deep_view() == channel.sent.deep_view().push(
                    pty_req_msg(channel.server_channel_no, tv),
                ).push(shell_msg(channel.server_channel_no))
                &&& sb.0.pending == channel.pending
                &&& !sb.0.broken
                &&& same_numbers(channel, sb.0)
            },
    {
        let mut channel_shell = ShellBrocker(channel);
        match channel_shell.request_pty(tv) {
            Ok(_) => {},
            Err(e) => {
                return Err(e);
            },
        }
        match channel_shell.get_shell() {
            Ok(_) => {},
            Err(e) => {
                return Err(e);
            },
        }
        Ok(channel_shell)
    }

    /// Emits the pseudo-terminal request for this channel, byte-exact as
    /// `pty_req_msg` lays it out.
    pub fn request_pty(&mut self, tv: TerminalSize) -> (r: SshResult<()>)
        ensures
            old(self).0.broken ==> r == Err::<(), SshError>(SshError::TransportError)
                && *final(self) == *old(self),
            !old(self).0.broken ==> {
                &&& r == Ok::<(), SshError>(())
                &&& final(self).0.sent.deep_view() == old(self).0.sent.deep_view().push(
                    pty_req_msg(old(self).0.server_channel_no, tv),
                )
                &&& final(self).0.pending == old(self).0.pending
                &&& !final(self).0.broken
                &&& same_numbers(old(self).0, final(self).0)
            },
    {
        proof {
            reveal_strlit("pty-req");
            reveal_strlit("xterm");
            assert(PTY_REQ.is_ascii());
            assert(XTERM_VAR.is_ascii());
        }
        let tvs = tv.fetch();
        let mut data = Data::new();
        data.put_u8(CHANNEL_REQUEST);
        data.put_u32(self.0.server_channel_no);
        data.put_str(PTY_REQ);
        data.put_u8(1);
        data.put_str(XTERM_VAR);
        data.put_u32(tvs.0);
        data.put_u32(tvs.1);
        data.put_u32(tvs.2);
        data.put_u32(tvs.3);
        let model: [u8; 11] = [
            128,  // input-speed opcode
            0, 1, 0xc2, 0,  // 115200
            129,  // output-speed opcode
            0, 1, 0xc2, 0,  // 115200 again
            0u8,  // end of list
        ];
        data.put_u8s(model.as_slice());
        proof {
            assert(data@ =~= pty_req_msg(self.0.server_channel_no, tv));
        }
        self.0.send(data)
    }

    /// Emits the shell request for this channel, byte-exact as `shell_msg`
    /// lays it out; its shape does not depend on any terminal size.
    pub fn get_shell(&mut self) -> (r: SshResult<()>)
        ensures
            old(self).0.broken ==> r == Err::<(), SshError>(SshError::TransportError)
                && *final(self) == *old(self),
            !old(self).0.broken ==> {
                &&& r == Ok::<(), SshError>(())
                &&& final(self).0.sent.deep_view() == old(self).0.sent.deep_view().push(
                    shell_msg(old(self).0.server_channel_no),
                )
                &&& final(self).0.pending == old(self).0.pending
                &&& !final(self).0.broken
                &&& same_numbers(old(self).0, final(self).0)
            },
    {
        proof {
            reveal_strlit("shell");
            assert(SHELL.is_ascii());
        }
        let mut data = Data::new();
        data.put_u8(CHANNEL_REQUEST);
        data.put_u32(self.0.server_channel_no);
        data.put_str(SHELL);
        data.put_u8(1);
        proof {
            assert(data@ =~= shell_msg(self.0.server_channel_no));
        }
        self.0.send(data)
    }

    /// Reads interactive output: waits for the first queued packet, then
    /// drains, without further waiting, everything already queued for this
    /// channel, concatenated in arrival order. On success the result is
    /// never empty: every queued packet carries bytes and at least one is
    /// taken.
    pub fn read(&mut self) -> (r: SshResult<Vec<u8>>)
        requires
            old(self).0.wf(),
        ensures
            old(self).0.broken ==> r == Err::<Vec<u8>, SshError>(SshError::TransportError)
                && *final(self) == *old(self),
            !old(self).0.broken && old(self).0.pending@.len() == 0 ==> r == Err::<
                Vec<u8>,
                SshError,
            >(SshError::TimeoutError) && *final(self) == *old(self),
            !old(self).0.broken && old(self).0.pending@.len() > 0 ==> {
                &&& r matches Ok(out)
                &&& out@ == concat_packets(old(self).0.pending.deep_view())
                &&& out@.len() > 0
                &&& final(self).0.pending@.len() == 0
                &&& final(self).0.sent == old(self).0.sent
                &&& !final(self).0.broken
                &&& same_numbers(old(self).0, final(self).0)
            },
            final(self).0.wf(),
    {
        let ghost orig: Seq<Seq<u8>> = self.0.pending.deep_view();
        let mut out = match self.0.recv() {
            Ok(v) => v,
            Err(e) => {
                return Err(e);
            },
        };
        let ghost k: int = 1;
        proof {
            lemma_concat_take_step(orig, 0);
            assert(orig.take(0) =~= Seq::<Seq<u8>>::empty());
            assert(out@ =~= concat_packets(orig.take(1)));
        }
        loop
            invariant
                self.0.wf(),
                !self.0.broken,
                1 <= k <= orig.len(),
                self.0.pending.deep_view() == orig.skip(k),
                out@ == concat_packets(orig.take(k)),
                self.0.sent == old(self).0.sent,
                same_numbers(old(self).0, self.0),
                all_nonempty(orig),
            ensures
                self.0.wf(),
                !self.0.broken,
                self.0.pending@.len() == 0,
                out@ == concat_packets(orig),
                self.0.sent == old(self).0.sent,
                same_numbers(old(self).0, self.0),
            decreases self.0.pending@.len(),
        {
            let ghost before: Seq<Seq<u8>> = self.0.pending.deep_view();
            match self.0.try_recv() {
                Ok(opt) => match opt {
                    Some(mut d) => {
                        proof {
                            assert(d@ == orig.skip(k)[0]);
                            assert(orig.skip(k)[0] == orig[k]);
                        }
                        out.append(&mut d);
                        proof {
                            lemma_concat_take_step(orig, k);
                            assert(self.0.pending.deep_view() =~= orig.skip(k + 1));
                        }
                        proof {
                            k = k + 1;
                        }
                    },
                    None => {
                        proof {
                            assert(orig.skip(k) =~= Seq::<Seq<u8>>::empty());
                            assert(k == orig.len());
                            assert(orig.take(k) =~= orig);
                        }
                        break ;
                    },
                },
                Err(_) => {
                    proof {
                        assert(false);
                    }
                    break ;
                },
            }
        }
        proof {
            lemma_concat_nonempty(orig);
        }
        Ok(out)
    }

    /// Sends the byte sequence as one raw data payload on this channel;
    /// chunking and window enforcement are the broker's business beneath.
    pub fn write(&mut self, buf: &[u8]) -> (r: SshResult<()>)
        ensures
            old(self).0.broken ==> r == Err::<(), SshError>(SshError::TransportError)
                && *final(self) == *old(self),
            !old(self).0.broken ==> {
                &&& r == Ok::<(), SshError>(())
                &&& final(self).0.sent.deep_view() == old(self).0.sent.deep_view().push(buf@)
                &&& final(self).0.pending == old(self).0.pending
                &&& !final(self).0.broken
                &&& same_numbers(old(self).0, final(self).0)
            },
    {
        let v: Vec<u8> = slice_to_vec(buf);
        self.0.send_data(v)
    }

    /// Consumes the shell channel and closes the channel beneath it; the
    /// value is gone afterwards, so a closed shell cannot be used again.
    pub fn close(self) -> (r: SshResult<()>)
        ensures
            r == Ok::<(), SshError>(()) <==> !self.0.broken,
            self.0.broken ==> r == Err::<(), SshError>(SshError::TransportError),
    {
        self.0.close()
    }

    /// The channel the shell runs over, for the broker capabilities that
    /// the shell layer does not restate.
    pub fn broker(&self) -> (r: &ChannelBroker)
        ensures
            r == self.0,
    {
        &self.0
    }

    /// Forwards one inbound packet from the demultiplexer beneath to the
    /// channel's queue.
    pub fn deliver(&mut self, packet: Vec<u8>)
        requires
            packet@.len() > 0,
        ensures
            old(self).0.wf() ==> final(self).0.wf(),
            final(self).0.pending.deep_view() == old(self).0.pending.deep_view().push(packet@),
            final(self).0.sent == old(self).0.sent,
            final(self).0.broken == old(self).0.broken,
            same_numbers(old(self).0, final(self).0),
    {
        self.0.deliver(packet);
    }
}

} // verus!
