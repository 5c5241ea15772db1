//! The append-only byte-sequence builder for one outbound protocol message:
//! a type tag, 32-bit integers in network byte order, length-prefixed
//! strings, and raw byte runs, appended in call order.

use vstd::prelude::*;
use vstd::string::StringSliceAdditionalSpecFns;

verus! {

/// Big-endian (network byte order) layout of one unsigned 32-bit integer,
/// most significant byte first.
pub open spec fn u32_be(x: u32) -> Seq<u8> {
    seq![
        ((x >> 24) & 0xff) as u8,
        ((x >> 16) & 0xff) as u8,
        ((x >> 8) & 0xff) as u8,
        (x & 0xff) as u8,
    ]
}

/// The wire form of a length-prefixed string: the byte length as a
/// big-endian 32-bit integer, then the string's UTF-8 bytes themselves.
pub open spec fn encode_str(bytes: Seq<u8>) -> Seq<u8> {
    u32_be(bytes.len() as u32) + bytes
}

/// One outbound protocol message under construction. Every `put_*` call
/// appends at the end; nothing already written is ever changed.
pub struct Data {
    buf: Vec<u8>,
}

impl View for Data {
    type V = Seq<u8>;

    closed spec fn view(&self) -> Seq<u8> {
        self.buf@
    }
}

impl Data {
    pub fn new() -> (r: Data)
        ensures
            r@ == Seq::<u8>::empty(),
    {
        Data { buf: Vec::new() }
    }

    pub fn put_u8(&mut self, b: u8)
        ensures
            final(self)@ == old(self)@ + seq![b],
    {
        self.buf.push(b);
        proof {
            assert(final(self)@ =~= old(self)@ + seq![b]);
        }
    }

    pub fn put_u32(&mut self, x: u32)
        ensures
            final(self)@ == old(self)@ + u32_be(x),
    {
        proof {
            assert((x >> 24) & 0xff < 256 && (x >> 16) & 0xff < 256 && (x >> 8) & 0xff < 256
                && x & 0xff < 256) by (bit_vector);
        }
        let b0: u8 = ((x >> 24) & 0xff) as u8;
        let b1: u8 = ((x >> 16) & 0xff) as u8;
        let b2: u8 = ((x >> 8) & 0xff) as u8;
        let b3: u8 = (x & 0xff) as u8;
        self.buf.push(b0);
        self.buf.push(b1);
        self.buf.push(b2);
        self.buf.push(b3);
        proof {
            assert(final(self)@ =~= old(self)@ + u32_be(x));
        }
    }

    pub fn put_str(&mut self, s: &str)
        requires
            s.spec_bytes().len() <= u32::MAX,
        ensures
            final(self)@ == old(self)@ + encode_str(s.spec_bytes()),
    {
        let bytes: &[u8] = s.as_bytes();
        let n: usize = bytes.len();
        self.put_u32(n as u32);
        self.put_u8s(bytes);
        proof {
            assert(final(self)@ =~= old(self)@ + encode_str(s.spec_bytes()));
        }
    }

    pub fn put_u8s(&mut self, bytes: &[u8])
        ensures
            final(self)@ == old(self)@ + bytes@,
    {
        self.buf.extend_from_slice(bytes);
    }

    /// Hands the finished message to the transport as an opaque byte buffer.
    pub fn into_bytes(self) -> (r: Vec<u8>)
        ensures
            r@ == self@,
    {
        self.buf
    }
}

} // verus!
