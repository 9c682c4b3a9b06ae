use vstd::prelude::*;

use crate::byte_buffer::byte_buffer_index;
use crate::byte_buffer::byte_buffer_len;
use crate::byte_buffer::byte_buffer_contents;
use crate::byte_buffer::byte_buffer_extend;
use crate::byte_buffer::byte_buffer_split_to;
use crate::byte_buffer::byte_buffer_to_vec;
use crate::byte_buffer::byte_buffer_with_capacity;
use crate::header::spec_u16_from_be;
use crate::message::Message;
use crate::message::spec_parse_message;

verus! {

/// The total length of the message a buffered prefix announces: the
/// big-endian 16-bit field at offsets 16 and 17 of the header. Meaningful
/// once the buffer holds at least the 19 header bytes.
pub open spec fn spec_frame_len(buf: Seq<u8>) -> int {
    spec_u16_from_be(buf[16], buf[17]) as int
}

/// Whether the buffer holds a complete frame: at least the 19 header bytes,
/// and at least as many bytes as the length field announces.
pub open spec fn spec_has_frame(buf: Seq<u8>) -> bool {
    buf.len() >= 19 && spec_frame_len(buf) <= buf.len()
}

/// The framer: turns the byte stream of one transport connection, delivered
/// in chunks of any size, into discrete length-delimited messages. It owns
/// only the accumulation buffer; whoever owns the socket feeds the bytes it
/// drains into `feed` and polls `get_message`.
pub struct Connection {
    buffer: bytes::BytesMut,
}

impl Connection {
    /// The bytes received but not yet carved into a message, oldest first.
    pub closed spec fn buffered(self) -> Seq<u8> {
        byte_buffer_contents(self.buffer)
    }

    pub fn new() -> (r: Self)
        ensures
            r.buffered() == Seq::<u8>::empty(),
    {
        Connection { buffer: byte_buffer_with_capacity(1500) }
    }

    /// Appends freshly received bytes after the bytes already buffered; no
    /// byte is lost, reordered, or consumed here.
    pub fn feed(&mut self, data: &Vec<u8>)
        ensures
            final(self).buffered() == old(self).buffered() + data@,
    {
        byte_buffer_extend(&mut self.buffer, data.as_slice())
    }

    /// A single non-blocking framing step. Without a complete frame it
    /// returns nothing and consumes nothing, however often it is polled.
    /// With one, it removes exactly the announced number of bytes from the
    /// front — the remainder stays for the next call — and returns what the
    /// message decoder makes of them: the decoded message, or nothing if
    /// they do not decode, the malformed frame being discarded silently.
    pub fn get_message(&mut self) -> (r: Option<Message>)
        ensures
            !spec_has_frame(old(self).buffered()) ==> r is None && final(self).buffered() == old(self).buffered(),
            spec_has_frame(old(self).buffered()) ==> {
                let buf = old(self).buffered();
                final(self).buffered() == buf.subrange(spec_frame_len(buf), buf.len() as int) && r
                    == spec_parse_message(buf.subrange(0, spec_frame_len(buf)))
            },
    {
        let len = byte_buffer_len(&self.buffer);
        if len < 19 {
            return None;
        }
        let hi = byte_buffer_index(&self.buffer, 16);
        let lo = byte_buffer_index(&self.buffer, 17);
        let frame_len: usize = (hi as usize) * 256 + (lo as usize);
        if len < frame_len {
            return None;
        }
        let frame = byte_buffer_split_to(&mut self.buffer, frame_len);
        let frame_vec = byte_buffer_to_vec(&frame);
        match Message::decode(&frame_vec) {
            Ok(message) => Some(message),
            Err(_) => None,
        }
    }
}

/// Partial-message safety: a buffer short of the 19 header bytes, or short
/// of the length its header announces, holds no frame, so a framing step
/// returns nothing and leaves it untouched — and therefore so does any
/// number of repeated steps.
pub proof fn lemma_partial_bytes_have_no_frame(buf: Seq<u8>)
    requires
        buf.len() < 19 || buf.len() < spec_frame_len(buf),
    ensures
        !spec_has_frame(buf),
{
}

} // verus!
