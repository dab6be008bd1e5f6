//! Wire (de)serialization: a two-byte big-endian length followed by the flag
//! bytes, most-significant byte first on the wire; internal storage keeps the
//! reverse byte order. The reversal is a lossless byte-level bijection, with
//! no bit-level reordering.

use vstd::prelude::*;

use crate::context::Context;
use crate::features::{Features, InitFeatures};

verus! {

/// Error from the read path: the wire bytes end before the declared content,
/// either inside the length prefix or inside the flag bytes.
#[derive(Clone, Copy, Debug, PartialEq, Eq, Structural)]
pub enum DecodeError {
    /// The input is shorter than the encoding declares.
    ShortRead,
}

/// The content length a wire encoding declares: its first two bytes read as
/// a big-endian integer.
pub open spec fn spec_wire_len(bytes: Seq<u8>) -> int
    recommends
        bytes.len() >= 2,
{
    bytes[0] * 256 + bytes[1]
}

/// The wire encoding of a storage-order flag vector: two big-endian length
/// bytes, then the flag bytes reversed into most-significant-first order.
pub open spec fn spec_wire_bytes(flags: Seq<u8>) -> Seq<u8>
    recommends
        flags.len() <= 0xFFFF,
{
    seq![(flags.len() as int / 256) as u8, (flags.len() as int % 256) as u8] + flags.reverse()
}

/// What reading a wire encoding yields: `None` when the bytes end before the
/// declared content, otherwise the declared flag bytes reversed back into
/// storage order. Bytes after the declared content are ignored.
pub open spec fn spec_parse_wire(bytes: Seq<u8>) -> Option<Seq<u8>> {
    if bytes.len() < 2 {
        None
    } else if bytes.len() < 2 + spec_wire_len(bytes) {
        None
    } else {
        Some(bytes.subrange(2, 2 + spec_wire_len(bytes)).reverse())
    }
}

/// The truncated handshake encoding of a storage-order flag vector: a
/// two-byte length prefix declaring at most two content bytes, then up to the
/// first two storage bytes in wire order, the byte covering bits 8 to 15
/// masked down to bits 8 to 13.
pub open spec fn spec_write_up_to_13(flags: Seq<u8>) -> Seq<u8> {
    if flags.len() >= 2 {
        seq![0u8, 2u8, flags[1] & 0x3Fu8, flags[0]]
    } else if flags.len() == 1 {
        seq![0u8, 1u8, flags[0]]
    } else {
        seq![0u8, 0u8]
    }
}

impl<T: Context> Features<T> {
    /// Serializes the vector to wire form: two big-endian length bytes, then
    /// the flag bytes in wire (most-significant-first) order.
    pub fn write(&self) -> (out: Vec<u8>)
        requires
            self@.len() <= 0xFFFF,
        ensures
            out@ == spec_wire_bytes(self@),
    {
        let flags = self.le_flags();
        let len = flags.len() as u16;
        proof {
            assert(len >> 8u16 == len / 256 && (len & 0xFFu16) == len % 256) by (bit_vector);
        }
        let mut out: Vec<u8> = Vec::new();
        out.push((len >> 8u16) as u8);
        out.push((len & 0xFFu16) as u8);
        let mut i: usize = flags.len();
        while i > 0
            invariant
                flags@ == self@,
                self@.len() <= 0xFFFF,
                i <= self@.len(),
                out@.len() == 2 + self@.len() - i,
                out@[0] == (self@.len() as int / 256) as u8,
                out@[1] == (self@.len() as int % 256) as u8,
                forall|j: int|
                    2 <= j < out@.len() ==> (#[trigger] out@[j]) == self@[self@.len() + 1 - j],
            decreases i,
        {
            i -= 1;
            out.push(flags[i]);
        }
        proof {
            assert(out@ =~= spec_wire_bytes(self@));
        }
        out
    }

    /// Reads a vector from wire bytes: two big-endian length bytes, then that
    /// many flag bytes, reversed into storage order. Fails when the input
    /// ends before the declared content; bytes after it are ignored, as a
    /// stream reader would leave them for the next message.
    pub fn read(bytes: &[u8]) -> (r: Result<Features<T>, DecodeError>)
        ensures
            match r {
                Ok(f) => spec_parse_wire(bytes@) == Some(f@),
                Err(_) => spec_parse_wire(bytes@) is None,
            },
    {
        if bytes.len() < 2 {
            return Err(DecodeError::ShortRead);
        }
        let l = (bytes[0] as usize) * 256 + (bytes[1] as usize);
        if bytes.len() - 2 < l {
            return Err(DecodeError::ShortRead);
        }
        let mut flags: Vec<u8> = Vec::new();
        let mut i: usize = 0;
        while i < l
            invariant
                bytes@.len() >= 2 + l,
                l == spec_wire_len(bytes@),
                i <= l,
                flags@.len() == i,
                forall|j: int| 0 <= j < i ==> flags@[j] == bytes@[2 + l - 1 - j],
            decreases l - i,
        {
            flags.push(bytes[2 + l - 1 - i]);
            i += 1;
        }
        proof {
            assert(flags@ =~= bytes@.subrange(2, 2 + l as int).reverse());
        }
        Ok(Features::from_le_bytes(flags))
    }
}

impl InitFeatures {
    /// Emits only the bit range up to and including bit 13, for peers that
    /// expect the legacy truncated handshake encoding: a length prefix of at
    /// most two content bytes, then up to the first two storage bytes in
    /// wire order, with bits 14 and 15 masked off the higher byte.
    pub fn write_up_to_13(&self) -> (out: Vec<u8>)
        ensures
            out@ == spec_write_up_to_13(self@),
    {
        let flags = self.le_flags();
        let mut out: Vec<u8> = Vec::new();
        out.push(0u8);
        if flags.len() >= 2 {
            out.push(2u8);
            out.push(flags[1] & 0x3Fu8);
            out.push(flags[0]);
        } else if flags.len() == 1 {
            out.push(1u8);
            out.push(flags[0]);
        } else {
            out.push(0u8);
        }
        proof {
            assert(out@ =~= spec_write_up_to_13(self@));
        }
        out
    }
}

} // verus!
