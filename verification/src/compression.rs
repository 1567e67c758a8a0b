//! The transform that a finished request goes through before it is sent, and
//! that a response goes through before it is read.

use vstd::prelude::*;
use crate::header::COMPRESSION;
use crate::wire::{be32, from_be32};

verus! {

/// The body length that the header of `frame` declares.
pub open spec fn declared_length(frame: Seq<u8>) -> u32 {
    from_be32(frame.subrange(5, 9))
}

/// The body of `frame`: what follows its nine header bytes.
pub open spec fn body_of(frame: Seq<u8>) -> Seq<u8> {
    frame.subrange(9, frame.len() as int)
}

/// A frame is sealed when it has a whole header and the length that the header
/// declares is the length of the body that follows.
pub open spec fn sealed(frame: Seq<u8>) -> bool {
    frame.len() >= 9 && declared_length(frame) == frame.len() - 9
}

/// `frame` with its length field overwritten by the length of its body.
pub open spec fn with_length(frame: Seq<u8>) -> Seq<u8> {
    frame.subrange(0, 5) + be32((frame.len() - 9) as u32) + body_of(frame)
}

/// A compression strategy.
pub trait Compression {
    /// The frame that `compress` turns `frame` into.
    spec fn compressed(&self, frame: Seq<u8>) -> Seq<u8>;

    /// The frame that `decompress` turns `frame` into.
    spec fn decompressed(&self, frame: Seq<u8>) -> Seq<u8>;

    /// Finishes a request: transforms the body and writes the length of the
    /// transformed body into the header. Version, stream id and opcode stay,
    /// and of the flags at most the compression bit changes.
    fn compress(&self, buffer: &mut Vec<u8>)
        requires
            old(buffer)@.len() >= 9,
            old(buffer)@.len() - 9 <= u32::MAX,
        ensures
            final(buffer)@ == self.compressed(old(buffer)@),
            sealed(final(buffer)@),
            final(buffer)@[0] == old(buffer)@[0],
            final(buffer)@[1] | COMPRESSION == old(buffer)@[1] | COMPRESSION,
            final(buffer)@.subrange(2, 5) == old(buffer)@.subrange(2, 5),
    ;

    /// Undoes the transform on a received frame.
    fn decompress(&self, buffer: Vec<u8>) -> (frame: Vec<u8>)
        ensures
            frame@ == self.decompressed(buffer@),
    ;
}

/// The strategy that leaves the body as it is.
pub struct Uncompressed;

pub const UNCOMPRESSED: Uncompressed = Uncompressed;

impl Compression for Uncompressed {
    open spec fn compressed(&self, frame: Seq<u8>) -> Seq<u8> {
        with_length(frame)
    }

    open spec fn decompressed(&self, frame: Seq<u8>) -> Seq<u8> {
        frame
    }

    fn compress(&self, buffer: &mut Vec<u8>) {
        let length: u32 = (buffer.len() - 9) as u32;
        buffer.set(5, (length / 0x100_0000) as u8);
        buffer.set(6, (length / 0x1_0000 % 0x100) as u8);
        buffer.set(7, (length / 0x100 % 0x100) as u8);
        buffer.set(8, (length % 0x100) as u8);
        proof {
            assert(buffer@ =~= with_length(old(buffer)@));
            assert(buffer@.subrange(5, 9) =~= be32(length));
            crate::wire::lemma_be_round_trip(0, length, 0);
            assert(buffer@.subrange(2, 5) =~= old(buffer)@.subrange(2, 5));
        }
    }

    fn decompress(&self, buffer: Vec<u8>) -> (frame: Vec<u8>) {
        buffer
    }
}

/// Sealing a frame changes nothing but the four bytes of the length field, and
/// leaves a sealed frame as it is.
pub proof fn lemma_with_length(frame: Seq<u8>)
    requires
        frame.len() >= 9,
        frame.len() - 9 <= u32::MAX,
    ensures
        with_length(frame).len() == frame.len(),
        sealed(with_length(frame)),
        body_of(with_length(frame)) == body_of(frame),
        with_length(frame).subrange(0, 5) == frame.subrange(0, 5),
        sealed(frame) ==> with_length(frame) == frame,
{
    let sealed_frame = with_length(frame);
    let length = (frame.len() - 9) as u32;
    crate::wire::lemma_be_round_trip(0, length, 0);
    assert(sealed_frame.subrange(5, 9) =~= be32(length));
    assert(body_of(sealed_frame) =~= body_of(frame));
    assert(sealed_frame.subrange(0, 5) =~= frame.subrange(0, 5));
    if sealed(frame) {
        crate::wire::lemma_be32_unique(frame.subrange(5, 9));
        assert(sealed_frame =~= frame);
    }
}

} // verus!
