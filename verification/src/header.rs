//! The nine bytes that every frame starts with.

use vstd::prelude::*;

verus! {

/// Header flag byte with no bit set: the sender expects nothing beyond the
/// plain response.
pub const IGNORE: u8 = 0x00;

/// Header flag bit: the body is compressed.
pub const COMPRESSION: u8 = 0x01;

/// Header flag bit: the request is traced.
pub const TRACING: u8 = 0x02;

/// Header flag bit: a custom payload is attached.
pub const CUSTOM_PAYLOAD: u8 = 0x04;

/// Header flag bit: the response carries warnings.
pub const WARNING: u8 = 0x08;

/// The protocol version that requests are written in.
pub const VERSION: u8 = 4;

/// Number of bytes in a frame header.
pub const HEADER_LENGTH: usize = 9;

/// Offset of the flags byte in a frame.
pub const FLAGS_AT: usize = 1;

/// Offset of the stream id in a frame.
pub const STREAM_AT: usize = 2;

/// Offset of the opcode in a frame.
pub const OPCODE_AT: usize = 4;

/// Offset of the body length in a frame.
pub const LENGTH_AT: usize = 5;

/// The header steps of a request under construction. Each step appends its
/// field to the bytes written so far; the caller keeps the order version,
/// flags, stream, opcode, length.
pub trait Header: Sized {
    /// The bytes written so far.
    spec fn bytes(&self) -> Seq<u8>;

    /// A request with nothing written.
    fn new() -> (request: Self)
        ensures
            request.bytes() == Seq::<u8>::empty(),
    ;

    /// A request with nothing written and room for `capacity` bytes.
    fn with_capacity(capacity: usize) -> (request: Self)
        ensures
            request.bytes() == Seq::<u8>::empty(),
    ;

    /// Appends the protocol version.
    fn version(self) -> (request: Self)
        ensures
            request.bytes() == self.bytes().push(VERSION),
    ;

    /// Appends the header flags.
    fn flags(self, flags: u8) -> (request: Self)
        ensures
            request.bytes() == self.bytes().push(flags),
    ;

    /// Appends the stream id, two bytes in two's complement.
    fn stream(self, stream: i16) -> (request: Self)
        ensures
            request.bytes() == self.bytes() + crate::wire::be16(crate::wire::twos16(stream)),
    ;

    /// Appends the opcode.
    fn opcode(self, opcode: u8) -> (request: Self)
        ensures
            request.bytes() == self.bytes().push(opcode),
    ;

    /// Appends four zero bytes, to be overwritten with the body length once
    /// the body is complete.
    fn length(self) -> (request: Self)
        ensures
            request.bytes() == self.bytes() + seq![0u8, 0u8, 0u8, 0u8],
    ;
}

} // verus!
