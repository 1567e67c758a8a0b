//! The read-only view of a received frame, and the primitive that reads one
//! length-prefixed cell.

use vstd::prelude::*;
use vstd::slice::{slice_subrange, slice_to_vec};
use crate::compression::{declared_length, with_length, Compression};
use crate::encoder::{cell_of, null_cell, unset_cell, MAX_PAYLOAD};
use crate::header::{COMPRESSION, HEADER_LENGTH, IGNORE, VERSION};
use crate::opcode::{is_known, known, ERROR};
use crate::wire::{be16, from_be16, from_be32, signed16, signed32, twos16};
use crate::wire::{get_u16, get_u32, i16_from_bits, i32_from_bits};

verus! {

/// Why a received frame, or a part of it, could not be read.
#[derive(Clone, Copy, Debug, PartialEq, Eq, Structural)]
pub enum FrameError {
    /// A declared length runs past the bytes that are there.
    TruncatedFrame,
    /// The opcode names no message kind of the protocol.
    UnknownOpcode,
    /// The bytes are all there but are not what the row shape expects.
    SchemaMismatch,
}

/// The signed length that the four bytes at `at` declare.
pub open spec fn length_at(bytes: Seq<u8>, at: int) -> int {
    signed32(from_be32(bytes.subrange(at, at + 4))) as int
}

/// Where the payload of the cell at `at` lies, as start and length; `None` for
/// a NULL cell. A length below -1 is not a cell of a response.
pub open spec fn cell_at(bytes: Seq<u8>, at: int) -> Result<Option<(int, int)>, FrameError> {
    if at + 4 > bytes.len() {
        Err(FrameError::TruncatedFrame)
    } else if length_at(bytes, at) == -1 {
        Ok(None)
    } else if length_at(bytes, at) < 0 {
        Err(FrameError::SchemaMismatch)
    } else if at + 4 + length_at(bytes, at) > bytes.len() {
        Err(FrameError::TruncatedFrame)
    } else {
        Ok(Some((at + 4, length_at(bytes, at))))
    }
}

/// The payload of the cell at `at`; `None` for a NULL cell.
pub open spec fn blob_at(bytes: Seq<u8>, at: int) -> Result<Option<Seq<u8>>, FrameError> {
    match cell_at(bytes, at) {
        Err(e) => Err(e),
        Ok(None) => Ok(None),
        Ok(Some((start, length))) => Ok(Some(bytes.subrange(start, start + length))),
    }
}

/// A cell that was written is found where it was written, whatever stands
/// before and after it, and holds the payload that it was written with.
pub proof fn lemma_cell_round_trip(before: Seq<u8>, payload: Seq<u8>, after: Seq<u8>)
    requires
        payload.len() <= MAX_PAYLOAD,
    ensures
        cell_at(before + cell_of(payload) + after, before.len() as int) == Ok::<
            Option<(int, int)>,
            FrameError,
        >(Some((before.len() as int + 4, payload.len() as int))),
        blob_at(before + cell_of(payload) + after, before.len() as int) == Ok::<
            Option<Seq<u8>>,
            FrameError,
        >(Some(payload)),
{
    let bytes = before + cell_of(payload) + after;
    let at = before.len() as int;
    let length = payload.len() as u32;
    assert(bytes.subrange(at, at + 4) =~= crate::wire::be32(length));
    crate::wire::lemma_be_round_trip(0, length, 0);
    assert(length_at(bytes, at) == payload.len());
    assert(bytes.subrange(at + 4, at + 4 + payload.len()) =~= payload);
}

/// A NULL cell that was written is read as no value, and an UNSET cell is
/// refused: it is no cell of a response.
pub proof fn lemma_sentinel_round_trip(before: Seq<u8>, after: Seq<u8>)
    ensures
        blob_at(before + null_cell() + after, before.len() as int) == Ok::<
            Option<Seq<u8>>,
            FrameError,
        >(None),
        blob_at(before + unset_cell() + after, before.len() as int) == Err::<
            Option<Seq<u8>>,
            FrameError,
        >(FrameError::SchemaMismatch),
{
    let at = before.len() as int;
    let with_null = before + null_cell() + after;
    let with_unset = before + unset_cell() + after;
    assert(with_null.subrange(at, at + 4) =~= null_cell());
    assert(with_unset.subrange(at, at + 4) =~= unset_cell());
    assert(from_be32(null_cell()) == 0xffff_ffffu32);
    assert(from_be32(unset_cell()) == 0xffff_fffeu32);
}

/// Finds the payload of the cell that starts at `at`.
pub fn read_cell(bytes: &[u8], at: usize) -> (cell: Result<Option<(usize, usize)>, FrameError>)
    ensures
        match cell_at(bytes@, at as int) {
            Err(e) => cell == Err::<Option<(usize, usize)>, FrameError>(e),
            Ok(None) => cell == Ok::<Option<(usize, usize)>, FrameError>(None),
            Ok(Some((start, length))) => cell == Ok::<Option<(usize, usize)>, FrameError>(
                Some((start as usize, length as usize)),
            ) && start + length <= usize::MAX,
        },
{
    let total: usize = bytes.len();
    if total < 4 || at > total - 4 {
        return Err(FrameError::TruncatedFrame);
    }
    let declared: i32 = i32_from_bits(get_u32(bytes, at));
    if declared == -1 {
        return Ok(None);
    }
    if declared < 0 {
        return Err(FrameError::SchemaMismatch);
    }
    let length: usize = declared as usize;
    if length > total - 4 - at {
        return Err(FrameError::TruncatedFrame);
    }
    Ok(Some((at + 4, length)))
}

/// Reads the optional byte blob whose cell starts at `at`.
pub fn read_bytes(bytes: &[u8], at: usize) -> (blob: Result<Option<Vec<u8>>, FrameError>)
    ensures
        match blob_at(bytes@, at as int) {
            Err(e) => blob == Err::<Option<Vec<u8>>, FrameError>(e),
            Ok(None) => blob == Ok::<Option<Vec<u8>>, FrameError>(None),
            Ok(Some(payload)) => blob is Ok && blob->Ok_0 is Some && blob->Ok_0->0@ == payload,
        },
{
    match read_cell(bytes, at) {
        Err(e) => Err(e),
        Ok(None) => Ok(None),
        Ok(Some((start, length))) => {
            let payload = slice_to_vec(slice_subrange(bytes, start, start + length));
            Ok(Some(payload))
        },
    }
}

/// Why `frame` cannot be taken as a received frame, if it cannot: it is
/// shorter than a header, or shorter than the body that its header declares,
/// or its opcode is not one of the protocol.
pub open spec fn frame_error(frame: Seq<u8>) -> Option<FrameError> {
    if frame.len() < 9 || declared_length(frame) > frame.len() - 9 {
        Some(FrameError::TruncatedFrame)
    } else if !is_known(frame[4]) {
        Some(FrameError::UnknownOpcode)
    } else {
        None
    }
}

/// Whether the header of `frame` is all there and says that the body is
/// compressed.
pub open spec fn is_compressed(frame: Seq<u8>) -> bool {
    frame.len() >= 9 && frame[1] & COMPRESSION != 0
}

/// The frame that is read after `decompressor` has seen it: a frame that says
/// it is compressed goes through the decompressor, any other is taken as it
/// is.
pub open spec fn received<C: Compression>(frame: Seq<u8>, decompressor: C) -> Seq<u8> {
    if is_compressed(frame) {
        decompressor.decompressed(frame)
    } else {
        frame
    }
}

/// A frame whose header declares more body than there is, is truncated,
/// whatever its opcode; and without the compression flag it is read as it
/// stands.
pub proof fn lemma_truncated_frame<C: Compression>(frame: Seq<u8>, decompressor: C)
    requires
        frame.len() < 9 || declared_length(frame) > frame.len() - 9,
    ensures
        frame_error(frame) == Some(FrameError::TruncatedFrame),
        !is_compressed(frame) ==> frame_error(received(frame, decompressor)) == Some(
            FrameError::TruncatedFrame,
        ),
{
}

/// The frame of a request: the header that the header steps write for the
/// given flags, stream id and opcode, with the length of `body` in its length
/// field, and then `body`.
pub open spec fn request_frame(flags: u8, stream: i16, opcode: u8, body: Seq<u8>) -> Seq<u8> {
    with_length(
        seq![VERSION, flags] + be16(twos16(stream)) + seq![opcode] + seq![0u8, 0u8, 0u8, 0u8]
            + body,
    )
}

/// A finished request is a whole frame, and what is read from it is what it
/// was built from: version, flags, stream id, opcode and body.
pub proof fn lemma_request_read_back(flags: u8, stream: i16, opcode: u8, body: Seq<u8>)
    requires
        body.len() <= u32::MAX,
        is_known(opcode),
    ensures
        frame_error(request_frame(flags, stream, opcode, body)) is None,
        request_frame(flags, stream, opcode, body)[0] == VERSION,
        request_frame(flags, stream, opcode, body)[1] == flags,
        signed16(from_be16(request_frame(flags, stream, opcode, body).subrange(2, 4))) == stream,
        request_frame(flags, stream, opcode, body)[4] == opcode,
        declared_length(request_frame(flags, stream, opcode, body)) == body.len(),
        request_frame(flags, stream, opcode, body).subrange(9, 9 + body.len() as int) == body,
{
    let open_frame = seq![VERSION, flags] + be16(twos16(stream)) + seq![opcode] + seq![
        0u8,
        0u8,
        0u8,
        0u8,
    ] + body;
    let frame = request_frame(flags, stream, opcode, body);
    assert(open_frame.len() == 9 + body.len());
    crate::compression::lemma_with_length(open_frame);
    assert(frame.subrange(0, 5) == open_frame.subrange(0, 5));
    assert(frame[0] == frame.subrange(0, 5)[0]);
    assert(frame[1] == frame.subrange(0, 5)[1]);
    assert(frame[4] == frame.subrange(0, 5)[4]);
    assert(frame.subrange(2, 4) =~= be16(twos16(stream))) by {
        assert(frame.subrange(2, 4) =~= frame.subrange(0, 5).subrange(2, 4));
    }
    crate::wire::lemma_be_round_trip(twos16(stream), 0, 0);
    crate::wire::lemma_twos_round_trip(0, stream, 0, 0);
    assert(frame.subrange(9, 9 + body.len() as int) =~= body) by {
        assert(crate::compression::body_of(frame) =~= body);
    }
}

/// A received frame that was found whole: its header is complete, its opcode
/// is known and the body that the header declares is there.
pub struct Decoder {
    buffer: Vec<u8>,
}

impl View for Decoder {
    type V = Seq<u8>;

    closed spec fn view(&self) -> Seq<u8> {
        self.buffer@
    }
}

impl Decoder {
    #[verifier::type_invariant]
    spec fn whole(&self) -> bool {
        frame_error(self.buffer@) is None
    }

    /// The body of the frame: the bytes that follow the header, as many as
    /// the header declares.
    pub open spec fn spec_body(&self) -> Seq<u8> {
        self@.subrange(9, 9 + declared_length(self@))
    }

    /// Takes a received frame. A frame whose header says that the body is
    /// compressed is handed to `decompressor` first. Fails when the frame is
    /// truncated or its opcode unknown.
    pub fn new<C: Compression>(buffer: Vec<u8>, decompressor: C) -> (decoder: Result<
        Decoder,
        FrameError,
    >)
        ensures
            match frame_error(received(buffer@, decompressor)) {
                Some(e) => decoder == Err::<Decoder, FrameError>(e),
                None => decoder is Ok && decoder->Ok_0@ == received(buffer@, decompressor),
            },
            decoder is Ok ==> frame_error(decoder->Ok_0@) is None,
    {
        let compressed = buffer.len() >= HEADER_LENGTH && buffer[1] & COMPRESSION != 0;
        let frame = if compressed {
            decompressor.decompress(buffer)
        } else {
            buffer
        };
        if frame.len() < HEADER_LENGTH {
            return Err(FrameError::TruncatedFrame);
        }
        let declared: u32 = get_u32(frame.as_slice(), 5);
        if declared as usize > frame.len() - HEADER_LENGTH {
            return Err(FrameError::TruncatedFrame);
        }
        if !known(frame[4]) {
            return Err(FrameError::UnknownOpcode);
        }
        Ok(Decoder { buffer: frame })
    }

    /// The whole frame, header included.
    pub fn buffer(&self) -> (bytes: &[u8])
        ensures
            bytes@ == self@,
            frame_error(self@) is None,
    {
        proof {
            use_type_invariant(self);
        }
        self.buffer.as_slice()
    }

    /// The protocol version byte.
    pub fn version(&self) -> (version: u8)
        ensures
            version == self@[0],
    {
        proof {
            use_type_invariant(self);
        }
        self.buffer[0]
    }

    /// The header flags.
    pub fn flags(&self) -> (flags: u8)
        ensures
            flags == self@[1],
    {
        proof {
            use_type_invariant(self);
        }
        self.buffer[1]
    }

    /// The stream id.
    pub fn stream(&self) -> (stream: i16)
        ensures
            stream == signed16(from_be16(self@.subrange(2, 4))),
    {
        proof {
            use_type_invariant(self);
        }
        i16_from_bits(get_u16(self.buffer.as_slice(), 2))
    }

    /// The opcode, which is one of the protocol.
    pub fn opcode(&self) -> (opcode: u8)
        ensures
            opcode == self@[4],
            is_known(opcode),
    {
        proof {
            use_type_invariant(self);
        }
        self.buffer[4]
    }

    /// The length of the body, as the header declares it.
    pub fn length(&self) -> (length: usize)
        ensures
            length == declared_length(self@),
            9 + length <= self@.len(),
    {
        proof {
            use_type_invariant(self);
        }
        get_u32(self.buffer.as_slice(), 5) as usize
    }

    /// The body of the frame.
    pub fn body(&self) -> (body: &[u8])
        ensures
            body@ == self.spec_body(),
    {
        let length = self.length();
        let frame = self.buffer.as_slice();
        let total: usize = frame.len();
        assert(9 + length <= total);
        slice_subrange(frame, HEADER_LENGTH, HEADER_LENGTH + length)
    }

    /// Whether the frame is an ERROR message.
    pub fn is_error(&self) -> (yes: bool)
        ensures
            yes == (self@[4] == ERROR),
    {
        self.opcode() == ERROR
    }

    /// Whether the header flags are those of a request whose response is of
    /// no interest: no bit set.
    pub fn is_ignore(&self) -> (yes: bool)
        ensures
            yes == (self@[1] == IGNORE),
    {
        self.flags() == IGNORE
    }

    /// Reads the optional byte blob whose cell starts at `offset` of the
    /// body. Nothing beyond the body is read.
    pub fn bytes(&self, offset: usize) -> (blob: Result<Option<Vec<u8>>, FrameError>)
        ensures
            match blob_at(self.spec_body(), offset as int) {
                Err(e) => blob == Err::<Option<Vec<u8>>, FrameError>(e),
                Ok(None) => blob == Ok::<Option<Vec<u8>>, FrameError>(None),
                Ok(Some(payload)) => blob is Ok && blob->Ok_0 is Some && blob->Ok_0->0@
                    == payload,
            },
    {
        read_bytes(self.body(), offset)
    }
}

} // verus!
