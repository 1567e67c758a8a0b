//! Reading one column value back from the payload of its cell.

use vstd::prelude::*;
use vstd::slice::{slice_subrange, slice_to_vec};
use vstd::utf8::valid_utf8;
use crate::decoder::FrameError;
use crate::encoder::{bool_byte, cell_of, text_bytes, ColumnEncoder};
use crate::wire::{be16, be32, be64, twos8, twos16, twos32, twos64};
use crate::wire::{from_be16, from_be32, from_be64, signed8, signed16, signed32, signed64};
use crate::wire::{get_u16, get_u32, get_u64};
use crate::wire::{i8_from_bits, i16_from_bits, i32_from_bits, i64_from_bits};

verus! {

/// A value that can be read back from a cell.
pub trait ColumnDecoder: ColumnEncoder + Sized {
    /// Whether `payload` spells a value of this type.
    spec fn accepts(payload: Seq<u8>) -> bool;

    /// Reads the value that the `length` bytes of `buffer` from `start` on
    /// spell. Fails with `TruncatedFrame` when those bytes are not all there
    /// and with `SchemaMismatch` when they spell no value of this type;
    /// otherwise gives the value whose cell carries exactly these bytes.
    fn decode(buffer: &[u8], start: usize, length: usize) -> (value: Result<Self, FrameError>)
        ensures
            start + length > buffer@.len() ==> value is Err && value->Err_0
                == FrameError::TruncatedFrame,
            start + length <= buffer@.len() && !Self::accepts(
                buffer@.subrange(start as int, start + length),
            ) ==> value is Err && value->Err_0 == FrameError::SchemaMismatch,
            start + length <= buffer@.len() && Self::accepts(
                buffer@.subrange(start as int, start + length),
            ) ==> value is Ok && value->Ok_0.cell() == cell_of(
                buffer@.subrange(start as int, start + length),
            ),
    ;
}

/// The `length` bytes of `buffer` that start at `start`, if they are there.
pub fn payload(buffer: &[u8], start: usize, length: usize) -> (bytes: Option<&[u8]>)
    ensures
        bytes is Some <==> start + length <= buffer@.len(),
        bytes is Some ==> bytes->0@ == buffer@.subrange(start as int, start + length),
{
    let total: usize = buffer.len();
    if start > total || length > total - start {
        None
    } else {
        Some(slice_subrange(buffer, start, start + length))
    }
}

impl ColumnDecoder for i64 {
    open spec fn accepts(payload: Seq<u8>) -> bool {
        payload.len() == 8
    }

    fn decode(buffer: &[u8], start: usize, length: usize) -> (value: Result<Self, FrameError>)
        ensures
            value is Ok ==> value->Ok_0 == signed64(
                from_be64(buffer@.subrange(start as int, start + length)),
            ),
    {
        match payload(buffer, start, length) {
            None => Err(FrameError::TruncatedFrame),
            Some(bytes) => {
                if length != 8 {
                    return Err(FrameError::SchemaMismatch);
                }
                let bits = get_u64(bytes, 0);
                proof {
                    assert(bytes@.subrange(0, 8) =~= bytes@);
                    crate::wire::lemma_be64_unique(bytes@);
                    crate::wire::lemma_signed_round_trip(0, 0, 0, bits);
                }
                Ok(i64_from_bits(bits))
            },
        }
    }
}

impl ColumnDecoder for u64 {
    open spec fn accepts(payload: Seq<u8>) -> bool {
        payload.len() == 8
    }

    fn decode(buffer: &[u8], start: usize, length: usize) -> (value: Result<Self, FrameError>)
        ensures
            value is Ok ==> value->Ok_0 == from_be64(buffer@.subrange(start as int, start + length)),
    {
        match payload(buffer, start, length) {
            None => Err(FrameError::TruncatedFrame),
            Some(bytes) => {
                if length != 8 {
                    return Err(FrameError::SchemaMismatch);
                }
                let bits = get_u64(bytes, 0);
                proof {
                    assert(bytes@.subrange(0, 8) =~= bytes@);
                    crate::wire::lemma_be64_unique(bytes@);
                }
                Ok(bits)
            },
        }
    }
}

impl ColumnDecoder for i32 {
    open spec fn accepts(payload: Seq<u8>) -> bool {
        payload.len() == 4
    }

    fn decode(buffer: &[u8], start: usize, length: usize) -> (value: Result<Self, FrameError>)
        ensures
            value is Ok ==> value->Ok_0 == signed32(
                from_be32(buffer@.subrange(start as int, start + length)),
            ),
    {
        match payload(buffer, start, length) {
            None => Err(FrameError::TruncatedFrame),
            Some(bytes) => {
                if length != 4 {
                    return Err(FrameError::SchemaMismatch);
                }
                let bits = get_u32(bytes, 0);
                proof {
                    assert(bytes@.subrange(0, 4) =~= bytes@);
                    crate::wire::lemma_be32_unique(bytes@);
                    crate::wire::lemma_signed_round_trip(0, 0, bits, 0);
                }
                Ok(i32_from_bits(bits))
            },
        }
    }
}

impl ColumnDecoder for u32 {
    open spec fn accepts(payload: Seq<u8>) -> bool {
        payload.len() == 4
    }

    fn decode(buffer: &[u8], start: usize, length: usize) -> (value: Result<Self, FrameError>)
        ensures
            value is Ok ==> value->Ok_0 == from_be32(buffer@.subrange(start as int, start + length)),
    {
        match payload(buffer, start, length) {
            None => Err(FrameError::TruncatedFrame),
            Some(bytes) => {
                if length != 4 {
                    return Err(FrameError::SchemaMismatch);
                }
                let bits = get_u32(bytes, 0);
                proof {
                    assert(bytes@.subrange(0, 4) =~= bytes@);
                    crate::wire::lemma_be32_unique(bytes@);
                }
                Ok(bits)
            },
        }
    }
}

impl ColumnDecoder for i16 {
    open spec fn accepts(payload: Seq<u8>) -> bool {
        payload.len() == 2
    }

    fn decode(buffer: &[u8], start: usize, length: usize) -> (value: Result<Self, FrameError>)
        ensures
            value is Ok ==> value->Ok_0 == signed16(
                from_be16(buffer@.subrange(start as int, start + length)),
            ),
    {
        match payload(buffer, start, length) {
            None => Err(FrameError::TruncatedFrame),
            Some(bytes) => {
                if length != 2 {
                    return Err(FrameError::SchemaMismatch);
                }
                let bits = get_u16(bytes, 0);
                proof {
                    assert(bytes@.subrange(0, 2) =~= bytes@);
                    crate::wire::lemma_be16_unique(bytes@);
                    crate::wire::lemma_signed_round_trip(0, bits, 0, 0);
                }
                Ok(i16_from_bits(bits))
            },
        }
    }
}

impl ColumnDecoder for u16 {
    open spec fn accepts(payload: Seq<u8>) -> bool {
        payload.len() == 2
    }

    fn decode(buffer: &[u8], start: usize, length: usize) -> (value: Result<Self, FrameError>)
        ensures
            value is Ok ==> value->Ok_0 == from_be16(buffer@.subrange(start as int, start + length)),
    {
        match payload(buffer, start, length) {
            None => Err(FrameError::TruncatedFrame),
            Some(bytes) => {
                if length != 2 {
                    return Err(FrameError::SchemaMismatch);
                }
                let bits = get_u16(bytes, 0);
                proof {
                    assert(bytes@.subrange(0, 2) =~= bytes@);
                    crate::wire::lemma_be16_unique(bytes@);
                }
                Ok(bits)
            },
        }
    }
}

impl ColumnDecoder for i8 {
    open spec fn accepts(payload: Seq<u8>) -> bool {
        payload.len() == 1
    }

    fn decode(buffer: &[u8], start: usize, length: usize) -> (value: Result<Self, FrameError>)
        ensures
            value is Ok ==> value->Ok_0 == signed8(buffer@.subrange(start as int, start + length)[0]),
    {
        match payload(buffer, start, length) {
            None => Err(FrameError::TruncatedFrame),
            Some(bytes) => {
                if length != 1 {
                    return Err(FrameError::SchemaMismatch);
                }
                let bits = bytes[0];
                proof {
                    assert(bytes@.subrange(0, 1) =~= bytes@);
                    crate::wire::lemma_signed_round_trip(bits, 0, 0, 0);
                    assert(seq![bits] =~= bytes@);
                }
                Ok(i8_from_bits(bits))
            },
        }
    }
}

impl ColumnDecoder for u8 {
    open spec fn accepts(payload: Seq<u8>) -> bool {
        payload.len() == 1
    }

    fn decode(buffer: &[u8], start: usize, length: usize) -> (value: Result<Self, FrameError>)
        ensures
            value is Ok ==> value->Ok_0 == buffer@.subrange(start as int, start + length)[0],
    {
        match payload(buffer, start, length) {
            None => Err(FrameError::TruncatedFrame),
            Some(bytes) => {
                if length != 1 {
                    return Err(FrameError::SchemaMismatch);
                }
                let bits = bytes[0];
                proof {
                    assert(bytes@.subrange(0, 1) =~= bytes@);
                    assert(seq![bits] =~= bytes@);
                }
                Ok(bits)
            },
        }
    }
}

impl ColumnDecoder for bool {
    open spec fn accepts(payload: Seq<u8>) -> bool {
        payload.len() == 1 && payload[0] <= 1
    }

    fn decode(buffer: &[u8], start: usize, length: usize) -> (value: Result<Self, FrameError>)
        ensures
            value is Ok ==> value->Ok_0 == (buffer@[start as int] == 1),
    {
        match payload(buffer, start, length) {
            None => Err(FrameError::TruncatedFrame),
            Some(bytes) => {
                if length != 1 || bytes[0] > 1 {
                    return Err(FrameError::SchemaMismatch);
                }
                let yes = bytes[0] == 1;
                proof {
                    assert(seq![bool_byte(yes)] =~= bytes@);
                }
                Ok(yes)
            },
        }
    }
}

/// `core::str::from_utf8`: the bytes are taken as text exactly when they are
/// well-formed UTF-8, and the text then has these bytes as its encoding.
#[verifier::external_body]
fn utf8_text(bytes: &[u8]) -> (text: Option<&str>)
    ensures
        text is Some <==> valid_utf8(bytes@),
        text is Some ==> text_bytes(text->0@) == bytes@,
{
    match core::str::from_utf8(bytes) {
        Ok(text) => Some(text),
        Err(_) => None,
    }
}

impl ColumnDecoder for String {
    open spec fn accepts(payload: Seq<u8>) -> bool {
        valid_utf8(payload)
    }

    fn decode(buffer: &[u8], start: usize, length: usize) -> (value: Result<Self, FrameError>)
        ensures
            value is Ok ==> text_bytes(value->Ok_0@) == buffer@.subrange(
                start as int,
                start + length,
            ),
    {
        match payload(buffer, start, length) {
            None => Err(FrameError::TruncatedFrame),
            Some(bytes) => match utf8_text(bytes) {
                None => Err(FrameError::SchemaMismatch),
                Some(text) => Ok(text.to_owned()),
            },
        }
    }
}

impl ColumnEncoder for Vec<u8> {
    open spec fn cell(&self) -> Seq<u8> {
        cell_of(self@)
    }

    open spec fn encodable(&self) -> bool {
        self@.len() <= crate::encoder::MAX_PAYLOAD
    }

    fn encode(&self, buffer: &mut Vec<u8>) {
        crate::encoder::put_cell(buffer, self.as_slice());
    }
}

impl ColumnDecoder for Vec<u8> {
    open spec fn accepts(payload: Seq<u8>) -> bool {
        true
    }

    fn decode(buffer: &[u8], start: usize, length: usize) -> (value: Result<Self, FrameError>)
        ensures
            value is Ok ==> value->Ok_0@ == buffer@.subrange(start as int, start + length),
    {
        match payload(buffer, start, length) {
            None => Err(FrameError::TruncatedFrame),
            Some(bytes) => Ok(slice_to_vec(bytes)),
        }
    }
}

/// Reading the payload of an integer's or a boolean's cell gives the value
/// back: the payload is accepted at the type's width, and the number that it
/// spells is the one that was written.
pub proof fn lemma_scalar_round_trip(
    a: i8,
    b: i16,
    c: i32,
    d: i64,
    e: u8,
    f: u16,
    g: u32,
    h: u64,
    t: bool,
)
    ensures
        a.cell() == cell_of(seq![twos8(a)]) && i8::accepts(seq![twos8(a)]) && signed8(
            seq![twos8(a)][0],
        ) == a,
        b.cell() == cell_of(be16(twos16(b))) && i16::accepts(be16(twos16(b))) && signed16(
            from_be16(be16(twos16(b))),
        ) == b,
        c.cell() == cell_of(be32(twos32(c))) && i32::accepts(be32(twos32(c))) && signed32(
            from_be32(be32(twos32(c))),
        ) == c,
        d.cell() == cell_of(be64(twos64(d))) && i64::accepts(be64(twos64(d))) && signed64(
            from_be64(be64(twos64(d))),
        ) == d,
        e.cell() == cell_of(seq![e]) && u8::accepts(seq![e]) && seq![e][0] == e,
        f.cell() == cell_of(be16(f)) && u16::accepts(be16(f)) && from_be16(be16(f)) == f,
        g.cell() == cell_of(be32(g)) && u32::accepts(be32(g)) && from_be32(be32(g)) == g,
        h.cell() == cell_of(be64(h)) && u64::accepts(be64(h)) && from_be64(be64(h)) == h,
        t.cell() == cell_of(seq![bool_byte(t)]) && bool::accepts(seq![bool_byte(t)]) && (seq![
            bool_byte(t),
        ][0] == 1) == t,
{
    crate::wire::lemma_be_round_trip(twos16(b), twos32(c), twos64(d));
    crate::wire::lemma_be_round_trip(f, g, h);
    crate::wire::lemma_twos_round_trip(a, b, c, d);
}

/// Reading the payload of a text's cell gives the text back: its encoding is
/// accepted, and a text with the same encoding is the same text.
pub proof fn lemma_text_round_trip(text: String, read: String)
    requires
        text_bytes(read@) == text_bytes(text@),
    ensures
        text.cell() == cell_of(text_bytes(text@)),
        String::accepts(text_bytes(text@)),
        read@ == text@,
{
    vstd::utf8::encode_utf8_valid_utf8(text@);
    vstd::utf8::encode_utf8_decode_utf8(text@);
    vstd::utf8::encode_utf8_decode_utf8(read@);
}

/// Reading the payload of a byte string's cell gives the bytes back: any
/// bytes are accepted, and they are the bytes that are read.
pub proof fn lemma_blob_round_trip(bytes: Vec<u8>)
    ensures
        bytes.cell() == cell_of(bytes@),
        Vec::<u8>::accepts(bytes@),
{
}

} // verus!
