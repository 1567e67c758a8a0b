//! Bound values as wire cells: a four-byte signed length, then that many bytes
//! of payload. The lengths -1 and -2 stand for NULL and UNSET and are followed
//! by nothing.

use vstd::prelude::*;
use crate::wire::{be16, be32, be64, twos8, twos16, twos32, twos64};
use crate::wire::{i8_bits, i16_bits, i32_bits, i64_bits, put_u16, put_u32, put_u64};

verus! {

pub const BE_16_BYTES_LEN: [u8; 4] = [0, 0, 0, 16];

pub const BE_8_BYTES_LEN: [u8; 4] = [0, 0, 0, 8];

pub const BE_4_BYTES_LEN: [u8; 4] = [0, 0, 0, 4];

pub const BE_2_BYTES_LEN: [u8; 4] = [0, 0, 0, 2];

pub const BE_1_BYTES_LEN: [u8; 4] = [0, 0, 0, 1];

pub const BE_0_BYTES_LEN: [u8; 4] = [0, 0, 0, 0];

/// Length -1: the cell holds NULL.
pub const BE_NULL_BYTES_LEN: [u8; 4] = [255, 255, 255, 255];

/// Length -2: the cell is left unset.
pub const BE_UNSET_BYTES_LEN: [u8; 4] = [255, 255, 255, 254];

pub const NULL_VALUE: Null = Null;

pub const UNSET_VALUE: Unset = Unset;

/// The longest payload that a cell can declare.
pub const MAX_PAYLOAD: usize = 0x7fff_ffff;

/// The NULL value.
pub struct Null;

/// The value that leaves a bound column as it is on the server.
pub struct Unset;

/// The cell that carries `payload`: its length in four bytes, then the bytes
/// themselves.
pub open spec fn cell_of(payload: Seq<u8>) -> Seq<u8> {
    be32(payload.len() as u32) + payload
}

/// A cell carries one payload only.
pub proof fn lemma_cell_of_injective(a: Seq<u8>, b: Seq<u8>)
    requires
        cell_of(a) == cell_of(b),
    ensures
        a == b,
{
    assert(cell_of(a).subrange(4, cell_of(a).len() as int) =~= a);
    assert(cell_of(b).subrange(4, cell_of(b).len() as int) =~= b);
}

/// The bytes that a text is written as: its UTF-8 encoding.
pub open spec fn text_bytes(text: Seq<char>) -> Seq<u8> {
    vstd::utf8::encode_utf8(text)
}

/// A text takes at most four bytes for each of its characters.
pub proof fn lemma_text_bytes_bound(text: Seq<char>)
    ensures
        text_bytes(text).len() <= 4 * text.len(),
    decreases text.len(),
{
    if text.len() > 0 {
        lemma_text_bytes_bound(text.drop_first());
    }
}

/// Tells whether `text` fits a cell.
pub fn text_fits(text: &str) -> (fits: bool)
    ensures
        fits == (text_bytes(text@).len() <= MAX_PAYLOAD),
{
    text.as_bytes().len() <= MAX_PAYLOAD
}

/// The cell that stands for NULL.
pub open spec fn null_cell() -> Seq<u8> {
    seq![255u8, 255u8, 255u8, 255u8]
}

/// The cell that stands for UNSET.
pub open spec fn unset_cell() -> Seq<u8> {
    seq![255u8, 255u8, 255u8, 254u8]
}

/// The cells of NULL and UNSET are the lengths -1 and -2 and nothing else:
/// four bytes, no payload.
pub proof fn lemma_sentinel_cells()
    ensures
        null_cell() == be32(crate::wire::twos32(-1i32)),
        unset_cell() == be32(crate::wire::twos32(-2i32)),
        null_cell().len() == 4,
        unset_cell().len() == 4,
        NULL_VALUE.cell() == null_cell(),
        UNSET_VALUE.cell() == unset_cell(),
{
    assert(null_cell() =~= be32(crate::wire::twos32(-1i32)));
    assert(unset_cell() =~= be32(crate::wire::twos32(-2i32)));
}

/// A value that can be bound to a statement.
pub trait ColumnEncoder {
    /// The cell that this value is written as.
    spec fn cell(&self) -> Seq<u8>;

    /// Whether the value can be written at all: its payload must not be longer
    /// than a cell can declare.
    spec fn encodable(&self) -> bool;

    /// Appends the cell of this value to `buffer`.
    fn encode(&self, buffer: &mut Vec<u8>)
        requires
            self.encodable(),
        ensures
            final(buffer)@ == old(buffer)@ + self.cell(),
    ;
}

/// Appends the four bytes of `length` to `buffer`.
fn put_length(buffer: &mut Vec<u8>, length: &[u8; 4])
    ensures
        final(buffer)@ == old(buffer)@ + length@,
{
    buffer.push(length[0]);
    buffer.push(length[1]);
    buffer.push(length[2]);
    buffer.push(length[3]);
    assert(buffer@ =~= old(buffer)@ + length@);
}

/// Appends the cell that carries `payload` to `buffer`.
pub fn put_cell(buffer: &mut Vec<u8>, payload: &[u8])
    requires
        payload@.len() <= MAX_PAYLOAD,
    ensures
        final(buffer)@ == old(buffer)@ + cell_of(payload@),
{
    put_u32(buffer, payload.len() as u32);
    buffer.extend_from_slice(payload);
    assert(buffer@ =~= old(buffer)@ + cell_of(payload@));
}

impl ColumnEncoder for i64 {
    open spec fn cell(&self) -> Seq<u8> {
        cell_of(be64(twos64(*self)))
    }

    open spec fn encodable(&self) -> bool {
        true
    }

    fn encode(&self, buffer: &mut Vec<u8>) {
        put_length(buffer, &BE_8_BYTES_LEN);
        put_u64(buffer, i64_bits(*self));
        assert(buffer@ =~= old(buffer)@ + self.cell());
    }
}

impl ColumnEncoder for u64 {
    open spec fn cell(&self) -> Seq<u8> {
        cell_of(be64(*self))
    }

    open spec fn encodable(&self) -> bool {
        true
    }

    fn encode(&self, buffer: &mut Vec<u8>) {
        put_length(buffer, &BE_8_BYTES_LEN);
        put_u64(buffer, *self);
        assert(buffer@ =~= old(buffer)@ + self.cell());
    }
}

impl ColumnEncoder for i32 {
    open spec fn cell(&self) -> Seq<u8> {
        cell_of(be32(twos32(*self)))
    }

    open spec fn encodable(&self) -> bool {
        true
    }

    fn encode(&self, buffer: &mut Vec<u8>) {
        put_length(buffer, &BE_4_BYTES_LEN);
        put_u32(buffer, i32_bits(*self));
        assert(buffer@ =~= old(buffer)@ + self.cell());
    }
}

impl ColumnEncoder for u32 {
    open spec fn cell(&self) -> Seq<u8> {
        cell_of(be32(*self))
    }

    open spec fn encodable(&self) -> bool {
        true
    }

    fn encode(&self, buffer: &mut Vec<u8>) {
        put_length(buffer, &BE_4_BYTES_LEN);
        put_u32(buffer, *self);
        assert(buffer@ =~= old(buffer)@ + self.cell());
    }
}

impl ColumnEncoder for i16 {
    open spec fn cell(&self) -> Seq<u8> {
        cell_of(be16(twos16(*self)))
    }

    open spec fn encodable(&self) -> bool {
        true
    }

    fn encode(&self, buffer: &mut Vec<u8>) {
        put_length(buffer, &BE_2_BYTES_LEN);
        put_u16(buffer, i16_bits(*self));
        assert(buffer@ =~= old(buffer)@ + self.cell());
    }
}

impl ColumnEncoder for u16 {
    open spec fn cell(&self) -> Seq<u8> {
        cell_of(be16(*self))
    }

    open spec fn encodable(&self) -> bool {
        true
    }

    fn encode(&self, buffer: &mut Vec<u8>) {
        put_length(buffer, &BE_2_BYTES_LEN);
        put_u16(buffer, *self);
        assert(buffer@ =~= old(buffer)@ + self.cell());
    }
}

impl ColumnEncoder for i8 {
    open spec fn cell(&self) -> Seq<u8> {
        cell_of(seq![twos8(*self)])
    }

    open spec fn encodable(&self) -> bool {
        true
    }

    fn encode(&self, buffer: &mut Vec<u8>) {
        put_length(buffer, &BE_1_BYTES_LEN);
        buffer.push(i8_bits(*self));
        assert(buffer@ =~= old(buffer)@ + self.cell());
    }
}

impl ColumnEncoder for u8 {
    open spec fn cell(&self) -> Seq<u8> {
        cell_of(seq![*self])
    }

    open spec fn encodable(&self) -> bool {
        true
    }

    fn encode(&self, buffer: &mut Vec<u8>) {
        put_length(buffer, &BE_1_BYTES_LEN);
        buffer.push(*self);
        assert(buffer@ =~= old(buffer)@ + self.cell());
    }
}

/// The byte that a boolean is written as.
pub open spec fn bool_byte(b: bool) -> u8 {
    if b { 1 } else { 0 }
}

impl ColumnEncoder for bool {
    open spec fn cell(&self) -> Seq<u8> {
        cell_of(seq![bool_byte(*self)])
    }

    open spec fn encodable(&self) -> bool {
        true
    }

    fn encode(&self, buffer: &mut Vec<u8>) {
        put_length(buffer, &BE_1_BYTES_LEN);
        buffer.push(if *self { 1 } else { 0 });
        assert(buffer@ =~= old(buffer)@ + self.cell());
    }
}

impl ColumnEncoder for String {
    open spec fn cell(&self) -> Seq<u8> {
        cell_of(text_bytes(self@))
    }

    open spec fn encodable(&self) -> bool {
        text_bytes(self@).len() <= MAX_PAYLOAD
    }

    fn encode(&self, buffer: &mut Vec<u8>) {
        put_cell(buffer, self.as_str().as_bytes());
    }
}

impl ColumnEncoder for &str {
    open spec fn cell(&self) -> Seq<u8> {
        cell_of(text_bytes(self@))
    }

    open spec fn encodable(&self) -> bool {
        text_bytes(self@).len() <= MAX_PAYLOAD
    }

    fn encode(&self, buffer: &mut Vec<u8>) {
        put_cell(buffer, self.as_bytes());
    }
}

impl ColumnEncoder for &[u8] {
    open spec fn cell(&self) -> Seq<u8> {
        cell_of(self@)
    }

    open spec fn encodable(&self) -> bool {
        self@.len() <= MAX_PAYLOAD
    }

    fn encode(&self, buffer: &mut Vec<u8>) {
        put_cell(buffer, *self);
    }
}

impl ColumnEncoder for Null {
    open spec fn cell(&self) -> Seq<u8> {
        null_cell()
    }

    open spec fn encodable(&self) -> bool {
        true
    }

    fn encode(&self, buffer: &mut Vec<u8>) {
        put_length(buffer, &BE_NULL_BYTES_LEN);
        assert(buffer@ =~= old(buffer)@ + null_cell());
    }
}

impl ColumnEncoder for Unset {
    open spec fn cell(&self) -> Seq<u8> {
        unset_cell()
    }

    open spec fn encodable(&self) -> bool {
        true
    }

    fn encode(&self, buffer: &mut Vec<u8>) {
        put_length(buffer, &BE_UNSET_BYTES_LEN);
        assert(buffer@ =~= old(buffer)@ + unset_cell());
    }
}

} // verus!
