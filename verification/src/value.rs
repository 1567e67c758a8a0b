//! Column values of any supported kind, for bound-value lists and for rows
//! whose shape is only known at run time.

use vstd::prelude::*;
use crate::encoder::{bool_byte, cell_of, null_cell, text_bytes, unset_cell};
use crate::encoder::{ColumnEncoder, Null, Unset, MAX_PAYLOAD};
use crate::column::ColumnDecoder;
use crate::decoder::FrameError;
use crate::inet::IpAddr;
use crate::wire::{be16, be32, be64, twos8, twos16, twos32, twos64};
use crate::wire::{from_be16, from_be32, from_be64, signed8, signed16, signed32, signed64};

verus! {

/// The kinds of column that a row shape can name.
#[derive(Clone, Copy, Debug, PartialEq, Eq, Structural)]
pub enum ColumnKind {
    TinyInt,
    SmallInt,
    Int,
    BigInt,
    Boolean,
    Text,
    Blob,
    Inet,
}

/// A column value.
#[derive(Debug)]
pub enum Value {
    Null,
    Unset,
    TinyInt(i8),
    SmallInt(i16),
    Int(i32),
    BigInt(i64),
    Boolean(bool),
    Text(String),
    Blob(Vec<u8>),
    Inet(IpAddr),
}

/// What a column value is, apart from how it is held in memory.
pub enum ValueView {
    Null,
    Unset,
    TinyInt(i8),
    SmallInt(i16),
    Int(i32),
    BigInt(i64),
    Boolean(bool),
    Text(Seq<char>),
    Blob(Seq<u8>),
    Inet(Seq<u8>),
}

impl View for Value {
    type V = ValueView;

    open spec fn view(&self) -> ValueView {
        match self {
            Value::Null => ValueView::Null,
            Value::Unset => ValueView::Unset,
            Value::TinyInt(x) => ValueView::TinyInt(*x),
            Value::SmallInt(x) => ValueView::SmallInt(*x),
            Value::Int(x) => ValueView::Int(*x),
            Value::BigInt(x) => ValueView::BigInt(*x),
            Value::Boolean(x) => ValueView::Boolean(*x),
            Value::Text(x) => ValueView::Text(x@),
            Value::Blob(x) => ValueView::Blob(x@),
            Value::Inet(x) => ValueView::Inet(x.spec_octets()),
        }
    }
}

impl ValueView {
    /// The payload that the value is written as; NULL and UNSET have none.
    pub open spec fn payload(self) -> Option<Seq<u8>> {
        match self {
            ValueView::Null => None,
            ValueView::Unset => None,
            ValueView::TinyInt(x) => Some(seq![twos8(x)]),
            ValueView::SmallInt(x) => Some(be16(twos16(x))),
            ValueView::Int(x) => Some(be32(twos32(x))),
            ValueView::BigInt(x) => Some(be64(twos64(x))),
            ValueView::Boolean(x) => Some(seq![bool_byte(x)]),
            ValueView::Text(x) => Some(text_bytes(x)),
            ValueView::Blob(x) => Some(x),
            ValueView::Inet(x) => Some(x),
        }
    }

    /// The cell that the value is written as.
    pub open spec fn cell(self) -> Seq<u8> {
        match self {
            ValueView::Null => null_cell(),
            ValueView::Unset => unset_cell(),
            _ => cell_of(self.payload()->0),
        }
    }

    /// Whether the value is of the kind `kind`. NULL is of every kind and
    /// UNSET of none: it does not occur in a row.
    pub open spec fn is_of(self, kind: ColumnKind) -> bool {
        match self {
            ValueView::Null => true,
            ValueView::Unset => false,
            ValueView::TinyInt(_) => kind == ColumnKind::TinyInt,
            ValueView::SmallInt(_) => kind == ColumnKind::SmallInt,
            ValueView::Int(_) => kind == ColumnKind::Int,
            ValueView::BigInt(_) => kind == ColumnKind::BigInt,
            ValueView::Boolean(_) => kind == ColumnKind::Boolean,
            ValueView::Text(_) => kind == ColumnKind::Text,
            ValueView::Blob(_) => kind == ColumnKind::Blob,
            ValueView::Inet(x) => kind == ColumnKind::Inet && (x.len() == 4 || x.len() == 16),
        }
    }

    /// Whether the payload fits a cell.
    pub open spec fn fits(self) -> bool {
        match self.payload() {
            None => true,
            Some(payload) => payload.len() <= MAX_PAYLOAD,
        }
    }
}

/// The views of a list of values.
pub open spec fn views(values: Seq<Value>) -> Seq<ValueView> {
    values.map_values(|v: Value| v@)
}

/// The cells of `values`, one after the other.
pub open spec fn cells(values: Seq<ValueView>) -> Seq<u8>
    decreases values.len(),
{
    if values.len() == 0 {
        Seq::empty()
    } else {
        cells(values.drop_last()) + values.last().cell()
    }
}

/// The cells of a list start with the cell of its first value.
pub proof fn lemma_cells_first(values: Seq<ValueView>)
    requires
        values.len() > 0,
    ensures
        cells(values) == values.first().cell() + cells(values.drop_first()),
    decreases values.len(),
{
    let front = values.drop_last();
    let rest = values.drop_first();
    if values.len() == 1 {
        assert(cells(front) =~= Seq::<u8>::empty());
        assert(cells(rest) =~= Seq::<u8>::empty());
        assert(cells(values) =~= values.first().cell() + cells(rest));
    } else {
        lemma_cells_first(front);
        assert(front.drop_first() =~= rest.drop_last());
        assert(front.first() == values.first());
        assert(rest.last() == values.last());
        assert(cells(values) =~= values.first().cell() + cells(rest));
    }
}

impl ColumnEncoder for Value {
    open spec fn cell(&self) -> Seq<u8> {
        self@.cell()
    }

    open spec fn encodable(&self) -> bool {
        self@.fits()
    }

    fn encode(&self, buffer: &mut Vec<u8>) {
        match self {
            Value::Null => Null.encode(buffer),
            Value::Unset => Unset.encode(buffer),
            Value::TinyInt(x) => x.encode(buffer),
            Value::SmallInt(x) => x.encode(buffer),
            Value::Int(x) => x.encode(buffer),
            Value::BigInt(x) => x.encode(buffer),
            Value::Boolean(x) => x.encode(buffer),
            Value::Text(x) => x.encode(buffer),
            Value::Blob(x) => x.as_slice().encode(buffer),
            Value::Inet(x) => x.encode(buffer),
        }
    }
}

/// Whether `payload` spells a value of the kind `kind`: the integers have
/// their width, a boolean is one byte that is 0 or 1, a text is well-formed
/// UTF-8, an address has four or sixteen octets, and a blob is any bytes.
pub open spec fn kind_accepts(kind: ColumnKind, payload: Seq<u8>) -> bool {
    match kind {
        ColumnKind::TinyInt => payload.len() == 1,
        ColumnKind::SmallInt => payload.len() == 2,
        ColumnKind::Int => payload.len() == 4,
        ColumnKind::BigInt => payload.len() == 8,
        ColumnKind::Boolean => payload.len() == 1 && payload[0] <= 1,
        ColumnKind::Text => vstd::utf8::valid_utf8(payload),
        ColumnKind::Blob => true,
        ColumnKind::Inet => payload.len() == 4 || payload.len() == 16,
    }
}

/// The value of kind `kind` that `payload` spells.
pub open spec fn spelled(kind: ColumnKind, payload: Seq<u8>) -> ValueView {
    match kind {
        ColumnKind::TinyInt => ValueView::TinyInt(signed8(payload[0])),
        ColumnKind::SmallInt => ValueView::SmallInt(signed16(from_be16(payload))),
        ColumnKind::Int => ValueView::Int(signed32(from_be32(payload))),
        ColumnKind::BigInt => ValueView::BigInt(signed64(from_be64(payload))),
        ColumnKind::Boolean => ValueView::Boolean(payload[0] == 1),
        ColumnKind::Text => ValueView::Text(vstd::utf8::decode_utf8(payload)),
        ColumnKind::Blob => ValueView::Blob(payload),
        ColumnKind::Inet => ValueView::Inet(payload),
    }
}

/// A payload that spells a value of a kind is the payload of that value, and
/// the value is of the kind.
pub proof fn lemma_spelled(kind: ColumnKind, payload: Seq<u8>)
    requires
        kind_accepts(kind, payload),
    ensures
        spelled(kind, payload).is_of(kind),
        spelled(kind, payload).payload() == Some(payload),
{
    broadcast use vstd::utf8::decode_utf8_encode_utf8;

    match kind {
        ColumnKind::TinyInt => {
            crate::wire::lemma_signed_round_trip(payload[0], 0, 0, 0);
            assert(seq![payload[0]] =~= payload);
        },
        ColumnKind::SmallInt => {
            crate::wire::lemma_be16_unique(payload);
            crate::wire::lemma_signed_round_trip(0, from_be16(payload), 0, 0);
        },
        ColumnKind::Int => {
            crate::wire::lemma_be32_unique(payload);
            crate::wire::lemma_signed_round_trip(0, 0, from_be32(payload), 0);
        },
        ColumnKind::BigInt => {
            crate::wire::lemma_be64_unique(payload);
            crate::wire::lemma_signed_round_trip(0, 0, 0, from_be64(payload));
        },
        ColumnKind::Boolean => {
            assert(seq![bool_byte(payload[0] == 1)] =~= payload);
        },
        ColumnKind::Text => {},
        ColumnKind::Blob => {},
        ColumnKind::Inet => {},
    }
}

/// Reading the payload of a value's cell as the kind of the value gives the
/// value back.
pub proof fn lemma_value_round_trip(value: ValueView, kind: ColumnKind)
    requires
        value.is_of(kind),
        value.payload() is Some,
    ensures
        kind_accepts(kind, value.payload()->0),
        spelled(kind, value.payload()->0) == value,
{
    match value {
        ValueView::TinyInt(x) => {
            crate::wire::lemma_twos_round_trip(x, 0, 0, 0);
        },
        ValueView::SmallInt(x) => {
            crate::wire::lemma_be_round_trip(twos16(x), 0, 0);
            crate::wire::lemma_twos_round_trip(0, x, 0, 0);
        },
        ValueView::Int(x) => {
            crate::wire::lemma_be_round_trip(0, twos32(x), 0);
            crate::wire::lemma_twos_round_trip(0, 0, x, 0);
        },
        ValueView::BigInt(x) => {
            crate::wire::lemma_be_round_trip(0, 0, twos64(x));
            crate::wire::lemma_twos_round_trip(0, 0, 0, x);
        },
        ValueView::Text(x) => {
            vstd::utf8::encode_utf8_valid_utf8(x);
            vstd::utf8::encode_utf8_decode_utf8(x);
        },
        _ => {},
    }
}

impl Value {
    /// Tells whether the value fits a cell.
    pub fn fits(&self) -> (fits: bool)
        ensures
            fits == self@.fits(),
    {
        match self {
            Value::Text(text) => crate::encoder::text_fits(text.as_str()),
            Value::Blob(bytes) => bytes.len() <= MAX_PAYLOAD,
            Value::Inet(address) => {
                match address {
                    IpAddr::V4(_) => true,
                    IpAddr::V6(_) => true,
                }
            },
            _ => true,
        }
    }

    /// Reads the value of kind `kind` that the `length` bytes of `buffer`
    /// from `start` on spell. Fails with `TruncatedFrame` when those bytes
    /// are not all there and with `SchemaMismatch` when they spell no value
    /// of the kind; otherwise gives the value of that kind that they spell.
    pub fn decode(kind: ColumnKind, buffer: &[u8], start: usize, length: usize) -> (value: Result<
        Value,
        FrameError,
    >)
        ensures
            start + length > buffer@.len() ==> value is Err && value->Err_0
                == FrameError::TruncatedFrame,
            start + length <= buffer@.len() && !kind_accepts(
                kind,
                buffer@.subrange(start as int, start + length),
            ) ==> value is Err && value->Err_0 == FrameError::SchemaMismatch,
            start + length <= buffer@.len() && kind_accepts(
                kind,
                buffer@.subrange(start as int, start + length),
            ) ==> value is Ok && value->Ok_0@ == spelled(
                kind,
                buffer@.subrange(start as int, start + length),
            ),
    {
        let ghost bytes = buffer@.subrange(start as int, start + length);
        match kind {
            ColumnKind::TinyInt => match i8::decode(buffer, start, length) {
                Err(e) => Err(e),
                Ok(x) => Ok(Value::TinyInt(x)),
            },
            ColumnKind::SmallInt => match i16::decode(buffer, start, length) {
                Err(e) => Err(e),
                Ok(x) => Ok(Value::SmallInt(x)),
            },
            ColumnKind::Int => match i32::decode(buffer, start, length) {
                Err(e) => Err(e),
                Ok(x) => Ok(Value::Int(x)),
            },
            ColumnKind::BigInt => match i64::decode(buffer, start, length) {
                Err(e) => Err(e),
                Ok(x) => Ok(Value::BigInt(x)),
            },
            ColumnKind::Boolean => match bool::decode(buffer, start, length) {
                Err(e) => Err(e),
                Ok(x) => Ok(Value::Boolean(x)),
            },
            ColumnKind::Text => match String::decode(buffer, start, length) {
                Err(e) => Err(e),
                Ok(x) => {
                    proof {
                        vstd::utf8::encode_utf8_decode_utf8(x@);
                    }
                    Ok(Value::Text(x))
                },
            },
            ColumnKind::Blob => match Vec::<u8>::decode(buffer, start, length) {
                Err(e) => Err(e),
                Ok(x) => Ok(Value::Blob(x)),
            },
            ColumnKind::Inet => match IpAddr::decode(buffer, start, length) {
                Err(e) => Err(e),
                Ok(x) => Ok(Value::Inet(x)),
            },
        }
    }
}

} // verus!
