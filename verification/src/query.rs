//! The QUERY request: a statement, its consistency level, and the optional
//! sections that the query flags announce.

use vstd::prelude::*;
use crate::compression::Compression;
use crate::consistency::Consistency;
use crate::encoder::{cell_of, null_cell, text_bytes, unset_cell, ColumnEncoder, MAX_PAYLOAD};
use crate::encoder::{BE_0_BYTES_LEN, BE_8_BYTES_LEN, BE_NULL_BYTES_LEN, BE_UNSET_BYTES_LEN};
use crate::header::{Header, VERSION};
use crate::value::{cells, views, Value, ValueView};
use crate::wire::{be16, be32, be64, twos32, twos64};
use crate::wire::{i16_bits, i32_bits, i64_bits, put_u16, put_u32, put_u64};

verus! {

/// Query flag: bound values follow.
pub const VALUES: u8 = 0x01;

/// Query flag: the result carries no column metadata.
pub const SKIP_METADATA: u8 = 0x02;

/// Query flag: a page size follows.
pub const PAGE_SIZE: u8 = 0x04;

/// Query flag: a paging state follows.
pub const PAGING_STATE: u8 = 0x08;

/// Query flag: a serial consistency level follows.
pub const SERIAL_CONSISTENCY: u8 = 0x10;

/// Query flag: a default timestamp follows.
pub const TIMESTAMP: u8 = 0x20;

/// A QUERY request under construction: the bytes written so far.
pub struct Query(pub Vec<u8>);

/// What the optional sections of a request hold. Which of them are written is
/// decided by the query flags, not by this value.
pub struct QueryOptions {
    pub values: Vec<Value>,
    pub page_size: i32,
    pub paging_state: String,
    pub serial_consistency: Consistency,
    pub timestamp: i64,
}

/// Whether `flags` has the bit `bit` set.
pub open spec fn has(flags: u8, bit: u8) -> bool {
    flags & bit != 0
}

/// The values section: the number of values in two bytes, then their cells.
pub open spec fn values_section(values: Seq<ValueView>) -> Seq<u8> {
    be16(values.len() as u16) + cells(values)
}

/// The timestamp section: an eight-byte length marker, then the timestamp.
pub open spec fn timestamp_section(timestamp: i64) -> Seq<u8> {
    cell_of(be64(twos64(timestamp)))
}

/// `section` if `flags` has `bit` set, and nothing otherwise.
pub open spec fn when(flags: u8, bit: u8, section: Seq<u8>) -> Seq<u8> {
    if has(flags, bit) {
        section
    } else {
        Seq::empty()
    }
}

/// The flags byte, followed by exactly those sections whose bit is set in it,
/// in the order values, page size, paging state, serial consistency,
/// timestamp.
pub open spec fn options_bytes(flags: u8, options: QueryOptions) -> Seq<u8> {
    seq![flags]
        + when(flags, VALUES, values_section(views(options.values@)))
        + when(flags, PAGE_SIZE, be32(twos32(options.page_size)))
        + when(flags, PAGING_STATE, cell_of(text_bytes(options.paging_state@)))
        + when(flags, SERIAL_CONSISTENCY, be16(options.serial_consistency.spec_code()))
        + when(flags, TIMESTAMP, timestamp_section(options.timestamp))
}

/// Appending six parts one by one is appending their concatenation.
proof fn lemma_six_parts(
    s: Seq<u8>,
    a: Seq<u8>,
    b: Seq<u8>,
    c: Seq<u8>,
    d: Seq<u8>,
    e: Seq<u8>,
    f: Seq<u8>,
)
    ensures
        s + a + b + c + d + e + f == s + (a + b + c + d + e + f),
{
    assert(s + a + b + c + d + e + f =~= s + (a + b + c + d + e + f));
}

impl QueryOptions {
    /// Whether every section can be written: at most 65535 values, each of
    /// which fits a cell, and a paging state that fits a cell.
    pub open spec fn encodable(&self) -> bool {
        &&& self.values@.len() <= u16::MAX
        &&& forall|i: int| 0 <= i < self.values@.len() ==> (#[trigger] self.values@[i])@.fits()
        &&& text_bytes(self.paging_state@).len() <= MAX_PAYLOAD
    }

    /// Tells whether every section can be written.
    pub fn is_encodable(&self) -> (yes: bool)
        ensures
            yes == self.encodable(),
    {
        if self.values.len() > 0xffff || !crate::encoder::text_fits(self.paging_state.as_str()) {
            return false;
        }
        let mut i: usize = 0;
        while i < self.values.len()
            invariant
                i <= self.values@.len(),
                forall|k: int| 0 <= k < i ==> (#[trigger] self.values@[k])@.fits(),
            decreases self.values@.len() - i,
        {
            if !self.values[i].fits() {
                return false;
            }
            i += 1;
        }
        true
    }
}

impl View for Query {
    type V = Seq<u8>;

    open spec fn view(&self) -> Seq<u8> {
        self.0@
    }
}

impl Header for Query {
    open spec fn bytes(&self) -> Seq<u8> {
        self.0@
    }

    fn new() -> (request: Self) {
        Query(Vec::new())
    }

    fn with_capacity(capacity: usize) -> (request: Self) {
        Query(Vec::with_capacity(capacity))
    }

    fn version(self) -> (request: Self) {
        let mut query = self;
        query.0.push(VERSION);
        query
    }

    fn flags(self, flags: u8) -> (request: Self) {
        let mut query = self;
        query.0.push(flags);
        query
    }

    fn stream(self, stream: i16) -> (request: Self) {
        let mut query = self;
        put_u16(&mut query.0, i16_bits(stream));
        query
    }

    fn opcode(self, opcode: u8) -> (request: Self) {
        let mut query = self;
        query.0.push(opcode);
        query
    }

    fn length(self) -> (request: Self) {
        let mut query = self;
        let ghost before = query.0@;
        query.0.extend_from_slice(BE_0_BYTES_LEN.as_slice());
        assert(query.0@ =~= before + seq![0u8, 0u8, 0u8, 0u8]);
        query
    }
}

impl Query {
    /// Appends the statement: its length in four bytes, then its text.
    pub fn statement(self, statement: &str) -> (request: Self)
        requires
            text_bytes(statement@).len() <= MAX_PAYLOAD,
        ensures
            request@ == self@ + cell_of(text_bytes(statement@)),
    {
        let mut query = self;
        crate::encoder::put_cell(&mut query.0, statement.as_bytes());
        query
    }

    /// Appends the code of the consistency level.
    pub fn consistency(self, consistency: Consistency) -> (request: Self)
        ensures
            request@ == self@ + be16(consistency.spec_code()),
    {
        let mut query = self;
        put_u16(&mut query.0, consistency.code());
        query
    }

    /// Appends the query flags byte.
    pub fn query_flags(self, query_flags: u8) -> (request: Self)
        ensures
            request@ == self@.push(query_flags),
    {
        let mut query = self;
        query.0.push(query_flags);
        query
    }

    /// Appends the number of bound values that follow.
    pub fn value_count(self, value_count: u16) -> (request: Self)
        ensures
            request@ == self@ + be16(value_count),
    {
        let mut query = self;
        put_u16(&mut query.0, value_count);
        query
    }

    /// Appends the cell of one bound value.
    pub fn value<V: ColumnEncoder>(self, value: V) -> (request: Self)
        requires
            value.encodable(),
        ensures
            request@ == self@ + value.cell(),
    {
        let mut query = self;
        value.encode(&mut query.0);
        query
    }

    /// Appends the cell that leaves a bound column unset.
    pub fn unset_value(self) -> (request: Self)
        ensures
            request@ == self@ + unset_cell(),
    {
        let mut query = self;
        let ghost before = query.0@;
        query.0.extend_from_slice(BE_UNSET_BYTES_LEN.as_slice());
        assert(query.0@ =~= before + unset_cell());
        query
    }

    /// Appends the cell that binds NULL.
    pub fn null_value(self) -> (request: Self)
        ensures
            request@ == self@ + null_cell(),
    {
        let mut query = self;
        let ghost before = query.0@;
        query.0.extend_from_slice(BE_NULL_BYTES_LEN.as_slice());
        assert(query.0@ =~= before + null_cell());
        query
    }

    /// Appends the page size.
    pub fn page_size(self, page_size: i32) -> (request: Self)
        ensures
            request@ == self@ + be32(twos32(page_size)),
    {
        let mut query = self;
        put_u32(&mut query.0, i32_bits(page_size));
        query
    }

    /// Appends the paging state: its length in four bytes, then its bytes.
    pub fn paging_state(self, paging_state: String) -> (request: Self)
        requires
            text_bytes(paging_state@).len() <= MAX_PAYLOAD,
        ensures
            request@ == self@ + cell_of(text_bytes(paging_state@)),
    {
        let mut query = self;
        crate::encoder::put_cell(&mut query.0, paging_state.as_str().as_bytes());
        query
    }

    /// Appends the code of the serial consistency level.
    pub fn serial_consistency(self, consistency: Consistency) -> (request: Self)
        ensures
            request@ == self@ + be16(consistency.spec_code()),
    {
        let mut query = self;
        put_u16(&mut query.0, consistency.code());
        query
    }

    /// Appends the timestamp section.
    pub fn timestamp(self, timestamp: i64) -> (request: Self)
        ensures
            request@ == self@ + timestamp_section(timestamp),
    {
        let mut query = self;
        let ghost before = query.0@;
        query.0.extend_from_slice(BE_8_BYTES_LEN.as_slice());
        put_u64(&mut query.0, i64_bits(timestamp));
        assert(query.0@ =~= before + timestamp_section(timestamp));
        query
    }

    /// Appends the values section: the number of values, then the cell of
    /// each, in order.
    pub fn values(self, values: &Vec<Value>) -> (request: Self)
        requires
            values@.len() <= u16::MAX,
            forall|i: int| 0 <= i < values@.len() ==> (#[trigger] values@[i])@.fits(),
        ensures
            request@ == self@ + values_section(views(values@)),
    {
        let mut query = self;
        let ghost before = query.0@;
        let ghost all = views(values@);
        put_u16(&mut query.0, values.len() as u16);
        let mut i: usize = 0;
        while i < values.len()
            invariant
                i <= values@.len(),
                all == views(values@),
                forall|k: int| 0 <= k < values@.len() ==> (#[trigger] values@[k])@.fits(),
                query.0@ == before + be16(values@.len() as u16) + cells(all.take(i as int)),
            decreases values@.len() - i,
        {
            let ghost written = query.0@;
            values[i].encode(&mut query.0);
            proof {
                let next = all.take(i + 1);
                assert(next.drop_last() =~= all.take(i as int));
                assert(next.last() == values@[i as int]@);
                assert(query.0@ =~= before + be16(values@.len() as u16) + cells(next));
            }
            i += 1;
        }
        proof {
            assert(all.take(i as int) =~= all);
            assert(query.0@ =~= before + values_section(all));
        }
        query
    }

    /// Appends the values section if `query_flags` announces one.
    fn values_when(self, query_flags: u8, options: &QueryOptions) -> (request: Self)
        requires
            options.encodable(),
        ensures
            request@ == self@ + when(query_flags, VALUES, values_section(views(options.values@))),
    {
        if query_flags & VALUES != 0 {
            self.values(&options.values)
        } else {
            assert(self@ =~= self@ + Seq::<u8>::empty());
            self
        }
    }

    /// Appends the page size if `query_flags` announces one.
    fn page_size_when(self, query_flags: u8, options: &QueryOptions) -> (request: Self)
        ensures
            request@ == self@ + when(query_flags, PAGE_SIZE, be32(twos32(options.page_size))),
    {
        if query_flags & PAGE_SIZE != 0 {
            self.page_size(options.page_size)
        } else {
            assert(self@ =~= self@ + Seq::<u8>::empty());
            self
        }
    }

    /// Appends the paging state if `query_flags` announces one.
    fn paging_state_when(self, query_flags: u8, options: &QueryOptions) -> (request: Self)
        requires
            options.encodable(),
        ensures
            request@ == self@ + when(
                query_flags,
                PAGING_STATE,
                cell_of(text_bytes(options.paging_state@)),
            ),
    {
        if query_flags & PAGING_STATE != 0 {
            let mut query = self;
            crate::encoder::put_cell(&mut query.0, options.paging_state.as_str().as_bytes());
            query
        } else {
            assert(self@ =~= self@ + Seq::<u8>::empty());
            self
        }
    }

    /// Appends the serial consistency if `query_flags` announces one.
    fn serial_consistency_when(self, query_flags: u8, options: &QueryOptions) -> (request: Self)
        ensures
            request@ == self@ + when(
                query_flags,
                SERIAL_CONSISTENCY,
                be16(options.serial_consistency.spec_code()),
            ),
    {
        if query_flags & SERIAL_CONSISTENCY != 0 {
            self.serial_consistency(options.serial_consistency)
        } else {
            assert(self@ =~= self@ + Seq::<u8>::empty());
            self
        }
    }

    /// Appends the timestamp section if `query_flags` announces one.
    fn timestamp_when(self, query_flags: u8, options: &QueryOptions) -> (request: Self)
        ensures
            request@ == self@ + when(query_flags, TIMESTAMP, timestamp_section(options.timestamp)),
    {
        if query_flags & TIMESTAMP != 0 {
            self.timestamp(options.timestamp)
        } else {
            assert(self@ =~= self@ + Seq::<u8>::empty());
            self
        }
    }

    /// Appends the query flags byte and then exactly those optional sections
    /// whose bit is set in it, in the order values, page size, paging state,
    /// serial consistency, timestamp. A section whose bit is clear is left
    /// out, whatever `options` holds for it.
    pub fn options(self, query_flags: u8, options: &QueryOptions) -> (request: Self)
        requires
            options.encodable(),
        ensures
            request@ == self@ + options_bytes(query_flags, *options),
    {
        let ghost a = seq![query_flags];
        let ghost b = when(query_flags, VALUES, values_section(views(options.values@)));
        let ghost c = when(query_flags, PAGE_SIZE, be32(twos32(options.page_size)));
        let ghost d = when(query_flags, PAGING_STATE, cell_of(text_bytes(options.paging_state@)));
        let ghost e = when(
            query_flags,
            SERIAL_CONSISTENCY,
            be16(options.serial_consistency.spec_code()),
        );
        let ghost f = when(query_flags, TIMESTAMP, timestamp_section(options.timestamp));
        let query = self.query_flags(query_flags)
            .values_when(query_flags, options)
            .page_size_when(query_flags, options)
            .paging_state_when(query_flags, options)
            .serial_consistency_when(query_flags, options)
            .timestamp_when(query_flags, options);
        proof {
            lemma_six_parts(self@, a, b, c, d, e, f);
            assert(self@.push(query_flags) =~= self@ + a);
        }
        query
    }

    /// Finishes the request with the given compression strategy, which writes
    /// the body length into the header.
    pub fn build<C: Compression>(self, compression: C) -> (request: Self)
        requires
            self@.len() >= 9,
            self@.len() - 9 <= u32::MAX,
        ensures
            request@ == compression.compressed(self@),
            crate::compression::sealed(request@),
    {
        let mut query = self;
        compression.compress(&mut query.0);
        query
    }
}

} // verus!
