//! Looking up the transactions that approve a given one: the request, and
//! the set of hashes that its result rows hold.

use vstd::prelude::*;
use vstd::hash_set::StringHashSet;
use crate::compression::UNCOMPRESSED;
use crate::consistency::Consistency;
use crate::decoder::{request_frame, FrameError};
use crate::encoder::{cell_of, lemma_text_bytes_bound, text_bytes, MAX_PAYLOAD};
use crate::header::{Header, IGNORE, VERSION};
use crate::opcode::QUERY;
use crate::query::{Query, SKIP_METADATA, VALUES};
use crate::rows::{extract, extracted, folded_all, Aggregate};
use crate::statements::SELECT_APPROVEES_QUERY;
use crate::value::{cells, ColumnKind, Value, ValueView};
use crate::wire::{be16, twos16};

verus! {

/// The body of the request that looks up the approvers of `approve`: the
/// statement at consistency ONE, without result metadata, and `approve` as
/// its one bound value.
pub open spec fn approvees_body(approve: Seq<char>) -> Seq<u8> {
    cell_of(text_bytes(SELECT_APPROVEES_QUERY@)) + be16(Consistency::One.spec_code()) + seq![
        SKIP_METADATA | VALUES,
    ] + be16(1) + cell_of(text_bytes(approve))
}

/// Builds the request frame that looks up, in the edge table, the hashes of
/// the transactions that approve `approve`: a QUERY on stream 0 with no
/// header flag set.
pub fn query(approve: String) -> (payload: Vec<u8>)
    requires
        text_bytes(approve@).len() <= MAX_PAYLOAD,
    ensures
        payload@ == request_frame(IGNORE, 0, QUERY, approvees_body(approve@)),
{
    proof {
        reveal_strlit("SELECT tx FROM tangle.edge WHERE vertex = ? AND kind in ['trunk','branch']");
        lemma_text_bytes_bound(SELECT_APPROVEES_QUERY@);
    }
    let built = Query::new().version().flags(IGNORE).stream(0).opcode(QUERY).length().statement(
        SELECT_APPROVEES_QUERY,
    ).consistency(Consistency::One).query_flags(SKIP_METADATA | VALUES).value_count(1).value(
        approve,
    );
    proof {
        assert(built@ =~= seq![VERSION, IGNORE] + be16(twos16(0)) + seq![QUERY] + seq![
            0u8,
            0u8,
            0u8,
            0u8,
        ] + approvees_body(approve@));
    }
    let Query(payload) = built.build(UNCOMPRESSED);
    payload
}

/// The hashes that the result rows hold, each of them once.
pub struct Hashes {
    hashes: StringHashSet,
}

impl View for Hashes {
    type V = Set<Seq<char>>;

    closed spec fn view(&self) -> Set<Seq<char>> {
        self.hashes@
    }
}

impl Aggregate for Hashes {
    type Model = Set<Seq<char>>;

    open spec fn model(&self) -> Set<Seq<char>> {
        self@
    }

    /// A text joins the set; a value of any other kind, NULL among them,
    /// leaves it as it is.
    open spec fn folded(model: Set<Seq<char>>, column: int, value: ValueView) -> Set<Seq<char>> {
        match value {
            ValueView::Text(hash) => model.insert(hash),
            _ => model,
        }
    }

    fn fold(&mut self, column: usize, value: Value) {
        match value {
            Value::Text(hash) => {
                self.hashes.insert(hash);
            },
            _ => {},
        }
    }
}

impl Hashes {
    /// The empty set of hashes.
    pub fn new() -> (hashes: Hashes)
        ensures
            hashes@ == Set::<Seq<char>>::empty(),
    {
        Hashes { hashes: StringHashSet::new() }
    }

    /// The shape of a result row: the hash of one approving transaction.
    pub fn shape() -> (shape: Vec<ColumnKind>)
        ensures
            shape@ == seq![ColumnKind::Text],
    {
        let mut shape: Vec<ColumnKind> = Vec::new();
        shape.push(ColumnKind::Text);
        assert(shape@ =~= seq![ColumnKind::Text]);
        shape
    }

    /// Folds the hashes that the cells of `body` from `start` on hold into
    /// the set.
    pub fn decode(self, body: &[u8], start: usize) -> (outcome: Result<Hashes, FrameError>)
        ensures
            match extracted::<Hashes>(body@, start as int, 0, seq![ColumnKind::Text], self@) {
                Ok(model) => outcome is Ok && outcome->Ok_0@ == model,
                Err(e) => outcome is Err && outcome->Err_0 == e,
            },
    {
        let mut hashes = self;
        let shape = Hashes::shape();
        match extract(body, start, &shape, &mut hashes) {
            Ok(()) => Ok(hashes),
            Err(e) => Err(e),
        }
    }

    /// The number of distinct hashes.
    pub fn len(&self) -> (count: usize)
        ensures
            count == self@.len(),
    {
        self.hashes.len()
    }

    /// Whether `hash` is one of the hashes.
    pub fn contains(&self, hash: &str) -> (yes: bool)
        ensures
            yes == self@.contains(hash@),
    {
        self.hashes.contains(hash)
    }

    /// Hands out the set of hashes.
    pub fn finalize(self) -> (hashes: StringHashSet)
        ensures
            hashes@ == self@,
    {
        self.hashes
    }
}

/// Two cells with the same text leave one hash: extraction over them, into
/// an empty set, gives the set of that one text.
pub proof fn lemma_same_hash_once(hash: Seq<char>)
    requires
        text_bytes(hash).len() <= MAX_PAYLOAD,
    ensures
        extracted::<Hashes>(
            cells(seq![ValueView::Text(hash), ValueView::Text(hash)]),
            0,
            0,
            seq![ColumnKind::Text],
            Set::<Seq<char>>::empty(),
        ) == Ok::<Set<Seq<char>>, FrameError>(set![hash]),
        set![hash].len() == 1,
{
    let values = seq![ValueView::Text(hash), ValueView::Text(hash)];
    let shape = seq![ColumnKind::Text];
    let none = Set::<Seq<char>>::empty();
    crate::rows::lemma_extraction::<Hashes>(Seq::<u8>::empty(), values, shape, none);
    assert(Seq::<u8>::empty() + cells(values) =~= cells(values));
    let once = values.drop_first();
    assert(once.drop_first().len() == 0);
    assert(folded_all::<Hashes>(none.insert(hash).insert(hash), once.drop_first(), 0, 1)
        == none.insert(hash).insert(hash));
    assert(folded_all::<Hashes>(none.insert(hash), once, 0, 1) == none.insert(hash).insert(hash));
    assert(folded_all::<Hashes>(none, values, 0, 1) == none.insert(hash).insert(hash));
    assert(none.insert(hash).insert(hash) =~= set![hash]);
    assert(set![hash] =~= none.insert(hash));
}

} // verus!
