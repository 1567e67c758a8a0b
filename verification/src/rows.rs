//! Row extraction: a cursor walks the cells of a row section, reads each as
//! the kind that the row shape names for its column, and folds the value into
//! an aggregate of the caller's choosing.

use vstd::prelude::*;
use crate::decoder::{cell_at, read_cell, FrameError};
use crate::value::{cells, kind_accepts, spelled, views, ColumnKind, Value, ValueView};

verus! {

/// A container that decoded values are folded into. What it keeps of them is
/// its own business: one value, all of them, or each distinct one once.
pub trait Aggregate {
    /// What the aggregate holds, as a mathematical value.
    type Model;

    /// What the aggregate holds.
    spec fn model(&self) -> Self::Model;

    /// What an aggregate that holds `model` holds once `value`, read from
    /// column `column`, is folded in.
    spec fn folded(model: Self::Model, column: int, value: ValueView) -> Self::Model;

    /// Folds in `value`, read from column `column` of a row.
    fn fold(&mut self, column: usize, value: Value)
        ensures
            final(self).model() == Self::folded(old(self).model(), column as int, value@),
    ;
}

/// What the cell at `at` holds when read as `kind`, and where the next cell
/// starts.
pub open spec fn value_at(bytes: Seq<u8>, at: int, kind: ColumnKind) -> Result<
    (ValueView, int),
    FrameError,
> {
    match cell_at(bytes, at) {
        Err(e) => Err(e),
        Ok(None) => Ok((ValueView::Null, at + 4)),
        Ok(Some((start, length))) => if kind_accepts(kind, bytes.subrange(start, start + length)) {
            Ok((spelled(kind, bytes.subrange(start, start + length)), start + length))
        } else {
            Err(FrameError::SchemaMismatch)
        },
    }
}

/// The column that follows `column` in a row of `width` columns.
pub open spec fn next_column(column: int, width: int) -> int {
    if column + 1 >= width {
        0
    } else {
        column + 1
    }
}

/// What an aggregate that holds `model` holds after the cells of `bytes` from
/// `at` to the end have been folded in, the first of them read as column
/// `column` of `shape`; or the first failure on the way. An empty shape fits
/// no cell.
pub open spec fn extracted<A: Aggregate>(
    bytes: Seq<u8>,
    at: int,
    column: int,
    shape: Seq<ColumnKind>,
    model: A::Model,
) -> Result<A::Model, FrameError>
    decreases bytes.len() - at,
{
    if at >= bytes.len() {
        Ok(model)
    } else if shape.len() == 0 {
        Err(FrameError::SchemaMismatch)
    } else {
        match value_at(bytes, at, shape[column]) {
            Err(e) => Err(e),
            Ok((value, next)) => extracted::<A>(
                bytes,
                next,
                next_column(column, shape.len() as int),
                shape,
                A::folded(model, column, value),
            ),
        }
    }
}

/// What an aggregate that holds `model` holds once the cells of `bytes` from
/// `at` on have been folded in as far as they can be read: up to the end, or
/// up to the first cell that fails.
pub open spec fn reached<A: Aggregate>(
    bytes: Seq<u8>,
    at: int,
    column: int,
    shape: Seq<ColumnKind>,
    model: A::Model,
) -> A::Model
    decreases bytes.len() - at,
{
    if at >= bytes.len() || shape.len() == 0 {
        model
    } else {
        match value_at(bytes, at, shape[column]) {
            Err(_) => model,
            Ok((value, next)) => reached::<A>(
                bytes,
                next,
                next_column(column, shape.len() as int),
                shape,
                A::folded(model, column, value),
            ),
        }
    }
}

/// Where every cell can be read, what has been reached is what has been
/// extracted.
pub proof fn lemma_reached_all<A: Aggregate>(
    bytes: Seq<u8>,
    at: int,
    column: int,
    shape: Seq<ColumnKind>,
    model: A::Model,
)
    requires
        extracted::<A>(bytes, at, column, shape, model) is Ok,
    ensures
        extracted::<A>(bytes, at, column, shape, model)->Ok_0 == reached::<A>(
            bytes,
            at,
            column,
            shape,
            model,
        ),
    decreases bytes.len() - at,
{
    if at < bytes.len() && shape.len() > 0 {
        let (value, next) = value_at(bytes, at, shape[column])->Ok_0;
        lemma_reached_all::<A>(
            bytes,
            next,
            next_column(column, shape.len() as int),
            shape,
            A::folded(model, column, value),
        );
    }
}

/// A cell that can be read ends after it starts.
pub proof fn lemma_value_at_advances(bytes: Seq<u8>, at: int, kind: ColumnKind)
    requires
        value_at(bytes, at, kind) is Ok,
    ensures
        at + 4 <= value_at(bytes, at, kind)->Ok_0.1 <= bytes.len(),
{
}

/// Walks the cells of `body` from `start` to its end and folds each into
/// `aggregate`. The cell in column k of a row is read as the kind `shape[k]`;
/// after the last column of `shape` the next row begins. Stops at the first
/// cell that cannot be read: `TruncatedFrame` when it runs past the end of
/// `body`, `SchemaMismatch` when it does not spell a value of its kind. After
/// a failure `aggregate` holds what had been folded in until then.
pub fn extract<A: Aggregate>(
    body: &[u8],
    start: usize,
    shape: &Vec<ColumnKind>,
    aggregate: &mut A,
) -> (outcome: Result<(), FrameError>)
    ensures
        match extracted::<A>(body@, start as int, 0, shape@, old(aggregate).model()) {
            Ok(model) => outcome is Ok && final(aggregate).model() == model,
            Err(e) => outcome == Err::<(), FrameError>(e),
        },
        final(aggregate).model() == reached::<A>(
            body@,
            start as int,
            0,
            shape@,
            old(aggregate).model(),
        ),
{
    let ghost goal = extracted::<A>(body@, start as int, 0, shape@, aggregate.model());
    let ghost end = reached::<A>(body@, start as int, 0, shape@, aggregate.model());
    let mut at: usize = start;
    let mut column: usize = 0;
    while at < body.len()
        invariant
            column == 0 || column < shape@.len(),
            goal == extracted::<A>(body@, start as int, 0, shape@, old(aggregate).model()),
            end == reached::<A>(body@, start as int, 0, shape@, old(aggregate).model()),
            end == reached::<A>(body@, at as int, column as int, shape@, aggregate.model()),
            goal == extracted::<A>(body@, at as int, column as int, shape@, aggregate.model()),
        decreases body@.len() - at,
    {
        if shape.len() == 0 {
            return Err(FrameError::SchemaMismatch);
        }
        let kind = shape[column];
        let (value, next) = match read_cell(body, at) {
            Err(e) => {
                return Err(e);
            },
            Ok(None) => (Value::Null, at + 4),
            Ok(Some((from, length))) => match Value::decode(kind, body, from, length) {
                Err(e) => {
                    return Err(e);
                },
                Ok(value) => (value, from + length),
            },
        };
        aggregate.fold(column, value);
        at = next;
        column = if column + 1 >= shape.len() {
            0
        } else {
            column + 1
        };
    }
    Ok(())
}

/// The aggregate that keeps every value, in the order in which the cells
/// stand in the row section.
pub struct List {
    pub values: Vec<Value>,
}

impl List {
    /// A list that holds nothing yet.
    pub fn new() -> (list: List)
        ensures
            list.model() == Seq::<ValueView>::empty(),
    {
        let list = List { values: Vec::new() };
        assert(list.model() =~= Seq::<ValueView>::empty());
        list
    }

    /// The number of values in the list.
    pub fn len(&self) -> (length: usize)
        ensures
            length == self.model().len(),
    {
        self.values.len()
    }
}

impl Aggregate for List {
    type Model = Seq<ValueView>;

    open spec fn model(&self) -> Seq<ValueView> {
        views(self.values@)
    }

    open spec fn folded(model: Seq<ValueView>, column: int, value: ValueView) -> Seq<ValueView> {
        model.push(value)
    }

    fn fold(&mut self, column: usize, value: Value) {
        self.values.push(value);
        assert(self.model() =~= old(self).model().push(value@));
    }
}

/// An aggregate paired with the shape of the rows that are folded into it.
pub struct Rows<A: Aggregate> {
    pub aggregate: A,
    pub shape: Vec<ColumnKind>,
}

impl<A: Aggregate> Rows<A> {
    /// Pairs `aggregate` with the row shape `shape`.
    pub fn new(aggregate: A, shape: Vec<ColumnKind>) -> (rows: Self)
        ensures
            rows.aggregate == aggregate,
            rows.shape == shape,
    {
        Rows { aggregate, shape }
    }

    /// Folds the cells of `body` from `start` on into the aggregate, as
    /// `extract` does.
    pub fn decode(self, body: &[u8], start: usize) -> (outcome: Result<Self, FrameError>)
        ensures
            match extracted::<A>(body@, start as int, 0, self.shape@, self.aggregate.model()) {
                Ok(model) => outcome is Ok && outcome->Ok_0.aggregate.model() == model
                    && outcome->Ok_0.shape == self.shape,
                Err(e) => outcome is Err && outcome->Err_0 == e,
            },
    {
        let mut rows = self;
        match extract(body, start, &rows.shape, &mut rows.aggregate) {
            Ok(()) => Ok(rows),
            Err(e) => Err(e),
        }
    }

    /// Hands out the aggregate.
    pub fn finalize(self) -> (aggregate: A)
        ensures
            aggregate == self.aggregate,
    {
        self.aggregate
    }
}

/// Whether the values, the first of them standing in column `column`, are of
/// the kinds that `shape` names for their columns, and fit their cells.
spec fn in_shape(values: Seq<ValueView>, shape: Seq<ColumnKind>, column: int) -> bool
    decreases values.len(),
{
    values.len() == 0 || (values.first().is_of(shape[column]) && values.first().fits() && in_shape(
        values.drop_first(),
        shape,
        next_column(column, shape.len() as int),
    ))
}

/// The cell of a value is read back as that value, whatever stands before
/// and after it, and the next cell starts where it ends.
#[verifier::rlimit(50)]
pub proof fn lemma_value_at_written(
    before: Seq<u8>,
    value: ValueView,
    kind: ColumnKind,
    after: Seq<u8>,
)
    requires
        value.is_of(kind),
        value.fits(),
    ensures
        value_at(before + value.cell() + after, before.len() as int, kind) == Ok::<
            (ValueView, int),
            FrameError,
        >((value, (before.len() + value.cell().len()) as int)),
        value.cell().len() >= 4,
{
    let bytes = before + value.cell() + after;
    let at = before.len() as int;
    match value.payload() {
        None => {
            crate::decoder::lemma_sentinel_round_trip(before, after);
            assert(value == ValueView::Null);
        },
        Some(payload) => {
            crate::decoder::lemma_cell_round_trip(before, payload, after);
            crate::value::lemma_value_round_trip(value, kind);
            assert(bytes.subrange(at + 4, at + 4 + payload.len()) =~= payload);
        },
    }
}

/// What an aggregate that holds `model` holds once `values` have been
/// folded in, one after the other, the first of them as column `column` of
/// rows that are `width` columns wide.
pub open spec fn folded_all<A: Aggregate>(
    model: A::Model,
    values: Seq<ValueView>,
    column: int,
    width: int,
) -> A::Model
    decreases values.len(),
{
    if values.len() == 0 {
        model
    } else {
        folded_all::<A>(
            A::folded(model, column, values.first()),
            values.drop_first(),
            next_column(column, width),
            width,
        )
    }
}

/// Extraction over the cells of values that are in shape folds in exactly
/// those values, in their order.
#[verifier::rlimit(50)]
proof fn lemma_extract_in_shape<A: Aggregate>(
    before: Seq<u8>,
    values: Seq<ValueView>,
    shape: Seq<ColumnKind>,
    column: int,
    held: A::Model,
)
    requires
        0 <= column < shape.len(),
        in_shape(values, shape, column),
    ensures
        extracted::<A>(before + cells(values), before.len() as int, column, shape, held) == Ok::<
            A::Model,
            FrameError,
        >(folded_all::<A>(held, values, column, shape.len() as int)),
    decreases values.len(),
{
    let bytes = before + cells(values);
    let at = before.len() as int;
    if values.len() == 0 {
        assert(cells(values) =~= Seq::<u8>::empty());
    } else {
        let value = values.first();
        let rest = values.drop_first();
        let kind = shape[column];
        let next_before = before + value.cell();
        let next = next_column(column, shape.len() as int);
        assert(bytes == next_before + cells(rest)) by {
            crate::value::lemma_cells_first(values);
            assert(before + (value.cell() + cells(rest)) =~= before + value.cell() + cells(rest));
        }
        assert(value_at(bytes, at, kind) == Ok::<(ValueView, int), FrameError>(
            (value, next_before.len() as int),
        ) && at < bytes.len()) by {
            lemma_value_at_written(before, value, kind, cells(rest));
        }
        lemma_extract_in_shape::<A>(next_before, rest, shape, next, A::folded(held, column, value));
        assert(extracted::<A>(bytes, at, column, shape, held) == extracted::<A>(
            bytes,
            next_before.len() as int,
            next,
            shape,
            A::folded(held, column, value),
        ));
    }
}

/// Values of which the one at index i is of the kind `shape[i % shape.len()]`
/// are in shape from any index on.
proof fn lemma_in_shape(values: Seq<ValueView>, shape: Seq<ColumnKind>, from: int)
    requires
        shape.len() > 0,
        0 <= from <= values.len(),
        forall|i: int|
            0 <= i < values.len() ==> (#[trigger] values[i]).is_of(shape[i % (shape.len() as int)])
                && values[i].fits(),
    ensures
        in_shape(values.subrange(from, values.len() as int), shape, from % (shape.len() as int)),
    decreases values.len() - from,
{
    let width = shape.len() as int;
    let tail = values.subrange(from, values.len() as int);
    if from < values.len() {
        lemma_in_shape(values, shape, from + 1);
        assert(tail.drop_first() =~= values.subrange(from + 1, values.len() as int));
        assert(tail.first() == values[from]);
        assert((from + 1) % width == next_column(from % width, width)) by (nonlinear_arith)
            requires
                width > 0,
                from >= 0,
        ;
    }
}

/// Extraction over a row section that consists of the cells of N values
/// folds exactly those N values into the aggregate, in their order and each
/// with its column, whatever the aggregate is: where the value at index i is
/// of the kind that the shape names for column i modulo the width of the
/// shape, and fits its cell.
pub proof fn lemma_extraction<A: Aggregate>(
    before: Seq<u8>,
    values: Seq<ValueView>,
    shape: Seq<ColumnKind>,
    held: A::Model,
)
    requires
        shape.len() > 0,
        forall|i: int|
            0 <= i < values.len() ==> (#[trigger] values[i]).is_of(shape[i % (shape.len() as int)])
                && values[i].fits(),
    ensures
        extracted::<A>(before + cells(values), before.len() as int, 0, shape, held) == Ok::<
            A::Model,
            FrameError,
        >(folded_all::<A>(held, values, 0, shape.len() as int)),
{
    lemma_in_shape(values, shape, 0);
    assert(values.subrange(0, values.len() as int) =~= values);
    lemma_extract_in_shape::<A>(before, values, shape, 0, held);
}

/// Folding values into a list appends them, in their order.
pub proof fn lemma_folded_list(held: Seq<ValueView>, values: Seq<ValueView>, column: int, width: int)
    ensures
        folded_all::<List>(held, values, column, width) == held + values,
    decreases values.len(),
{
    if values.len() == 0 {
        assert(held + values =~= held);
    } else {
        lemma_folded_list(
            held.push(values.first()),
            values.drop_first(),
            next_column(column, width),
            width,
        );
        assert(held.push(values.first()) + values.drop_first() =~= held + values);
    }
}

/// Extraction over a row section that consists of the cells of N values, into
/// a list, appends exactly those N values to the list, in their order: where
/// the value at index i is of the kind that the shape names for column
/// i modulo the width of the shape, and fits its cell.
pub proof fn lemma_list_extraction(
    before: Seq<u8>,
    values: Seq<ValueView>,
    shape: Seq<ColumnKind>,
    held: Seq<ValueView>,
)
    requires
        shape.len() > 0,
        forall|i: int|
            0 <= i < values.len() ==> (#[trigger] values[i]).is_of(shape[i % (shape.len() as int)])
                && values[i].fits(),
    ensures
        extracted::<List>(before + cells(values), before.len() as int, 0, shape, held) == Ok::<
            Seq<ValueView>,
            FrameError,
        >(held + values),
        (held + values).len() == held.len() + values.len(),
{
    lemma_extraction::<List>(before, values, shape, held);
    lemma_folded_list(held, values, 0, shape.len() as int);
}

} // verus!
