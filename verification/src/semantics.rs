//! What the kernels compute: the meaning of a [`Dispatch`] as a change of
//! device memory.
//!
//! Device memory is modelled as a map from buffer names to their elements.
//! Copying and transposing move elements and are described exactly. The
//! arithmetic is described for the numbers that the elements stand for, as
//! that of the integers: it holds of integer element types as long as nothing
//! overflows. What the kernels of the derivatives and of the mean squared
//! error compute is not fixed here; nor is what a transpose or a matrix
//! product leaves behind when it writes a buffer that it reads, since its
//! work items then read what others write.

use vstd::prelude::*;
use crate::context::{Buffer, Download, Upload};
use crate::kernel::{Dispatch, Operation};

verus! {

/// The contents of device memory: for each buffer's name, its elements.
pub type Memory<T> = Map<u64, Seq<T>>;

/// `memory` holds `buffer` with as many elements as the buffer has.
pub open spec fn holds<T>(memory: Memory<T>, buffer: Buffer) -> bool {
    memory.dom().contains(buffer.id) && memory[buffer.id].len() == buffer.len
}

/// Carrying out `upload` on memory `before` leaves memory `after`: the buffer
/// holds the uploaded elements and nothing else has changed.
pub open spec fn uploaded<'a, T>(upload: Upload<'a, T>, before: Memory<T>, after: Memory<T>) -> bool {
    after == before.insert(upload.buffer.id, upload.data@)
}

/// `data` is what carrying out `request` brings back from `memory`: the
/// elements of the buffer.
pub open spec fn downloaded<T>(request: Download, memory: Memory<T>, data: Seq<T>) -> bool {
    data == memory[request.buffer.id]
}

/// The numbers that the elements of `data` stand for under `value`.
pub open spec fn values<T>(data: Seq<T>, value: spec_fn(T) -> int) -> Seq<int> {
    Seq::new(data.len(), |i: int| value(data[i]))
}

/// Under `value` no two elements stand for the same number.
pub open spec fn faithful<T>(value: spec_fn(T) -> int) -> bool {
    forall|x: T, y: T| #[trigger] value(x) == #[trigger] value(y) ==> x == y
}

/// Where no two elements stand for the same number, buffers that hold the
/// same numbers hold the same elements.
pub proof fn lemma_same_values<T>(a: Seq<T>, b: Seq<T>, value: spec_fn(T) -> int)
    requires
        faithful(value),
        values(a, value) == values(b, value),
    ensures
        a == b,
{
    assert(values(a, value).len() == a.len());
    assert(values(b, value).len() == b.len());
    assert forall|i: int| 0 <= i < a.len() implies a[i] == b[i] by {
        assert(values(a, value)[i] == value(a[i]));
        assert(values(b, value)[i] == value(b[i]));
    }
    assert(a =~= b);
}

/// The element-wise sum.
pub open spec fn sum(a: Seq<int>, b: Seq<int>) -> Seq<int> {
    Seq::new(a.len(), |i: int| a[i] + b[i])
}

/// The element-wise difference.
pub open spec fn difference(a: Seq<int>, b: Seq<int>) -> Seq<int> {
    Seq::new(a.len(), |i: int| a[i] - b[i])
}

/// The element-wise product.
pub open spec fn product(a: Seq<int>, b: Seq<int>) -> Seq<int> {
    Seq::new(a.len(), |i: int| a[i] * b[i])
}

/// Each element or the threshold, whichever is larger.
pub open spec fn raised(a: Seq<int>, threshold: int) -> Seq<int> {
    Seq::new(a.len(), |i: int| if a[i] > threshold { a[i] } else { threshold })
}

/// Each element or the threshold, whichever is smaller.
pub open spec fn lowered(a: Seq<int>, threshold: int) -> Seq<int> {
    Seq::new(a.len(), |i: int| if a[i] < threshold { a[i] } else { threshold })
}

/// The transpose of the row-major matrix `a` with the given shape, itself
/// row-major with `columns` rows and `rows` columns.
pub open spec fn transposed<T>(a: Seq<T>, rows: nat, columns: nat) -> Seq<T> {
    Seq::new(rows * columns, |p: int| a[(p % rows as int) * columns + p / rows as int])
}

/// The sum of the first `count` products of row `row` of `a` with column
/// `column` of `b`, where `a` has `inner` columns and `b` has `columns`.
pub open spec fn row_times_column(
    a: Seq<int>,
    b: Seq<int>,
    row: int,
    column: int,
    inner: nat,
    columns: nat,
    count: nat,
) -> int
    decreases count,
{
    if count == 0 {
        0
    } else {
        let l = count - 1;
        row_times_column(a, b, row, column, inner, columns, l as nat) + a[row * inner + l] * b[l
            * columns + column]
    }
}

/// The product of the row-major matrices `a`, with `rows` rows and `inner`
/// columns, and `b`, with `inner` rows and `columns` columns.
pub open spec fn matrix_product(a: Seq<int>, b: Seq<int>, rows: nat, inner: nat, columns: nat) -> Seq<
    int,
> {
    Seq::new(
        rows * columns,
        |p: int|
            row_times_column(a, b, p / columns as int, p % columns as int, inner, columns, inner),
    )
}

/// The kernel of the dispatch writes a buffer that it also reads.
pub open spec fn in_place<T>(dispatch: Dispatch<T>) -> bool {
    dispatch.writes() matches Some(target) && exists|i: int|
        0 <= i < dispatch.reads().len() && #[trigger] dispatch.reads()[i].id == target.id
}

/// The elements that a kernel which only moves elements leaves in the buffer
/// it writes: a copy of its input, or its transpose in another buffer.
pub open spec fn moved<T>(dispatch: Dispatch<T>, before: Memory<T>) -> Option<Seq<T>> {
    let args = dispatch.args@;
    if dispatch.writes() is None {
        None
    } else {
        let input = before[args[0]->Buffer_0.id];
        match dispatch.operation {
            Operation::CopyTo => Some(input),
            Operation::Transpose => if args.len() == 4 && args[2] is Size && args[3] is Size
                && !in_place(dispatch) {
                Some(transposed(input, args[2]->Size_0 as nat, args[3]->Size_0 as nat))
            } else {
                None
            },
            _ => None,
        }
    }
}

/// The numbers that an arithmetic kernel leaves in the buffer it writes,
/// computed from the numbers its inputs stand for under `value`. The
/// element-wise kernels may write one of their inputs; the matrix product
/// must write another buffer.
pub open spec fn computed<T>(
    dispatch: Dispatch<T>,
    before: Memory<T>,
    value: spec_fn(T) -> int,
) -> Option<Seq<int>> {
    let args = dispatch.args@;
    if dispatch.writes() is None {
        None
    } else {
        let first = values(before[args[0]->Buffer_0.id], value);
        let second = values(before[args[1]->Buffer_0.id], value);
        match dispatch.operation {
            Operation::Add => Some(sum(first, second)),
            Operation::Sub => Some(difference(first, second)),
            Operation::Multiply => Some(product(first, second)),
            Operation::Max => if args.len() == 3 && args[2] is Scalar {
                Some(raised(first, value(args[2]->Scalar_0)))
            } else {
                None
            },
            Operation::Min => if args.len() == 3 && args[2] is Scalar {
                Some(lowered(first, value(args[2]->Scalar_0)))
            } else {
                None
            },
            Operation::Dot => if args.len() == 5 && args[3] is Size && args[4] is Size
                && dispatch.work is Grid && !in_place(dispatch) {
                Some(
                    matrix_product(
                        first,
                        second,
                        dispatch.work->Grid_0 as nat,
                        args[3]->Size_0 as nat,
                        args[4]->Size_0 as nat,
                    ),
                )
            } else {
                None
            },
            _ => None,
        }
    }
}

/// Running the kernel of `dispatch` on memory `before` leaves memory `after`,
/// where elements stand for numbers as `value` says. Only the buffer written
/// has changed. It holds the elements that the kernel moves there, or
/// elements that stand for the numbers that the kernel computes; where
/// neither is fixed it has kept its length.
pub open spec fn performed<T>(
    dispatch: Dispatch<T>,
    before: Memory<T>,
    after: Memory<T>,
    value: spec_fn(T) -> int,
) -> bool {
    match dispatch.writes() {
        Some(target) => {
            &&& after == before.insert(target.id, after[target.id])
            &&& match (moved(dispatch, before), computed(dispatch, before, value)) {
                (Some(elements), _) => after[target.id] == elements,
                (None, Some(numbers)) => values(after[target.id], value) == numbers,
                (None, None) => after[target.id].len() == target.len,
            }
        },
        None => false,
    }
}

/// The transpose holds at `(column, row)` what the matrix holds at
/// `(row, column)`.
pub proof fn lemma_transposed_at<T>(a: Seq<T>, rows: nat, columns: nat, row: int, column: int)
    requires
        0 <= row < rows,
        0 <= column < columns,
    ensures
        0 <= column * rows + row < transposed(a, rows, columns).len(),
        transposed(a, rows, columns)[column * rows + row] == a[row * columns + column],
{
    crate::matrix::lemma_position_in_range(column, row, columns as int, rows as int);
    crate::matrix::lemma_position_to_coordinates(column, row, rows as int);
    assert(columns * rows == rows * columns) by (nonlinear_arith);
}

/// Transposing a matrix twice gives the matrix back.
pub proof fn lemma_transposed_twice<T>(a: Seq<T>, rows: nat, columns: nat)
    requires
        a.len() == rows * columns,
    ensures
        transposed(transposed(a, rows, columns), columns, rows) == a,
{
    let once = transposed(a, rows, columns);
    let twice = transposed(once, columns, rows);
    assert(columns * rows == rows * columns) by (nonlinear_arith);
    assert forall|p: int| 0 <= p < a.len() implies twice[p] == a[p] by {
        if columns == 0 {
            assert(rows * columns == 0) by (nonlinear_arith)
                requires
                    columns == 0,
            ;
        } else {
            crate::matrix::lemma_coordinates_of_position(p, rows as int, columns as int);
            let row = p / columns as int;
            let column = p % columns as int;
            lemma_transposed_at(a, rows, columns, row, column);
            lemma_transposed_at(once, columns, rows, column, row);
        }
    }
    assert(twice =~= a);
}

} // verus!
