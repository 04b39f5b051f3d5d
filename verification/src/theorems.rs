//! What holds of the operations, proved from their contracts and from the
//! meaning of the kernels.
//!
//! A theorem about a kernel takes the dispatch as the operation planned it,
//! and the memory before and after a device ran it. Where the kernel does
//! arithmetic, `value` says which number each element stands for.

use vstd::prelude::*;
use crate::cl_matrix::{lemma_dimensions_fit, ClMatrixMode, ClMatrixView};
use crate::context::{Buffer, Download, Event, Upload};
use crate::element::ElementType;
use crate::kernel::{lemma_awaited_one, lemma_awaited_two, Dispatch, Operation};
use crate::matrix::{lemma_position_in_range, lemma_position_to_coordinates, MatrixView};
use crate::semantics::{
    difference, downloaded, faithful, holds, lemma_same_values, lemma_transposed_twice, lowered,
    matrix_product, performed, product, raised, row_times_column, sum, uploaded, values, Memory,
};

verus! {

/// Uploading a host matrix and downloading it again gives the matrix back,
/// whatever the element type: when the upload that `from_matrix` returns has
/// been carried out, what the request of `download` brings back is turned by
/// `get` into a host matrix equal to the first.
pub proof fn theorem_round_trip<'a, T>(
    matrix: MatrixView<T>,
    buffer: Buffer,
    mode: ClMatrixMode,
    element: ElementType,
    upload: Upload<'a, T>,
    request: Download,
    before: Memory<T>,
    after: Memory<T>,
    data: Seq<T>,
)
    requires
        matrix.wf(),
        upload.buffer == buffer,
        upload.data@ == matrix.data,
        uploaded(upload, before, after),
        request.buffer == buffer,
        downloaded(request, after, data),
    ensures
        data.len() == matrix.rows * matrix.columns,
        ClMatrixView::of_host(matrix, buffer, mode, element).to_host(data) == matrix,
{
}

/// After the kernel planned by `add` has run, the output holds at every
/// position the sum of what the two inputs held there before, also where the
/// output is one of the inputs. No other buffer has changed.
pub proof fn theorem_add<T>(
    a: ClMatrixView,
    b: ClMatrixView,
    output: ClMatrixView,
    dispatch: Dispatch<T>,
    before: Memory<T>,
    after: Memory<T>,
    value: spec_fn(T) -> int,
)
    requires
        a.fits_elementwise(b, output),
        holds(before, a.buffer),
        holds(before, b.buffer),
        a.launches_elementwise(dispatch, Operation::Add, b, output),
        performed(dispatch, before, after, value),
    ensures
        holds(after, output.buffer),
        values(after[output.buffer.id], value) == sum(
            values(before[a.buffer.id], value),
            values(before[b.buffer.id], value),
        ),
        forall|i: int|
            0 <= i < output.len() ==> value(#[trigger] after[output.buffer.id][i]) == value(
                before[a.buffer.id][i],
            ) + value(before[b.buffer.id][i]),
        forall|id: u64| id != output.buffer.id ==> #[trigger] after[id] == before[id],
{
    let numbers = values(after[output.buffer.id], value);
    assert(numbers.len() == output.len());
    assert forall|i: int| 0 <= i < output.len() implies value(
        #[trigger] after[output.buffer.id][i],
    ) == value(before[a.buffer.id][i]) + value(before[b.buffer.id][i]) by {
        assert(numbers[i] == value(after[output.buffer.id][i]));
    }
}

/// After the kernel planned by `sub` has run, the output holds at every
/// position what the first input held there before, less what the second
/// held. No other buffer has changed.
pub proof fn theorem_sub<T>(
    a: ClMatrixView,
    b: ClMatrixView,
    output: ClMatrixView,
    dispatch: Dispatch<T>,
    before: Memory<T>,
    after: Memory<T>,
    value: spec_fn(T) -> int,
)
    requires
        a.fits_elementwise(b, output),
        holds(before, a.buffer),
        holds(before, b.buffer),
        a.launches_elementwise(dispatch, Operation::Sub, b, output),
        performed(dispatch, before, after, value),
    ensures
        holds(after, output.buffer),
        values(after[output.buffer.id], value) == difference(
            values(before[a.buffer.id], value),
            values(before[b.buffer.id], value),
        ),
        forall|i: int|
            0 <= i < output.len() ==> value(#[trigger] after[output.buffer.id][i]) == value(
                before[a.buffer.id][i],
            ) - value(before[b.buffer.id][i]),
        forall|id: u64| id != output.buffer.id ==> #[trigger] after[id] == before[id],
{
    let numbers = values(after[output.buffer.id], value);
    assert(numbers.len() == output.len());
    assert forall|i: int| 0 <= i < output.len() implies value(
        #[trigger] after[output.buffer.id][i],
    ) == value(before[a.buffer.id][i]) - value(before[b.buffer.id][i]) by {
        assert(numbers[i] == value(after[output.buffer.id][i]));
    }
}

/// After the kernel planned by `multiply` has run, the output holds at every
/// position the product of what the two inputs held there before. No other
/// buffer has changed.
pub proof fn theorem_multiply<T>(
    a: ClMatrixView,
    b: ClMatrixView,
    output: ClMatrixView,
    dispatch: Dispatch<T>,
    before: Memory<T>,
    after: Memory<T>,
    value: spec_fn(T) -> int,
)
    requires
        a.fits_elementwise(b, output),
        holds(before, a.buffer),
        holds(before, b.buffer),
        a.launches_elementwise(dispatch, Operation::Multiply, b, output),
        performed(dispatch, before, after, value),
    ensures
        holds(after, output.buffer),
        values(after[output.buffer.id], value) == product(
            values(before[a.buffer.id], value),
            values(before[b.buffer.id], value),
        ),
        forall|i: int|
            0 <= i < output.len() ==> value(#[trigger] after[output.buffer.id][i]) == value(
                before[a.buffer.id][i],
            ) * value(before[b.buffer.id][i]),
        forall|id: u64| id != output.buffer.id ==> #[trigger] after[id] == before[id],
{
    let numbers = values(after[output.buffer.id], value);
    assert(numbers.len() == output.len());
    assert forall|i: int| 0 <= i < output.len() implies value(
        #[trigger] after[output.buffer.id][i],
    ) == value(before[a.buffer.id][i]) * value(before[b.buffer.id][i]) by {
        assert(numbers[i] == value(after[output.buffer.id][i]));
    }
}

/// After the kernel planned by `max` has run, the output holds at every
/// position what the input held there before, or the threshold where that is
/// larger. No other buffer has changed.
pub proof fn theorem_max<T>(
    a: ClMatrixView,
    threshold: T,
    output: ClMatrixView,
    dispatch: Dispatch<T>,
    before: Memory<T>,
    after: Memory<T>,
    value: spec_fn(T) -> int,
)
    requires
        a.fits_unary(output),
        holds(before, a.buffer),
        a.launches_threshold(dispatch, Operation::Max, threshold, output),
        performed(dispatch, before, after, value),
    ensures
        holds(after, output.buffer),
        values(after[output.buffer.id], value) == raised(
            values(before[a.buffer.id], value),
            value(threshold),
        ),
        forall|i: int|
            0 <= i < output.len() ==> {
                let element = value(before[a.buffer.id][i]);
                let result = value(#[trigger] after[output.buffer.id][i]);
                &&& result >= element
                &&& result >= value(threshold)
                &&& result == element || result == value(threshold)
            },
        forall|id: u64| id != output.buffer.id ==> #[trigger] after[id] == before[id],
{
    let numbers = values(after[output.buffer.id], value);
    assert(numbers.len() == output.len());
    assert forall|i: int| 0 <= i < output.len() implies {
        let element = value(before[a.buffer.id][i]);
        let result = value(#[trigger] after[output.buffer.id][i]);
        &&& result >= element
        &&& result >= value(threshold)
        &&& result == element || result == value(threshold)
    } by {
        assert(numbers[i] == value(after[output.buffer.id][i]));
    }
}

/// After the kernel planned by `min` has run, the output holds at every
/// position what the input held there before, or the threshold where that is
/// smaller. No other buffer has changed.
pub proof fn theorem_min<T>(
    a: ClMatrixView,
    threshold: T,
    output: ClMatrixView,
    dispatch: Dispatch<T>,
    before: Memory<T>,
    after: Memory<T>,
    value: spec_fn(T) -> int,
)
    requires
        a.fits_unary(output),
        holds(before, a.buffer),
        a.launches_threshold(dispatch, Operation::Min, threshold, output),
        performed(dispatch, before, after, value),
    ensures
        holds(after, output.buffer),
        values(after[output.buffer.id], value) == lowered(
            values(before[a.buffer.id], value),
            value(threshold),
        ),
        forall|i: int|
            0 <= i < output.len() ==> {
                let element = value(before[a.buffer.id][i]);
                let result = value(#[trigger] after[output.buffer.id][i]);
                &&& result <= element
                &&& result <= value(threshold)
                &&& result == element || result == value(threshold)
            },
        forall|id: u64| id != output.buffer.id ==> #[trigger] after[id] == before[id],
{
    let numbers = values(after[output.buffer.id], value);
    assert(numbers.len() == output.len());
    assert forall|i: int| 0 <= i < output.len() implies {
        let element = value(before[a.buffer.id][i]);
        let result = value(#[trigger] after[output.buffer.id][i]);
        &&& result <= element
        &&& result <= value(threshold)
        &&& result == element || result == value(threshold)
    } by {
        assert(numbers[i] == value(after[output.buffer.id][i]));
    }
}

/// After the kernel planned by `dot` into a buffer of its own has run, the
/// output holds the matrix product: the element in row `i` and column `j` is
/// the sum, over the columns `l` of the first input, of its element `(i, l)`
/// times the second input's element `(l, j)`. No other buffer has changed.
pub proof fn theorem_dot<T>(
    a: ClMatrixView,
    b: ClMatrixView,
    output: ClMatrixView,
    dispatch: Dispatch<T>,
    before: Memory<T>,
    after: Memory<T>,
    value: spec_fn(T) -> int,
)
    requires
        a.wf(),
        b.wf(),
        output.wf(),
        a.fits_dot(b, output),
        output.buffer.id != a.buffer.id,
        output.buffer.id != b.buffer.id,
        holds(before, a.buffer),
        holds(before, b.buffer),
        a.launches_dot(dispatch, b, output),
        performed(dispatch, before, after, value),
    ensures
        holds(after, output.buffer),
        values(after[output.buffer.id], value) == matrix_product(
            values(before[a.buffer.id], value),
            values(before[b.buffer.id], value),
            a.rows,
            a.columns,
            b.columns,
        ),
        forall|i: int, j: int|
            0 <= i < a.rows && 0 <= j < b.columns ==> value(
                #[trigger] after[output.buffer.id][i * b.columns + j],
            ) == row_times_column(
                values(before[a.buffer.id], value),
                values(before[b.buffer.id], value),
                i,
                j,
                a.columns,
                b.columns,
                a.columns,
            ),
        forall|id: u64| id != output.buffer.id ==> #[trigger] after[id] == before[id],
{
    lemma_dimensions_fit(a);
    lemma_dimensions_fit(b);
    let numbers = values(after[output.buffer.id], value);
    assert(numbers.len() == a.rows * b.columns);
    assert forall|i: int, j: int| 0 <= i < a.rows && 0 <= j < b.columns implies value(
        #[trigger] after[output.buffer.id][i * b.columns + j],
    ) == row_times_column(
        values(before[a.buffer.id], value),
        values(before[b.buffer.id], value),
        i,
        j,
        a.columns,
        b.columns,
        a.columns,
    ) by {
        lemma_position_in_range(i, j, a.rows as int, b.columns as int);
        lemma_position_to_coordinates(i, j, b.columns as int);
        assert(numbers[i * b.columns + j] == value(after[output.buffer.id][i * b.columns + j]));
    }
}

/// Transposing twice gives the matrix back, whatever the shape and the
/// element type: after the kernels planned by `transpose` from `a` into
/// another matrix `between` and from there into `output`, which may be `a`
/// again, have run one after the other, `output` has the shape of `a` and
/// holds the elements that `a` held at the start.
pub proof fn theorem_transpose_involution<T>(
    a: ClMatrixView,
    between: ClMatrixView,
    output: ClMatrixView,
    first: Dispatch<T>,
    second: Dispatch<T>,
    start: Memory<T>,
    middle: Memory<T>,
    end: Memory<T>,
    value: spec_fn(T) -> int,
)
    requires
        a.wf(),
        between.wf(),
        output.wf(),
        a.fits_transpose(between),
        between.fits_transpose(output),
        between.buffer.id != a.buffer.id,
        output.buffer.id != between.buffer.id,
        holds(start, a.buffer),
        a.launches_transpose(first, between),
        performed(first, start, middle, value),
        between.launches_transpose(second, output),
        performed(second, middle, end, value),
    ensures
        output.rows == a.rows,
        output.columns == a.columns,
        holds(end, output.buffer),
        end[output.buffer.id] == start[a.buffer.id],
{
    lemma_dimensions_fit(a);
    lemma_dimensions_fit(between);
    lemma_transposed_twice(start[a.buffer.id], a.rows, a.columns);
}

/// Writing the sum into one of its inputs is as good as writing it elsewhere
/// and copying: after the kernel planned by `add` with `b` as second input
/// and as output has run, `b` holds the same numbers as after the kernel
/// planned by `add` into a third matrix and the one planned by `copy_to` from
/// there into `b` have run one after the other from the same start, and so
/// the same elements where no two elements stand for one number. The copy
/// waits for the sum.
pub proof fn theorem_add_in_place<T>(
    a: ClMatrixView,
    b: ClMatrixView,
    c: ClMatrixView,
    token: Event,
    in_place: Dispatch<T>,
    apart: Dispatch<T>,
    copy: Dispatch<T>,
    start: Memory<T>,
    end_in_place: Memory<T>,
    middle: Memory<T>,
    end_copied: Memory<T>,
    value: spec_fn(T) -> int,
)
    requires
        a.launches_elementwise(in_place, Operation::Add, b, b),
        performed(in_place, start, end_in_place, value),
        a.launches_elementwise(apart, Operation::Add, b, c),
        performed(apart, start, middle, value),
        c.written_by(token).launches_copy(copy, b),
        performed(copy, middle, end_copied, value),
    ensures
        values(end_in_place[b.buffer.id], value) == values(end_copied[b.buffer.id], value),
        values(end_in_place[b.buffer.id], value) == sum(
            values(start[a.buffer.id], value),
            values(start[b.buffer.id], value),
        ),
        faithful(value) ==> end_in_place[b.buffer.id] == end_copied[b.buffer.id],
        copy.wait@ == seq![token],
{
    lemma_awaited_one(Some(token));
    if faithful(value) {
        lemma_same_values(end_in_place[b.buffer.id], end_copied[b.buffer.id], value);
    }
}

/// A chain needs no wait of the caller's: when `c` is planned as the sum of
/// `a` and `b`, the queue's token for that kernel is made the producer of
/// `c`, and `d` is then planned as the product of `c` and `a`, the second
/// kernel waits for the first, and after both have run in the order in which
/// they were planned `d` holds at every position `(a + b) * a`, computed from
/// what `a` and `b` held at the start.
pub proof fn theorem_chain<T>(
    a: ClMatrixView,
    b: ClMatrixView,
    c: ClMatrixView,
    d: ClMatrixView,
    token: Event,
    first: Dispatch<T>,
    second: Dispatch<T>,
    start: Memory<T>,
    middle: Memory<T>,
    end: Memory<T>,
    value: spec_fn(T) -> int,
)
    requires
        c.buffer.id != a.buffer.id,
        a.fits_elementwise(b, c),
        holds(start, a.buffer),
        holds(start, b.buffer),
        a.launches_elementwise(first, Operation::Add, b, c),
        performed(first, start, middle, value),
        c.written_by(token).launches_elementwise(second, Operation::Multiply, a, d),
        performed(second, middle, end, value),
    ensures
        second.wait@.len() > 0 && second.wait@[0] == token,
        end[d.buffer.id].len() == a.len(),
        values(end[d.buffer.id], value) == product(
            sum(values(start[a.buffer.id], value), values(start[b.buffer.id], value)),
            values(start[a.buffer.id], value),
        ),
        forall|i: int|
            0 <= i < a.len() ==> value(#[trigger] end[d.buffer.id][i]) == (value(
                start[a.buffer.id][i],
            ) + value(start[b.buffer.id][i])) * value(start[a.buffer.id][i]),
{
    lemma_awaited_two(Some(token), a.producer);
    let numbers = values(end[d.buffer.id], value);
    assert(middle[a.buffer.id] == start[a.buffer.id]);
    assert(numbers.len() == a.len());
    assert forall|i: int| 0 <= i < a.len() implies value(
        #[trigger] end[d.buffer.id][i],
    ) == (value(start[a.buffer.id][i]) + value(start[b.buffer.id][i])) * value(
        start[a.buffer.id][i],
    ) by {
        let left = values(middle[c.buffer.id], value);
        let right = values(middle[a.buffer.id], value);
        assert(numbers[i] == value(end[d.buffer.id][i]));
        assert(numbers[i] == left[i] * right[i]);
        assert(values(start[b.buffer.id], value)[i] == value(start[b.buffer.id][i]));
        assert(left[i] == value(start[a.buffer.id][i]) + value(start[b.buffer.id][i]));
        assert(right[i] == value(start[a.buffer.id][i]));
    }
}

} // verus!
