//! The kernels that the queue has accepted, and the dependencies among them.
//!
//! The queue starts kernels in the order of its history. What makes a kernel
//! see the data it reads is that it waits for the last kernel that wrote that
//! data. This module says what that means and proves that planning every
//! kernel from the producers of its inputs, and making each accepted kernel
//! the producer of its output, keeps it so.

use vstd::prelude::*;
use crate::cl_matrix::ClMatrixView;
use crate::context::{Buffer, Event};
use crate::kernel::{
    awaited, lemma_awaited_holds_the_producers, Dispatch, KernelArg, Operation,
};

verus! {

/// A kernel that the queue accepted, with the completion token it gave.
pub struct Accepted<T> {
    pub dispatch: Dispatch<T>,
    pub token: Event,
}

/// The token of the last kernel in `history` that wrote the buffer called
/// `buffer`, if any did.
pub open spec fn last_writer<T>(history: Seq<Accepted<T>>, buffer: u64) -> Option<Event>
    decreases history.len(),
{
    if history.len() == 0 {
        None
    } else {
        let last = history.last();
        if last.dispatch.writes() matches Some(target) && target.id == buffer {
            Some(last.token)
        } else {
            last_writer(history.drop_last(), buffer)
        }
    }
}

/// Every kernel in `history` waits for the last kernel before it that wrote
/// a buffer it reads.
pub open spec fn dependencies_kept<T>(history: Seq<Accepted<T>>) -> bool {
    forall|k: int, i: int|
        0 <= k < history.len() && 0 <= i < history[k].dispatch.reads().len() ==> (
        #[trigger] last_writer(history.take(k), history[k].dispatch.reads()[i].id) matches Some(
            token,
        ) ==> history[k].dispatch.wait@.contains(token))
}

/// The matrix's producer is the last kernel in `history` that wrote its
/// buffer.
pub open spec fn in_step<T>(matrix: ClMatrixView, history: Seq<Accepted<T>>) -> bool {
    matrix.producer == last_writer(history, matrix.buffer.id)
}

/// The buffers of `matrices`, in their order.
pub open spec fn buffers_of(matrices: Seq<ClMatrixView>) -> Seq<Buffer> {
    Seq::new(matrices.len(), |i: int| matrices[i].buffer)
}

/// The producers of `matrices`, in their order.
pub open spec fn producers_of(matrices: Seq<ClMatrixView>) -> Seq<Option<Event>> {
    Seq::new(matrices.len(), |i: int| matrices[i].producer)
}

/// `dispatch` reads `inputs`, writes `output` and waits for the producers of
/// `inputs`.
pub open spec fn plans<T>(
    dispatch: Dispatch<T>,
    inputs: Seq<ClMatrixView>,
    output: ClMatrixView,
) -> bool {
    &&& dispatch.reads() == buffers_of(inputs)
    &&& dispatch.writes() == Some(output.buffer)
    &&& dispatch.wait@ == awaited(producers_of(inputs))
}

/// Whatever an operation of a device matrix plans reads the operation's
/// inputs, writes its output and waits for the producers of its inputs.
pub proof fn theorem_operations_plan<T>(
    a: ClMatrixView,
    b: ClMatrixView,
    output: ClMatrixView,
    threshold: T,
    operation: Operation,
    dispatch: Dispatch<T>,
)
    ensures
        a.launches_copy(dispatch, output) ==> plans(dispatch, seq![a], output),
        a.launches_transpose(dispatch, output) ==> plans(dispatch, seq![a], output),
        a.launches_dot(dispatch, b, output) ==> plans(dispatch, seq![a, b], output),
        a.launches_elementwise(dispatch, operation, b, output) && (operation == Operation::Add
            || operation == Operation::Sub || operation == Operation::Multiply) ==> plans(
            dispatch,
            seq![a, b],
            output,
        ),
        a.launches_threshold(dispatch, operation, threshold, output) && (operation
            == Operation::Max || operation == Operation::Min || operation == Operation::Dmax
            || operation == Operation::Dmin) ==> plans(dispatch, seq![a], output),
        a.launches_reduction(dispatch, operation, b, output) && (operation == Operation::Mse
            || operation == Operation::Dmse) ==> plans(dispatch, seq![a, b], output),
{
    assert(producers_of(seq![a]) =~= seq![a.producer]);
    assert(producers_of(seq![a, b]) =~= seq![a.producer, b.producer]);
    if dispatch.writes() is Some {
        if dispatch.operation.spec_inputs() == 1 && dispatch.args@[0] == KernelArg::<T>::Buffer(
            a.buffer,
        ) {
            assert(dispatch.reads() =~= buffers_of(seq![a]));
        }
        if dispatch.operation.spec_inputs() == 2 && dispatch.args@[0] == KernelArg::<T>::Buffer(
            a.buffer,
        ) && dispatch.args@[1] == KernelArg::<T>::Buffer(b.buffer) {
            assert(dispatch.reads() =~= buffers_of(seq![a, b]));
        }
    }
}

/// At the start nothing is owed: the empty history keeps its dependencies,
/// and a matrix is in step with it exactly when it has no producer.
pub proof fn theorem_fresh_start<T>(matrix: ClMatrixView)
    ensures
        dependencies_kept(Seq::<Accepted<T>>::empty()),
        in_step(matrix, Seq::<Accepted<T>>::empty()) <==> matrix.producer is None,
{
}

/// Dependencies are kept from kernel to kernel. Let every kernel accepted so
/// far wait for the last writers of what it reads, and let the matrices
/// `inputs` be in step with that history. When a dispatch that reads them and
/// waits for their producers is accepted, the longer history keeps its
/// dependencies too, the output with the new token as producer is in step
/// with it, and so is every matrix in another buffer that was in step before.
pub proof fn theorem_dependencies_kept<T>(
    history: Seq<Accepted<T>>,
    inputs: Seq<ClMatrixView>,
    output: ClMatrixView,
    dispatch: Dispatch<T>,
    token: Event,
)
    requires
        dependencies_kept(history),
        forall|i: int| 0 <= i < inputs.len() ==> in_step(#[trigger] inputs[i], history),
        plans(dispatch, inputs, output),
    ensures
        dependencies_kept(history.push(Accepted { dispatch, token })),
        in_step(output.written_by(token), history.push(Accepted { dispatch, token })),
        forall|matrix: ClMatrixView|
            in_step(matrix, history) && matrix.buffer.id != output.buffer.id ==> #[trigger] in_step(
                matrix,
                history.push(Accepted { dispatch, token }),
            ),
{
    let longer = history.push(Accepted { dispatch, token });
    assert(longer.drop_last() =~= history);
    assert forall|k: int, i: int|
        0 <= k < longer.len() && 0 <= i < longer[k].dispatch.reads().len() implies (
    #[trigger] last_writer(longer.take(k), longer[k].dispatch.reads()[i].id) matches Some(
        found,
    ) ==> longer[k].dispatch.wait@.contains(found)) by {
        if k < history.len() {
            assert(longer.take(k) =~= history.take(k));
            assert(longer[k] == history[k]);
        } else {
            assert(longer.take(k) =~= history);
            assert(in_step(inputs[i], history));
            assert(dispatch.reads()[i] == inputs[i].buffer);
            if let Some(found) = last_writer(history, inputs[i].buffer.id) {
                lemma_awaited_holds_the_producers(producers_of(inputs));
                assert(producers_of(inputs)[i] == Some(found));
                assert(producers_of(inputs).contains(Some(found)));
            }
        }
    }
}

} // verus!
