//! Matrices in device memory.
//!
//! A [`ClMatrix`] owns one buffer of `rows * columns` elements and remembers
//! the completion token of the last kernel that wrote it: its producer. An
//! operation reads one or two matrices and writes one. It is planned as a
//! [`Dispatch`] that waits for the producers of everything it reads. When the
//! queue has accepted the dispatch, [`ClMatrix::complete`] makes the new token
//! the producer of the matrix written, in place of the one before. Planning
//! only reads the matrices, so an operation may write one of its inputs;
//! replacing the producer takes the matrix exclusively, so nothing can read
//! the token while it changes.
//!
//! A matrix is the only owner of its buffer: it cannot be copied, and
//! [`ClMatrix::release`] consumes it.
//!
//! The producer of the matrix written is not waited for: the queue starts
//! kernels in the order in which they were handed to it, which keeps two
//! writers of one buffer apart. An upload waits for nothing at all, so
//! [`ClMatrix::set`] must not be used while a kernel that touches the buffer
//! may still run.

use vstd::prelude::*;
use crate::context::{valid_shape, Allocation, Buffer, Completion, Download, Event, Upload};
use crate::element::ElementType;
use crate::error::Error;
use crate::kernel::{Dispatch, KernelArg, Operation, WorkSize};
use crate::matrix::{Matrix, MatrixView};

verus! {

/// How kernels may access a matrix's buffer. It is fixed when the buffer is
/// allocated.
#[derive(Clone, Copy, Debug, PartialEq, Eq, Structural)]
pub enum ClMatrixMode {
    /// Kernels only read the buffer.
    In,
    /// Kernels only write the buffer.
    Out,
    /// Kernels read and write the buffer.
    Mut,
}

/// A matrix in device memory whose elements the host holds as values of type
/// `T` and the kernels know as `element`.
#[derive(Debug)]
pub struct ClMatrix<T> {
    rows: usize,
    columns: usize,
    mode: ClMatrixMode,
    element: ElementType,
    buffer: Buffer,
    event: Option<Event>,
    host: core::marker::PhantomData<T>,
}

/// What a [`ClMatrix`] is: shape, access mode, element type, buffer, and the
/// completion token of the last kernel that wrote the buffer, if any did.
pub struct ClMatrixView {
    pub rows: nat,
    pub columns: nat,
    pub mode: ClMatrixMode,
    pub element: ElementType,
    pub buffer: Buffer,
    pub producer: Option<Event>,
}

impl ClMatrixView {
    /// The shape is valid and the buffer holds one element per position.
    pub open spec fn wf(self) -> bool {
        valid_shape(self.rows, self.columns) && self.buffer.len == self.rows * self.columns
    }

    /// The number of elements.
    pub open spec fn len(self) -> nat {
        self.buffer.len as nat
    }

    /// The same matrix after a kernel with completion token `event` was
    /// accepted to write it.
    pub open spec fn written_by(self, event: Event) -> ClMatrixView {
        ClMatrixView { producer: Some(event), ..self }
    }

    /// The device matrix made in `buffer` for the host matrix `matrix`: it has
    /// the host matrix's shape and no producer.
    pub open spec fn of_host<T>(
        matrix: MatrixView<T>,
        buffer: Buffer,
        mode: ClMatrixMode,
        element: ElementType,
    ) -> ClMatrixView {
        ClMatrixView {
            rows: matrix.rows,
            columns: matrix.columns,
            mode,
            element,
            buffer,
            producer: None,
        }
    }

    /// The host matrix made of the elements `data` that were read from this
    /// matrix's buffer: it has this matrix's shape.
    pub open spec fn to_host<T>(self, data: Seq<T>) -> MatrixView<T> {
        MatrixView { rows: self.rows, columns: self.columns, data }
    }

    /// The three matrices hold elements of one type.
    pub open spec fn same_elements(self, other: ClMatrixView, output: ClMatrixView) -> bool {
        self.element == other.element && self.element == output.element
    }

    /// Why an operation on matrices that it does not fit is not planned: for
    /// elements of different types there is no kernel; where the types agree,
    /// the shapes are at fault.
    pub open spec fn refusal(self, other: ClMatrixView, output: ClMatrixView) -> Error {
        if self.same_elements(other, output) {
            Error::ShapeMismatch
        } else {
            Error::KernelNotFound
        }
    }

    /// An element-wise kernel on two inputs needs as many elements in
    /// `other` and in `output` as in this matrix.
    pub open spec fn fits_elementwise(self, other: ClMatrixView, output: ClMatrixView) -> bool {
        self.len() == other.len() && self.len() == output.len()
    }

    /// An element-wise kernel on one input needs as many elements in `output`
    /// as in this matrix.
    pub open spec fn fits_unary(self, output: ClMatrixView) -> bool {
        self.len() == output.len()
    }

    /// The transpose has this matrix's columns as rows and its rows as columns.
    pub open spec fn fits_transpose(self, output: ClMatrixView) -> bool {
        output.rows == self.columns && output.columns == self.rows
    }

    /// A product needs as many rows in `other` as this matrix has columns;
    /// it has this matrix's rows and the columns of `other`.
    pub open spec fn fits_dot(self, other: ClMatrixView, output: ClMatrixView) -> bool {
        self.columns == other.rows && output.rows == self.rows && output.columns == other.columns
    }

    /// A reduction over columns compares this matrix with one of the same
    /// shape and writes one element per column.
    pub open spec fn fits_reduction(self, train: ClMatrixView, output: ClMatrixView) -> bool {
        train.rows == self.rows && train.columns == self.columns && output.len() == self.columns
    }

    /// `dispatch` runs the kernel that copies this matrix into `output`: it is
    /// given the two buffers, waits for this matrix's producer and has one
    /// work item per element.
    pub open spec fn launches_copy<T>(self, dispatch: Dispatch<T>, output: ClMatrixView) -> bool {
        dispatch.launches(
            Operation::CopyTo,
            self.element,
            seq![KernelArg::Buffer(self.buffer), KernelArg::Buffer(output.buffer)],
            seq![self.producer],
            WorkSize::Linear(self.buffer.len),
        )
    }

    /// `dispatch` runs the kernel of `operation` that combines this matrix
    /// with `other` element by element into `output`: it is given the three
    /// buffers, waits for the producers of both inputs and has one work item
    /// per element.
    pub open spec fn launches_elementwise<T>(
        self,
        dispatch: Dispatch<T>,
        operation: Operation,
        other: ClMatrixView,
        output: ClMatrixView,
    ) -> bool {
        dispatch.launches(
            operation,
            self.element,
            seq![
                KernelArg::Buffer(self.buffer),
                KernelArg::Buffer(other.buffer),
                KernelArg::Buffer(output.buffer),
            ],
            seq![self.producer, other.producer],
            WorkSize::Linear(self.buffer.len),
        )
    }

    /// `dispatch` runs the kernel of `operation` that holds each element of
    /// this matrix against `threshold` and writes `output`: it is given the
    /// two buffers and the threshold, waits for this matrix's producer and
    /// has one work item per element.
    pub open spec fn launches_threshold<T>(
        self,
        dispatch: Dispatch<T>,
        operation: Operation,
        threshold: T,
        output: ClMatrixView,
    ) -> bool {
        dispatch.launches(
            operation,
            self.element,
            seq![
                KernelArg::Buffer(self.buffer),
                KernelArg::Buffer(output.buffer),
                KernelArg::Scalar(threshold),
            ],
            seq![self.producer],
            WorkSize::Linear(self.buffer.len),
        )
    }

    /// `dispatch` runs the transpose kernel from this matrix into `output`:
    /// it is given the two buffers and this matrix's row and column counts,
    /// waits for this matrix's producer and has one work item per position.
    pub open spec fn launches_transpose<T>(
        self,
        dispatch: Dispatch<T>,
        output: ClMatrixView,
    ) -> bool {
        dispatch.launches(
            Operation::Transpose,
            self.element,
            seq![
                KernelArg::Buffer(self.buffer),
                KernelArg::Buffer(output.buffer),
                KernelArg::Size(self.rows as usize),
                KernelArg::Size(self.columns as usize),
            ],
            seq![self.producer],
            WorkSize::Grid(self.rows as usize, self.columns as usize),
        )
    }

    /// `dispatch` runs the product kernel of this matrix and `other` into
    /// `output`: it is given the three buffers and the column counts of both
    /// inputs, waits for the producers of both and has one work item per
    /// position of the product.
    pub open spec fn launches_dot<T>(
        self,
        dispatch: Dispatch<T>,
        other: ClMatrixView,
        output: ClMatrixView,
    ) -> bool {
        dispatch.launches(
            Operation::Dot,
            self.element,
            seq![
                KernelArg::Buffer(self.buffer),
                KernelArg::Buffer(other.buffer),
                KernelArg::Buffer(output.buffer),
                KernelArg::Size(self.columns as usize),
                KernelArg::Size(other.columns as usize),
            ],
            seq![self.producer, other.producer],
            WorkSize::Grid(self.rows as usize, other.columns as usize),
        )
    }

    /// `dispatch` runs the kernel of `operation` that reduces this matrix
    /// against `train` column by column into `output`: it is given the three
    /// buffers and this matrix's row and column counts, waits for the
    /// producers of both inputs and has one work item per column.
    pub open spec fn launches_reduction<T>(
        self,
        dispatch: Dispatch<T>,
        operation: Operation,
        train: ClMatrixView,
        output: ClMatrixView,
    ) -> bool {
        dispatch.launches(
            operation,
            self.element,
            seq![
                KernelArg::Buffer(self.buffer),
                KernelArg::Buffer(train.buffer),
                KernelArg::Buffer(output.buffer),
                KernelArg::Size(self.rows as usize),
                KernelArg::Size(self.columns as usize),
            ],
            seq![self.producer, train.producer],
            WorkSize::Linear(self.columns as usize),
        )
    }
}

impl<T> View for ClMatrix<T> {
    type V = ClMatrixView;

    closed spec fn view(&self) -> ClMatrixView {
        ClMatrixView {
            rows: self.rows as nat,
            columns: self.columns as nat,
            mode: self.mode,
            element: self.element,
            buffer: self.buffer,
            producer: self.event,
        }
    }
}

impl<T> ClMatrix<T> {
    #[verifier::type_invariant]
    spec fn well_formed(&self) -> bool {
        0 < self.rows && 0 < self.columns && self.buffer.len == self.rows * self.columns
    }

    /// A matrix of the given shape and element type in `buffer`, which the
    /// device allocated for it. Nothing is uploaded and nothing has written
    /// the buffer: its contents are undefined and it has no producer. Fails
    /// with `AllocationFailure` exactly when the shape is not valid or the
    /// buffer does not hold `rows * columns` elements.
    pub fn new(
        buffer: Buffer,
        rows: usize,
        columns: usize,
        mode: ClMatrixMode,
        element: ElementType,
    ) -> (result: Result<ClMatrix<T>, Error>)
        ensures
            result is Ok <==> valid_shape(rows as nat, columns as nat) && buffer.len == rows
                * columns,
            result matches Ok(matrix) ==> matrix@ == (ClMatrixView {
                rows: rows as nat,
                columns: columns as nat,
                mode,
                element,
                buffer,
                producer: None,
            }),
            result matches Err(e) ==> e == Error::AllocationFailure,
    {
        match Allocation::new(rows, columns, mode) {
            Ok(request) => {
                if buffer.len == request.length {
                    Ok(
                        ClMatrix {
                            rows,
                            columns,
                            mode,
                            element,
                            buffer,
                            event: None,
                            host: core::marker::PhantomData,
                        },
                    )
                } else {
                    Err(Error::AllocationFailure)
                }
            },
            Err(e) => Err(e),
        }
    }

    /// A matrix with the shape of `matrix` in `buffer`, together with the
    /// upload that fills the buffer with the host matrix's elements. The new
    /// matrix has no producer: uploads are started in order like everything
    /// else, so whatever reads the buffer later finds the data there. Fails
    /// as [`ClMatrix::new`] does.
    pub fn from_matrix<'a>(
        buffer: Buffer,
        matrix: &'a Matrix<T>,
        mode: ClMatrixMode,
        element: ElementType,
    ) -> (result: Result<(ClMatrix<T>, Upload<'a, T>), Error>)
        ensures
            matrix@.wf(),
            result is Ok <==> valid_shape(matrix@.rows, matrix@.columns) && buffer.len
                == matrix@.rows * matrix@.columns,
            result matches Ok((device, upload)) ==> {
                &&& device@ == ClMatrixView::of_host(matrix@, buffer, mode, element)
                &&& upload.buffer == buffer
                &&& upload.data@ == matrix@.data
            },
            result matches Err(e) ==> e == Error::AllocationFailure,
    {
        match Self::new(buffer, matrix.rows(), matrix.columns(), mode, element) {
            Ok(device) => Ok((device, Upload { buffer, data: matrix.buffer() })),
            Err(e) => Err(e),
        }
    }

    /// The request that brings the matrix back to the host. It waits for the
    /// matrix's producer; without one the read may start at once.
    pub fn download(&self) -> (request: Download)
        ensures
            request.buffer == self@.buffer,
            request.wait == self@.producer,
    {
        Download { buffer: self.buffer, wait: self.event }
    }

    /// The host matrix made of `data`, the elements that a [`Download`] of
    /// this matrix brought back. It has this matrix's shape. Fails with
    /// `TransferFailure` exactly when `data` does not hold one element per
    /// position. The producer stays as it is.
    pub fn get(&self, data: Vec<T>) -> (result: Result<Matrix<T>, Error>)
        ensures
            self@.wf(),
            result is Ok <==> data.len() == self@.len(),
            result matches Ok(matrix) ==> matrix@ == self@.to_host(data@),
            result matches Err(e) ==> e == Error::TransferFailure,
    {
        proof {
            use_type_invariant(self);
        }
        match Matrix::from_vec(self.rows, self.columns, data) {
            Ok(matrix) => Ok(matrix),
            Err(_) => Err(Error::TransferFailure),
        }
    }

    /// The upload that overwrites the buffer with the elements of `matrix`.
    /// It waits for nothing and leaves the producer as it is. Fails with
    /// `ShapeMismatch` exactly when the host matrix does not hold as many
    /// elements as the buffer.
    pub fn set<'a>(&self, matrix: &'a Matrix<T>) -> (result: Result<Upload<'a, T>, Error>)
        ensures
            result is Ok <==> matrix@.data.len() == self@.len(),
            result matches Ok(upload) ==> upload.buffer == self@.buffer && upload.data@
                == matrix@.data,
            result matches Err(e) ==> e == Error::ShapeMismatch,
    {
        let data = matrix.buffer();
        if data.len() == self.buffer.len {
            Ok(Upload { buffer: self.buffer, data })
        } else {
            Err(Error::ShapeMismatch)
        }
    }

    /// The number of rows.
    pub fn rows(&self) -> (n: usize)
        ensures
            n == self@.rows,
            self@.wf(),
    {
        proof {
            use_type_invariant(self);
        }
        self.rows
    }

    /// The number of columns.
    pub fn columns(&self) -> (n: usize)
        ensures
            n == self@.columns,
            self@.wf(),
    {
        proof {
            use_type_invariant(self);
        }
        self.columns
    }

    /// The access mode the buffer was allocated with.
    pub fn mode(&self) -> (mode: ClMatrixMode)
        ensures
            mode == self@.mode,
    {
        self.mode
    }

    /// The element type under which the kernels know the elements.
    pub fn element(&self) -> (element: ElementType)
        ensures
            element == self@.element,
    {
        self.element
    }

    /// The buffer that holds the elements.
    pub fn buffer(&self) -> (buffer: Buffer)
        ensures
            buffer == self@.buffer,
            self@.wf(),
    {
        proof {
            use_type_invariant(self);
        }
        self.buffer
    }

    /// The completion token of the last kernel accepted to write this matrix.
    pub fn get_event(&self) -> (producer: Option<Event>)
        ensures
            producer == self@.producer,
    {
        self.event
    }

    /// Makes `event` the producer, in place of the one before.
    pub fn set_event(&mut self, event: Event)
        ensures
            final(self)@ == old(self)@.written_by(event),
            final(self)@.producer == Some(event),
    {
        proof {
            use_type_invariant(&*self);
        }
        self.event = Some(event);
    }

    /// Takes the queue's answer to `dispatch`. If the kernel was accepted and
    /// writes this matrix's buffer, its completion token becomes the
    /// producer, and the producer that it supersedes is returned: nothing
    /// planned from now on waits for that one. Otherwise nothing changes: for
    /// a kernel that the program lacks the error is `KernelNotFound`, and for
    /// one that the queue refused, or that does not write this matrix,
    /// `DispatchFailure`. A matrix that has a producer never loses it: the
    /// producer is only ever replaced.
    pub fn complete(&mut self, dispatch: &Dispatch<T>, answer: Completion) -> (result: Result<
        Option<Event>,
        Error,
    >)
        ensures
            result is Ok <==> answer is Enqueued && dispatch.writes() == Some(old(self)@.buffer),
            result matches Ok(superseded) ==> superseded == old(self)@.producer && final(self)@
                == old(self)@.written_by(answer->Enqueued_0),
            result is Err ==> final(self)@ == old(self)@,
            result matches Err(e) ==> e == if answer is KernelMissing {
                Error::KernelNotFound
            } else {
                Error::DispatchFailure
            },
            old(self)@.producer is Some ==> final(self)@.producer is Some,
    {
        match answer {
            Completion::Enqueued(event) => {
                match dispatch.output() {
                    Some(buffer) => {
                        if buffer == self.buffer {
                            let superseded = self.event;
                            self.set_event(event);
                            Ok(superseded)
                        } else {
                            Err(Error::DispatchFailure)
                        }
                    },
                    None => Err(Error::DispatchFailure),
                }
            },
            Completion::KernelMissing => Err(Error::KernelNotFound),
            Completion::Rejected => Err(Error::DispatchFailure),
        }
    }

    /// Gives the matrix up. The buffer returned is no longer in use by any
    /// matrix, and the producer returned, if there is one, is no longer
    /// waited for by anything planned from now on: the driver may release
    /// both.
    pub fn release(self) -> (freed: (Buffer, Option<Event>))
        ensures
            freed.0 == self@.buffer,
            freed.1 == self@.producer,
    {
        (self.buffer, self.event)
    }

    /// Plans the kernel of `operation` on this matrix and `other`, element by
    /// element.
    fn elementwise(&self, operation: Operation, other: &ClMatrix<T>, output: &ClMatrix<T>) -> (result:
        Result<Dispatch<T>, Error>)
        ensures
            result is Ok <==> self@.same_elements(other@, output@) && self@.fits_elementwise(
                other@,
                output@,
            ),
            result matches Ok(dispatch) ==> self@.launches_elementwise(
                dispatch,
                operation,
                other@,
                output@,
            ),
            result matches Err(e) ==> e == self@.refusal(other@, output@),
    {
        if self.element != other.element || self.element != output.element {
            return Err(Error::KernelNotFound);
        }
        if self.buffer.len != other.buffer.len || self.buffer.len != output.buffer.len {
            return Err(Error::ShapeMismatch);
        }
        let args = vec![
            KernelArg::Buffer(self.buffer),
            KernelArg::Buffer(other.buffer),
            KernelArg::Buffer(output.buffer),
        ];
        let producers = vec![self.event, other.event];
        assert(producers@ =~= seq![self@.producer, other@.producer]);
        Ok(
            Dispatch::new(
                operation,
                self.element,
                args,
                &producers,
                WorkSize::Linear(self.buffer.len),
            ),
        )
    }

    /// Plans the kernel of `operation` on this matrix and a threshold.
    fn threshold(&self, operation: Operation, threshold: T, output: &ClMatrix<T>) -> (result:
        Result<Dispatch<T>, Error>)
        ensures
            result is Ok <==> self@.same_elements(self@, output@) && self@.fits_unary(output@),
            result matches Ok(dispatch) ==> self@.launches_threshold(
                dispatch,
                operation,
                threshold,
                output@,
            ),
            result matches Err(e) ==> e == self@.refusal(self@, output@),
    {
        if self.element != output.element {
            return Err(Error::KernelNotFound);
        }
        if self.buffer.len != output.buffer.len {
            return Err(Error::ShapeMismatch);
        }
        let args = vec![
            KernelArg::Buffer(self.buffer),
            KernelArg::Buffer(output.buffer),
            KernelArg::Scalar(threshold),
        ];
        let producers = vec![self.event];
        assert(producers@ =~= seq![self@.producer]);
        Ok(
            Dispatch::new(
                operation,
                self.element,
                args,
                &producers,
                WorkSize::Linear(self.buffer.len),
            ),
        )
    }

    /// Plans the kernel of `operation` that reduces this matrix against
    /// `train`, column by column.
    fn reduction(&self, operation: Operation, train: &ClMatrix<T>, output: &ClMatrix<T>) -> (result:
        Result<Dispatch<T>, Error>)
        ensures
            result is Ok <==> self@.same_elements(train@, output@) && self@.fits_reduction(
                train@,
                output@,
            ),
            result matches Ok(dispatch) ==> self@.launches_reduction(
                dispatch,
                operation,
                train@,
                output@,
            ),
            result matches Err(e) ==> e == self@.refusal(train@, output@),
    {
        if self.element != train.element || self.element != output.element {
            return Err(Error::KernelNotFound);
        }
        if train.rows != self.rows || train.columns != self.columns || output.buffer.len
            != self.columns {
            return Err(Error::ShapeMismatch);
        }
        let args = vec![
            KernelArg::Buffer(self.buffer),
            KernelArg::Buffer(train.buffer),
            KernelArg::Buffer(output.buffer),
            KernelArg::Size(self.rows),
            KernelArg::Size(self.columns),
        ];
        let producers = vec![self.event, train.event];
        assert(producers@ =~= seq![self@.producer, train@.producer]);
        Ok(
            Dispatch::new(
                operation,
                self.element,
                args,
                &producers,
                WorkSize::Linear(self.columns),
            ),
        )
    }

    /// Plans the copy of this matrix into `output`. It is planned exactly
    /// when the two hold elements of one type and equally many of them;
    /// otherwise it fails with `KernelNotFound` where the types differ and
    /// with `ShapeMismatch` where they agree.
    pub fn copy_to(&self, output: &ClMatrix<T>) -> (result: Result<Dispatch<T>, Error>)
        ensures
            result is Ok <==> self@.same_elements(self@, output@) && self@.fits_unary(output@),
            result matches Ok(dispatch) ==> self@.launches_copy(dispatch, output@),
            result matches Err(e) ==> e == self@.refusal(self@, output@),
    {
        if self.element != output.element {
            return Err(Error::KernelNotFound);
        }
        if self.buffer.len != output.buffer.len {
            return Err(Error::ShapeMismatch);
        }
        let args = vec![KernelArg::Buffer(self.buffer), KernelArg::Buffer(output.buffer)];
        let producers = vec![self.event];
        assert(producers@ =~= seq![self@.producer]);
        Ok(
            Dispatch::new(
                Operation::CopyTo,
                self.element,
                args,
                &producers,
                WorkSize::Linear(self.buffer.len),
            ),
        )
    }

    /// Plans the element-wise sum of this matrix and `other` into `output`,
    /// which may be one of the two. It is planned exactly when the three hold
    /// elements of one type and equally many of them; otherwise it fails with
    /// `KernelNotFound` where the types differ and with `ShapeMismatch` where
    /// they agree.
    pub fn add(&self, other: &ClMatrix<T>, output: &ClMatrix<T>) -> (result: Result<
        Dispatch<T>,
        Error,
    >)
        ensures
            result is Ok <==> self@.same_elements(other@, output@) && self@.fits_elementwise(
                other@,
                output@,
            ),
            result matches Ok(dispatch) ==> self@.launches_elementwise(
                dispatch,
                Operation::Add,
                other@,
                output@,
            ),
            result matches Err(e) ==> e == self@.refusal(other@, output@),
    {
        self.elementwise(Operation::Add, other, output)
    }

    /// Plans the element-wise difference, this matrix minus `other`, into
    /// `output`. It is planned exactly when the three hold elements of one
    /// type and equally many of them; otherwise it fails with
    /// `KernelNotFound` where the types differ and with `ShapeMismatch` where
    /// they agree.
    pub fn sub(&self, other: &ClMatrix<T>, output: &ClMatrix<T>) -> (result: Result<
        Dispatch<T>,
        Error,
    >)
        ensures
            result is Ok <==> self@.same_elements(other@, output@) && self@.fits_elementwise(
                other@,
                output@,
            ),
            result matches Ok(dispatch) ==> self@.launches_elementwise(
                dispatch,
                Operation::Sub,
                other@,
                output@,
            ),
            result matches Err(e) ==> e == self@.refusal(other@, output@),
    {
        self.elementwise(Operation::Sub, other, output)
    }

    /// Plans the element-wise product of this matrix and `other` into
    /// `output`. It is planned exactly when the three hold elements of one
    /// type and equally many of them; otherwise it fails with
    /// `KernelNotFound` where the types differ and with `ShapeMismatch` where
    /// they agree.
    pub fn multiply(&self, other: &ClMatrix<T>, output: &ClMatrix<T>) -> (result: Result<
        Dispatch<T>,
        Error,
    >)
        ensures
            result is Ok <==> self@.same_elements(other@, output@) && self@.fits_elementwise(
                other@,
                output@,
            ),
            result matches Ok(dispatch) ==> self@.launches_elementwise(
                dispatch,
                Operation::Multiply,
                other@,
                output@,
            ),
            result matches Err(e) ==> e == self@.refusal(other@, output@),
    {
        self.elementwise(Operation::Multiply, other, output)
    }

    /// Plans the transpose of this matrix into `output`. It is planned
    /// exactly when the two hold elements of one type and `output` has this
    /// matrix's columns as rows and its rows as columns; otherwise it fails
    /// with `KernelNotFound` where the types differ and with `ShapeMismatch`
    /// where they agree.
    pub fn transpose(&self, output: &ClMatrix<T>) -> (result: Result<Dispatch<T>, Error>)
        ensures
            result is Ok <==> self@.same_elements(self@, output@) && self@.fits_transpose(
                output@,
            ),
            result matches Ok(dispatch) ==> self@.launches_transpose(dispatch, output@),
            result matches Err(e) ==> e == self@.refusal(self@, output@),
    {
        if self.element != output.element {
            return Err(Error::KernelNotFound);
        }
        if output.rows != self.columns || output.columns != self.rows {
            return Err(Error::ShapeMismatch);
        }
        let args = vec![
            KernelArg::Buffer(self.buffer),
            KernelArg::Buffer(output.buffer),
            KernelArg::Size(self.rows),
            KernelArg::Size(self.columns),
        ];
        let producers = vec![self.event];
        assert(producers@ =~= seq![self@.producer]);
        Ok(
            Dispatch::new(
                Operation::Transpose,
                self.element,
                args,
                &producers,
                WorkSize::Grid(self.rows, self.columns),
            ),
        )
    }

    /// Plans the matrix product of this matrix and `other` into `output`. It
    /// is planned exactly when the three hold elements of one type, `other`
    /// has as many rows as this matrix has columns, and `output` has this
    /// matrix's rows and the columns of `other`; otherwise it fails with
    /// `KernelNotFound` where the types differ and with `ShapeMismatch` where
    /// they agree.
    pub fn dot(&self, other: &ClMatrix<T>, output: &ClMatrix<T>) -> (result: Result<
        Dispatch<T>,
        Error,
    >)
        ensures
            result is Ok <==> self@.same_elements(other@, output@) && self@.fits_dot(
                other@,
                output@,
            ),
            result matches Ok(dispatch) ==> self@.launches_dot(dispatch, other@, output@),
            result matches Err(e) ==> e == self@.refusal(other@, output@),
    {
        if self.element != other.element || self.element != output.element {
            return Err(Error::KernelNotFound);
        }
        if self.columns != other.rows || output.rows != self.rows || output.columns
            != other.columns {
            return Err(Error::ShapeMismatch);
        }
        let args = vec![
            KernelArg::Buffer(self.buffer),
            KernelArg::Buffer(other.buffer),
            KernelArg::Buffer(output.buffer),
            KernelArg::Size(self.columns),
            KernelArg::Size(other.columns),
        ];
        let producers = vec![self.event, other.event];
        assert(producers@ =~= seq![self@.producer, other@.producer]);
        Ok(
            Dispatch::new(
                Operation::Dot,
                self.element,
                args,
                &producers,
                WorkSize::Grid(self.rows, other.columns),
            ),
        )
    }

    /// Plans the kernel that writes, for each element, the larger of the
    /// element and `threshold`.
    /// It is planned exactly when the two matrices hold elements of one type
    /// and equally many of them; otherwise it fails with `KernelNotFound`
    /// where the types differ and with `ShapeMismatch` where they agree.
    pub fn max(&self, threshold: T, output: &ClMatrix<T>) -> (result: Result<Dispatch<T>, Error>)
        ensures
            result is Ok <==> self@.same_elements(self@, output@) && self@.fits_unary(output@),
            result matches Ok(dispatch) ==> self@.launches_threshold(
                dispatch,
                Operation::Max,
                threshold,
                output@,
            ),
            result matches Err(e) ==> e == self@.refusal(self@, output@),
    {
        self.threshold(Operation::Max, threshold, output)
    }

    /// Plans the kernel that writes, for each element, the smaller of the
    /// element and `threshold`.
    /// It is planned exactly when the two matrices hold elements of one type
    /// and equally many of them; otherwise it fails with `KernelNotFound`
    /// where the types differ and with `ShapeMismatch` where they agree.
    pub fn min(&self, threshold: T, output: &ClMatrix<T>) -> (result: Result<Dispatch<T>, Error>)
        ensures
            result is Ok <==> self@.same_elements(self@, output@) && self@.fits_unary(output@),
            result matches Ok(dispatch) ==> self@.launches_threshold(
                dispatch,
                Operation::Min,
                threshold,
                output@,
            ),
            result matches Err(e) ==> e == self@.refusal(self@, output@),
    {
        self.threshold(Operation::Min, threshold, output)
    }

    /// Plans the kernel for the derivative of [`ClMatrix::max`] with the same
    /// threshold.
    /// It is planned exactly when the two matrices hold elements of one type
    /// and equally many of them; otherwise it fails with `KernelNotFound`
    /// where the types differ and with `ShapeMismatch` where they agree.
    pub fn dmax(&self, threshold: T, output: &ClMatrix<T>) -> (result: Result<Dispatch<T>, Error>)
        ensures
            result is Ok <==> self@.same_elements(self@, output@) && self@.fits_unary(output@),
            result matches Ok(dispatch) ==> self@.launches_threshold(
                dispatch,
                Operation::Dmax,
                threshold,
                output@,
            ),
            result matches Err(e) ==> e == self@.refusal(self@, output@),
    {
        self.threshold(Operation::Dmax, threshold, output)
    }

    /// Plans the kernel for the derivative of [`ClMatrix::min`] with the same
    /// threshold.
    /// It is planned exactly when the two matrices hold elements of one type
    /// and equally many of them; otherwise it fails with `KernelNotFound`
    /// where the types differ and with `ShapeMismatch` where they agree.
    pub fn dmin(&self, threshold: T, output: &ClMatrix<T>) -> (result: Result<Dispatch<T>, Error>)
        ensures
            result is Ok <==> self@.same_elements(self@, output@) && self@.fits_unary(output@),
            result matches Ok(dispatch) ==> self@.launches_threshold(
                dispatch,
                Operation::Dmin,
                threshold,
                output@,
            ),
            result matches Err(e) ==> e == self@.refusal(self@, output@),
    {
        self.threshold(Operation::Dmin, threshold, output)
    }

    /// Plans the kernel for the mean squared error of this matrix against
    /// `train`, one value per column.
    /// It is planned exactly when the three matrices hold elements of one
    /// type, `train` has this matrix's shape and `output` holds one element
    /// per column; otherwise it fails with `KernelNotFound` where the types
    /// differ and with `ShapeMismatch` where they agree.
    pub fn mse(&self, train: &ClMatrix<T>, output: &ClMatrix<T>) -> (result: Result<
        Dispatch<T>,
        Error,
    >)
        ensures
            result is Ok <==> self@.same_elements(train@, output@) && self@.fits_reduction(
                train@,
                output@,
            ),
            result matches Ok(dispatch) ==> self@.launches_reduction(
                dispatch,
                Operation::Mse,
                train@,
                output@,
            ),
            result matches Err(e) ==> e == self@.refusal(train@, output@),
    {
        self.reduction(Operation::Mse, train, output)
    }

    /// Plans the kernel for the derivative of the mean squared error of this
    /// matrix against `train`, one value per column.
    /// It is planned exactly when the three matrices hold elements of one
    /// type, `train` has this matrix's shape and `output` holds one element
    /// per column; otherwise it fails with `KernelNotFound` where the types
    /// differ and with `ShapeMismatch` where they agree.
    pub fn dmse(&self, train: &ClMatrix<T>, output: &ClMatrix<T>) -> (result: Result<
        Dispatch<T>,
        Error,
    >)
        ensures
            result is Ok <==> self@.same_elements(train@, output@) && self@.fits_reduction(
                train@,
                output@,
            ),
            result matches Ok(dispatch) ==> self@.launches_reduction(
                dispatch,
                Operation::Dmse,
                train@,
                output@,
            ),
            result matches Err(e) ==> e == self@.refusal(train@, output@),
    {
        self.reduction(Operation::Dmse, train, output)
    }
}

/// Each dimension of a well-formed device matrix fits a machine word.
pub proof fn lemma_dimensions_fit(matrix: ClMatrixView)
    requires
        matrix.wf(),
    ensures
        matrix.rows <= usize::MAX,
        matrix.columns <= usize::MAX,
{
    assert(matrix.rows <= matrix.rows * matrix.columns) by (nonlinear_arith)
        requires
            0 < matrix.columns,
    ;
    assert(matrix.columns <= matrix.rows * matrix.columns) by (nonlinear_arith)
        requires
            0 < matrix.rows,
    ;
}

} // verus!
