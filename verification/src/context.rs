//! What the library exchanges with the compute context: the names of buffers
//! and completion tokens, the requests a driver carries to the device, and the
//! answers it brings back.
//!
//! The context owns one queue. Requests are handed to it in the order in which
//! they were made, and the device starts them in that order.

use vstd::prelude::*;
use crate::cl_matrix::ClMatrixMode;
use crate::error::Error;

verus! {

/// A buffer in device memory: the name the driver knows it by, and the number
/// of elements it holds.
#[derive(Clone, Copy, Debug, PartialEq, Eq, Hash, Structural)]
pub struct Buffer {
    pub id: u64,
    pub len: usize,
}

/// The completion token of a kernel that the queue has accepted. Waiting for
/// it guarantees that what the kernel wrote can be seen.
#[derive(Clone, Copy, Debug, PartialEq, Eq, Hash, Structural)]
pub struct Event {
    pub id: u64,
}

/// A shape that a buffer can be allocated for: no dimension is zero and the
/// number of elements fits a machine word.
pub open spec fn valid_shape(rows: nat, columns: nat) -> bool {
    0 < rows && 0 < columns && rows * columns <= usize::MAX
}

/// A request for a buffer of `length` elements with the given access mode.
#[derive(Clone, Copy, Debug, PartialEq, Eq, Structural)]
pub struct Allocation {
    pub length: usize,
    pub mode: ClMatrixMode,
}

impl Allocation {
    /// The request for the buffer of a matrix with the given shape. It fails
    /// with `AllocationFailure` exactly when the shape is not valid.
    pub fn new(rows: usize, columns: usize, mode: ClMatrixMode) -> (result: Result<
        Allocation,
        Error,
    >)
        ensures
            result is Ok <==> valid_shape(rows as nat, columns as nat),
            result matches Ok(request) ==> request.length == rows * columns && request.mode == mode,
            result matches Err(e) ==> e == Error::AllocationFailure,
    {
        if rows == 0 || columns == 0 {
            return Err(Error::AllocationFailure);
        }
        match rows.checked_mul(columns) {
            Some(length) => Ok(Allocation { length, mode }),
            None => Err(Error::AllocationFailure),
        }
    }
}

/// A request to copy `data` from the host into `buffer`. It waits for nothing.
#[derive(Debug, PartialEq)]
pub struct Upload<'a, T> {
    pub buffer: Buffer,
    pub data: &'a Vec<T>,
}

/// A request to copy `buffer` back to the host once the kernel behind `wait`,
/// if there is one, has completed.
#[derive(Clone, Copy, Debug, PartialEq, Eq, Structural)]
pub struct Download {
    pub buffer: Buffer,
    pub wait: Option<Event>,
}

/// The queue's answer to a kernel handed to it.
#[derive(Clone, Copy, Debug, PartialEq, Eq, Structural)]
pub enum Completion {
    /// The kernel was accepted; the token completes when it has run.
    Enqueued(Event),
    /// The program has no kernel of that name.
    KernelMissing,
    /// The queue refused the kernel.
    Rejected,
}

} // verus!
