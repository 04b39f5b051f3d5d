//! The ways in which an operation on a device matrix can fail.

use vstd::prelude::*;

verus! {

/// Why an operation was not carried out. Whenever one of these is returned,
/// no state of the library has changed.
#[derive(Clone, Copy, Debug, PartialEq, Eq, Structural)]
pub enum Error {
    /// The device could not provide the buffer, or the shape asked for has no
    /// buffer at all: a dimension of zero, or more elements than can be counted.
    AllocationFailure,
    /// The program holds no kernel for this operation and element type.
    KernelNotFound,
    /// The queue refused the kernel.
    DispatchFailure,
    /// A copy between host and device failed or moved the wrong amount of data.
    TransferFailure,
    /// The operands' shapes do not fit the operation.
    ShapeMismatch,
}

impl Error {
    /// A short description for messages.
    pub fn message(&self) -> (text: String)
        ensures
            text@ == self.spec_message(),
    {
        match self {
            Error::AllocationFailure => String::from_str("device buffer could not be allocated"),
            Error::KernelNotFound => String::from_str("no kernel for this operation and element type"),
            Error::DispatchFailure => String::from_str("the queue refused the kernel"),
            Error::TransferFailure => String::from_str("copy between host and device failed"),
            Error::ShapeMismatch => String::from_str("operand shapes do not fit the operation"),
        }
    }

    /// The text of [`Error::message`].
    pub open spec fn spec_message(&self) -> Seq<char> {
        match self {
            Error::AllocationFailure => "device buffer could not be allocated"@,
            Error::KernelNotFound => "no kernel for this operation and element type"@,
            Error::DispatchFailure => "the queue refused the kernel"@,
            Error::TransferFailure => "copy between host and device failed"@,
            Error::ShapeMismatch => "operand shapes do not fit the operation"@,
        }
    }
}

} // verus!
