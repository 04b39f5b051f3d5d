//! Device-resident matrices and the dependency protocol that orders the
//! kernels working on them.
//!
//! A [`ClMatrix`] names a buffer in device memory together with the completion
//! token of the last kernel that wrote it. Every operation is planned here as a
//! [`Dispatch`]: the kernel's name, its arguments, the tokens it has to wait
//! for and its work size. A driver hands the dispatch to the device queue and
//! reports the queue's answer back, which becomes the producer of the output.
//! Nothing in this crate talks to a device itself.

pub mod cl_matrix;
pub mod context;
pub mod element;
pub mod error;
pub mod history;
pub mod kernel;
pub mod matrix;
pub mod semantics;
pub mod theorems;

pub use cl_matrix::{ClMatrix, ClMatrixMode};
pub use context::{Allocation, Buffer, Completion, Download, Event, Upload};
pub use element::ElementType;
pub use error::Error;
pub use kernel::{Dispatch, KernelArg, Operation, WorkSize};
pub use matrix::Matrix;
