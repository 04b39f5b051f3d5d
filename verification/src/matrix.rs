//! Dense matrices in host memory, stored row by row.

use vstd::prelude::*;
use vstd::arithmetic::div_mod::{
    lemma_fundamental_div_mod, lemma_fundamental_div_mod_converse_div,
    lemma_fundamental_div_mod_converse_mod, lemma_multiply_divide_lt,
};
use crate::error::Error;

verus! {

/// A matrix in host memory. Element `(row, column)` lies at position
/// `row * columns + column` of the buffer.
#[derive(Debug, PartialEq)]
pub struct Matrix<T> {
    rows: usize,
    columns: usize,
    buffer: Vec<T>,
}

/// What a [`Matrix`] is, mathematically: its shape and its elements row by row.
pub struct MatrixView<T> {
    pub rows: nat,
    pub columns: nat,
    pub data: Seq<T>,
}

impl<T> MatrixView<T> {
    /// The buffer holds exactly one element per position.
    pub open spec fn wf(self) -> bool {
        self.data.len() == self.rows * self.columns
    }

    /// The element at `(row, column)`.
    pub open spec fn at(self, row: int, column: int) -> T
        recommends
            0 <= row < self.rows,
            0 <= column < self.columns,
    {
        self.data[row * self.columns + column]
    }
}

impl<T> View for Matrix<T> {
    type V = MatrixView<T>;

    closed spec fn view(&self) -> MatrixView<T> {
        MatrixView { rows: self.rows as nat, columns: self.columns as nat, data: self.buffer@ }
    }
}

impl<T> Matrix<T> {
    #[verifier::type_invariant]
    spec fn well_formed(&self) -> bool {
        self.buffer.len() == self.rows * self.columns
    }

    /// Builds a matrix of the given shape from its elements, row by row.
    /// Fails with `ShapeMismatch` exactly when the number of elements is not
    /// `rows * columns`.
    pub fn from_vec(rows: usize, columns: usize, buffer: Vec<T>) -> (result: Result<Matrix<T>, Error>)
        ensures
            result is Ok <==> buffer.len() == rows * columns,
            result matches Ok(m) ==> m@ == (MatrixView {
                rows: rows as nat,
                columns: columns as nat,
                data: buffer@,
            }),
            result matches Err(e) ==> e == Error::ShapeMismatch,
    {
        match rows.checked_mul(columns) {
            Some(length) => {
                if buffer.len() == length {
                    Ok(Matrix { rows, columns, buffer })
                } else {
                    Err(Error::ShapeMismatch)
                }
            },
            None => Err(Error::ShapeMismatch),
        }
    }

    /// The number of rows.
    pub fn rows(&self) -> (n: usize)
        ensures
            n == self@.rows,
            self@.wf(),
    {
        proof {
            use_type_invariant(self);
        }
        self.rows
    }

    /// The number of columns.
    pub fn columns(&self) -> (n: usize)
        ensures
            n == self@.columns,
            self@.wf(),
    {
        proof {
            use_type_invariant(self);
        }
        self.columns
    }

    /// The elements, row by row.
    pub fn buffer(&self) -> (elements: &Vec<T>)
        ensures
            elements@ == self@.data,
            self@.wf(),
    {
        proof {
            use_type_invariant(self);
        }
        &self.buffer
    }

    /// The element at `(row, column)`, or `None` outside the matrix.
    pub fn get(&self, row: usize, column: usize) -> (element: Option<&T>)
        ensures
            element is Some <==> row < self@.rows && column < self@.columns,
            element matches Some(e) ==> *e == self@.at(row as int, column as int),
    {
        proof {
            use_type_invariant(self);
        }
        if row < self.rows && column < self.columns {
            proof {
                lemma_position_in_range(
                    row as int,
                    column as int,
                    self.rows as int,
                    self.columns as int,
                );
            }
            Some(&self.buffer[row * self.columns + column])
        } else {
            None
        }
    }
}

/// In a row-major layout every position of the matrix lies inside the buffer,
/// and so does the start of its row.
pub proof fn lemma_position_in_range(row: int, column: int, rows: int, columns: int)
    requires
        0 <= row < rows,
        0 <= column < columns,
    ensures
        0 <= row * columns <= row * columns + column < rows * columns,
{
    assert(0 <= row * columns) by (nonlinear_arith)
        requires
            0 <= row,
            0 <= columns,
    ;
    assert((row + 1) * columns <= rows * columns) by (nonlinear_arith)
        requires
            row + 1 <= rows,
            0 <= columns,
    ;
    assert((row + 1) * columns == row * columns + columns) by (nonlinear_arith);
}

/// The position of element `(row, column)` in a row-major layout gives the
/// row back by division and the column as the remainder.
pub proof fn lemma_position_to_coordinates(row: int, column: int, columns: int)
    requires
        0 <= column < columns,
    ensures
        (row * columns + column) / columns == row,
        (row * columns + column) % columns == column,
{
    lemma_fundamental_div_mod_converse_div(row * columns + column, columns, row, column);
    lemma_fundamental_div_mod_converse_mod(row * columns + column, columns, row, column);
}

/// Every position inside a row-major buffer is that of exactly one element:
/// the one in row `position / columns` and column `position % columns`.
pub proof fn lemma_coordinates_of_position(position: int, rows: int, columns: int)
    requires
        0 <= position < rows * columns,
        0 < columns,
    ensures
        0 <= position / columns < rows,
        0 <= position % columns < columns,
        position == (position / columns) * columns + position % columns,
{
    lemma_fundamental_div_mod(position, columns);
    assert(columns * (position / columns) == (position / columns) * columns) by (nonlinear_arith);
    assert(position < columns * rows) by (nonlinear_arith)
        requires
            position < rows * columns,
    ;
    lemma_multiply_divide_lt(position, columns, rows);
    assert(0 <= position % columns < columns) by (nonlinear_arith)
        requires
            0 < columns,
    ;
    assert(0 <= position / columns) by (nonlinear_arith)
        requires
            0 <= position,
            0 < columns,
    ;
}

} // verus!
