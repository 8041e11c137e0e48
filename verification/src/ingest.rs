//! Boundary validation of solve inputs: these checks run before any matrix
//! is materialized, and their failures are reported to the host directly,
//! never as a solve outcome.

use vstd::prelude::*;

verus! {

/// A malformed call shape, detected before any solve attempt.
#[derive(Clone, Copy, PartialEq, Eq, Structural, Debug)]
pub enum InputError {
    /// The flat stiffness array does not hold `n * n` entries.
    StiffnessSizeMismatch { expected: usize, got: usize },
    /// The force vector does not hold `n` entries.
    ForceSizeMismatch { expected: usize, got: usize },
    /// The sparse row, column and value sequences differ in length.
    SparseLengthMismatch,
}

/// Validates the shape of a dense solve call: the flat stiffness array must
/// hold exactly `n * n` entries and the force vector exactly `n`. The
/// stiffness check comes first; only one mismatch is reported.
pub fn validate_dense_input(stiffness_len: usize, force_len: usize, n: usize) -> (r: Result<
    (),
    InputError,
>)
    requires
        n * n <= usize::MAX,
    ensures
        r is Ok <==> (stiffness_len == n * n && force_len == n),
        stiffness_len != n * n ==> r == Err::<(), InputError>(
            InputError::StiffnessSizeMismatch { expected: (n * n) as usize, got: stiffness_len },
        ),
        stiffness_len == n * n && force_len != n ==> r == Err::<(), InputError>(
            InputError::ForceSizeMismatch { expected: n, got: force_len },
        ),
{
    let expected: usize = n * n;
    if stiffness_len != expected {
        Err(InputError::StiffnessSizeMismatch { expected, got: stiffness_len })
    } else if force_len != n {
        Err(InputError::ForceSizeMismatch { expected: n, got: force_len })
    } else {
        Ok(())
    }
}

/// Validates the shape of a sparse solve call: the row-index, column-index
/// and value sequences must all have the same length.
pub fn validate_sparse_input(rows_len: usize, cols_len: usize, values_len: usize) -> (r: Result<
    (),
    InputError,
>)
    ensures
        r is Ok <==> (rows_len == cols_len && rows_len == values_len),
        r is Err ==> r == Err::<(), InputError>(InputError::SparseLengthMismatch),
{
    if rows_len != cols_len || rows_len != values_len {
        Err(InputError::SparseLengthMismatch)
    } else {
        Ok(())
    }
}

} // verus!
