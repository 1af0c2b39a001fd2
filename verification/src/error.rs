use vstd::prelude::*;

verus! {

/// The ways in which a solve can fail. The set is closed: every failure of a
/// solve is one of these three.
#[derive(Debug, Clone, Copy, PartialEq, Eq, Structural)]
pub enum SolverError {
    /// The shapes do not fit: the system matrix is not square, or a
    /// right-hand side has another length than the matrix has rows.
    Conflict,
    /// The system matrix has no nonzero, the factorization reported a
    /// failure, or the solution could not be read back.
    Unsolvable,
    /// The caller's deadline passed before the solve was done.
    Timeout,
}

} // verus!
