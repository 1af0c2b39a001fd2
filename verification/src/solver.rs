use crate::dense::{
    columns_have_len, columns_rows, dense_of_columns, lemma_column_major_index, lemma_split_index,
    DenseMatrix,
};
use crate::error::SolverError;
use crate::options::{Options, SuperluOptions};
use crate::sparse::{CompressedStorage, CsMat, CsMatView};
use crate::super_matrix::{csc_descriptor, dense_descriptor, SuperMatrix, SuperMatrixView};
use std::time::Duration;
use vstd::arithmetic::div_mod::{lemma_fundamental_div_mod, lemma_fundamental_div_mod_converse};
use vstd::pervasive::unreached;
use vstd::prelude::*;

verus! {

/// What is wrong with a system before any work is done on it, if anything:
/// a matrix that is not square and a right-hand side of another length than
/// the matrix has rows are conflicts; a square matrix without nonzeros, with
/// right-hand sides that fit, cannot be solved.
pub open spec fn preflight_spec<T>(a: CsMatView<T>, b: Seq<Vec<T>>) -> Option<SolverError> {
    if a.rows != a.cols {
        Some(SolverError::Conflict)
    } else if !columns_have_len(b, a.rows) {
        Some(SolverError::Conflict)
    } else if a.nnz() == 0 {
        Some(SolverError::Unsolvable)
    } else {
        None
    }
}

/// Checks the shapes of a system, and that its matrix has a nonzero.
pub fn preflight<T>(a: &CsMat<T>, b: &Vec<Vec<T>>) -> (checked: Result<(), SolverError>)
    ensures
        checked == match preflight_spec(a@, b@) {
            Some(e) => Err::<(), SolverError>(e),
            None => Ok(()),
        },
{
    let m = a.rows();
    let n = a.cols();
    if m != n {
        return Err(SolverError::Conflict);
    }
    let mut j: usize = 0;
    while j < b.len()
        invariant
            j <= b.len(),
            m == a@.rows,
            forall|q: int| 0 <= q < j ==> (#[trigger] b[q]).len() == m,
        decreases b.len() - j,
    {
        if b[j].len() != m {
            return Err(SolverError::Conflict);
        }
        j += 1;
    }
    if a.nnz() == 0 {
        return Err(SolverError::Unsolvable);
    }
    Ok(())
}

/// A system whose matrix is not square, or one of whose right-hand sides has
/// another length than the matrix has rows, is a conflict, whatever else
/// holds of it.
pub proof fn lemma_shape_conflict<T>(a: CsMatView<T>, b: Seq<Vec<T>>)
    requires
        a.rows != a.cols || exists|j: int| 0 <= j < b.len() && (#[trigger] b[j]).len() != a.rows,
    ensures
        preflight_spec(a, b) == Some(SolverError::Conflict),
{
}

/// A system whose shapes fit and whose matrix has no nonzero cannot be
/// solved, with any right-hand sides.
pub proof fn lemma_empty_matrix_unsolvable<T>(a: CsMatView<T>, b: Seq<Vec<T>>)
    requires
        a.nnz() == 0,
        a.rows == a.cols,
        columns_have_len(b, a.rows),
    ensures
        preflight_spec(a, b) == Some(SolverError::Unsolvable),
{
}

/// The machine can hold the system in native form: the matrix is stored by
/// columns, and every size can be written as a native index.
pub open spec fn launchable<T>(a: CsMatView<T>, b: Seq<Vec<T>>) -> bool {
    &&& a.storage == CompressedStorage::CSC
    &&& a.fits_native()
    &&& dense_of_columns(b).fits_native()
}

/// Whether the machine can hold the system in native form. A system that
/// passed [`preflight`] has to pass this too before it goes to
/// [`solve_super_lu`].
pub fn is_launchable<T>(a: &CsMat<T>, b: &Vec<Vec<T>>) -> (ok: bool)
    ensures
        ok == launchable(a@, b@),
{
    if !a.is_csc() || !a.fits_native() {
        return false;
    }
    if b.len() == 0 {
        assert(0 * 0 == 0) by (nonlinear_arith);
        return true;
    }
    if b.len() > 0x7fff_ffff || b[0].len() > 0x7fff_ffff {
        return false;
    }
    let rows: u64 = b[0].len() as u64;
    let cols: u64 = b.len() as u64;
    assert(rows * cols <= 0x7fff_ffff * 0x7fff_ffff) by (nonlinear_arith)
        requires
            rows <= 0x7fff_ffff,
            cols <= 0x7fff_ffff,
    ;
    rows * cols <= 0x7fff_ffff
}

/// Where a solve stands, seen from the caller.
#[derive(Debug, Clone, Copy, PartialEq, Eq, Structural)]
pub enum SolveState {
    /// The worker runs and the caller waits for its signal, with a deadline
    /// or without one.
    Waiting { unknowns: usize, deadline: bool },
    /// The worker has signalled success and the caller reads the solution.
    Reading { unknowns: usize },
    /// The solve is over.
    Done,
}

/// What is handed to the worker when a solve starts.
#[derive(Debug)]
pub struct Launch<T> {
    /// The system matrix, wrapped in column-compressed form.
    pub a: SuperMatrix<T>,
    /// The right-hand sides, wrapped as one dense matrix with a column each.
    /// The native solve overwrites them with the solution.
    pub b: SuperMatrix<T>,
    /// The options that the native solve runs with.
    pub options: SuperluOptions,
    /// How long the caller waits for the worker: for ever, if this is nothing.
    pub timeout: Option<Duration>,
}

/// What the caller's side of a solve has to do next.
#[derive(Debug)]
pub enum SolveAction<T> {
    /// Start one worker on the wrapped system, then wait for its signal.
    Launch(Launch<T>),
    /// Read the flat payload of the right-hand sides after the solve.
    ReadSolution,
    /// Return this to the caller.
    Return(Result<Vec<Vec<T>>, SolverError>),
    /// Stop with a fatal error: the worker and the caller are out of step.
    Abort,
}

/// What can happen to a solve while the caller waits or reads.
#[derive(Debug)]
pub enum SolveEvent<T> {
    /// The worker is done and reports how the native solve went.
    Signalled(Result<(), SolverError>),
    /// The deadline passed before the worker signalled.
    TimedOut,
    /// The worker went away without a signal.
    Disconnected,
    /// The flat payload of the right-hand sides was read: its entries,
    /// column after column, or nothing if it is not a flat buffer of doubles.
    Payload(Option<Vec<T>>),
}

/// The payload that a solve hands to the native solver holds the right-hand
/// sides one after another: entry `i` of the right-hand side `j` stands at
/// `j * m + i`, where `m` is the length of each.
pub proof fn lemma_payload_entry<T>(b: Seq<Vec<T>>, j: int, i: int)
    requires
        columns_have_len(b, columns_rows(b)),
        0 <= j < b.len(),
        0 <= i < columns_rows(b),
    ensures
        0 <= j * columns_rows(b) + i < dense_of_columns(b).column_major().len(),
        dense_of_columns(b).column_major()[j * columns_rows(b) + i] == b[j]@[i],
{
    let d = dense_of_columns(b);
    lemma_column_major_index(d, i, j);
    lemma_split_index(i, j, b.len() as int);
    assert(0 <= i * d.cols + j < d.rows * d.cols) by (nonlinear_arith)
        requires
            0 <= i < d.rows,
            0 <= j < d.cols,
    ;
}

/// The number of pieces into which a buffer of `len` entries falls when it is
/// cut every `size` entries.
pub open spec fn chunk_count(len: nat, size: nat) -> nat {
    if size == 0 {
        0
    } else if len % size == 0 {
        len / size
    } else {
        len / size + 1
    }
}

/// The pieces into which `data` falls when it is cut every `size` entries.
/// Only the last piece can be shorter than `size`.
pub open spec fn chunks<T>(data: Seq<T>, size: nat) -> Seq<Seq<T>> {
    Seq::new(
        chunk_count(data.len(), size),
        |j: int|
            data.subrange(
                j * size,
                if (j + 1) * size <= data.len() {
                    (j + 1) * size
                } else {
                    data.len() as int
                },
            ),
    )
}

/// The contents of a list of vectors.
pub open spec fn columns_of<T>(x: Seq<Vec<T>>) -> Seq<Seq<T>> {
    Seq::new(x.len(), |j: int| x[j]@)
}

proof fn lemma_chunk_bounds(len: int, size: int, j: int)
    requires
        0 < size,
        0 <= j,
        0 <= len,
        j * size < len,
    ensures
        j < chunk_count(len as nat, size as nat),
        (j + 1) * size >= len ==> j + 1 == chunk_count(len as nat, size as nat),
        (j + 1) * size == j * size + size,
{
    let q = len / size;
    let r = len % size;
    lemma_fundamental_div_mod(len, size);
    assert(j < q + (if r == 0 { 0int } else { 1int }) && ((j + 1) * size >= len ==> j + 1 == q + (
    if r == 0 {
        0int
    } else {
        1int
    })) && (j + 1) * size == j * size + size) by (nonlinear_arith)
        requires
            len == size * q + r,
            0 <= r < size,
            0 <= j,
            j * size < len,
    ;
}

/// A buffer that holds `k` columns of `m` entries falls into exactly these
/// columns: there are `k` pieces, each of `m` entries.
pub proof fn lemma_chunks_of_columns<T>(data: Seq<T>, m: nat, k: nat)
    requires
        0 < m,
        data.len() == k * m,
    ensures
        chunks(data, m).len() == k,
        forall|j: int| 0 <= j < k ==> (#[trigger] chunks(data, m)[j]).len() == m,
{
    lemma_fundamental_div_mod_converse((k * m) as int, m as int, k as int, 0);
    assert forall|j: int| 0 <= j < k implies (#[trigger] chunks(data, m)[j]).len() == m by {
        lemma_column_span(j, m as int, k as int);
    }
}

/// In a buffer that holds `k` columns of `m` entries, entry `i` of column `j`
/// is the entry at `j * m + i`.
pub proof fn lemma_chunk_entry<T>(data: Seq<T>, m: nat, k: nat, j: int, i: int)
    requires
        data.len() == k * m,
        0 <= j < k,
        0 <= i < m,
    ensures
        0 <= j * m + i < data.len(),
        chunks(data, m)[j][i] == data[j * m + i],
{
    lemma_fundamental_div_mod_converse((k * m) as int, m as int, k as int, 0);
    lemma_column_span(j, m as int, k as int);
}

/// Column `j` of `k` columns of `m` entries spans the entries from `j * m` up
/// to `(j + 1) * m`, all of which lie in the buffer.
proof fn lemma_column_span(j: int, m: int, k: int)
    requires
        0 <= j < k,
        0 < m,
    ensures
        0 <= j * m,
        (j + 1) * m <= k * m,
        (j + 1) * m - j * m == m,
{
    assert(0 <= j * m && (j + 1) * m <= k * m && (j + 1) * m - j * m == m) by (nonlinear_arith)
        requires
            0 <= j < k,
            0 < m,
    ;
}

/// Cuts a buffer every `size` entries.
pub fn split_columns<T: Copy>(data: &Vec<T>, size: usize) -> (columns: Vec<Vec<T>>)
    requires
        size > 0,
    ensures
        columns_of(columns@) == chunks(data@, size as nat),
{
    let len = data.len();
    let mut columns: Vec<Vec<T>> = Vec::new();
    let mut start: usize = 0;
    assert(chunk_count(0, size as nat) == 0) by {
        lemma_fundamental_div_mod_converse(0, size as int, 0, 0);
    }
    while start < len
        invariant
            size > 0,
            len == data.len(),
            start <= len,
            start < len ==> start == columns.len() * size,
            start == len ==> columns.len() == chunk_count(len as nat, size as nat),
            columns.len() <= chunk_count(len as nat, size as nat),
            forall|j: int|
                0 <= j < columns.len() ==> (#[trigger] columns[j])@ == chunks(
                    data@,
                    size as nat,
                )[j],
        decreases len - start,
    {
        proof {
            lemma_chunk_bounds(len as int, size as int, columns.len() as int);
        }
        let end: usize = if len - start <= size {
            len
        } else {
            start + size
        };
        let mut column: Vec<T> = Vec::new();
        let mut p: usize = start;
        while p < end
            invariant
                start <= p <= end <= len,
                len == data.len(),
                column@ == data@.subrange(start as int, p as int),
            decreases end - p,
        {
            column.push(data[p]);
            p += 1;
            assert(column@ =~= data@.subrange(start as int, p as int));
        }
        columns.push(column);
        start = end;
    }
    assert(columns_of(columns@) =~= chunks(data@, size as nat));
    columns
}

/// Starts a solve of `A * X = B`, where the columns of `B` are the vectors of
/// `b`. The system is checked first; if nothing is wrong with it, it is
/// wrapped for the native solver and handed over for one worker to be
/// launched. The options are read, never changed, and the native solve runs
/// with them as the caller set them.
pub fn solve_super_lu<T: Copy>(
    a: CsMat<T>,
    b: &Vec<Vec<T>>,
    timeout: Option<Duration>,
    options: &mut Options,
) -> (next: (SolveState, SolveAction<T>))
    requires
        preflight_spec(a@, b@) is None ==> launchable(a@, b@),
    ensures
        *final(options) == *old(options),
        match preflight_spec(a@, b@) {
            Some(e) => next.0 == SolveState::Done && next.1 == SolveAction::<T>::Return(Err(e)),
            None => {
                &&& next.0 == (SolveState::Waiting {
                    unknowns: a@.rows as usize,
                    deadline: timeout is Some,
                })
                &&& next.1 matches SolveAction::Launch(launch)
                &&& launch.a@ == (SuperMatrixView { raw: csc_descriptor(a@), rust_managed: true })
                &&& launch.b@ == (SuperMatrixView {
                    raw: dense_descriptor(dense_of_columns(b@)),
                    rust_managed: true,
                })
                &&& launch.options == old(options).ffi
                &&& launch.timeout == timeout
            },
        },
{
    match preflight(&a, b) {
        Err(e) => (SolveState::Done, SolveAction::Return(Err(e))),
        Ok(()) => {
            let unknowns = a.rows();
            let deadline = timeout.is_some();
            let a_mat = SuperMatrix::from_csc_mat(a);
            let b_mat = match DenseMatrix::from_columns(b) {
                Some(dense) => SuperMatrix::from_ndarray(dense),
                None => unreached(),
            };
            let launch = Launch { a: a_mat, b: b_mat, options: options.ffi, timeout };
            (SolveState::Waiting { unknowns, deadline }, SolveAction::Launch(launch))
        },
    }
}

/// Starts a solve without a deadline: the caller waits until the worker
/// signals.
pub fn solve<T: Copy>(a: CsMat<T>, b: &Vec<Vec<T>>, options: &mut Options) -> (next: (
    SolveState,
    SolveAction<T>,
))
    requires
        preflight_spec(a@, b@) is None ==> launchable(a@, b@),
    ensures
        *final(options) == *old(options),
        match preflight_spec(a@, b@) {
            Some(e) => next.0 == SolveState::Done && next.1 == SolveAction::<T>::Return(Err(e)),
            None => {
                &&& next.0 == (SolveState::Waiting { unknowns: a@.rows as usize, deadline: false })
                &&& next.1 matches SolveAction::Launch(launch)
                &&& launch.a@ == (SuperMatrixView { raw: csc_descriptor(a@), rust_managed: true })
                &&& launch.b@ == (SuperMatrixView {
                    raw: dense_descriptor(dense_of_columns(b@)),
                    rust_managed: true,
                })
                &&& launch.options == old(options).ffi
                &&& launch.timeout is None
            },
        },
{
    solve_super_lu(a, b, None, options)
}

/// Moves a solve on by one event. While the caller waits, a signal of
/// success asks for the solution to be read, a signal of failure is
/// returned as it is, and a deadline that passed is a timeout. While the
/// caller reads, a payload is cut into one vector for each column, and a
/// payload that cannot be read means the system could not be solved. An
/// event that the state does not wait for is fatal.
pub fn resume<T: Copy>(state: SolveState, event: SolveEvent<T>) -> (next: (
    SolveState,
    SolveAction<T>,
))
    ensures
        match (state, event) {
            (SolveState::Waiting { unknowns, .. }, SolveEvent::Signalled(Ok(()))) => {
                &&& next.0 == (SolveState::Reading { unknowns })
                &&& next.1 is ReadSolution
            },
            (SolveState::Waiting { .. }, SolveEvent::Signalled(Err(e))) => {
                &&& next.0 == SolveState::Done
                &&& next.1 == SolveAction::<T>::Return(Err(e))
            },
            (SolveState::Waiting { deadline: true, .. }, SolveEvent::TimedOut) => {
                &&& next.0 == SolveState::Done
                &&& next.1 == SolveAction::<T>::Return(Err(SolverError::Timeout))
            },
            (SolveState::Reading { .. }, SolveEvent::Payload(None)) => {
                &&& next.0 == SolveState::Done
                &&& next.1 == SolveAction::<T>::Return(Err(SolverError::Unsolvable))
            },
            (SolveState::Reading { unknowns }, SolveEvent::Payload(Some(data))) => {
                &&& next.0 == SolveState::Done
                &&& if unknowns > 0 {
                    &&& next.1 matches SolveAction::Return(Ok(columns))
                    &&& columns_of(columns@) == chunks(data@, unknowns as nat)
                } else {
                    next.1 is Abort
                }
            },
            _ => next.0 == SolveState::Done && next.1 is Abort,
        },
{
    match state {
        SolveState::Waiting { unknowns, deadline } => match event {
            SolveEvent::Signalled(Ok(())) => (
                SolveState::Reading { unknowns },
                SolveAction::ReadSolution,
            ),
            SolveEvent::Signalled(Err(e)) => (SolveState::Done, SolveAction::Return(Err(e))),
            SolveEvent::TimedOut => {
                if deadline {
                    (SolveState::Done, SolveAction::Return(Err(SolverError::Timeout)))
                } else {
                    (SolveState::Done, SolveAction::Abort)
                }
            },
            _ => (SolveState::Done, SolveAction::Abort),
        },
        SolveState::Reading { unknowns } => match event {
            SolveEvent::Payload(None) => (
                SolveState::Done,
                SolveAction::Return(Err(SolverError::Unsolvable)),
            ),
            SolveEvent::Payload(Some(data)) => {
                if unknowns > 0 {
                    (SolveState::Done, SolveAction::Return(Ok(split_columns(&data, unknowns))))
                } else {
                    (SolveState::Done, SolveAction::Abort)
                }
            },
            _ => (SolveState::Done, SolveAction::Abort),
        },
        SolveState::Done => (SolveState::Done, SolveAction::Abort),
    }
}

} // verus!
