use crate::dense::{dense_of_column_major, lemma_column_major_round_trip, DenseMatrix, DenseView};
use crate::descriptor::{
    DataKind, Descriptor, DescriptorView, MathKind, StorageKind, Store, StoreView,
};
use crate::sparse::{CompressedStorage, CsMat, CsMatView};
use libc::c_int;
use vstd::prelude::*;

verus! {

/// The indices `s`, written as native indices.
pub open spec fn to_native(s: Seq<usize>) -> Seq<c_int> {
    Seq::new(s.len(), |k: int| s[k] as c_int)
}

/// The native indices `s`, written as indices of this machine.
pub open spec fn to_host(s: Seq<c_int>) -> Seq<usize> {
    Seq::new(s.len(), |k: int| s[k] as usize)
}

/// The descriptor that stands for the column-compressed matrix `m`: tagged
/// column-compressed, double and general, with the three arrays of `m` in the
/// order in which `m` holds them.
pub open spec fn csc_descriptor<T>(m: CsMatView<T>) -> DescriptorView<T> {
    DescriptorView {
        stype: StorageKind::CompCol,
        dtype: DataKind::Double,
        mtype: MathKind::General,
        nrow: m.rows as int,
        ncol: m.cols as int,
        store: StoreView::CompCol {
            nnz: m.data.len() as int,
            nzval: m.data,
            rowind: to_native(m.indices),
            colptr: to_native(m.indptr),
        },
    }
}

/// The column-compressed matrix that the descriptor `d` stands for, if it
/// stands for one: `d` is tagged column-compressed, double and general, it
/// declares as many nonzeros as it holds, none of its indices is negative,
/// and its arrays form a matrix.
pub open spec fn csc_of_descriptor<T>(d: DescriptorView<T>) -> Option<CsMatView<T>> {
    if d.stype == StorageKind::CompCol && d.dtype == DataKind::Double && d.mtype
        == MathKind::General && 0 <= d.nrow && 0 <= d.ncol {
        match d.store {
            StoreView::CompCol { nnz, nzval, rowind, colptr } => {
                let m = CsMatView {
                    storage: CompressedStorage::CSC,
                    rows: d.nrow as nat,
                    cols: d.ncol as nat,
                    indptr: to_host(colptr),
                    indices: to_host(rowind),
                    data: nzval,
                };
                if nnz == nzval.len() && (forall|k: int|
                    0 <= k < rowind.len() ==> 0 <= #[trigger] rowind[k]) && (forall|k: int|
                    0 <= k < colptr.len() ==> 0 <= #[trigger] colptr[k]) && m.well_formed() {
                    Some(m)
                } else {
                    None
                }
            },
            _ => None,
        }
    } else {
        None
    }
}

/// The descriptor that stands for the dense matrix `d`: tagged dense, double
/// and general, with the leading dimension equal to the number of rows and
/// the entries column after column.
pub open spec fn dense_descriptor<T>(d: DenseView<T>) -> DescriptorView<T> {
    DescriptorView {
        stype: StorageKind::Dense,
        dtype: DataKind::Double,
        mtype: MathKind::General,
        nrow: d.rows as int,
        ncol: d.cols as int,
        store: StoreView::Dense { lda: d.rows as int, nzval: d.column_major() },
    }
}

/// The dense matrix that the descriptor `d` stands for, if its payload can be
/// read as a flat buffer of doubles.
pub open spec fn dense_of_descriptor<T>(d: DescriptorView<T>) -> Option<DenseView<T>> {
    if d.has_dense_doubles() {
        Some(dense_of_column_major(d.nrow as nat, d.ncol as nat, d.dense_doubles()))
    } else {
        None
    }
}

/// What has to be done to the native side when a wrapper goes away.
#[derive(Debug, Clone, Copy, PartialEq, Eq, Structural)]
pub enum DropAction {
    /// The native side is left alone.
    Nothing,
    /// The native destructor of column-compressed matrices is called.
    DestroyCompCol,
    /// The native destructor of permuted column-compressed matrices is called.
    DestroyCompColPermuted,
    /// The native destructor of row-compressed matrices is called.
    DestroyCompRow,
    /// The native destructor of supernodal matrices is called.
    DestroySuperNode,
    /// The native destructor of dense matrices is called.
    DestroyDense,
}

/// What a wrapper is: the descriptor, and whether the wrapper answers for
/// releasing it.
pub struct SuperMatrixView<T> {
    pub raw: DescriptorView<T>,
    /// `true` for a wrapper that built its payload, `false` for one that
    /// adopted a descriptor made elsewhere.
    pub rust_managed: bool,
}

/// What has to be done for a payload that declares `declared_nnz` nonzeros,
/// under a wrapper that answers for it or not, with the storage kind `stype`.
/// A payload that declares no nonzero is never destroyed, nor is an adopted
/// one; any other goes to the destructor of its storage kind, where there is
/// one.
pub open spec fn drop_action_of(declared_nnz: int, rust_managed: bool, stype: StorageKind) -> DropAction {
    if declared_nnz == 0 {
        DropAction::Nothing
    } else if !rust_managed {
        DropAction::Nothing
    } else {
        match stype {
            StorageKind::CompCol => DropAction::DestroyCompCol,
            StorageKind::CompColPermuted => DropAction::DestroyCompColPermuted,
            StorageKind::CompRow => DropAction::DestroyCompRow,
            StorageKind::SuperNodeCol => DropAction::DestroySuperNode,
            StorageKind::SuperNodeColPermuted => DropAction::DestroySuperNode,
            StorageKind::SuperNodeRow => DropAction::DestroySuperNode,
            StorageKind::Dense => DropAction::DestroyDense,
            StorageKind::CompRowLocal => DropAction::Nothing,
        }
    }
}

/// Decides what has to be done to the native side when a wrapper goes away:
/// see [`drop_action_of`].
pub fn drop_action_for(declared_nnz: c_int, rust_managed: bool, stype: StorageKind) -> (action:
    DropAction)
    ensures
        action == drop_action_of(declared_nnz as int, rust_managed, stype),
{
    if declared_nnz == 0 {
        return DropAction::Nothing;
    }
    if !rust_managed {
        return DropAction::Nothing;
    }
    match stype {
        StorageKind::CompCol => DropAction::DestroyCompCol,
        StorageKind::CompColPermuted => DropAction::DestroyCompColPermuted,
        StorageKind::CompRow => DropAction::DestroyCompRow,
        StorageKind::SuperNodeCol | StorageKind::SuperNodeColPermuted
        | StorageKind::SuperNodeRow => DropAction::DestroySuperNode,
        StorageKind::Dense => DropAction::DestroyDense,
        StorageKind::CompRowLocal => DropAction::Nothing,
    }
}

impl<T> SuperMatrixView<T> {
    /// What has to be done to the native side when the wrapper goes away.
    pub open spec fn drop_action(self) -> DropAction {
        drop_action_of(self.raw.store.declared_nnz(), self.rust_managed, self.raw.stype)
    }
}

/// A native matrix descriptor together with the duty to release it.
#[derive(Debug)]
pub struct SuperMatrix<T> {
    raw: Descriptor<T>,
    rust_managed: bool,
}

impl<T> View for SuperMatrix<T> {
    type V = SuperMatrixView<T>;

    closed spec fn view(&self) -> SuperMatrixView<T> {
        SuperMatrixView { raw: self.raw@, rust_managed: self.rust_managed }
    }
}

/// A type that can be read out of a wrapped native matrix.
pub trait FromSuperMatrix<T>: Sized {
    /// Reads a value out of the matrix, or gives nothing if the matrix does
    /// not hold one.
    fn from_super_matrix(matrix: &SuperMatrix<T>) -> Option<Self>;
}

fn native_indices(v: &Vec<usize>) -> (out: Vec<c_int>)
    requires
        forall|k: int| 0 <= k < v.len() ==> #[trigger] v[k] <= i32::MAX,
    ensures
        out@ == to_native(v@),
{
    let mut out: Vec<c_int> = Vec::new();
    let mut k: usize = 0;
    while k < v.len()
        invariant
            k <= v.len(),
            out.len() == k,
            forall|q: int| 0 <= q < v.len() ==> #[trigger] v[q] <= i32::MAX,
            forall|q: int| 0 <= q < k ==> out[q] == v[q] as c_int,
        decreases v.len() - k,
    {
        out.push(v[k] as c_int);
        k += 1;
    }
    assert(out@ =~= to_native(v@));
    out
}

fn host_indices(v: &Vec<c_int>) -> (out: Option<Vec<usize>>)
    ensures
        out is Some <==> (forall|k: int| 0 <= k < v.len() ==> 0 <= #[trigger] v[k]),
        out matches Some(h) ==> h@ == to_host(v@),
{
    let mut out: Vec<usize> = Vec::new();
    let mut k: usize = 0;
    while k < v.len()
        invariant
            k <= v.len(),
            out.len() == k,
            forall|q: int| 0 <= q < k ==> 0 <= #[trigger] v[q],
            forall|q: int| 0 <= q < k ==> out[q] == v[q] as usize,
        decreases v.len() - k,
    {
        if v[k] < 0 {
            return None;
        }
        out.push(v[k] as usize);
        k += 1;
    }
    assert(out@ =~= to_host(v@));
    Some(out)
}

fn copy_values<T: Copy>(v: &Vec<T>) -> (out: Vec<T>)
    ensures
        out@ == v@,
{
    let mut out: Vec<T> = Vec::new();
    let mut k: usize = 0;
    while k < v.len()
        invariant
            k <= v.len(),
            out@ == v@.subrange(0, k as int),
        decreases v.len() - k,
    {
        out.push(v[k]);
        k += 1;
        assert(out@ =~= v@.subrange(0, k as int));
    }
    assert(out@ =~= v@);
    out
}

impl<T> SuperMatrix<T> {
    /// Adopts a descriptor that was made elsewhere. The wrapper will not
    /// release it.
    pub fn from_raw(raw: Descriptor<T>) -> (m: SuperMatrix<T>)
        ensures
            m@ == (SuperMatrixView { raw: raw@, rust_managed: false }),
    {
        SuperMatrix { raw, rust_managed: false }
    }

    /// Gives the descriptor up to the caller. Nothing is destroyed, and the
    /// duty to release the payload goes with the descriptor.
    pub fn into_raw(self) -> (raw: Descriptor<T>)
        ensures
            raw@ == self@.raw,
    {
        self.raw
    }

    /// Wraps a matrix in column-compressed storage. The three arrays go to
    /// the descriptor as they are, and the wrapper answers for releasing them.
    pub fn from_csc_mat(mat: CsMat<T>) -> (m: SuperMatrix<T>)
        requires
            mat@.storage == CompressedStorage::CSC,
            mat@.fits_native(),
        ensures
            m@ == (SuperMatrixView { raw: csc_descriptor(mat@), rust_managed: true }),
            m@.raw.well_formed(),
    {
        let nrow = mat.rows() as c_int;
        let ncol = mat.cols() as c_int;
        let nnz = mat.nnz() as c_int;
        let (indptr, indices, data) = mat.into_raw_storage();
        let rowind = native_indices(&indices);
        assert forall|k: int| 0 <= k < indptr.len() implies #[trigger] indptr[k] <= i32::MAX by {
            assert(indptr[k] <= indptr[indptr.len() - 1]);
        }
        let colptr = native_indices(&indptr);
        SuperMatrix {
            raw: Descriptor {
                stype: StorageKind::CompCol,
                dtype: DataKind::Double,
                mtype: MathKind::General,
                nrow,
                ncol,
                store: Store::CompCol { nnz, nzval: data, rowind, colptr },
            },
            rust_managed: true,
        }
    }

    /// The number of rows that the descriptor declares.
    pub fn nrows(&self) -> (r: usize)
        ensures
            r == self@.raw.nrow as usize,
            0 <= self@.raw.nrow ==> r == self@.raw.nrow,
    {
        #[verifier::truncate]
        (self.raw.nrow as usize)
    }

    /// The number of columns that the descriptor declares.
    pub fn ncols(&self) -> (c: usize)
        ensures
            c == self@.raw.ncol as usize,
            0 <= self@.raw.ncol ==> c == self@.raw.ncol,
    {
        #[verifier::truncate]
        (self.raw.ncol as usize)
    }

    /// The descriptor.
    pub fn raw(&self) -> (raw: &Descriptor<T>)
        ensures
            raw@ == self@.raw,
    {
        &self.raw
    }

    /// The descriptor, to be changed in place. The duty to release it stays
    /// as it is.
    pub fn raw_mut(&mut self) -> (raw: &mut Descriptor<T>)
        ensures
            raw@ == old(self)@.raw,
            final(self)@ == (SuperMatrixView {
                raw: final(raw)@,
                rust_managed: old(self)@.rust_managed,
            }),
    {
        &mut self.raw
    }

    /// What has to be done to the native side when this wrapper goes away.
    pub fn drop_action(&self) -> (action: DropAction)
        ensures
            action == self@.drop_action(),
    {
        drop_action_for(self.raw.store.declared_nnz(), self.rust_managed, self.raw.stype)
    }
}

impl<T: Copy> SuperMatrix<T> {
    /// Wraps a dense matrix. The entries are laid out column after column,
    /// and the wrapper answers for releasing them.
    pub fn from_ndarray(array: DenseMatrix<T>) -> (m: SuperMatrix<T>)
        requires
            array@.fits_native(),
        ensures
            m@ == (SuperMatrixView { raw: dense_descriptor(array@), rust_managed: true }),
            m@.raw.well_formed(),
    {
        let nrow = array.nrows() as c_int;
        let ncol = array.ncols() as c_int;
        let nzval = array.to_column_major();
        SuperMatrix {
            raw: Descriptor {
                stype: StorageKind::Dense,
                dtype: DataKind::Double,
                mtype: MathKind::General,
                nrow,
                ncol,
                store: Store::Dense { lda: nrow, nzval },
            },
            rust_managed: true,
        }
    }

    /// Reads the matrix back as a dense matrix of the declared shape. Gives
    /// nothing if the payload is not a flat buffer of doubles.
    pub fn into_ndarray(self) -> (array: Option<DenseMatrix<T>>)
        ensures
            array is Some <==> dense_of_descriptor(self@.raw) is Some,
            array matches Some(a) ==> Some(a@) == dense_of_descriptor(self@.raw),
    {
        match self.raw.data_to_vec() {
            None => None,
            Some(data) => {
                let shape = (self.raw.nrow as usize, self.raw.ncol as usize);
                DenseMatrix::from_column_major(shape, &data)
            },
        }
    }
}

impl<T: Copy> FromSuperMatrix<T> for CsMat<T> {
    /// Reads a column-compressed matrix of doubles back. Gives nothing for
    /// any other kind of matrix, and for arrays that do not form a matrix.
    fn from_super_matrix(matrix: &SuperMatrix<T>) -> (back: Option<CsMat<T>>)
        ensures
            back is Some <==> csc_of_descriptor(matrix@.raw) is Some,
            back matches Some(m) ==> Some(m@) == csc_of_descriptor(matrix@.raw),
    {
        let raw = &matrix.raw;
        match (raw.stype, raw.dtype, raw.mtype) {
            (StorageKind::CompCol, DataKind::Double, MathKind::General) => {},
            _ => {
                return None;
            },
        }
        if raw.nrow < 0 || raw.ncol < 0 {
            return None;
        }
        match &raw.store {
            Store::CompCol { nnz, nzval, rowind, colptr } => {
                if *nnz < 0 || *nnz as usize != nzval.len() {
                    return None;
                }
                let indices = match host_indices(rowind) {
                    Some(h) => h,
                    None => {
                        return None;
                    },
                };
                let indptr = match host_indices(colptr) {
                    Some(h) => h,
                    None => {
                        return None;
                    },
                };
                let data = copy_values(nzval);
                CsMat::try_new(
                    CompressedStorage::CSC,
                    (raw.nrow as usize, raw.ncol as usize),
                    indptr,
                    indices,
                    data,
                )
            },
            _ => None,
        }
    }
}

/// Wrapping a column-compressed matrix and reading the wrapper back gives the
/// matrix again: the same shape and the same three arrays.
pub proof fn lemma_sparse_round_trip<T>(m: CsMatView<T>)
    requires
        m.well_formed(),
        m.storage == CompressedStorage::CSC,
        m.fits_native(),
    ensures
        csc_of_descriptor(csc_descriptor(m)) == Some(m),
{
    let d = csc_descriptor(m);
    assert forall|k: int| 0 <= k < m.indptr.len() implies #[trigger] m.indptr[k] <= i32::MAX by {
        assert(m.indptr[k] <= m.indptr[m.indptr.len() - 1]);
    }
    assert(to_host(to_native(m.indices)) =~= m.indices);
    assert(to_host(to_native(m.indptr)) =~= m.indptr);
}

/// Wrapping a dense matrix and reading the wrapper back gives the matrix
/// again, entry for entry.
pub proof fn lemma_dense_round_trip<T>(d: DenseView<T>)
    requires
        d.well_formed(),
    ensures
        dense_of_descriptor(dense_descriptor(d)) == Some(d),
{
    let desc = dense_descriptor(d);
    assert(desc.dense_doubles() =~= d.column_major());
    lemma_column_major_round_trip(d);
}

/// A wrapper around a matrix without nonzeros never reaches a native
/// destructor, whoever answers for it.
pub proof fn lemma_empty_is_left_alone<T>(m: CsMatView<T>, rust_managed: bool)
    requires
        m.nnz() == 0,
    ensures
        (SuperMatrixView { raw: csc_descriptor(m), rust_managed }).drop_action()
            == DropAction::Nothing,
{
}

/// An adopted descriptor never reaches a native destructor.
pub proof fn lemma_adopted_is_left_alone<T>(raw: DescriptorView<T>)
    ensures
        (SuperMatrixView { raw, rust_managed: false }).drop_action() == DropAction::Nothing,
{
}

} // verus!
