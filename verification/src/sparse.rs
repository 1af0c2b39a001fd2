use vstd::prelude::*;

verus! {

/// Which dimension of a compressed sparse matrix is the compressed one.
#[derive(Debug, Clone, Copy, PartialEq, Eq, Structural)]
pub enum CompressedStorage {
    /// Compressed sparse rows: one strip of entries per row.
    CSR,
    /// Compressed sparse columns: one strip of entries per column.
    CSC,
}

/// What a compressed sparse matrix is: its shape and its three parallel arrays.
pub struct CsMatView<T> {
    pub storage: CompressedStorage,
    pub rows: nat,
    pub cols: nat,
    /// Where each strip starts in `indices` and `data`, and where the last ends.
    pub indptr: Seq<usize>,
    /// For each stored entry, its position along the dimension that is not compressed.
    pub indices: Seq<usize>,
    /// The stored entries, strip by strip.
    pub data: Seq<T>,
}

impl<T> CsMatView<T> {
    /// The number of strips: columns for CSC, rows for CSR.
    pub open spec fn outer_dim(self) -> nat {
        if self.storage == CompressedStorage::CSC {
            self.cols
        } else {
            self.rows
        }
    }

    /// The length of a strip when it is full: rows for CSC, columns for CSR.
    pub open spec fn inner_dim(self) -> nat {
        if self.storage == CompressedStorage::CSC {
            self.rows
        } else {
            self.cols
        }
    }

    /// The number of stored entries.
    pub open spec fn nnz(self) -> nat {
        self.data.len()
    }

    /// The strip pointers start at 0, never decrease and end at the number of
    /// stored entries; every index lies inside the matrix. The order of the
    /// entries inside a strip is free.
    pub open spec fn well_formed(self) -> bool {
        &&& self.indptr.len() == self.outer_dim() + 1
        &&& self.indices.len() == self.data.len()
        &&& self.indptr[0] == 0
        &&& self.indptr[self.outer_dim() as int] == self.data.len()
        &&& forall|i: int, j: int|
            0 <= i <= j < self.indptr.len() ==> self.indptr[i] <= self.indptr[j]
        &&& forall|k: int|
            0 <= k < self.indices.len() ==> (#[trigger] self.indices[k]) < self.inner_dim()
    }

    /// Every dimension and the number of stored entries can be written as a
    /// native index, so every pointer and index can too.
    pub open spec fn fits_native(self) -> bool {
        &&& self.rows <= i32::MAX
        &&& self.cols <= i32::MAX
        &&& self.data.len() <= i32::MAX
    }
}

/// The matrix, sound or not, that the given parts describe.
pub open spec fn parts_view<T>(
    storage: CompressedStorage,
    shape: (usize, usize),
    indptr: Seq<usize>,
    indices: Seq<usize>,
    data: Seq<T>,
) -> CsMatView<T> {
    CsMatView { storage, rows: shape.0 as nat, cols: shape.1 as nat, indptr, indices, data }
}

/// A sparse matrix in compressed storage. A value of this type always has a
/// sound structure: see [`CsMatView::well_formed`].
#[derive(Debug, PartialEq)]
pub struct CsMat<T> {
    storage: CompressedStorage,
    nrows: usize,
    ncols: usize,
    indptr: Vec<usize>,
    indices: Vec<usize>,
    data: Vec<T>,
}

impl<T> View for CsMat<T> {
    type V = CsMatView<T>;

    closed spec fn view(&self) -> CsMatView<T> {
        CsMatView {
            storage: self.storage,
            rows: self.nrows as nat,
            cols: self.ncols as nat,
            indptr: self.indptr@,
            indices: self.indices@,
            data: self.data@,
        }
    }
}

/// Whether `indptr[0..=upto]` never decreases.
spec fn sorted_upto(indptr: Seq<usize>, upto: int) -> bool {
    forall|i: int, j: int| 0 <= i <= j <= upto ==> indptr[i] <= indptr[j]
}

fn pointers_sorted(indptr: &Vec<usize>) -> (ok: bool)
    requires
        indptr.len() >= 1,
    ensures
        ok == sorted_upto(indptr@, indptr.len() - 1),
{
    let mut j: usize = 1;
    while j < indptr.len()
        invariant
            1 <= j <= indptr.len(),
            sorted_upto(indptr@, j - 1),
        decreases indptr.len() - j,
    {
        if indptr[j - 1] > indptr[j] {
            return false;
        }
        j += 1;
    }
    true
}

fn indices_below(indices: &Vec<usize>, bound: usize) -> (ok: bool)
    ensures
        ok == (forall|k: int| 0 <= k < indices.len() ==> (#[trigger] indices[k]) < bound),
{
    let mut k: usize = 0;
    while k < indices.len()
        invariant
            k <= indices.len(),
            forall|q: int| 0 <= q < k ==> (#[trigger] indices[q]) < bound,
        decreases indices.len() - k,
    {
        if indices[k] >= bound {
            return false;
        }
        k += 1;
    }
    true
}

impl<T> CsMat<T> {
    #[verifier::type_invariant]
    spec fn inv(self) -> bool {
        self@.well_formed()
    }

    /// Builds a matrix from its parts, or nothing if they do not form one.
    pub fn try_new(
        storage: CompressedStorage,
        shape: (usize, usize),
        indptr: Vec<usize>,
        indices: Vec<usize>,
        data: Vec<T>,
    ) -> (made: Option<CsMat<T>>)
        ensures
            made is Some <==> parts_view(storage, shape, indptr@, indices@, data@).well_formed(),
            made matches Some(m) ==> m@ == parts_view(storage, shape, indptr@, indices@, data@),
    {
        let (outer, inner): (usize, usize) = match storage {
            CompressedStorage::CSC => (shape.1, shape.0),
            CompressedStorage::CSR => (shape.0, shape.1),
        };
        if indptr.len() == 0 || indptr.len() - 1 != outer {
            return None;
        }
        if indices.len() != data.len() {
            return None;
        }
        if indptr[0] != 0 || indptr[outer] != data.len() {
            return None;
        }
        if !pointers_sorted(&indptr) {
            return None;
        }
        if !indices_below(&indices, inner) {
            return None;
        }
        Some(CsMat { storage, nrows: shape.0, ncols: shape.1, indptr, indices, data })
    }

    /// Builds a matrix in compressed sparse column storage.
    pub fn new_csc(shape: (usize, usize), indptr: Vec<usize>, indices: Vec<usize>, data: Vec<T>) -> (made:
        Option<CsMat<T>>)
        ensures
            made is Some <==> parts_view(CompressedStorage::CSC, shape, indptr@, indices@, data@).well_formed(),
            made matches Some(m) ==> m@ == parts_view(CompressedStorage::CSC, shape, indptr@, indices@, data@),
    {
        CsMat::try_new(CompressedStorage::CSC, shape, indptr, indices, data)
    }

    /// Builds a matrix in compressed sparse row storage.
    pub fn new_csr(shape: (usize, usize), indptr: Vec<usize>, indices: Vec<usize>, data: Vec<T>) -> (made:
        Option<CsMat<T>>)
        ensures
            made is Some <==> parts_view(CompressedStorage::CSR, shape, indptr@, indices@, data@).well_formed(),
            made matches Some(m) ==> m@ == parts_view(CompressedStorage::CSR, shape, indptr@, indices@, data@),
    {
        CsMat::try_new(CompressedStorage::CSR, shape, indptr, indices, data)
    }

    /// The number of rows.
    pub fn rows(&self) -> (r: usize)
        ensures
            r == self@.rows,
            self@.well_formed(),
    {
        proof {
            use_type_invariant(self);
        }
        self.nrows
    }

    /// The number of columns.
    pub fn cols(&self) -> (c: usize)
        ensures
            c == self@.cols,
            self@.well_formed(),
    {
        proof {
            use_type_invariant(self);
        }
        self.ncols
    }

    /// The number of stored entries.
    pub fn nnz(&self) -> (n: usize)
        ensures
            n == self@.nnz(),
            self@.well_formed(),
    {
        proof {
            use_type_invariant(self);
        }
        self.data.len()
    }

    /// Takes the matrix apart into its strip pointers, its indices and its
    /// entries.
    pub fn into_raw_storage(self) -> (p: (Vec<usize>, Vec<usize>, Vec<T>))
        ensures
            p.0@ == self@.indptr,
            p.1@ == self@.indices,
            p.2@ == self@.data,
            self@.well_formed(),
    {
        proof {
            use_type_invariant(&self);
        }
        (self.indptr, self.indices, self.data)
    }

    /// The storage order.
    pub fn storage(&self) -> (s: CompressedStorage)
        ensures
            s == self@.storage,
            self@.well_formed(),
    {
        proof {
            use_type_invariant(self);
        }
        self.storage
    }

    /// Whether the matrix is stored by columns.
    pub fn is_csc(&self) -> (b: bool)
        ensures
            b == (self@.storage == CompressedStorage::CSC),
            self@.well_formed(),
    {
        proof {
            use_type_invariant(self);
        }
        match self.storage {
            CompressedStorage::CSC => true,
            CompressedStorage::CSR => false,
        }
    }

    /// The strip pointers.
    pub fn indptr(&self) -> (p: &Vec<usize>)
        ensures
            p@ == self@.indptr,
            self@.well_formed(),
    {
        proof {
            use_type_invariant(self);
        }
        &self.indptr
    }

    /// The indices of the stored entries.
    pub fn indices(&self) -> (p: &Vec<usize>)
        ensures
            p@ == self@.indices,
            self@.well_formed(),
    {
        proof {
            use_type_invariant(self);
        }
        &self.indices
    }

    /// The stored entries.
    pub fn data(&self) -> (p: &Vec<T>)
        ensures
            p@ == self@.data,
            self@.well_formed(),
    {
        proof {
            use_type_invariant(self);
        }
        &self.data
    }

    /// Whether the dimensions and the number of stored entries can be written
    /// as native indices.
    pub fn fits_native(&self) -> (b: bool)
        ensures
            b == self@.fits_native(),
            self@.well_formed(),
    {
        proof {
            use_type_invariant(self);
        }
        self.nrows <= 0x7fff_ffff && self.ncols <= 0x7fff_ffff && self.data.len() <= 0x7fff_ffff
    }
}

} // verus!
