use libc::c_int;
use vstd::prelude::*;

verus! {

/// How a native matrix keeps its entries.
#[derive(Debug, Clone, Copy, PartialEq, Eq, Structural)]
pub enum StorageKind {
    /// Column-compressed.
    CompCol,
    /// Column-compressed, with permuted columns.
    CompColPermuted,
    /// Row-compressed.
    CompRow,
    /// Supernodal, by columns.
    SuperNodeCol,
    /// Supernodal, by columns, permuted.
    SuperNodeColPermuted,
    /// Supernodal, by rows.
    SuperNodeRow,
    /// Dense, column after column.
    Dense,
    /// Row-compressed and distributed.
    CompRowLocal,
}

/// The type of the entries of a native matrix.
#[derive(Debug, Clone, Copy, PartialEq, Eq, Structural)]
pub enum DataKind {
    Single,
    Double,
    SingleComplex,
    DoubleComplex,
}

/// The mathematical kind of a native matrix.
#[derive(Debug, Clone, Copy, PartialEq, Eq, Structural)]
pub enum MathKind {
    General,
    LowerUnit,
    UpperUnit,
    Lower,
    Upper,
    SymmetricLower,
    SymmetricUpper,
    HermitianLower,
    HermitianUpper,
}

/// What a descriptor points to.
#[derive(Debug, Clone, PartialEq)]
pub enum Store<T> {
    /// A column-compressed payload: the declared number of nonzeros and the
    /// three arrays.
    CompCol { nnz: c_int, nzval: Vec<T>, rowind: Vec<c_int>, colptr: Vec<c_int> },
    /// A dense payload: the leading dimension and the entries, column after
    /// column.
    Dense { lda: c_int, nzval: Vec<T> },
    /// A payload that this library hands on without reading it, known by the
    /// number of nonzeros that it declares.
    Other { nnz: c_int },
}

/// What a payload is, as plain values.
pub enum StoreView<T> {
    CompCol { nnz: int, nzval: Seq<T>, rowind: Seq<c_int>, colptr: Seq<c_int> },
    Dense { lda: int, nzval: Seq<T> },
    Other { nnz: int },
}

impl<T> StoreView<T> {
    /// The number that stands where a column-compressed payload keeps its
    /// number of nonzeros. A dense payload keeps its leading dimension there.
    pub open spec fn declared_nnz(self) -> int {
        match self {
            StoreView::CompCol { nnz, .. } => nnz,
            StoreView::Dense { lda, .. } => lda,
            StoreView::Other { nnz } => nnz,
        }
    }
}

impl<T> View for Store<T> {
    type V = StoreView<T>;

    open spec fn view(&self) -> StoreView<T> {
        match self {
            Store::CompCol { nnz, nzval, rowind, colptr } => StoreView::CompCol {
                nnz: *nnz as int,
                nzval: nzval@,
                rowind: rowind@,
                colptr: colptr@,
            },
            Store::Dense { lda, nzval } => StoreView::Dense { lda: *lda as int, nzval: nzval@ },
            Store::Other { nnz } => StoreView::Other { nnz: *nnz as int },
        }
    }
}

impl<T> Store<T> {
    /// See [`StoreView::declared_nnz`].
    pub fn declared_nnz(&self) -> (n: c_int)
        ensures
            n == self@.declared_nnz(),
    {
        match self {
            Store::CompCol { nnz, .. } => *nnz,
            Store::Dense { lda, .. } => *lda,
            Store::Other { nnz } => *nnz,
        }
    }
}

/// A native matrix descriptor: three tags, the shape and the payload.
#[derive(Debug, Clone, PartialEq)]
pub struct Descriptor<T> {
    pub stype: StorageKind,
    pub dtype: DataKind,
    pub mtype: MathKind,
    pub nrow: c_int,
    pub ncol: c_int,
    pub store: Store<T>,
}

/// What a descriptor is, as plain values.
pub struct DescriptorView<T> {
    pub stype: StorageKind,
    pub dtype: DataKind,
    pub mtype: MathKind,
    pub nrow: int,
    pub ncol: int,
    pub store: StoreView<T>,
}

impl<T> DescriptorView<T> {
    /// The payload is of the kind that the storage tag declares, and its
    /// sizes are those that the shape asks for.
    pub open spec fn well_formed(self) -> bool {
        &&& 0 <= self.nrow
        &&& 0 <= self.ncol
        &&& match self.stype {
            StorageKind::CompCol => {
                &&& self.store matches StoreView::CompCol { nnz, nzval, rowind, colptr }
                &&& 0 <= nnz
                &&& nzval.len() == nnz
                &&& rowind.len() == nnz
                &&& colptr.len() == self.ncol + 1
            },
            StorageKind::Dense => {
                &&& self.store matches StoreView::Dense { lda, nzval }
                &&& lda == self.nrow
                &&& nzval.len() == self.nrow * self.ncol
            },
            _ => self.store is Other,
        }
    }

    /// The payload can be read as a flat buffer of doubles: the storage is
    /// dense, the entries are doubles, and the buffer holds an entry for each
    /// position of the shape.
    pub open spec fn has_dense_doubles(self) -> bool {
        &&& self.stype == StorageKind::Dense
        &&& self.dtype == DataKind::Double
        &&& 0 <= self.nrow
        &&& 0 <= self.ncol
        &&& self.store matches StoreView::Dense { nzval, .. }
        &&& self.nrow * self.ncol <= nzval.len()
    }

    /// The flat buffer of a descriptor that [`Self::has_dense_doubles`]: one
    /// entry for each position of the shape, column after column.
    pub open spec fn dense_doubles(self) -> Seq<T> {
        self.store->Dense_nzval.subrange(0, self.nrow * self.ncol)
    }
}

impl<T> View for Descriptor<T> {
    type V = DescriptorView<T>;

    open spec fn view(&self) -> DescriptorView<T> {
        DescriptorView {
            stype: self.stype,
            dtype: self.dtype,
            mtype: self.mtype,
            nrow: self.nrow as int,
            ncol: self.ncol as int,
            store: self.store@,
        }
    }
}

impl<T: Copy> Descriptor<T> {
    /// Reads the payload as a flat buffer, column after column. Gives nothing
    /// unless the storage is dense and the entries are doubles.
    pub fn data_to_vec(&self) -> (data: Option<Vec<T>>)
        ensures
            data is Some <==> self@.has_dense_doubles(),
            data matches Some(v) ==> v@ == self@.dense_doubles(),
    {
        match self.stype {
            StorageKind::Dense => {},
            _ => {
                return None;
            },
        }
        match self.dtype {
            DataKind::Double => {},
            _ => {
                return None;
            },
        }
        if self.nrow < 0 || self.ncol < 0 {
            return None;
        }
        match &self.store {
            Store::Dense { nzval, .. } => {
                assert(self.nrow * self.ncol <= u64::MAX) by (nonlinear_arith)
                    requires
                        0 <= self.nrow <= i32::MAX,
                        0 <= self.ncol <= i32::MAX,
                ;
                let count: u64 = (self.nrow as u64) * (self.ncol as u64);
                if (nzval.len() as u64) < count {
                    return None;
                }
                let mut out: Vec<T> = Vec::new();
                let mut p: usize = 0;
                while (p as u64) < count
                    invariant
                        count <= nzval.len(),
                        p <= count,
                        out@ == nzval@.subrange(0, p as int),
                    decreases count - p,
                {
                    out.push(nzval[p]);
                    p += 1;
                    assert(out@ =~= nzval@.subrange(0, p as int));
                }
                Some(out)
            },
            _ => None,
        }
    }
}

} // verus!
