use vstd::arithmetic::div_mod::lemma_fundamental_div_mod_converse;
use vstd::prelude::*;

verus! {

/// What a dense matrix is: its shape and its entries, row after row.
pub struct DenseView<T> {
    pub rows: nat,
    pub cols: nat,
    /// Entry `(i, j)` stands at `i * cols + j`.
    pub entries: Seq<T>,
}

impl<T> DenseView<T> {
    /// There is one entry for each position of the shape.
    pub open spec fn well_formed(self) -> bool {
        self.entries.len() == self.rows * self.cols
    }

    /// The entry in row `i` and column `j`.
    pub open spec fn at(self, i: int, j: int) -> T {
        self.entries[i * self.cols + j]
    }

    /// The entries column after column: entry `(i, j)` stands at `j * rows + i`.
    pub open spec fn column_major(self) -> Seq<T> {
        Seq::new(
            self.rows * self.cols,
            |p: int| self.at(p % (self.rows as int), p / (self.rows as int)),
        )
    }

    /// The shape and the number of entries can be written as native indices.
    pub open spec fn fits_native(self) -> bool {
        &&& self.rows <= i32::MAX
        &&& self.cols <= i32::MAX
        &&& self.rows * self.cols <= i32::MAX
    }
}

/// The matrix of the given shape whose entries, read column after column, are
/// `flat`: entry `(i, j)` is `flat[j * rows + i]`.
pub open spec fn dense_of_column_major<T>(rows: nat, cols: nat, flat: Seq<T>) -> DenseView<T> {
    DenseView {
        rows,
        cols,
        entries: Seq::new(
            rows * cols,
            |p: int| flat[(p % (cols as int)) * rows + p / (cols as int)],
        ),
    }
}

/// Whether all the columns have the length `len`.
pub open spec fn columns_have_len<T>(columns: Seq<Vec<T>>, len: nat) -> bool {
    forall|j: int| 0 <= j < columns.len() ==> (#[trigger] columns[j]).len() == len
}

/// The number of rows of the matrix that `columns` make up: the length of the
/// first column, and 0 if there is none.
pub open spec fn columns_rows<T>(columns: Seq<Vec<T>>) -> nat {
    if columns.len() == 0 {
        0
    } else {
        columns[0].len() as nat
    }
}

/// The matrix whose `j`-th column is `columns[j]`.
pub open spec fn dense_of_columns<T>(columns: Seq<Vec<T>>) -> DenseView<T> {
    let rows = columns_rows(columns);
    let cols = columns.len();
    DenseView {
        rows,
        cols,
        entries: Seq::new(rows * cols, |p: int| columns[p % (cols as int)][p / (cols as int)]),
    }
}

/// A position in a column-major buffer names one entry: from `q * d + r` with
/// `0 <= r < d` the two parts can be read back.
pub proof fn lemma_split_index(q: int, r: int, d: int)
    requires
        0 <= r < d,
    ensures
        (q * d + r) % d == r,
        (q * d + r) / d == q,
{
    lemma_fundamental_div_mod_converse(q * d + r, d, q, r);
}

/// In the column-major order entry `(i, j)` stands at `j * rows + i`.
pub proof fn lemma_column_major_index<T>(d: DenseView<T>, i: int, j: int)
    requires
        0 <= i < d.rows,
        0 <= j < d.cols,
    ensures
        0 <= j * d.rows + i < d.column_major().len(),
        d.column_major()[j * d.rows + i] == d.at(i, j),
{
    lemma_split_index(j, i, d.rows as int);
    assert(0 <= j * d.rows + i < d.rows * d.cols) by (nonlinear_arith)
        requires
            0 <= i < d.rows,
            0 <= j < d.cols,
    ;
}

/// Reading a matrix column after column and reading the buffer back gives
/// the matrix again.
pub proof fn lemma_column_major_round_trip<T>(d: DenseView<T>)
    requires
        d.well_formed(),
    ensures
        dense_of_column_major(d.rows, d.cols, d.column_major()) == d,
{
    let back = dense_of_column_major(d.rows, d.cols, d.column_major());
    let rows = d.rows as int;
    let cols = d.cols as int;
    assert forall|p: int| 0 <= p < rows * cols implies back.entries[p] == d.entries[p] by {
        assert(cols > 0) by (nonlinear_arith)
            requires
                0 <= p < rows * cols,
                0 <= rows,
                0 <= cols,
        ;
        let i = p / cols;
        let j = p % cols;
        vstd::arithmetic::div_mod::lemma_fundamental_div_mod(p, cols);
        assert(0 <= i < rows) by (nonlinear_arith)
            requires
                0 <= p < rows * cols,
                p == cols * i + j,
                0 <= j < cols,
        ;
        lemma_column_major_index(d, i, j);
        assert(i * cols + j == p) by (nonlinear_arith)
            requires
                p == cols * i + j,
        ;
    }
    assert(back.entries =~= d.entries);
}

/// A dense matrix of values of any one type, stored row after row. A value
/// of this type always holds one entry for each position of its shape.
#[derive(Debug, PartialEq)]
pub struct DenseMatrix<T> {
    nrows: usize,
    ncols: usize,
    data: Vec<T>,
}

impl<T> View for DenseMatrix<T> {
    type V = DenseView<T>;

    closed spec fn view(&self) -> DenseView<T> {
        DenseView { rows: self.nrows as nat, cols: self.ncols as nat, entries: self.data@ }
    }
}

impl<T> DenseMatrix<T> {
    #[verifier::type_invariant]
    spec fn inv(self) -> bool {
        self@.well_formed()
    }

    /// Makes a matrix of the given shape from its entries, row after row, or
    /// nothing if their number is not that of the shape.
    pub fn from_shape_vec(shape: (usize, usize), data: Vec<T>) -> (made: Option<DenseMatrix<T>>)
        ensures
            made is Some <==> data.len() == shape.0 * shape.1,
            made matches Some(m) ==> m@ == (DenseView {
                rows: shape.0 as nat,
                cols: shape.1 as nat,
                entries: data@,
            }),
    {
        match shape.0.checked_mul(shape.1) {
            Some(n) => {
                if n == data.len() {
                    Some(DenseMatrix { nrows: shape.0, ncols: shape.1, data })
                } else {
                    None
                }
            },
            None => None,
        }
    }

    /// The number of rows.
    pub fn nrows(&self) -> (r: usize)
        ensures
            r == self@.rows,
            self@.well_formed(),
    {
        proof {
            use_type_invariant(self);
        }
        self.nrows
    }

    /// The number of columns.
    pub fn ncols(&self) -> (c: usize)
        ensures
            c == self@.cols,
            self@.well_formed(),
    {
        proof {
            use_type_invariant(self);
        }
        self.ncols
    }

    /// Whether the shape and the number of entries can be written as native
    /// indices.
    pub fn fits_native(&self) -> (b: bool)
        ensures
            b == self@.fits_native(),
            self@.well_formed(),
    {
        proof {
            use_type_invariant(self);
        }
        self.nrows <= 0x7fff_ffff && self.ncols <= 0x7fff_ffff && self.data.len() <= 0x7fff_ffff
    }

    /// The entry in row `i` and column `j`, or nothing outside the matrix.
    pub fn get(&self, i: usize, j: usize) -> (e: Option<&T>)
        ensures
            e is Some <==> i < self@.rows && j < self@.cols,
            e matches Some(v) ==> *v == self@.at(i as int, j as int),
    {
        proof {
            use_type_invariant(self);
        }
        if i < self.nrows && j < self.ncols {
            assert(self.data.len() == self.nrows * self.ncols);
            assert(i * self.ncols + j < self.nrows * self.ncols) by (nonlinear_arith)
                requires
                    i < self.nrows,
                    j < self.ncols,
            ;
            Some(&self.data[i * self.ncols + j])
        } else {
            None
        }
    }

    /// The entries, row after row.
    pub fn into_raw_vec(self) -> (data: Vec<T>)
        ensures
            data@ == self@.entries,
            self@.well_formed(),
    {
        proof {
            use_type_invariant(&self);
        }
        self.data
    }
}

impl<T: Copy> DenseMatrix<T> {
    /// Sets the columns side by side, or gives nothing if they differ in length.
    pub fn from_columns(columns: &Vec<Vec<T>>) -> (made: Option<DenseMatrix<T>>)
        ensures
            made is Some <==> columns_have_len(columns@, columns_rows(columns@)),
            made matches Some(m) ==> m@ == dense_of_columns(columns@),
    {
        let ncols = columns.len();
        let nrows = if ncols == 0 {
            0
        } else {
            columns[0].len()
        };
        let mut j: usize = 0;
        while j < ncols
            invariant
                ncols == columns.len(),
                nrows == columns_rows(columns@),
                j <= ncols,
                forall|q: int| 0 <= q < j ==> (#[trigger] columns[q]).len() == nrows,
            decreases ncols - j,
        {
            if columns[j].len() != nrows {
                return None;
            }
            j += 1;
        }
        let mut data: Vec<T> = Vec::new();
        let mut i: usize = 0;
        while i < nrows
            invariant
                ncols == columns.len(),
                nrows == columns_rows(columns@),
                columns_have_len(columns@, nrows as nat),
                i <= nrows,
                data.len() == i * ncols,
                forall|p: int|
                    0 <= p < data.len() ==> data[p] == columns[p % (ncols as int)][p / (
                    ncols as int)],
            decreases nrows - i,
        {
            let mut j: usize = 0;
            while j < ncols
                invariant
                    ncols == columns.len(),
                    columns_have_len(columns@, nrows as nat),
                    i < nrows,
                    j <= ncols,
                    data.len() == i * ncols + j,
                    forall|p: int|
                        0 <= p < data.len() ==> data[p] == columns[p % (ncols as int)][p / (
                        ncols as int)],
                decreases ncols - j,
            {
                proof {
                    lemma_split_index(i as int, j as int, ncols as int);
                }
                data.push(columns[j][i]);
                j += 1;
            }
            assert(i * ncols + ncols == (i + 1) * ncols) by (nonlinear_arith);
            i += 1;
        }
        assert(data@ =~= dense_of_columns(columns@).entries);
        Some(DenseMatrix { nrows, ncols, data })
    }

    /// The entries column after column.
    pub fn to_column_major(&self) -> (flat: Vec<T>)
        ensures
            flat@ == self@.column_major(),
            self@.well_formed(),
    {
        proof {
            use_type_invariant(self);
        }
        let mut flat: Vec<T> = Vec::new();
        let mut col: usize = 0;
        while col < self.ncols
            invariant
                self.data.len() == self.nrows * self.ncols,
                col <= self.ncols,
                flat.len() == col * self.nrows,
                forall|p: int|
                    0 <= p < flat.len() ==> flat[p] == self@.at(
                        p % (self.nrows as int),
                        p / (self.nrows as int),
                    ),
            decreases self.ncols - col,
        {
            let mut row: usize = 0;
            while row < self.nrows
                invariant
                    self.data.len() == self.nrows * self.ncols,
                    col < self.ncols,
                    row <= self.nrows,
                    flat.len() == col * self.nrows + row,
                    forall|p: int|
                        0 <= p < flat.len() ==> flat[p] == self@.at(
                            p % (self.nrows as int),
                            p / (self.nrows as int),
                        ),
                decreases self.nrows - row,
            {
                assert(row * self.ncols + col < self.nrows * self.ncols) by (nonlinear_arith)
                    requires
                        row < self.nrows,
                        col < self.ncols,
                ;
                proof {
                    lemma_split_index(col as int, row as int, self.nrows as int);
                }
                flat.push(self.data[row * self.ncols + col]);
                row += 1;
            }
            assert(col * self.nrows + self.nrows == (col + 1) * self.nrows) by (nonlinear_arith);
            col += 1;
        }
        assert(self.ncols * self.nrows == self.nrows * self.ncols) by (nonlinear_arith);
        assert(flat@ =~= self@.column_major());
        flat
    }

    /// Reads a column-major buffer as a matrix of the given shape, or gives
    /// nothing if the buffer has another length than the shape asks for.
    pub fn from_column_major(shape: (usize, usize), flat: &Vec<T>) -> (made: Option<DenseMatrix<T>>)
        ensures
            made is Some <==> flat.len() == shape.0 * shape.1,
            made matches Some(m) ==> m@ == dense_of_column_major(
                shape.0 as nat,
                shape.1 as nat,
                flat@,
            ),
    {
        let nrows = shape.0;
        let ncols = shape.1;
        match nrows.checked_mul(ncols) {
            Some(n) => {
                if n != flat.len() {
                    return None;
                }
            },
            None => {
                return None;
            },
        }
        let mut data: Vec<T> = Vec::new();
        let mut i: usize = 0;
        while i < nrows
            invariant
                flat.len() == nrows * ncols,
                i <= nrows,
                data.len() == i * ncols,
                forall|p: int|
                    0 <= p < data.len() ==> data[p] == flat[(p % (ncols as int)) * nrows + p / (
                    ncols as int)],
            decreases nrows - i,
        {
            let mut j: usize = 0;
            while j < ncols
                invariant
                    flat.len() == nrows * ncols,
                    i < nrows,
                    j <= ncols,
                    data.len() == i * ncols + j,
                    forall|p: int|
                        0 <= p < data.len() ==> data[p] == flat[(p % (ncols as int)) * nrows + p
                            / (ncols as int)],
                decreases ncols - j,
            {
                assert(j * nrows + i < nrows * ncols) by (nonlinear_arith)
                    requires
                        i < nrows,
                        j < ncols,
                ;
                proof {
                    lemma_split_index(i as int, j as int, ncols as int);
                }
                data.push(flat[j * nrows + i]);
                j += 1;
            }
            assert(i * ncols + ncols == (i + 1) * ncols) by (nonlinear_arith);
            i += 1;
        }
        assert(data@ =~= dense_of_column_major(nrows as nat, ncols as nat, flat@).entries);
        Some(DenseMatrix { nrows, ncols, data })
    }
}

} // verus!
