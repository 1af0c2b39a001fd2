use ndarray::{arr2, Array2};
use sprs::TriMat;
use superlu::{
    CsMat, DataKind, DenseMatrix, Descriptor, DropAction, FromSuperMatrix, MathKind, StorageKind,
    Store, SuperMatrix,
};

fn array2s_close(a: &Array2<f64>, b: &Array2<f64>, criterion: f64) -> bool {
    if a.nrows() != b.nrows() {
        return false;
    };
    if a.ncols() != b.ncols() {
        return false;
    };
    for i in 0..a.nrows() {
        for j in 0..a.ncols() {
            if ((a[[i, j]] - b[[i, j]]) / a[[i, j]]).abs() > criterion {
                return false;
            }
        }
    }
    true
}

fn sparse_of(mat: &sprs::CsMat<f64>) -> CsMat<f64> {
    let storage = if mat.is_csc() {
        superlu::CompressedStorage::CSC
    } else {
        superlu::CompressedStorage::CSR
    };
    CsMat::try_new(
        storage,
        (mat.rows(), mat.cols()),
        mat.indptr().raw_storage().to_vec(),
        mat.indices().to_vec(),
        mat.data().to_vec(),
    )
    .unwrap()
}

fn dense_of(array: &Array2<f64>) -> DenseMatrix<f64> {
    let entries: Vec<f64> = array.iter().cloned().collect();
    DenseMatrix::from_shape_vec((array.nrows(), array.ncols()), entries).unwrap()
}

fn array_of(dense: DenseMatrix<f64>) -> Array2<f64> {
    let shape = (dense.nrows(), dense.ncols());
    Array2::from_shape_vec(shape, dense.into_raw_vec()).unwrap()
}

/// Stands in for the native solve: elimination with partial pivoting on the
/// wrapped system, the solution written over the right-hand sides. Gives the
/// info code: 0, or the number of the first column without a pivot.
fn eliminate(a: &Descriptor<f64>, b: &mut Descriptor<f64>) -> i32 {
    let n: usize = a.ncol as usize;
    if a.nrow != a.ncol {
        return -2;
    }
    if b.nrow != a.nrow {
        return -7;
    }
    let mut m: Vec<Vec<f64>> = vec![vec![0.0; n]; n];
    match &a.store {
        Store::CompCol { nzval, rowind, colptr, .. } => {
            for j in 0..n {
                for k in (colptr[j] as usize)..(colptr[j + 1] as usize) {
                    m[rowind[k] as usize][j] += nzval[k];
                }
            }
        }
        _ => return -2,
    }
    let nrhs: usize = b.ncol as usize;
    let x: &mut Vec<f64> = match &mut b.store {
        Store::Dense { nzval, .. } => nzval,
        _ => return -7,
    };
    for k in 0..n {
        let mut p: usize = k;
        for i in k..n {
            if m[i][k].abs() > m[p][k].abs() {
                p = i;
            }
        }
        if m[p][k] == 0.0 {
            return (k + 1) as i32;
        }
        m.swap(k, p);
        for c in 0..nrhs {
            x.swap(c * n + k, c * n + p);
        }
        for i in (k + 1)..n {
            let f: f64 = m[i][k] / m[k][k];
            for j in k..n {
                m[i][j] -= f * m[k][j];
            }
            for c in 0..nrhs {
                x[c * n + i] -= f * x[c * n + k];
            }
        }
    }
    for c in 0..nrhs {
        for k in (0..n).rev() {
            let mut s: f64 = x[c * n + k];
            for j in (k + 1)..n {
                s -= m[k][j] * x[c * n + j];
            }
            x[c * n + k] = s / m[k][k];
        }
    }
    0
}

fn small_system() -> sprs::CsMat<f64> {
    let values = vec![
        19.0, 12.0, 12.0, 21.0, 12.0, 12.0, 21.0, 16.0, 21.0, 5.0, 21.0, 18.0,
    ];
    let row_indices = vec![0, 1, 4, 1, 2, 4, 0, 2, 0, 3, 3, 4];
    let col_ptrs = vec![0, 3, 6, 8, 10, 12];
    sprs::CsMat::new_csc((5, 5), col_ptrs, row_indices, values)
}

fn solve_small_system_directly() {
    let a_csc = small_system();
    let mut a_mat = SuperMatrix::from_csc_mat(sparse_of(&a_csc.clone()));

    let mut b_mat =
        SuperMatrix::from_ndarray(dense_of(&arr2(&[[1., 1., 1., 1., 1.]]).t().to_owned()));
    let a_raw: Descriptor<f64> = a_mat.raw_mut().clone();
    let info = eliminate(&a_raw, b_mat.raw_mut());
    if info != 0 {
        panic!("solver error")
    }
    let res = b_mat.raw().data_to_vec().unwrap();

    let sol = arr2(&[[-0.03125, 0.065476, 0.013393, 0.0625, 0.032738]])
        .t()
        .to_owned();
    assert!(array2s_close(
        &Array2::from_shape_vec((5, 1), res).unwrap(),
        &sol,
        1e-4
    ));
}

#[test]
fn test_super_matrix_test_from_csc_mat_basic() {
    solve_small_system_directly();
}

#[test]
fn tests_test_from_csc_mat_basic() {
    solve_small_system_directly();
}

fn wrap_empty_sparse() {
    let tri_mat = TriMat::new((3, 3));
    let csc_mat: sprs::CsMat<f64> = tri_mat.to_csc();

    let super_matrix = SuperMatrix::from_csc_mat(sparse_of(&csc_mat));

    assert_eq!(super_matrix.nrows(), 3);
    assert_eq!(super_matrix.ncols(), 3);
    assert_eq!(super_matrix.raw().store.declared_nnz(), 0);
    assert_eq!(super_matrix.drop_action(), DropAction::Nothing);
}

#[test]
fn test_super_matrix_test_from_csc_mat_empty() {
    wrap_empty_sparse();
}

#[test]
fn tests_test_from_csc_mat_empty() {
    wrap_empty_sparse();
}

fn wrap_dense_and_read_back() {
    let array = Array2::from_shape_vec((2, 2), vec![1.0, 2.0, 3.0, 4.0]).unwrap();

    let super_matrix = SuperMatrix::from_ndarray(dense_of(&array.clone()));

    assert_eq!(super_matrix.nrows(), 2);
    assert_eq!(super_matrix.ncols(), 2);
    match super_matrix.raw().stype {
        StorageKind::Dense => {}
        _ => panic!("Stype != SLU_DN"),
    }
    match super_matrix.raw().dtype {
        DataKind::Double => {}
        _ => panic!("Dtype != SLU_D"),
    }
    match super_matrix.raw().mtype {
        MathKind::General => {}
        _ => panic!("Mtype != SLU_GE"),
    }
    let back_conversion = array_of(super_matrix.into_ndarray().unwrap());
    assert!(array2s_close(&array, &back_conversion, 0.01));
}

#[test]
fn test_super_matrix_test_from_ndarray_basic() {
    wrap_dense_and_read_back();
}

#[test]
fn tests_test_from_ndarray_basic() {
    wrap_dense_and_read_back();
}

fn wrap_dense_zeros() {
    let array = Array2::<f64>::zeros((2, 2));

    let super_matrix = SuperMatrix::from_ndarray(dense_of(&array));

    assert_eq!(super_matrix.nrows(), 2);
    assert_eq!(super_matrix.ncols(), 2);
    match super_matrix.raw().stype {
        StorageKind::Dense => {}
        _ => {
            panic!("Stype!=SLU_DN")
        }
    }
    match super_matrix.raw().dtype {
        DataKind::Double => {}
        _ => {
            panic!("Dtype!=SLU_D")
        }
    }
    match super_matrix.raw().mtype {
        MathKind::General => {}
        _ => {
            panic!("Mtype!=SLU_GE")
        }
    }
    assert!(matches!(super_matrix.raw().store, Store::Dense { .. }));
}

#[test]
fn test_super_matrix_test_from_ndarray_empty() {
    wrap_dense_zeros();
}

#[test]
fn tests_test_from_ndarray_empty() {
    wrap_dense_zeros();
}

fn small_descriptor() -> Descriptor<f64> {
    let (s, u, p, e, r, l) = (19.0, 21.0, 16.0, 5.0, 18.0, 12.0);
    Descriptor {
        stype: StorageKind::CompCol,
        dtype: DataKind::Double,
        mtype: MathKind::General,
        nrow: 5,
        ncol: 5,
        store: Store::CompCol {
            nnz: 12,
            nzval: vec![s, l, l, u, l, l, u, p, u, e, u, r],
            rowind: vec![0, 1, 4, 1, 2, 4, 0, 2, 0, 3, 3, 4],
            colptr: vec![0, 3, 6, 8, 10, 12],
        },
    }
}

#[test]
fn test_from_raw() {
    let mat = small_descriptor();
    let super_mat = SuperMatrix::from_raw(mat);
    assert_eq!(super_mat.nrows(), 5);
    assert_eq!(super_mat.ncols(), 5);
    assert_eq!(super_mat.drop_action(), DropAction::Nothing);
}

#[test]
fn sparse_round_trip_keeps_the_matrix() {
    let a = small_system();
    let wrapped = SuperMatrix::from_csc_mat(sparse_of(&a));
    let back = CsMat::<f64>::from_super_matrix(&wrapped).unwrap();
    assert_eq!(back.storage(), superlu::CompressedStorage::CSC);
    assert_eq!(back.rows(), 5);
    assert_eq!(back.cols(), 5);
    assert_eq!(back.nnz(), 12);
    assert_eq!(back.indptr(), &vec![0, 3, 6, 8, 10, 12]);
    assert_eq!(back.indices(), &vec![0, 1, 4, 1, 2, 4, 0, 2, 0, 3, 3, 4]);
    assert_eq!(
        back.data(),
        &vec![19.0, 12.0, 12.0, 21.0, 12.0, 12.0, 21.0, 16.0, 21.0, 5.0, 21.0, 18.0]
    );
}

#[test]
fn sparse_round_trip_of_a_matrix_without_nonzeros() {
    let empty: sprs::CsMat<f64> = TriMat::new((3, 4)).to_csc();
    let wrapped = SuperMatrix::from_csc_mat(sparse_of(&empty));
    let back = CsMat::<f64>::from_super_matrix(&wrapped).unwrap();
    assert_eq!((back.rows(), back.cols(), back.nnz()), (3, 4, 0));
    assert_eq!(back.indptr(), &vec![0, 0, 0, 0, 0]);
}

#[test]
fn sparse_wrapper_holds_the_arrays_as_they_are() {
    let wrapped = SuperMatrix::from_csc_mat(sparse_of(&small_system()));
    let raw = wrapped.raw();
    assert_eq!(raw.stype, StorageKind::CompCol);
    assert_eq!(raw.dtype, DataKind::Double);
    assert_eq!(raw.mtype, MathKind::General);
    assert_eq!((raw.nrow, raw.ncol), (5, 5));
    match &raw.store {
        Store::CompCol { nnz, nzval, rowind, colptr } => {
            assert_eq!(*nnz, 12);
            assert_eq!(nzval.len(), 12);
            assert_eq!(nzval[9], 5.0);
            assert_eq!(rowind, &vec![0, 1, 4, 1, 2, 4, 0, 2, 0, 3, 3, 4]);
            assert_eq!(colptr, &vec![0, 3, 6, 8, 10, 12]);
        }
        _ => panic!("not column-compressed"),
    }
    assert_eq!(wrapped.drop_action(), DropAction::DestroyCompCol);
}

#[test]
fn dense_wrapper_is_column_major() {
    let dense = DenseMatrix::from_shape_vec((2, 3), vec![1.0, 2.0, 3.0, 4.0, 5.0, 6.0]).unwrap();
    assert_eq!(dense.get(1, 0), Some(&4.0));
    assert_eq!(dense.get(0, 2), Some(&3.0));
    assert_eq!(dense.get(2, 0), None);
    assert_eq!(dense.get(0, 3), None);
    assert_eq!(dense.to_column_major(), vec![1.0, 4.0, 2.0, 5.0, 3.0, 6.0]);
    let wrapped = SuperMatrix::from_ndarray(dense);
    assert_eq!((wrapped.nrows(), wrapped.ncols()), (2, 3));
    match &wrapped.raw().store {
        Store::Dense { lda, nzval } => {
            assert_eq!(*lda, 2);
            assert_eq!(nzval, &vec![1.0, 4.0, 2.0, 5.0, 3.0, 6.0]);
        }
        _ => panic!("not dense"),
    }
    assert_eq!(wrapped.drop_action(), DropAction::DestroyDense);
}

#[test]
fn dense_round_trip_keeps_a_matrix_that_is_not_square() {
    let entries = vec![1.5, -2.0, 3.25, 4.0, 5.0, 6.5];
    let dense = DenseMatrix::from_shape_vec((2, 3), entries.clone()).unwrap();
    let back = SuperMatrix::from_ndarray(dense).into_ndarray().unwrap();
    assert_eq!((back.nrows(), back.ncols()), (2, 3));
    assert_eq!(back.into_raw_vec(), entries);
}

#[test]
fn dense_matrices_are_tested_for_the_native_limits() {
    let small = DenseMatrix::from_shape_vec((2, 3), vec![0u8; 6]).unwrap();
    assert!(small.fits_native());
    let wide = DenseMatrix::from_shape_vec((0, usize::MAX), Vec::<u8>::new()).unwrap();
    assert!(!wide.fits_native());
    let tall = DenseMatrix::from_shape_vec((0x8000_0000, 0), Vec::<u8>::new()).unwrap();
    assert!(!tall.fits_native());
    let flat = DenseMatrix::from_shape_vec((0x7fff_ffff, 0), Vec::<u8>::new()).unwrap();
    assert!(flat.fits_native());
}

#[test]
fn dense_shapes_are_checked() {
    assert!(DenseMatrix::from_shape_vec((2, 2), vec![1.0, 2.0, 3.0]).is_none());
    assert!(DenseMatrix::from_shape_vec((usize::MAX, 2), vec![1.0]).is_none());
    assert!(DenseMatrix::from_shape_vec((0, 7), Vec::<f64>::new()).is_some());
    assert!(DenseMatrix::from_column_major((2, 2), &vec![1.0, 2.0, 3.0]).is_none());
    let read = DenseMatrix::from_column_major((2, 3), &vec![1, 4, 2, 5, 3, 6]).unwrap();
    assert_eq!(read.into_raw_vec(), vec![1, 2, 3, 4, 5, 6]);
}

#[test]
fn columns_make_a_matrix() {
    let columns = vec![vec![1, 2, 3], vec![4, 5, 6]];
    let dense = DenseMatrix::from_columns(&columns).unwrap();
    assert_eq!((dense.nrows(), dense.ncols()), (3, 2));
    assert_eq!(dense.get(2, 1), Some(&6));
    assert_eq!(dense.into_raw_vec(), vec![1, 4, 2, 5, 3, 6]);
    assert!(DenseMatrix::from_columns(&vec![vec![1, 2], vec![3]]).is_none());
    let none = DenseMatrix::from_columns(&Vec::<Vec<i32>>::new()).unwrap();
    assert_eq!((none.nrows(), none.ncols()), (0, 0));
}

#[test]
fn sparse_structure_is_checked() {
    let ok = CsMat::new_csc((2, 2), vec![0, 1, 2], vec![0, 1], vec![1.0, 2.0]);
    assert!(ok.is_some());
    let ok = ok.unwrap();
    assert!(ok.is_csc());
    assert!(ok.fits_native());
    assert!(CsMat::new_csc((2, 2), vec![0, 1], vec![0], vec![1.0]).is_none());
    assert!(CsMat::new_csc((2, 2), vec![1, 1, 2], vec![0, 1], vec![1.0, 2.0]).is_none());
    assert!(CsMat::new_csc((2, 2), vec![0, 1, 1], vec![0, 1], vec![1.0, 2.0]).is_none());
    assert!(CsMat::new_csc((2, 2), vec![0, 2, 1], vec![0], vec![1.0]).is_none());
    assert!(CsMat::new_csc((2, 2), vec![0, 1, 2], vec![0, 2], vec![1.0, 2.0]).is_none());
    assert!(CsMat::new_csc((2, 2), vec![0, 1, 2], vec![0], vec![1.0, 2.0]).is_none());
    assert!(CsMat::new_csc((2, 2), Vec::new(), Vec::new(), Vec::<f64>::new()).is_none());
    // The order inside a column is free.
    assert!(CsMat::new_csc((3, 1), vec![0, 2], vec![2, 0], vec![1.0, 2.0]).is_some());
    // By rows, the pointers follow the rows and the indices the columns.
    let by_rows = CsMat::new_csr((1, 3), vec![0, 2], vec![2, 0], vec![1.0, 2.0]).unwrap();
    assert!(!by_rows.is_csc());
    assert_eq!((by_rows.rows(), by_rows.cols()), (1, 3));
    assert!(CsMat::new_csc((1, 3), vec![0, 2], vec![2, 0], vec![1.0, 2.0]).is_none());
    let (indptr, indices, data) = by_rows.into_raw_storage();
    assert_eq!((indptr, indices, data), (vec![0, 2], vec![2, 0], vec![1.0, 2.0]));
}

#[test]
fn reading_back_misses_on_other_matrices() {
    let dense = SuperMatrix::from_ndarray(
        DenseMatrix::from_shape_vec((1, 1), vec![1.0]).unwrap(),
    );
    assert!(CsMat::<f64>::from_super_matrix(&dense).is_none());

    let mut symmetric = small_descriptor();
    symmetric.mtype = MathKind::SymmetricLower;
    assert!(CsMat::<f64>::from_super_matrix(&SuperMatrix::from_raw(symmetric)).is_none());

    let mut single = small_descriptor();
    single.dtype = DataKind::Single;
    assert!(CsMat::<f64>::from_super_matrix(&SuperMatrix::from_raw(single)).is_none());

    let mut negative = small_descriptor();
    if let Store::CompCol { rowind, .. } = &mut negative.store {
        rowind[3] = -1;
    }
    assert!(CsMat::<f64>::from_super_matrix(&SuperMatrix::from_raw(negative)).is_none());

    let mut short = small_descriptor();
    if let Store::CompCol { nnz, .. } = &mut short.store {
        *nnz = 11;
    }
    assert!(CsMat::<f64>::from_super_matrix(&SuperMatrix::from_raw(short)).is_none());

    let mut wide = small_descriptor();
    wide.ncol = 6;
    assert!(CsMat::<f64>::from_super_matrix(&SuperMatrix::from_raw(wide)).is_none());

    let adopted = SuperMatrix::from_raw(small_descriptor());
    assert_eq!(CsMat::<f64>::from_super_matrix(&adopted).unwrap().nnz(), 12);
}

#[test]
fn flat_payload_is_read_only_from_dense_doubles() {
    assert!(small_descriptor().data_to_vec().is_none());
    let mut dense = Descriptor {
        stype: StorageKind::Dense,
        dtype: DataKind::Double,
        mtype: MathKind::General,
        nrow: 2,
        ncol: 2,
        store: Store::Dense { lda: 2, nzval: vec![1.0, 2.0, 3.0, 4.0, 9.0] },
    };
    assert_eq!(dense.data_to_vec(), Some(vec![1.0, 2.0, 3.0, 4.0]));
    dense.dtype = DataKind::Single;
    assert!(dense.data_to_vec().is_none());
    dense.dtype = DataKind::Double;
    dense.ncol = 3;
    assert!(dense.data_to_vec().is_none());
    dense.ncol = -1;
    assert!(dense.data_to_vec().is_none());
    dense.ncol = 0;
    assert_eq!(dense.data_to_vec(), Some(Vec::new()));
    dense.ncol = 2;
    dense.stype = StorageKind::CompCol;
    assert!(dense.data_to_vec().is_none());
    assert!(SuperMatrix::from_raw(dense).into_ndarray().is_none());
    assert!(SuperMatrix::from_raw(small_descriptor()).into_ndarray().is_none());
}

#[test]
fn giving_the_descriptor_up_keeps_it_whole() {
    let wrapped = SuperMatrix::from_csc_mat(sparse_of(&small_system()));
    let raw = wrapped.into_raw();
    assert_eq!((raw.nrow, raw.ncol), (5, 5));
    assert_eq!(raw.store.declared_nnz(), 12);
    let adopted = SuperMatrix::from_raw(raw);
    assert_eq!(adopted.drop_action(), DropAction::Nothing);
    assert_eq!(adopted.into_raw().store.declared_nnz(), 12);
}

#[test]
fn descriptor_can_be_changed_in_place() {
    let mut wrapped = SuperMatrix::from_ndarray(
        DenseMatrix::from_shape_vec((2, 1), vec![1.0, 2.0]).unwrap(),
    );
    if let Store::Dense { nzval, .. } = &mut wrapped.raw_mut().store {
        nzval[1] = 7.0;
    }
    assert_eq!(wrapped.raw().data_to_vec(), Some(vec![1.0, 7.0]));
    assert_eq!(wrapped.drop_action(), DropAction::DestroyDense);
}

fn owned(stype: StorageKind, nnz: i32) -> SuperMatrix<f64> {
    let carrier = DenseMatrix::from_shape_vec((1, 1), vec![1.0]).unwrap();
    let mut wrapped = SuperMatrix::from_ndarray(carrier);
    let raw = wrapped.raw_mut();
    raw.stype = stype;
    raw.store = Store::Other { nnz };
    wrapped
}

#[test]
fn each_storage_kind_goes_to_its_destructor() {
    assert_eq!(owned(StorageKind::CompCol, 1).drop_action(), DropAction::DestroyCompCol);
    assert_eq!(
        owned(StorageKind::CompColPermuted, 1).drop_action(),
        DropAction::DestroyCompColPermuted
    );
    assert_eq!(owned(StorageKind::CompRow, 1).drop_action(), DropAction::DestroyCompRow);
    assert_eq!(owned(StorageKind::SuperNodeCol, 1).drop_action(), DropAction::DestroySuperNode);
    assert_eq!(
        owned(StorageKind::SuperNodeColPermuted, 1).drop_action(),
        DropAction::DestroySuperNode
    );
    assert_eq!(owned(StorageKind::SuperNodeRow, 1).drop_action(), DropAction::DestroySuperNode);
    assert_eq!(owned(StorageKind::Dense, 1).drop_action(), DropAction::DestroyDense);
    assert_eq!(owned(StorageKind::CompRowLocal, 1).drop_action(), DropAction::Nothing);
    assert_eq!(owned(StorageKind::SuperNodeCol, 0).drop_action(), DropAction::Nothing);
    assert_eq!(owned(StorageKind::Dense, -3).drop_action(), DropAction::DestroyDense);
}

#[test]
fn dense_wrapper_without_rows_is_left_alone() {
    let wrapped =
        SuperMatrix::from_ndarray(DenseMatrix::from_shape_vec((0, 3), Vec::<f64>::new()).unwrap());
    assert_eq!((wrapped.nrows(), wrapped.ncols()), (0, 3));
    assert_eq!(wrapped.drop_action(), DropAction::Nothing);
}

#[test]
fn negative_dimensions_of_an_adopted_descriptor_wrap_around() {
    let mut raw = small_descriptor();
    raw.nrow = -1;
    let adopted = SuperMatrix::from_raw(raw);
    assert_eq!(adopted.nrows(), usize::MAX);
    assert_eq!(adopted.ncols(), 5);
}
