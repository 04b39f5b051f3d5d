use cl_matrix::{Error, Matrix};

#[test]
fn from_vec_keeps_shape_and_elements() {
    let m = Matrix::from_vec(2, 3, vec![1, 2, 3, 4, 5, 6]).unwrap();
    assert_eq!(m.rows(), 2);
    assert_eq!(m.columns(), 3);
    assert_eq!(m.buffer(), &vec![1, 2, 3, 4, 5, 6]);
}

#[test]
fn from_vec_rejects_too_few_elements() {
    assert_eq!(Matrix::from_vec(2, 3, vec![1, 2, 3, 4, 5]), Err(Error::ShapeMismatch));
}

#[test]
fn from_vec_rejects_too_many_elements() {
    assert_eq!(Matrix::from_vec(2, 3, vec![0; 7]), Err(Error::ShapeMismatch));
}

#[test]
fn from_vec_rejects_shape_beyond_machine_word() {
    assert_eq!(Matrix::from_vec(usize::MAX, 2, vec![0u32; 4]), Err(Error::ShapeMismatch));
}

#[test]
fn from_vec_accepts_empty_matrix() {
    let m = Matrix::from_vec(0, 5, Vec::<i64>::new()).unwrap();
    assert_eq!(m.rows(), 0);
    assert_eq!(m.columns(), 5);
    assert!(m.buffer().is_empty());
    assert_eq!(m.get(0, 0), None);
}

#[test]
fn get_reads_row_by_row() {
    let m = Matrix::from_vec(2, 3, vec![10, 11, 12, 20, 21, 22]).unwrap();
    assert_eq!(m.get(0, 0), Some(&10));
    assert_eq!(m.get(0, 2), Some(&12));
    assert_eq!(m.get(1, 0), Some(&20));
    assert_eq!(m.get(1, 2), Some(&22));
}

#[test]
fn get_outside_the_matrix_is_none() {
    let m = Matrix::from_vec(2, 3, vec![10, 11, 12, 20, 21, 22]).unwrap();
    assert_eq!(m.get(2, 0), None);
    assert_eq!(m.get(0, 3), None);
    assert_eq!(m.get(1, usize::MAX), None);
}

#[test]
fn equal_matrices_compare_equal() {
    let m = Matrix::from_vec(1, 2, vec![7, 8]).unwrap();
    assert_eq!(m, Matrix::from_vec(1, 2, vec![7, 8]).unwrap());
    assert_ne!(m, Matrix::from_vec(2, 1, vec![7, 8]).unwrap());
    assert_ne!(m, Matrix::from_vec(1, 2, vec![7, 9]).unwrap());
}
