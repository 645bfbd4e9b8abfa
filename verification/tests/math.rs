use shaderpixel::math::matrix::Matrix;
use shaderpixel::math::vector::Vector;

fn matrix_from(cols: Vec<Vec<i64>>, rows: usize) -> Matrix {
    let mut columns: Vec<Vector> = Vec::new();
    for col in cols {
        assert_eq!(col.len(), rows);
        columns.push(Vector::new_init(col));
    }
    Matrix::from_cols(columns, rows)
}

#[test]
fn matrix_it_works() {
    let a = Matrix::from_cols(
        vec![Vector::new_init(vec![1, 2]), Vector::new_init(vec![3, 4])],
        2,
    );
    let b = matrix_from(vec![vec![1, 2], vec![3, 4]], 2);
    assert_eq!(Vector::new_init(vec![1, 2]), a.col(0));
    assert_eq!(Vector::new_init(vec![3, 4]), a.col(1));
    assert_eq!(a, b);
}

#[test]
fn matrix_add() {
    let a = matrix_from(vec![vec![1, 2], vec![3, 4]], 2);
    let b = matrix_from(vec![vec![5, 6], vec![7, 8]], 2);
    let c = matrix_from(vec![vec![6, 8], vec![10, 12]], 2);
    assert_eq!(a.add(&b), c);
}

#[test]
fn multiply() {
    let a = matrix_from(vec![vec![1, 4], vec![2, 5], vec![3, 6]], 2);
    let b = matrix_from(vec![vec![-1, 2, 3], vec![4, 5, 6]], 3);
    let c = matrix_from(vec![vec![12, 24], vec![32, 77]], 2);
    assert_eq!(a.mul(&b), c);
    let c = matrix_from(vec![vec![15, 22, 27], vec![18, 29, 36], vec![21, 36, 45]], 3);
    assert_eq!(b.mul(&a), c);
}

#[test]
fn from_translation() {
    let a = Matrix::from_translation(&Vector::new_init(vec![1, 2, 3]));
    let b = matrix_from(
        vec![vec![1, 0, 0, 0], vec![0, 1, 0, 0], vec![0, 0, 1, 0], vec![1, 2, 3, 1]],
        4,
    );
    assert_eq!(a, b);
}

#[test]
fn from_scale() {
    let a = Matrix::from_scale(4, 3);
    let b = matrix_from(
        vec![vec![3, 0, 0, 0], vec![0, 3, 0, 0], vec![0, 0, 3, 0], vec![0, 0, 0, 1]],
        4,
    );
    assert_eq!(a, b);
}

#[test]
fn transpose_sqr() {
    let a = matrix_from(vec![vec![1, 4, 7], vec![2, 5, 8], vec![3, 6, 9]], 3);
    let b = matrix_from(vec![vec![1, 2, 3], vec![4, 5, 6], vec![7, 8, 9]], 3);
    assert_eq!(a.transpose_sqr(), b);
}

#[test]
fn diag_and_unit() {
    let d = Matrix::diag(3, 7);
    assert_eq!(d.get_entry(0, 0), 7);
    assert_eq!(d.get_entry(1, 1), 7);
    assert_eq!(d.get_entry(2, 2), 7);
    assert_eq!(d.get_entry(0, 1), 0);
    let u = Matrix::unit(2);
    assert_eq!(u, matrix_from(vec![vec![1, 0], vec![0, 1]], 2));
}

#[test]
fn from_diag() {
    let m = Matrix::from_diag(&Vector::new_init(vec![2, 5, 9]));
    assert_eq!(m, matrix_from(vec![vec![2, 0, 0], vec![0, 5, 0], vec![0, 0, 9]], 3));
}

#[test]
fn vector_it_works() {
    let a = Vector::new_init(vec![1, 2]);
    let array = a.into_elems();
    assert_eq!(vec![1, 2], array);
}

#[test]
fn index() {
    let mut a = Vector::new_init(vec![1, 2]);
    assert_eq!(a.get(0), 1);
    assert_eq!(a.get(1), 2);
    a.set(0, 42);
    assert_eq!(a.get(0), 42);
}

#[test]
fn neg() {
    let a = Vector::new_init(vec![1, 2]);
    assert_eq!(a.neg(), Vector::new_init(vec![-1, -2]));
}

#[test]
fn vector_add() {
    let a = Vector::new_init(vec![1, 2]);
    let b = Vector::new_init(vec![3, 4]);
    assert_eq!(a.add(&b), Vector::new_init(vec![4, 6]));
}

#[test]
fn sub() {
    let a = Vector::new_init(vec![1, 2]);
    let b = Vector::new_init(vec![3, 4]);
    assert_eq!(a.sub(&b), Vector::new_init(vec![-2, -2]));
}

#[test]
fn mul_mat() {
    let v = Vector::new_init(vec![1, 2]);
    let m = matrix_from(vec![vec![1, 2], vec![3, 4]], 2);
    assert_eq!(v.mul_mat(&m), Vector::new_init(vec![7, 10]));
}

#[test]
fn dot() {
    let a = Vector::new_init(vec![1, 2, 3]);
    let b = Vector::new_init(vec![3, 4, 5]);
    assert_eq!(a.dot(&b), 26);
}

#[test]
fn cross() {
    let a = Vector::new_init(vec![1, 2, 3]);
    let b = Vector::new_init(vec![3, 4, 5]);
    assert_eq!(a.cross(&b), Vector::new_init(vec![-2, 4, -2]));
}

#[test]
fn sum_and_len() {
    let a = Vector::new_init(vec![1, 2, 3, 4]);
    assert_eq!(a.sum(), 10);
    assert_eq!(a.len(), 4);
    assert_eq!(Vector::new(3, 5), Vector::new_init(vec![5, 5, 5]));
}

#[test]
fn resize_keeps_prefix() {
    let a = Vector::new_init(vec![9, 8, 7, 6]);
    assert_eq!(a.resize(2), Vector::new_init(vec![9, 8]));
}

#[test]
fn components() {
    let a = Vector::new_init(vec![10, 20, 30, 40]);
    assert_eq!(a.x(), 10);
    assert_eq!(a.y(), 20);
    assert_eq!(a.z(), 30);
    assert_eq!(a.w(), 40);
}
