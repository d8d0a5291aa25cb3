use gremlin::geo::matrix::Matrix;
use gremlin::geo::mtx4::Mtx4;
use gremlin::geo::point::Point;
use gremlin::geo::point3::Point3;
use gremlin::geo::unit::Unit;
use gremlin::geo::vec3::Vec3;
use gremlin::geo::vec4::Vec4;
use gremlin::geo::vector::Vector;
use gremlin::scalar::Scalar;

fn mat_scalar(v: f64) -> Scalar {
    Scalar::from_bits((v * 4294967296.0) as i64)
}

fn mat_float(s: Scalar) -> f64 {
    s.bits as f64 / 4294967296.0
}

fn mat_rows(vals: [[f64; 4]; 4]) -> [[Scalar; 4]; 4] {
    let mut rows = [[Scalar::zero(); 4]; 4];
    for i in 0..4 {
        for j in 0..4 {
            rows[i][j] = mat_scalar(vals[i][j]);
        }
    }
    rows
}

#[test]
fn matrix_matrix_identity() {
    let m = Matrix::identity();
    let v = Vector::new(mat_scalar(1.0), mat_scalar(2.0), mat_scalar(3.0));
    let p = Point::new(mat_scalar(6.0), mat_scalar(7.0), mat_scalar(8.0));

    assert_eq!(m.mul_vector(v), v);
    assert_eq!(m.mul_point(p), p);
}

#[test]
fn matrix_matrix_shift() {
    let m = Matrix::shift(Vector::new(mat_scalar(3.0), mat_scalar(4.0), mat_scalar(5.0)));
    let v = Vector::splat(mat_scalar(1.0));
    let p = Point::splat(mat_scalar(1.0));

    assert_eq!(m.mul_vector(v), v);
    assert_eq!(m.mul_point(p), Point::new(mat_scalar(4.0), mat_scalar(5.0), mat_scalar(6.0)));
}

#[test]
fn matrix_matrix_scale() {
    let m = Matrix::scale(mat_scalar(3.0), mat_scalar(4.0), mat_scalar(5.0));
    let v = Vector::splat(mat_scalar(1.0));
    let p = Point::splat(mat_scalar(1.0));

    assert_eq!(m.mul_vector(v), Vector::new(mat_scalar(3.0), mat_scalar(4.0), mat_scalar(5.0)));
    assert_eq!(m.mul_point(p), Point::new(mat_scalar(3.0), mat_scalar(4.0), mat_scalar(5.0)));
}

#[test]
fn matrix_matrix_add() {
    let m = Matrix::scale_uniform(mat_scalar(3.0));
    let n = Matrix::scale_uniform(mat_scalar(5.0));

    assert_eq!(
        m.add(n),
        Matrix::from_rows(mat_rows([
            [8.0, 0.0, 0.0, 0.0],
            [0.0, 8.0, 0.0, 0.0],
            [0.0, 0.0, 8.0, 0.0],
            [0.0, 0.0, 0.0, 2.0],
        ]))
    );
}

#[test]
fn matrix_matrix_inverse() {
    let m = Matrix::from_rows(mat_rows([
        [3.0, 4.0, 6.0, 8.0],
        [1.0, 2.0, 7.0, 2.0],
        [8.0, 9.0, 1.0, 3.0],
        [7.0, 7.0, 6.0, 2.0],
    ]));
    let m_inv = m.inverse().unwrap();

    let expected = [
        [0.174737, -0.694737, -0.48, 0.715789],
        [-0.212632, 0.652632, 0.56, -0.642105],
        [-0.0147368, 0.0947368, -0.08, 0.0842105],
        [0.176842, -0.136842, -0.04, -0.0105263],
    ];
    for i in 0..4 {
        for j in 0..4 {
            let got = mat_float(m_inv.rows[i][j]);
            let want = expected[i][j];
            assert!(
                (got - want).abs() <= want.abs() * 1e-5 + 1e-6,
                "entry ({}, {}): {} vs {}",
                i,
                j,
                got,
                want
            );
        }
    }
}

#[test]
fn matrix_inverse_round_trip() {
    let m = Matrix::from_rows(mat_rows([
        [3.0, 4.0, 6.0, 8.0],
        [1.0, 2.0, 7.0, 2.0],
        [8.0, 9.0, 1.0, 3.0],
        [7.0, 7.0, 6.0, 2.0],
    ]));
    let inv = m.inverse().unwrap();
    let back = inv.inverse().unwrap();
    for i in 0..4 {
        for j in 0..4 {
            let got = mat_float(back.rows[i][j]);
            let want = mat_float(m.rows[i][j]);
            assert!(
                (got - want).abs() <= want.abs() * 1e-5 + 1e-5,
                "entry ({}, {}): {} vs {}",
                i,
                j,
                got,
                want
            );
        }
    }

    let prod = m.mul(inv);
    for i in 0..4 {
        for j in 0..4 {
            let want = if i == j { 1.0 } else { 0.0 };
            let got = mat_float(prod.rows[i][j]);
            assert!((got - want).abs() <= 1e-5, "product entry ({}, {}): {}", i, j, got);
        }
    }
}

#[test]
fn matrix_singular_has_no_inverse() {
    let m = Matrix::from_rows(mat_rows([
        [1.0, 2.0, 3.0, 4.0],
        [2.0, 4.0, 6.0, 8.0],
        [0.0, 1.0, 0.0, 1.0],
        [1.0, 0.0, 1.0, 0.0],
    ]));
    assert_eq!(None, m.inverse());
}

#[test]
fn matrix_rotate_quarter_turn() {
    // A 90-degree turn about the z-axis: sine one, cosine zero.
    let m = Matrix::rotate(mat_scalar(1.0), mat_scalar(0.0), Unit::z_axis());
    assert_eq!(m.mul_vector(Vector::x_axis()), Vector::y_axis());
}

#[test]
fn matrix_look_at_from_origin() {
    let m = Matrix::look_at(
        Point::origin(),
        Point::new(mat_scalar(0.0), mat_scalar(0.0), mat_scalar(-1.0)),
        Vector::y_axis(),
    )
    .unwrap();
    // Looking down the negative z-axis keeps the world basis.
    assert_eq!(m.mul_vector(Vector::x_axis()), Vector::x_axis());
    assert_eq!(m.mul_vector(Vector::y_axis()), Vector::y_axis());
}

#[test]
fn mtx4_matrix_identity() {
    let m = Mtx4::identity();
    let v = Vec3::new(mat_scalar(1.0), mat_scalar(2.0), mat_scalar(3.0));
    let p = Point3::new(mat_scalar(6.0), mat_scalar(7.0), mat_scalar(8.0));

    assert_eq!(m.mul_vector(v), v);
    assert_eq!(m.mul_point(p), p);
}

#[test]
fn mtx4_matrix_shift() {
    let m = Mtx4::shift(Vec3::new(mat_scalar(3.0), mat_scalar(4.0), mat_scalar(5.0)));
    let v = Vec3::splat(mat_scalar(1.0));
    let p = Point3::splat(mat_scalar(1.0));

    assert_eq!(m.mul_vector(v), v);
    assert_eq!(m.mul_point(p), Point3::new(mat_scalar(4.0), mat_scalar(5.0), mat_scalar(6.0)));
}

#[test]
fn mtx4_matrix_scale() {
    let m = Mtx4::scale(mat_scalar(3.0), mat_scalar(4.0), mat_scalar(5.0));
    let v = Vec3::splat(mat_scalar(1.0));
    let p = Point3::splat(mat_scalar(1.0));

    assert_eq!(m.mul_vector(v), Vec3::new(mat_scalar(3.0), mat_scalar(4.0), mat_scalar(5.0)));
    assert_eq!(m.mul_point(p), Point3::new(mat_scalar(3.0), mat_scalar(4.0), mat_scalar(5.0)));
}

#[test]
fn mtx4_matrix_add() {
    let m = Mtx4::scale_uniform(mat_scalar(3.0));
    let n = Mtx4::scale_uniform(mat_scalar(5.0));

    assert_eq!(
        m.add(n),
        Mtx4::from_rows(mat_rows([
            [8.0, 0.0, 0.0, 0.0],
            [0.0, 8.0, 0.0, 0.0],
            [0.0, 0.0, 8.0, 0.0],
            [0.0, 0.0, 0.0, 2.0],
        ]))
    );
}

#[test]
fn mtx4_matrix_inverse() {
    let m = Mtx4::from_rows(mat_rows([
        [3.0, 4.0, 6.0, 8.0],
        [1.0, 2.0, 7.0, 2.0],
        [8.0, 9.0, 1.0, 3.0],
        [7.0, 7.0, 6.0, 2.0],
    ]));
    let m_inv = m.inverse();

    println!("{:?}", m_inv);
}

#[test]
fn mtx4_rotate_quarter_turn() {
    // A 90-degree turn about the z-axis: sine one, cosine zero.
    let axis = Vec3::new(mat_scalar(0.0), mat_scalar(0.0), mat_scalar(1.0));
    let m = Mtx4::rotate(mat_scalar(1.0), mat_scalar(0.0), axis);
    let x = Vec3::new(mat_scalar(1.0), mat_scalar(0.0), mat_scalar(0.0));
    let y = Vec3::new(mat_scalar(0.0), mat_scalar(1.0), mat_scalar(0.0));
    assert_eq!(m.mul_vector(x), y);
}

#[test]
fn mtx4_transpose_swaps_shift_column() {
    let m = Mtx4::shift(Vec3::new(mat_scalar(3.0), mat_scalar(4.0), mat_scalar(5.0)));
    let t = m.transpose();
    assert_eq!(t.rows[3][0], mat_scalar(3.0));
    assert_eq!(t.rows[3][1], mat_scalar(4.0));
    assert_eq!(t.rows[3][2], mat_scalar(5.0));
    assert_eq!(t.rows[0][3], mat_scalar(0.0));
}

#[test]
fn vec3_algebra_matches_vector_family() {
    let u = Vec3::splat(mat_scalar(1.0));
    let v = Vec3::new(mat_scalar(-1.0), mat_scalar(2.0), mat_scalar(1.0));
    assert_eq!(Vec3::min(u, v), Vec3::new(mat_scalar(-1.0), mat_scalar(1.0), mat_scalar(1.0)));
    assert_eq!(Vec3::max(u, v), Vec3::new(mat_scalar(1.0), mat_scalar(2.0), mat_scalar(1.0)));
    assert_eq!(u.dot(v), mat_scalar(2.0));
    assert!(u.is_finite());
    assert!(!u.is_nan());
    assert_eq!(u.len_squared(), mat_scalar(3.0));
}

#[test]
fn vec4_axes_mark_directions_and_positions() {
    assert_eq!(Vec4::x_axis().x, mat_scalar(1.0));
    assert_eq!(Vec4::x_axis().w, mat_scalar(0.0));
    assert_eq!(Vec4::w_axis().w, mat_scalar(1.0));
    let p = gremlin::geo::point3::Point3::splat(mat_scalar(2.0));
    let h = Vec4::from_point3(p);
    assert_eq!(h.w, mat_scalar(1.0));
    let v = Vec3::splat(mat_scalar(2.0));
    assert_eq!(Vec4::from_vec3(v).w, mat_scalar(0.0));
}
