use nalgebra::{Matrix4, Vector4};
use rigid_frames::product::{compile, Factor, Product};

fn strings(words: &[&str]) -> Vec<String> {
    words.iter().map(|w| w.to_string()).collect()
}

fn rotation_z_degrees(deg: f64) -> Matrix4<f64> {
    let (s, c) = deg.to_radians().sin_cos();
    Matrix4::new(c, -s, 0.0, 0.0, s, c, 0.0, 0.0, 0.0, 0.0, 1.0, 0.0, 0.0, 0.0, 0.0, 1.0)
}

fn rotation_x_quarter() -> Matrix4<f64> {
    Matrix4::new(1.0, 0.0, 0.0, 0.0, 0.0, 0.0, -1.0, 0.0, 0.0, 1.0, 0.0, 0.0, 0.0, 0.0, 0.0, 1.0)
}

fn translation(x: f64, y: f64, z: f64) -> Matrix4<f64> {
    Matrix4::new(1.0, 0.0, 0.0, x, 0.0, 1.0, 0.0, y, 0.0, 0.0, 1.0, z, 0.0, 0.0, 0.0, 1.0)
}

fn product_matrix(p: &Product, frames: &[Matrix4<f64>]) -> Matrix4<f64> {
    let mut m = Matrix4::identity();
    for f in &p.factors {
        m *= match f {
            Factor::Frame(i) => frames[*i],
            Factor::InverseFrame(i) => frames[*i].try_inverse().unwrap(),
            Factor::RotationZ(d) => rotation_z_degrees(d.parse().unwrap()),
        };
    }
    m
}

#[test]
fn conjugated_quarter_turn_matches_direct_product() {
    let a = rotation_z_degrees(90.0);
    let b = rotation_x_quarter();
    let frames = [a, b];
    let p = compile(&strings(&["rotate", "A", "wrt", "B"]), &strings(&["A", "B"]), &strings(&[]))
        .unwrap();
    let got = product_matrix(&p, &frames);
    let expected = b * a * b.try_inverse().unwrap();
    for i in 0..4 {
        for j in 0..4 {
            assert!((got[(i, j)] - expected[(i, j)]).abs() < 1e-10);
        }
    }
}

#[test]
fn rotate_by_angle_turns_then_conjugates() {
    let a = translation(1.0, 2.0, 3.0);
    let b = rotation_x_quarter();
    let frames = [a, b];
    let p = compile(
        &strings(&["rotate", "A", ",", "by", "90", ",", "wrt", "B"]),
        &strings(&["A", "B"]),
        &strings(&[]),
    )
    .unwrap();
    let got = product_matrix(&p, &frames);
    let expected = b * (rotation_z_degrees(90.0) * a) * b.try_inverse().unwrap();
    assert!((got - expected).norm() < 1e-10);
}

#[test]
fn to_frame_round_trip_returns_the_point() {
    let a = translation(1.0, 0.0, 0.0) * rotation_z_degrees(30.0);
    let b = translation(0.0, 2.0, 0.0) * rotation_x_quarter();
    let frames = [a, b];
    let names = strings(&["A", "B"]);
    let p = Vector4::new(0.5, -1.0, 2.0, 1.0);
    let there = compile(
        &strings(&["to_frame", "p", ",", "from", ":", "A", ",", "to", ":", "B"]),
        &names,
        &strings(&["p"]),
    )
    .unwrap();
    let q = product_matrix(&there, &frames) * p;
    let back = compile(
        &strings(&["to_frame", "q", ",", "from", ":", "B", ",", "to", ":", "A"]),
        &names,
        &strings(&["q"]),
    )
    .unwrap();
    let r = product_matrix(&back, &frames) * q;
    assert!((r - p).norm() < 1e-10);
}

#[test]
fn to_frame_between_translations() {
    let frames = [translation(1.0, 0.0, 0.0), translation(0.0, 2.0, 0.0)];
    let p = compile(
        &strings(&["to_frame", "p_a", ",", "from", ":", "T_a_world", ",", "to", ":", "T_b_world"]),
        &strings(&["T_a_world", "T_b_world"]),
        &strings(&["p_a"]),
    )
    .unwrap();
    let got = product_matrix(&p, &frames) * Vector4::new(0.0, 0.0, 0.0, 1.0);
    assert!((got - Vector4::new(1.0, -2.0, 0.0, 1.0)).norm() < 1e-10);
}

#[test]
fn compose_applies_first_operand_first() {
    let a = rotation_z_degrees(90.0);
    let b = translation(1.0, 0.0, 0.0);
    let frames = [a, b];
    let p = compile(&strings(&["compose", "A", ",", "B"]), &strings(&["A", "B"]), &strings(&[]))
        .unwrap();
    let point = Vector4::new(1.0, 0.0, 0.0, 1.0);
    let got = product_matrix(&p, &frames) * point;
    let expected = b * (a * point);
    assert!((got - expected).norm() < 1e-10);
    assert!((got - Vector4::new(1.0, 1.0, 0.0, 1.0)).norm() < 1e-10);
}

fn frame(rows: [f64; 16]) -> Matrix4<f64> {
    Matrix4::from_row_slice(&rows)
}

#[test]
fn nalgebra_transform_macros_work() {
    let (tx, ty, tz) = (1.0_f64, 2.0_f64, 3.0_f64);
    let t = frame([
        1.0, 0.0, 0.0, tx, 0.0, 1.0, 0.0, ty, 0.0, 0.0, 1.0, tz, 0.0, 0.0, 0.0, 1.0,
    ]);
    let p = Vector4::new(0.5, -1.0, 2.0, 1.0);
    let applied = compile(&strings(&["apply_transform", "T", ",", "p"]), &strings(&["T"]), &strings(&["p"]))
        .unwrap();
    assert_eq!(applied.point, Some(0));
    assert_eq!(product_matrix(&applied, &[t]) * p, t * p);

    let a = frame([
        1.0, 0.0, 0.0, 1.0, 0.0, 1.0, 0.0, 0.0, 0.0, 0.0, 1.0, 0.0, 0.0, 0.0, 0.0, 1.0,
    ]);
    let b = frame([
        1.0, 0.0, 0.0, 0.0, 0.0, 1.0, 0.0, 2.0, 0.0, 0.0, 1.0, 0.0, 0.0, 0.0, 0.0, 1.0,
    ]);
    let c = compile(&strings(&["compose", "A", ",", "B"]), &strings(&["A", "B"]), &strings(&[]))
        .unwrap();
    // `B.compose(A)` is `A · B`; the two translations commute.
    assert_eq!(product_matrix(&c, &[a, b]), a * b);

    let t_a_world = a;
    let t_b_world = b;
    let p_a = Vector4::new(0.0, 0.0, 0.0, 1.0);
    let to = compile(
        &strings(&["to_frame", "p_a", ",", "from", ":", "T_a_world", ",", "to", ":", "T_b_world"]),
        &strings(&["T_a_world", "T_b_world"]),
        &strings(&["p_a"]),
    )
    .unwrap();
    let p_b = product_matrix(&to, &[t_a_world, t_b_world]) * p_a;
    let expected = t_b_world.try_inverse().unwrap() * (t_a_world * p_a);
    assert_eq!(p_b, expected);
}

#[test]
fn dsl_macros_work() {
    let (cos, sin) = (0.0_f64, 1.0_f64);
    let a = frame([
        cos, -sin, 0.0, 0.0, sin, cos, 0.0, 0.0, 0.0, 0.0, 1.0, 0.0, 0.0, 0.0, 0.0, 1.0,
    ]);
    let b = frame([
        1.0, 0.0, 0.0, 0.0, 0.0, cos, -sin, 0.0, 0.0, sin, cos, 0.0, 0.0, 0.0, 0.0, 1.0,
    ]);
    let frames = [a, b];
    let names = strings(&["A", "B"]);
    let wrt = b * a * b.try_inverse().unwrap();

    let r1 = compile(&strings(&["rotate", "A", "wrt", "B"]), &names, &strings(&[])).unwrap();
    assert_eq!(product_matrix(&r1, &frames), wrt);

    let r2 = compile(&strings(&["rotate", "A", ",", "wrt", "B"]), &names, &strings(&[])).unwrap();
    assert_eq!(product_matrix(&r2, &frames), wrt);

    let expected_angle = b * (rotation_z_degrees(90.0) * a) * b.try_inverse().unwrap();
    let r3 = compile(
        &strings(&["rotate", "A", ",", "by", "90.0", ",", "wrt", "B"]),
        &names,
        &strings(&[]),
    )
    .unwrap();
    assert_eq!(product_matrix(&r3, &frames), expected_angle);

    let r4 = compile(
        &strings(&["rotate", "A", ",", "by", "90", ",", "wrt", "B"]),
        &names,
        &strings(&[]),
    )
    .unwrap();
    assert_eq!(product_matrix(&r4, &frames), expected_angle);
}
