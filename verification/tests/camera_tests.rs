use animbox::camera::Camera;
use animbox::camera::DEFAULT_ASPECT;
use animbox::camera::DEFAULT_AZIMUTH;
use animbox::camera::DEFAULT_DISTANCE;
use animbox::camera::DEFAULT_FAR_CLIP;
use animbox::camera::DEFAULT_FOV;
use animbox::camera::DEFAULT_INCLINE;
use animbox::camera::DEFAULT_NEAR_CLIP;
use animbox::matrix::Angle;
use animbox::matrix::Matrix;
use animbox::scalar::Scalar;
use animbox::scalar::Vec3;

fn s(micros: i64) -> Scalar {
    Scalar::from_micros(micros)
}

fn view_projection(
    fov: Scalar,
    aspect: Scalar,
    near: Scalar,
    far: Scalar,
    distance: Scalar,
    azimuth: Scalar,
    incline: Scalar,
) -> Matrix {
    Matrix::Product(
        Box::new(Matrix::Perspective { aspect, fovy: Angle::Degrees(fov), near, far }),
        Box::new(Matrix::Inverse(Box::new(Matrix::Product(
            Box::new(Matrix::Product(
                Box::new(Matrix::Rotation {
                    angle: Angle::Degrees(azimuth.neg()),
                    axis: Vec3::from_units(0, 1, 0),
                }),
                Box::new(Matrix::Rotation {
                    angle: Angle::Degrees(incline.neg()),
                    axis: Vec3::from_units(1, 0, 0),
                }),
            )),
            Box::new(Matrix::Translation(Vec3::new(s(0), s(0), distance))),
        )))),
    )
}

fn to_float(value: Scalar) -> f32 {
    value.micros() as f32 / 1_000_000.0
}

fn to_vec3(v: Vec3) -> nalgebra_glm::Vec3 {
    nalgebra_glm::vec3(to_float(v.x), to_float(v.y), to_float(v.z))
}

fn to_radians(angle: Angle) -> f32 {
    match angle {
        Angle::Degrees(d) => nalgebra_glm::pi::<f32>() * to_float(d) / 180.0,
        Angle::Radians(r) => to_float(r),
    }
}

fn evaluate(m: &Matrix) -> nalgebra_glm::Mat4 {
    match m {
        Matrix::Identity => nalgebra_glm::Mat4::identity(),
        Matrix::Translation(offset) => nalgebra_glm::translation(&to_vec3(*offset)),
        Matrix::Rotation { angle, axis } => {
            nalgebra_glm::rotation(to_radians(*angle), &to_vec3(*axis))
        }
        Matrix::Perspective { aspect, fovy, near, far } => nalgebra_glm::perspective(
            to_float(*aspect),
            to_radians(*fovy),
            to_float(*near),
            to_float(*far),
        ),
        Matrix::Inverse(inner) => nalgebra_glm::inverse(&evaluate(inner)),
        Matrix::Product(left, right) => evaluate(left) * evaluate(right),
    }
}

#[test]
fn camera_defaults() {
    assert_eq!(DEFAULT_FOV, 45_000_000);
    assert_eq!(DEFAULT_ASPECT, 1_330_000);
    assert_eq!(DEFAULT_NEAR_CLIP, 100_000);
    assert_eq!(DEFAULT_FAR_CLIP, 100_000_000);
    assert_eq!(DEFAULT_DISTANCE, 10_000_000);
    assert_eq!(DEFAULT_AZIMUTH, 0);
    assert_eq!(DEFAULT_INCLINE, 20_000_000);
    let camera = Camera::new();
    assert_eq!(camera.get_distance(), s(10_000_000));
    assert_eq!(camera.get_azimuth(), s(0));
    assert_eq!(camera.get_incline(), s(20_000_000));
    assert_eq!(camera.get_aspect(), s(1_330_000));
}

#[test]
fn camera_matrix_is_the_identity_before_the_first_update() {
    let camera = Camera::new();
    assert_eq!(camera.get_view_proj_mat(), Matrix::Identity);
}

#[test]
fn camera_setters_set_one_thing() {
    let mut camera = Camera::new();
    camera.set_distance(s(2_500_000));
    assert_eq!(camera.get_distance(), s(2_500_000));
    assert_eq!(camera.get_azimuth(), s(0));
    assert_eq!(camera.get_incline(), s(20_000_000));
    camera.set_azimuth(s(-45_000_000));
    assert_eq!(camera.get_azimuth(), s(-45_000_000));
    assert_eq!(camera.get_distance(), s(2_500_000));
    camera.set_incline(s(60_000_000));
    assert_eq!(camera.get_incline(), s(60_000_000));
    assert_eq!(camera.get_azimuth(), s(-45_000_000));
    camera.set_aspect(s(1_777_777));
    assert_eq!(camera.get_aspect(), s(1_777_777));
    assert_eq!(camera.get_incline(), s(60_000_000));
    // the matrix follows only with an update
    assert_eq!(camera.get_view_proj_mat(), Matrix::Identity);
}

#[test]
fn camera_takes_an_incline_beyond_a_right_angle() {
    let mut camera = Camera::new();
    camera.set_incline(s(135_000_000));
    assert_eq!(camera.get_incline(), s(135_000_000));
}

#[test]
fn camera_update_composes_projection_and_view() {
    let mut camera = Camera::new();
    camera.update();
    assert_eq!(
        camera.get_view_proj_mat(),
        view_projection(
            s(45_000_000),
            s(1_330_000),
            s(100_000),
            s(100_000_000),
            s(10_000_000),
            s(0),
            s(20_000_000),
        )
    );
}

#[test]
fn camera_update_negates_azimuth_and_incline() {
    let mut camera = Camera::new();
    camera.set_azimuth(s(30_000_000));
    camera.set_incline(s(-15_000_000));
    camera.set_distance(s(4_000_000));
    camera.set_aspect(s(2_000_000));
    camera.update();
    let expected = Matrix::Product(
        Box::new(Matrix::Perspective {
            aspect: s(2_000_000),
            fovy: Angle::Degrees(s(45_000_000)),
            near: s(100_000),
            far: s(100_000_000),
        }),
        Box::new(Matrix::Inverse(Box::new(Matrix::Product(
            Box::new(Matrix::Product(
                Box::new(Matrix::Rotation {
                    angle: Angle::Degrees(s(-30_000_000)),
                    axis: Vec3::from_units(0, 1, 0),
                }),
                Box::new(Matrix::Rotation {
                    angle: Angle::Degrees(s(15_000_000)),
                    axis: Vec3::from_units(1, 0, 0),
                }),
            )),
            Box::new(Matrix::Translation(Vec3::from_units(0, 0, 4))),
        )))),
    );
    assert_eq!(camera.get_view_proj_mat(), expected);
}

#[test]
fn camera_update_twice_is_update_once() {
    let mut camera = Camera::new();
    camera.set_azimuth(s(12_345_678));
    camera.update();
    let once = camera.get_view_proj_mat();
    camera.update();
    let twice = camera.get_view_proj_mat();
    assert_eq!(once, twice);
}

#[test]
fn camera_matrix_stays_until_the_next_update() {
    let mut camera = Camera::new();
    camera.update();
    let before = camera.get_view_proj_mat();
    camera.set_azimuth(s(90_000_000));
    assert_eq!(camera.get_view_proj_mat(), before);
    camera.update();
    assert_ne!(camera.get_view_proj_mat(), before);
}

#[test]
fn camera_reset_restores_distance_azimuth_and_incline() {
    let mut camera = Camera::new();
    camera.set_distance(s(1));
    camera.set_azimuth(s(2));
    camera.set_incline(s(3));
    camera.set_aspect(s(4));
    camera.update();
    let matrix = camera.get_view_proj_mat();
    camera.reset();
    assert_eq!(camera.get_distance(), s(10_000_000));
    assert_eq!(camera.get_azimuth(), s(0));
    assert_eq!(camera.get_incline(), s(20_000_000));
    // the rest stays
    assert_eq!(camera.get_aspect(), s(4));
    assert_eq!(camera.get_view_proj_mat(), matrix);
}

#[test]
fn camera_default_matrix_in_numbers() {
    let mut camera = Camera::new();
    camera.update();
    let m = evaluate(&camera.get_view_proj_mat());
    let golden: [[f32; 4]; 4] = [
        [1.8151982, 0.0, 0.0, 0.0],
        [0.0, 2.2686187, -0.8257097, 0.0],
        [0.0, -0.3427049, -0.9415739, 9.8198198],
        [0.0, -0.3420201, -0.9396926, 10.0],
    ];
    for row in 0..4usize {
        for col in 0..4usize {
            let got: f32 = m[(row, col)];
            assert!(
                (got - golden[row][col]).abs() < 1e-4,
                "at ({}, {}): {} is not {}",
                row,
                col,
                got,
                golden[row][col]
            );
        }
    }
    // the same settings give the same numbers, bit for bit
    camera.update();
    let again = evaluate(&camera.get_view_proj_mat());
    assert_eq!(m, again);
}
