use animbox::geometry::box_mesh_indices;
use animbox::geometry::box_mesh_vertices;
use animbox::model::ModelVertex;
use animbox::scalar::Scalar;
use animbox::scalar::Vec3;

fn corner(x: i64, y: i64, z: i64) -> Vec3 {
    Vec3::new(Scalar::from_micros(x), Scalar::from_micros(y), Scalar::from_micros(z))
}

fn parts(v: Vec3) -> [i128; 3] {
    [v.x.micros() as i128, v.y.micros() as i128, v.z.micros() as i128]
}

#[test]
fn box_has_24_vertices_and_36_indices() {
    let vertices = box_mesh_vertices(Vec3::from_units(-1, -1, -1), Vec3::from_units(1, 1, 1));
    let indices = box_mesh_indices();
    assert_eq!(vertices.len(), 24);
    assert_eq!(indices.len(), 36);
}

#[test]
fn box_indices_name_vertices() {
    let indices = box_mesh_indices();
    for index in indices {
        assert!(index < 24);
    }
}

#[test]
fn box_indices_are_two_triangles_a_face() {
    let expected: Vec<u32> = vec![
        0, 1, 2, 0, 2, 3, 4, 5, 6, 4, 6, 7, 8, 9, 10, 8, 10, 11, 12, 13, 14, 12, 14, 15, 16, 17,
        18, 16, 18, 19, 20, 21, 22, 20, 22, 23,
    ];
    assert_eq!(box_mesh_indices(), expected);
}

#[test]
fn box_vertices_of_a_lopsided_box() {
    let lo = corner(-1_000_000, -2_000_000, -3_000_000);
    let hi = corner(4_000_000, 5_000_000, 6_000_000);
    let v = box_mesh_vertices(lo, hi);
    let front = Vec3::from_units(0, 0, 1);
    let back = Vec3::from_units(0, 0, -1);
    let top = Vec3::from_units(0, 1, 0);
    let bottom = Vec3::from_units(0, -1, 0);
    let left = Vec3::from_units(-1, 0, 0);
    let right = Vec3::from_units(1, 0, 0);
    let expected = vec![
        ModelVertex::new(Vec3::from_units(-1, -2, 6), front),
        ModelVertex::new(Vec3::from_units(4, -2, 6), front),
        ModelVertex::new(Vec3::from_units(4, 5, 6), front),
        ModelVertex::new(Vec3::from_units(-1, 5, 6), front),
        ModelVertex::new(Vec3::from_units(4, -2, -3), back),
        ModelVertex::new(Vec3::from_units(-1, -2, -3), back),
        ModelVertex::new(Vec3::from_units(-1, 5, -3), back),
        ModelVertex::new(Vec3::from_units(4, 5, -3), back),
        ModelVertex::new(Vec3::from_units(-1, 5, 6), top),
        ModelVertex::new(Vec3::from_units(4, 5, 6), top),
        ModelVertex::new(Vec3::from_units(4, 5, -3), top),
        ModelVertex::new(Vec3::from_units(-1, 5, -3), top),
        ModelVertex::new(Vec3::from_units(-1, -2, -3), bottom),
        ModelVertex::new(Vec3::from_units(4, -2, -3), bottom),
        ModelVertex::new(Vec3::from_units(4, -2, 6), bottom),
        ModelVertex::new(Vec3::from_units(-1, -2, 6), bottom),
        ModelVertex::new(Vec3::from_units(-1, -2, -3), left),
        ModelVertex::new(Vec3::from_units(-1, -2, 6), left),
        ModelVertex::new(Vec3::from_units(-1, 5, 6), left),
        ModelVertex::new(Vec3::from_units(-1, 5, -3), left),
        ModelVertex::new(Vec3::from_units(4, -2, 6), right),
        ModelVertex::new(Vec3::from_units(4, -2, -3), right),
        ModelVertex::new(Vec3::from_units(4, 5, -3), right),
        ModelVertex::new(Vec3::from_units(4, 5, 6), right),
    ];
    assert_eq!(v, expected);
}

#[test]
fn box_normals_are_the_six_axis_directions() {
    let v = box_mesh_vertices(Vec3::from_units(-1, -1, -1), Vec3::from_units(1, 1, 1));
    let mut seen: Vec<[i128; 3]> = Vec::new();
    for face in 0..6usize {
        let n = parts(v[4 * face].normal);
        // one axis, length one
        let nonzero: usize = n.iter().filter(|c| **c != 0).count();
        assert_eq!(nonzero, 1);
        assert_eq!(n[0] * n[0] + n[1] * n[1] + n[2] * n[2], 1_000_000i128 * 1_000_000i128);
        // shared by the face's four corners
        for k in 0..4usize {
            assert_eq!(parts(v[4 * face + k].normal), n);
        }
        assert!(!seen.contains(&n));
        seen.push(n);
    }
    // each axis twice, once each way
    for axis in 0..3usize {
        let plus: usize = seen.iter().filter(|n| n[axis] == 1_000_000).count();
        let minus: usize = seen.iter().filter(|n| n[axis] == -1_000_000).count();
        assert_eq!(plus, 1);
        assert_eq!(minus, 1);
    }
}

#[test]
fn box_is_a_function_of_its_corners() {
    let lo = corner(-250_000, 0, 1);
    let hi = corner(250_000, 7, 9_000_000);
    assert_eq!(box_mesh_vertices(lo, hi), box_mesh_vertices(lo, hi));
    assert_eq!(box_mesh_indices(), box_mesh_indices());
}

#[test]
fn box_triangles_face_outward() {
    let lo = corner(-1_000_000, -2_000_000, -3_000_000);
    let hi = corner(4_000_000, 5_000_000, 6_000_000);
    let v = box_mesh_vertices(lo, hi);
    let indices = box_mesh_indices();
    for t in 0..12usize {
        let a = parts(v[indices[3 * t] as usize].position);
        let b = parts(v[indices[3 * t + 1] as usize].position);
        let c = parts(v[indices[3 * t + 2] as usize].position);
        let n = parts(v[indices[3 * t] as usize].normal);
        let u = [b[0] - a[0], b[1] - a[1], b[2] - a[2]];
        let w = [c[0] - a[0], c[1] - a[1], c[2] - a[2]];
        let cross = [
            u[1] * w[2] - u[2] * w[1],
            u[2] * w[0] - u[0] * w[2],
            u[0] * w[1] - u[1] * w[0],
        ];
        for axis in 0..3usize {
            assert_eq!(cross[axis].signum(), n[axis].signum());
        }
    }
}

#[test]
fn box_vertices_lie_in_their_sides() {
    let lo = corner(-1_000_000, -2_000_000, -3_000_000);
    let hi = corner(4_000_000, 5_000_000, 6_000_000);
    let v = box_mesh_vertices(lo, hi);
    let lo_parts = parts(lo);
    let hi_parts = parts(hi);
    for vertex in v {
        let p = parts(vertex.position);
        let n = parts(vertex.normal);
        for axis in 0..3usize {
            if n[axis] > 0 {
                assert_eq!(p[axis], hi_parts[axis]);
            }
            if n[axis] < 0 {
                assert_eq!(p[axis], lo_parts[axis]);
            }
        }
    }
}
