//! The geometry of a box.

use vstd::prelude::*;
use crate::model::ModelVertex;
use crate::scalar::Vec3;

verus! {

/// The outward direction of the face `face` of a box, in whole numbers. The
/// faces are, in order: front (+z), back (-z), top (+y), bottom (-y), left
/// (-x), right (+x).
pub open spec fn face_direction(face: int) -> (int, int, int) {
    if face == 0 {
        (0, 0, 1)
    } else if face == 1 {
        (0, 0, -1)
    } else if face == 2 {
        (0, 1, 0)
    } else if face == 3 {
        (0, -1, 0)
    } else if face == 4 {
        (-1, 0, 0)
    } else {
        (1, 0, 0)
    }
}

/// For the corner `k` of the face `face`, whether its x, y and z are those of
/// the box's upper corner (`true`) or of its lower corner (`false`). The four
/// corners of a face go round it counter-clockwise as seen from outside.
pub open spec fn corner_at_upper(face: int, k: int) -> (bool, bool, bool) {
    if face == 0 {
        if k == 0 {
            (false, false, true)
        } else if k == 1 {
            (true, false, true)
        } else if k == 2 {
            (true, true, true)
        } else {
            (false, true, true)
        }
    } else if face == 1 {
        if k == 0 {
            (true, false, false)
        } else if k == 1 {
            (false, false, false)
        } else if k == 2 {
            (false, true, false)
        } else {
            (true, true, false)
        }
    } else if face == 2 {
        if k == 0 {
            (false, true, true)
        } else if k == 1 {
            (true, true, true)
        } else if k == 2 {
            (true, true, false)
        } else {
            (false, true, false)
        }
    } else if face == 3 {
        if k == 0 {
            (false, false, false)
        } else if k == 1 {
            (true, false, false)
        } else if k == 2 {
            (true, false, true)
        } else {
            (false, false, true)
        }
    } else if face == 4 {
        if k == 0 {
            (false, false, false)
        } else if k == 1 {
            (false, false, true)
        } else if k == 2 {
            (false, true, true)
        } else {
            (false, true, false)
        }
    } else {
        if k == 0 {
            (true, false, true)
        } else if k == 1 {
            (true, false, false)
        } else if k == 2 {
            (true, true, false)
        } else {
            (true, true, true)
        }
    }
}

/// The vertex `i` of the box between the corners `lo` and `hi`: the corner
/// `i % 4` of the face `i / 4`, with that face's outward normal.
pub open spec fn box_vertex(lo: Vec3, hi: Vec3, i: int) -> ModelVertex {
    let upper = corner_at_upper(i / 4, i % 4);
    let direction = face_direction(i / 4);
    ModelVertex {
        position: Vec3 {
            x: if upper.0 { hi.x } else { lo.x },
            y: if upper.1 { hi.y } else { lo.y },
            z: if upper.2 { hi.z } else { lo.z },
        },
        normal: Vec3::units(direction.0, direction.1, direction.2),
    }
}

/// The vertices of the box between the corners `lo` and `hi`: four to a
/// face, each with the face's own normal.
pub open spec fn box_vertices(lo: Vec3, hi: Vec3) -> Seq<ModelVertex> {
    Seq::new(24, |i: int| box_vertex(lo, hi, i))
}

/// The indices of a box: each face is the two triangles that its first,
/// second and third corner, and its first, third and fourth corner make.
pub open spec fn box_indices() -> Seq<u32> {
    Seq::new(36, |i: int| (4 * (i / 6) + box_corner(i % 6)) as u32)
}

/// Which corner of its face the `k`-th index of a face names.
pub open spec fn box_corner(k: int) -> int {
    if k == 0 || k == 3 {
        0
    } else if k == 1 {
        1
    } else if k == 2 || k == 4 {
        2
    } else {
        3
    }
}


/// `n` has length one and lies along exactly one axis.
pub open spec fn is_axis_unit(n: Vec3) -> bool {
    ||| (n.x@ == 1_000_000 || n.x@ == -1_000_000) && n.y@ == 0 && n.z@ == 0
    ||| n.x@ == 0 && (n.y@ == 1_000_000 || n.y@ == -1_000_000) && n.z@ == 0
    ||| n.x@ == 0 && n.y@ == 0 && (n.z@ == 1_000_000 || n.z@ == -1_000_000)
}

/// `a` and `b` point in opposite directions and are equally long.
pub open spec fn are_opposite(a: Vec3, b: Vec3) -> bool {
    a.x@ == -b.x@ && a.y@ == -b.y@ && a.z@ == -b.z@
}

/// The normal of the face `face` of a box.
pub open spec fn face_normal(lo: Vec3, hi: Vec3, face: int) -> Vec3 {
    box_vertices(lo, hi)[4 * face].normal
}

/// The corner of the triangle `triangle` of a box that its `k`-th index
/// names.
pub open spec fn triangle_corner(lo: Vec3, hi: Vec3, triangle: int, k: int) -> ModelVertex {
    box_vertices(lo, hi)[box_indices()[3 * triangle + k] as int]
}

/// Going from `a` to `b` to `c` turns counter-clockwise about the direction
/// `n`: the cross product of `b - a` and `c - a` points the way `n` does. It
/// has no part along an axis along which `n` has none, and along the others
/// its part has the sign of that of `n`.
pub open spec fn turns_about(a: Vec3, b: Vec3, c: Vec3, n: Vec3) -> bool {
    let ux = b.x@ - a.x@;
    let uy = b.y@ - a.y@;
    let uz = b.z@ - a.z@;
    let vx = c.x@ - a.x@;
    let vy = c.y@ - a.y@;
    let vz = c.z@ - a.z@;
    let cx = uy * vz - uz * vy;
    let cy = uz * vx - ux * vz;
    let cz = ux * vy - uy * vx;
    &&& same_sign(cx, n.x@)
    &&& same_sign(cy, n.y@)
    &&& same_sign(cz, n.z@)
    &&& (n.x@ != 0 || n.y@ != 0 || n.z@ != 0)
}

/// `a` and `b` are both positive, both negative or both zero.
pub open spec fn same_sign(a: int, b: int) -> bool {
    &&& a > 0 <==> b > 0
    &&& a < 0 <==> b < 0
}

/// The position `p` lies in the side of the box that faces along `n`.
pub open spec fn on_side(lo: Vec3, hi: Vec3, p: Vec3, n: Vec3) -> bool {
    &&& n.x@ > 0 ==> p.x == hi.x
    &&& n.x@ < 0 ==> p.x == lo.x
    &&& n.y@ > 0 ==> p.y == hi.y
    &&& n.y@ < 0 ==> p.y == lo.y
    &&& n.z@ > 0 ==> p.z == hi.z
    &&& n.z@ < 0 ==> p.z == lo.z
}

/// A box has 24 vertices and 36 indices, and every index names a vertex.
pub proof fn lemma_box_sizes(lo: Vec3, hi: Vec3)
    ensures
        box_vertices(lo, hi).len() == 24,
        box_indices().len() == 36,
        forall|i: int| 0 <= i < 36 ==> 0 <= (#[trigger] box_indices()[i]) < 24,
{
}

/// The four corners of a face of a box carry one normal. It has length one
/// and lies along one axis. The six faces have six different normals, so
/// each axis is the normal of exactly two faces, and those two face in
/// opposite directions.
pub proof fn lemma_box_normals(lo: Vec3, hi: Vec3)
    ensures
        forall|i: int|
            0 <= i < 24 ==> (#[trigger] box_vertices(lo, hi)[i]).normal == face_normal(
                lo,
                hi,
                i / 4,
            ),
        forall|f: int| 0 <= f < 6 ==> is_axis_unit(#[trigger] face_normal(lo, hi, f)),
        forall|f: int, g: int|
            0 <= f < 6 && 0 <= g < 6 && f != g ==> #[trigger] face_normal(lo, hi, f)
                != #[trigger] face_normal(lo, hi, g),
        are_opposite(face_normal(lo, hi, 0), face_normal(lo, hi, 1)),
        are_opposite(face_normal(lo, hi, 2), face_normal(lo, hi, 3)),
        are_opposite(face_normal(lo, hi, 4), face_normal(lo, hi, 5)),
{
    let v = box_vertices(lo, hi);
    assert forall|i: int| 0 <= i < 24 implies (#[trigger] v[i]).normal == face_normal(
        lo,
        hi,
        i / 4,
    ) by {
        if i < 4 {
        } else if i < 8 {
        } else if i < 12 {
        } else if i < 16 {
        } else if i < 20 {
        } else {
        }
    }
}

/// Every vertex of a box lies in the side that its normal faces.
pub proof fn lemma_box_vertices_on_sides(lo: Vec3, hi: Vec3)
    ensures
        forall|i: int|
            0 <= i < 24 ==> on_side(
                lo,
                hi,
                (#[trigger] box_vertices(lo, hi)[i]).position,
                box_vertices(lo, hi)[i].normal,
            ),
{
}

/// Where the corner `lo` is below the corner `hi` in every component, each
/// of the twelve triangles of the box goes counter-clockwise about the
/// normal of its corners: seen from outside the box, every triangle shows
/// its front.
pub proof fn lemma_box_faces_outward(lo: Vec3, hi: Vec3, triangle: int)
    requires
        lo.x@ < hi.x@,
        lo.y@ < hi.y@,
        lo.z@ < hi.z@,
        0 <= triangle < 12,
    ensures
        triangle_corner(lo, hi, triangle, 0).normal == face_normal(lo, hi, triangle / 2),
        triangle_corner(lo, hi, triangle, 1).normal == face_normal(lo, hi, triangle / 2),
        triangle_corner(lo, hi, triangle, 2).normal == face_normal(lo, hi, triangle / 2),
        turns_about(
            triangle_corner(lo, hi, triangle, 0).position,
            triangle_corner(lo, hi, triangle, 1).position,
            triangle_corner(lo, hi, triangle, 2).position,
            face_normal(lo, hi, triangle / 2),
        ),
{
    let dx = hi.x@ - lo.x@;
    let dy = hi.y@ - lo.y@;
    let dz = hi.z@ - lo.z@;
    let a = triangle_corner(lo, hi, triangle, 0).position;
    let b = triangle_corner(lo, hi, triangle, 1).position;
    let c = triangle_corner(lo, hi, triangle, 2).position;
    assert(triangle / 2 == 0 || triangle / 2 == 1 || triangle / 2 == 2 || triangle / 2 == 3
        || triangle / 2 == 4 || triangle / 2 == 5);
    lemma_edge_product(b.y@ - a.y@, c.z@ - a.z@, dy, dz);
    lemma_edge_product(b.z@ - a.z@, c.y@ - a.y@, dz, dy);
    lemma_edge_product(b.z@ - a.z@, c.x@ - a.x@, dz, dx);
    lemma_edge_product(b.x@ - a.x@, c.z@ - a.z@, dx, dz);
    lemma_edge_product(b.x@ - a.x@, c.y@ - a.y@, dx, dy);
    lemma_edge_product(b.y@ - a.y@, c.x@ - a.x@, dy, dx);
    assert(dz * dy == dy * dz && dz * dx == dx * dz && dy * dx == dx * dy) by (nonlinear_arith);
}

/// The product of two edges of a box that run along different axes: each is
/// nothing, or the box's extent along its axis, forward or backward.
proof fn lemma_edge_product(a: int, b: int, p: int, q: int)
    requires
        p > 0,
        q > 0,
        a == 0 || a == p || a == -p,
        b == 0 || b == q || b == -q,
    ensures
        p * q > 0,
        a == 0 || b == 0 ==> a * b == 0,
        (a == p && b == q) || (a == -p && b == -q) ==> a * b == p * q,
        (a == p && b == -q) || (a == -p && b == q) ==> a * b == -(p * q),
{
    assert(p * q > 0) by (nonlinear_arith)
        requires
            p > 0,
            q > 0,
    ;
    assert(0 * b == 0 && a * 0 == 0);
    assert((-p) * (-q) == p * q && p * (-q) == -(p * q) && (-p) * q == -(p * q))
        by (nonlinear_arith);
}

/// The vertices of the box between the corners `lo` and `hi`.
pub fn box_mesh_vertices(lo: Vec3, hi: Vec3) -> (vertices: Vec<ModelVertex>)
    ensures
        vertices@ == box_vertices(lo, hi),
{
    let front = Vec3::from_units(0, 0, 1);
    let back = Vec3::from_units(0, 0, -1);
    let top = Vec3::from_units(0, 1, 0);
    let bottom = Vec3::from_units(0, -1, 0);
    let left = Vec3::from_units(-1, 0, 0);
    let right = Vec3::from_units(1, 0, 0);
    let vertices = vec![
        ModelVertex::new(Vec3::new(lo.x, lo.y, hi.z), front),
        ModelVertex::new(Vec3::new(hi.x, lo.y, hi.z), front),
        ModelVertex::new(Vec3::new(hi.x, hi.y, hi.z), front),
        ModelVertex::new(Vec3::new(lo.x, hi.y, hi.z), front),
        ModelVertex::new(Vec3::new(hi.x, lo.y, lo.z), back),
        ModelVertex::new(Vec3::new(lo.x, lo.y, lo.z), back),
        ModelVertex::new(Vec3::new(lo.x, hi.y, lo.z), back),
        ModelVertex::new(Vec3::new(hi.x, hi.y, lo.z), back),
        ModelVertex::new(Vec3::new(lo.x, hi.y, hi.z), top),
        ModelVertex::new(Vec3::new(hi.x, hi.y, hi.z), top),
        ModelVertex::new(Vec3::new(hi.x, hi.y, lo.z), top),
        ModelVertex::new(Vec3::new(lo.x, hi.y, lo.z), top),
        ModelVertex::new(Vec3::new(lo.x, lo.y, lo.z), bottom),
        ModelVertex::new(Vec3::new(hi.x, lo.y, lo.z), bottom),
        ModelVertex::new(Vec3::new(hi.x, lo.y, hi.z), bottom),
        ModelVertex::new(Vec3::new(lo.x, lo.y, hi.z), bottom),
        ModelVertex::new(Vec3::new(lo.x, lo.y, lo.z), left),
        ModelVertex::new(Vec3::new(lo.x, lo.y, hi.z), left),
        ModelVertex::new(Vec3::new(lo.x, hi.y, hi.z), left),
        ModelVertex::new(Vec3::new(lo.x, hi.y, lo.z), left),
        ModelVertex::new(Vec3::new(hi.x, lo.y, hi.z), right),
        ModelVertex::new(Vec3::new(hi.x, lo.y, lo.z), right),
        ModelVertex::new(Vec3::new(hi.x, hi.y, lo.z), right),
        ModelVertex::new(Vec3::new(hi.x, hi.y, hi.z), right),
    ];
    assert(vertices@ =~= box_vertices(lo, hi));
    vertices
}

/// The indices of a box.
pub fn box_mesh_indices() -> (indices: Vec<u32>)
    ensures
        indices@ == box_indices(),
{
    let mut indices: Vec<u32> = Vec::new();
    let mut face: u32 = 0;
    while face < 6
        invariant
            face <= 6,
            indices@.len() == 6 * face,
            forall|i: int| 0 <= i < indices@.len() ==> indices@[i] == box_indices()[i],
        decreases 6 - face,
    {
        let first: u32 = 4 * face;
        indices.push(first);
        indices.push(first + 1);
        indices.push(first + 2);
        indices.push(first);
        indices.push(first + 2);
        indices.push(first + 3);
        face = face + 1;
    }
    assert(indices@ =~= box_indices());
    indices
}

} // verus!
