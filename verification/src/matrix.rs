//! Transforms, held as the expression that defines them.
//!
//! A [`Matrix`] names a 4x4 transform by how it is composed from
//! translations, rotations and a perspective projection. The crate decides
//! which transforms are composed and in what order; whoever carries out the
//! recorded commands evaluates the expression to numbers.

use vstd::prelude::*;
use crate::scalar::Scalar;
use crate::scalar::Vec3;

verus! {

/// An angle together with the unit it is measured in.
#[derive(Clone, Copy, Debug, PartialEq, Eq, Structural)]
pub enum Angle {
    Degrees(Scalar),
    Radians(Scalar),
}

/// A 4x4 transform, as an expression.
#[derive(Debug, PartialEq, Eq)]
pub enum Matrix {
    /// The transform that changes nothing.
    Identity,
    /// The shift by the given offset.
    Translation(Vec3),
    /// The right-handed turn by `angle` about the line through the origin
    /// along `axis`.
    Rotation { angle: Angle, axis: Vec3 },
    /// The right-handed perspective projection with the given width over
    /// height, vertical field of view and clip distances.
    Perspective { aspect: Scalar, fovy: Angle, near: Scalar, far: Scalar },
    /// The transform that undoes the operand.
    Inverse(Box<Matrix>),
    /// The matrix product: the right operand is applied to a point first,
    /// then the left.
    Product(Box<Matrix>, Box<Matrix>),
}

impl Clone for Matrix {
    fn clone(&self) -> (r: Matrix)
        ensures
            r == *self,
        decreases *self,
    {
        match self {
            Matrix::Identity => Matrix::Identity,
            Matrix::Translation(offset) => Matrix::Translation(*offset),
            Matrix::Rotation { angle, axis } => Matrix::Rotation { angle: *angle, axis: *axis },
            Matrix::Perspective { aspect, fovy, near, far } => Matrix::Perspective {
                aspect: *aspect,
                fovy: *fovy,
                near: *near,
                far: *far,
            },
            Matrix::Inverse(inner) => Matrix::Inverse(Box::new((**inner).clone())),
            Matrix::Product(left, right) => Matrix::Product(
                Box::new((**left).clone()),
                Box::new((**right).clone()),
            ),
        }
    }
}

impl Matrix {
    /// `left` times `right`.
    pub open spec fn spec_product(left: Matrix, right: Matrix) -> Matrix {
        Matrix::Product(Box::new(left), Box::new(right))
    }

    /// The inverse of `inner`.
    pub open spec fn spec_inverse(inner: Matrix) -> Matrix {
        Matrix::Inverse(Box::new(inner))
    }

    /// `left` times `right`.
    pub fn product(left: Matrix, right: Matrix) -> (r: Matrix)
        ensures
            r == Matrix::spec_product(left, right),
    {
        Matrix::Product(Box::new(left), Box::new(right))
    }

    /// The inverse of `inner`.
    pub fn inverse(inner: Matrix) -> (r: Matrix)
        ensures
            r == Matrix::spec_inverse(inner),
    {
        Matrix::Inverse(Box::new(inner))
    }
}

} // verus!
