//! 2D affine transforms as 3 by 3 row-major matrices over a scalar type.
//!
//! The scalar type is a parameter: the matrices are built and carried here,
//! and whoever chooses the scalars does the arithmetic on them.

use vstd::prelude::*;

verus! {

/// A row of a 3 by 3 matrix.
#[derive(Clone, Copy, Debug)]
pub struct Row<F> {
    pub x: F,
    pub y: F,
    pub z: F,
}

/// A 2D affine transform: a 3 by 3 row-major matrix.
#[derive(Clone, Copy, Debug)]
pub struct Transform<F> {
    pub x: Row<F>,
    pub y: Row<F>,
    pub z: Row<F>,
}

impl<F: Copy> Transform<F> {
    /// The matrix with the given entries, row by row.
    pub open spec fn matrix(
        xx: F,
        xy: F,
        xz: F,
        yx: F,
        yy: F,
        yz: F,
        zx: F,
        zy: F,
        zz: F,
    ) -> Transform<F> {
        Transform {
            x: Row { x: xx, y: xy, z: xz },
            y: Row { x: yx, y: yy, z: yz },
            z: Row { x: zx, y: zy, z: zz },
        }
    }

    /// The transform that moves nothing, given the scalars zero and one.
    pub fn identity(zero: F, one: F) -> (r: Transform<F>)
        ensures
            r == Transform::matrix(one, zero, zero, zero, one, zero, zero, zero, one),
    {
        Transform {
            x: Row { x: one, y: zero, z: zero },
            y: Row { x: zero, y: one, z: zero },
            z: Row { x: zero, y: zero, z: one },
        }
    }

    /// The transform that moves every point by `(x, y)`.
    pub fn translation(x: F, y: F, zero: F, one: F) -> (r: Transform<F>)
        ensures
            r == Transform::matrix(one, zero, x, zero, one, y, zero, zero, one),
    {
        Transform {
            x: Row { x: one, y: zero, z: x },
            y: Row { x: zero, y: one, z: y },
            z: Row { x: zero, y: zero, z: one },
        }
    }

    /// The transform that scales the axes by `x` and `y`.
    pub fn scaling(x: F, y: F, zero: F, one: F) -> (r: Transform<F>)
        ensures
            r == Transform::matrix(x, zero, zero, zero, y, zero, zero, zero, one),
    {
        Transform {
            x: Row { x, y: zero, z: zero },
            y: Row { x: zero, y, z: zero },
            z: Row { x: zero, y: zero, z: one },
        }
    }

    /// The transform that shears the x axis by `x` and the y axis by `y`.
    pub fn shearing(x: F, y: F, zero: F, one: F) -> (r: Transform<F>)
        ensures
            r == Transform::matrix(one, x, zero, y, one, zero, zero, zero, one),
    {
        Transform {
            x: Row { x: one, y: x, z: zero },
            y: Row { x: y, y: one, z: zero },
            z: Row { x: zero, y: zero, z: one },
        }
    }
}

} // verus!
