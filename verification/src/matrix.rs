use vstd::prelude::*;
use crate::bits::{Vec3, ONE_BITS, ZERO_BITS};

verus! {

/// A 4-by-4 matrix of single-precision entries held as bit patterns.
/// Field `cXrY` is the entry of column `X`, row `Y`; the column-major
/// field order matches the order in which the GPU expects the entries.
#[derive(Clone, Copy, PartialEq, Eq, Structural, Debug)]
pub struct Mat4 {
    pub c0r0: u32,
    pub c0r1: u32,
    pub c0r2: u32,
    pub c0r3: u32,
    pub c1r0: u32,
    pub c1r1: u32,
    pub c1r2: u32,
    pub c1r3: u32,
    pub c2r0: u32,
    pub c2r1: u32,
    pub c2r2: u32,
    pub c2r3: u32,
    pub c3r0: u32,
    pub c3r1: u32,
    pub c3r2: u32,
    pub c3r3: u32,
}

/// A 3-by-3 matrix of single-precision entries held as bit patterns,
/// column-major like `Mat4`.
#[derive(Clone, Copy, PartialEq, Eq, Structural, Debug)]
pub struct Mat3 {
    pub c0r0: u32,
    pub c0r1: u32,
    pub c0r2: u32,
    pub c1r0: u32,
    pub c1r1: u32,
    pub c1r2: u32,
    pub c2r0: u32,
    pub c2r1: u32,
    pub c2r2: u32,
}

/// The 4-by-4 identity matrix.
pub open spec fn spec_identity4() -> Mat4 {
    Mat4 {
        c0r0: ONE_BITS,
        c0r1: ZERO_BITS,
        c0r2: ZERO_BITS,
        c0r3: ZERO_BITS,
        c1r0: ZERO_BITS,
        c1r1: ONE_BITS,
        c1r2: ZERO_BITS,
        c1r3: ZERO_BITS,
        c2r0: ZERO_BITS,
        c2r1: ZERO_BITS,
        c2r2: ONE_BITS,
        c2r3: ZERO_BITS,
        c3r0: ZERO_BITS,
        c3r1: ZERO_BITS,
        c3r2: ZERO_BITS,
        c3r3: ONE_BITS,
    }
}

/// The uniform scaling matrix: `s` on the first three diagonal entries,
/// `1.0` in the corner, zero elsewhere.
pub open spec fn spec_scaling4(s: u32) -> Mat4 {
    Mat4 { c0r0: s, c1r1: s, c2r2: s, ..spec_identity4() }
}

/// The translation matrix: the identity with `t` as the fourth column.
pub open spec fn spec_translation4(t: Vec3) -> Mat4 {
    Mat4 { c3r0: t.x, c3r1: t.y, c3r2: t.z, ..spec_identity4() }
}

/// The upper-left 3-by-3 block of a 4-by-4 matrix.
pub open spec fn spec_upper3x3(m: Mat4) -> Mat3 {
    Mat3 {
        c0r0: m.c0r0,
        c0r1: m.c0r1,
        c0r2: m.c0r2,
        c1r0: m.c1r0,
        c1r1: m.c1r1,
        c1r2: m.c1r2,
        c2r0: m.c2r0,
        c2r1: m.c2r1,
        c2r2: m.c2r2,
    }
}

/// The transpose of a 3-by-3 matrix.
pub open spec fn spec_transpose3(m: Mat3) -> Mat3 {
    Mat3 {
        c0r0: m.c0r0,
        c0r1: m.c1r0,
        c0r2: m.c2r0,
        c1r0: m.c0r1,
        c1r1: m.c1r1,
        c1r2: m.c2r1,
        c2r0: m.c0r2,
        c2r1: m.c1r2,
        c2r2: m.c2r2,
    }
}

/// Transposing twice gives the matrix back.
pub proof fn lemma_transpose3_involution(m: Mat3)
    ensures
        spec_transpose3(spec_transpose3(m)) == m,
{
}

/// The upper-left block of the uniform scaling matrix is the diagonal
/// matrix of `s`.
pub proof fn lemma_upper3x3_scaling(s: u32)
    ensures
        spec_upper3x3(spec_scaling4(s)) == (Mat3 {
            c0r0: s,
            c0r1: ZERO_BITS,
            c0r2: ZERO_BITS,
            c1r0: ZERO_BITS,
            c1r1: s,
            c1r2: ZERO_BITS,
            c2r0: ZERO_BITS,
            c2r1: ZERO_BITS,
            c2r2: s,
        }),
{
}

impl Mat4 {
    /// The identity matrix.
    pub fn identity() -> (r: Mat4)
        ensures
            r == spec_identity4(),
    {
        Mat4 {
            c0r0: ONE_BITS,
            c0r1: ZERO_BITS,
            c0r2: ZERO_BITS,
            c0r3: ZERO_BITS,
            c1r0: ZERO_BITS,
            c1r1: ONE_BITS,
            c1r2: ZERO_BITS,
            c1r3: ZERO_BITS,
            c2r0: ZERO_BITS,
            c2r1: ZERO_BITS,
            c2r2: ONE_BITS,
            c2r3: ZERO_BITS,
            c3r0: ZERO_BITS,
            c3r1: ZERO_BITS,
            c3r2: ZERO_BITS,
            c3r3: ONE_BITS,
        }
    }

    /// The uniform scaling matrix for the scale factor `s`.
    pub fn scaling(s: u32) -> (r: Mat4)
        ensures
            r == spec_scaling4(s),
    {
        let mut m = Mat4::identity();
        m.c0r0 = s;
        m.c1r1 = s;
        m.c2r2 = s;
        m
    }

    /// The translation matrix for the offset `t`.
    pub fn translation(t: Vec3) -> (r: Mat4)
        ensures
            r == spec_translation4(t),
    {
        let mut m = Mat4::identity();
        m.c3r0 = t.x;
        m.c3r1 = t.y;
        m.c3r2 = t.z;
        m
    }

    /// The upper-left 3-by-3 block, the part of the model matrix from
    /// which the normal matrix is derived.
    pub fn upper3x3(&self) -> (r: Mat3)
        ensures
            r == spec_upper3x3(*self),
    {
        Mat3 {
            c0r0: self.c0r0,
            c0r1: self.c0r1,
            c0r2: self.c0r2,
            c1r0: self.c1r0,
            c1r1: self.c1r1,
            c1r2: self.c1r2,
            c2r0: self.c2r0,
            c2r1: self.c2r1,
            c2r2: self.c2r2,
        }
    }

    /// The sixteen entries in column-major order, the order in which the
    /// GPU consumes a 4-by-4 uniform.
    pub fn entries_column_major(&self) -> (r: Vec<u32>)
        ensures
            r@ == self.spec_column_major(),
    {
        let mut out: Vec<u32> = Vec::new();
        out.push(self.c0r0);
        out.push(self.c0r1);
        out.push(self.c0r2);
        out.push(self.c0r3);
        out.push(self.c1r0);
        out.push(self.c1r1);
        out.push(self.c1r2);
        out.push(self.c1r3);
        out.push(self.c2r0);
        out.push(self.c2r1);
        out.push(self.c2r2);
        out.push(self.c2r3);
        out.push(self.c3r0);
        out.push(self.c3r1);
        out.push(self.c3r2);
        out.push(self.c3r3);
        proof {
            assert(out@ =~= self.spec_column_major());
        }
        out
    }

    /// The sixteen entries in column-major order.
    pub open spec fn spec_column_major(self) -> Seq<u32> {
        seq![
            self.c0r0,
            self.c0r1,
            self.c0r2,
            self.c0r3,
            self.c1r0,
            self.c1r1,
            self.c1r2,
            self.c1r3,
            self.c2r0,
            self.c2r1,
            self.c2r2,
            self.c2r3,
            self.c3r0,
            self.c3r1,
            self.c3r2,
            self.c3r3,
        ]
    }
}

impl Mat3 {
    /// The transpose, the last step of deriving the normal matrix from
    /// the inverted upper-left block of the model matrix.
    pub fn transpose(&self) -> (r: Mat3)
        ensures
            r == spec_transpose3(*self),
    {
        Mat3 {
            c0r0: self.c0r0,
            c0r1: self.c1r0,
            c0r2: self.c2r0,
            c1r0: self.c0r1,
            c1r1: self.c1r1,
            c1r2: self.c2r1,
            c2r0: self.c0r2,
            c2r1: self.c1r2,
            c2r2: self.c2r2,
        }
    }

    /// The nine entries in column-major order, the order in which the GPU
    /// consumes a 3-by-3 uniform.
    pub fn entries_column_major(&self) -> (r: Vec<u32>)
        ensures
            r@ == self.spec_column_major(),
    {
        let mut out: Vec<u32> = Vec::new();
        out.push(self.c0r0);
        out.push(self.c0r1);
        out.push(self.c0r2);
        out.push(self.c1r0);
        out.push(self.c1r1);
        out.push(self.c1r2);
        out.push(self.c2r0);
        out.push(self.c2r1);
        out.push(self.c2r2);
        proof {
            assert(out@ =~= self.spec_column_major());
        }
        out
    }

    /// The nine entries in column-major order.
    pub open spec fn spec_column_major(self) -> Seq<u32> {
        seq![
            self.c0r0,
            self.c0r1,
            self.c0r2,
            self.c1r0,
            self.c1r1,
            self.c1r2,
            self.c2r0,
            self.c2r1,
            self.c2r2,
        ]
    }
}

} // verus!
