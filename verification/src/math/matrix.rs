use vstd::prelude::*;
use vstd::std_specs::cmp::PartialEqSpecImpl;
use crate::math::scalar::Scalar;

verus! {

/// A 4x4 matrix of scalars. The field `mRC` is the entry of row R, column C.
///
/// Two matrices compare equal with `==` when all sixteen entries are the
/// same numbers, with no tolerance.
#[derive(Debug, Clone, Copy)]
pub struct Matrix4 {
    pub m11: Scalar,
    pub m12: Scalar,
    pub m13: Scalar,
    pub m14: Scalar,
    pub m21: Scalar,
    pub m22: Scalar,
    pub m23: Scalar,
    pub m24: Scalar,
    pub m31: Scalar,
    pub m32: Scalar,
    pub m33: Scalar,
    pub m34: Scalar,
    pub m41: Scalar,
    pub m42: Scalar,
    pub m43: Scalar,
    pub m44: Scalar,
}

impl Matrix4 {
    /// The sixteen entries, row after row.
    pub open spec fn entries(self) -> Seq<Scalar> {
        seq![
            self.m11, self.m12, self.m13, self.m14,
            self.m21, self.m22, self.m23, self.m24,
            self.m31, self.m32, self.m33, self.m34,
            self.m41, self.m42, self.m43, self.m44,
        ]
    }

    /// The entry of row `row` and column `col`, both counted from zero.
    pub open spec fn at(self, row: int, col: int) -> Scalar
        recommends
            0 <= row < 4,
            0 <= col < 4,
    {
        self.entries()[4 * row + col]
    }

    /// Whether the two matrices hold the same numbers, entry by entry.
    pub open spec fn same_numbers(self, other: Matrix4) -> bool {
        forall|i: int|
            0 <= i < 16 ==> (#[trigger] self.entries()[i]).same_number(other.entries()[i])
    }

    /// The matrix mirrored at its diagonal.
    pub open spec fn transposed(self) -> Matrix4 {
        Matrix4 {
            m11: self.m11, m12: self.m21, m13: self.m31, m14: self.m41,
            m21: self.m12, m22: self.m22, m23: self.m32, m24: self.m42,
            m31: self.m13, m32: self.m23, m33: self.m33, m34: self.m43,
            m41: self.m14, m42: self.m24, m43: self.m34, m44: self.m44,
        }
    }

    /// The matrix with `x`, `y`, `z` and one on the diagonal and zero elsewhere.
    pub open spec fn spec_scaling(x: Scalar, y: Scalar, z: Scalar) -> Matrix4 {
        let o = Scalar::spec_zero();
        let i = Scalar::spec_one();
        Matrix4 {
            m11: x, m12: o, m13: o, m14: o,
            m21: o, m22: y, m23: o, m24: o,
            m31: o, m32: o, m33: z, m34: o,
            m41: o, m42: o, m43: o, m44: i,
        }
    }

    /// The identity matrix with `x`, `y`, `z` in its fourth column.
    pub open spec fn spec_translation(x: Scalar, y: Scalar, z: Scalar) -> Matrix4 {
        let o = Scalar::spec_zero();
        let i = Scalar::spec_one();
        Matrix4 {
            m11: i, m12: o, m13: o, m14: x,
            m21: o, m22: i, m23: o, m24: y,
            m31: o, m32: o, m33: i, m34: z,
            m41: o, m42: o, m43: o, m44: i,
        }
    }

    /// One on the diagonal, zero elsewhere.
    pub open spec fn spec_identity() -> Matrix4 {
        Matrix4::spec_scaling(Scalar::spec_one(), Scalar::spec_one(), Scalar::spec_one())
    }

    /// The identity matrix.
    #[verifier::when_used_as_spec(spec_identity)]
    pub fn identity() -> (m: Matrix4)
        ensures
            m == Matrix4::spec_identity(),
    {
        Matrix4::scaling(Scalar::one(), Scalar::one(), Scalar::one())
    }

    /// Swaps rows and columns.
    pub fn transpose(self) -> (t: Matrix4)
        ensures
            t == self.transposed(),
            forall|row: int, col: int|
                0 <= row < 4 && 0 <= col < 4 ==> #[trigger] t.at(row, col) == self.at(col, row),
    {
        proof {
            lemma_transposed_entries(self);
        }
        Matrix4 {
            m11: self.m11, m12: self.m21, m13: self.m31, m14: self.m41,
            m21: self.m12, m22: self.m22, m23: self.m32, m24: self.m42,
            m31: self.m13, m32: self.m23, m33: self.m33, m34: self.m43,
            m41: self.m14, m42: self.m24, m43: self.m34, m44: self.m44,
        }
    }

    /// The matrix that scales the three axes by `x`, `y` and `z`.
    #[verifier::when_used_as_spec(spec_scaling)]
    pub fn scaling(x: Scalar, y: Scalar, z: Scalar) -> (m: Matrix4)
        ensures
            m == Matrix4::spec_scaling(x, y, z),
    {
        let o = Scalar::zero();
        let i = Scalar::one();
        Matrix4 {
            m11: x, m12: o, m13: o, m14: o,
            m21: o, m22: y, m23: o, m24: o,
            m31: o, m32: o, m33: z, m34: o,
            m41: o, m42: o, m43: o, m44: i,
        }
    }

    /// The matrix that moves every point by `(x, y, z)`.
    #[verifier::when_used_as_spec(spec_translation)]
    pub fn translation(x: Scalar, y: Scalar, z: Scalar) -> (m: Matrix4)
        ensures
            m == Matrix4::spec_translation(x, y, z),
    {
        let o = Scalar::zero();
        let i = Scalar::one();
        Matrix4 {
            m11: i, m12: o, m13: o, m14: x,
            m21: o, m22: i, m23: o, m24: y,
            m31: o, m32: o, m33: i, m34: z,
            m41: o, m42: o, m43: o, m44: i,
        }
    }
}

impl PartialEq for Matrix4 {
    /// Whether the two matrices hold the same numbers.
    fn eq(&self, other: &Matrix4) -> (r: bool) {
        let r = {
            self.m11 == other.m11 && self.m12 == other.m12 && self.m13 == other.m13 && self.m14 == other.m14
            && self.m21 == other.m21 && self.m22 == other.m22 && self.m23 == other.m23 && self.m24 == other.m24
            && self.m31 == other.m31 && self.m32 == other.m32 && self.m33 == other.m33 && self.m34 == other.m34
            && self.m41 == other.m41 && self.m42 == other.m42 && self.m43 == other.m43 && self.m44 == other.m44
        };
        proof {
            let a = self.entries();
            let b = other.entries();
            if r {
                assert forall|i: int| 0 <= i < 16 implies (#[trigger] a[i]).same_number(b[i]) by {
                }
            } else {
                if self.same_numbers(*other) {
                    assert(a[0].same_number(b[0]) && a[1].same_number(b[1]) && a[2].same_number(b[2])
                        && a[3].same_number(b[3]));
                    assert(a[4].same_number(b[4]) && a[5].same_number(b[5]) && a[6].same_number(b[6])
                        && a[7].same_number(b[7]));
                    assert(a[8].same_number(b[8]) && a[9].same_number(b[9]) && a[10].same_number(
                        b[10],
                    ) && a[11].same_number(b[11]));
                    assert(a[12].same_number(b[12]) && a[13].same_number(b[13]) && a[14].same_number(
                        b[14],
                    ) && a[15].same_number(b[15]));
                }
            }
        }
        r
    }
}

impl PartialEqSpecImpl for Matrix4 {
    open spec fn obeys_eq_spec() -> bool {
        true
    }

    open spec fn eq_spec(&self, other: &Matrix4) -> bool {
        self.same_numbers(*other)
    }
}

/// Entry (row, col) of the transposed matrix is entry (col, row) of the matrix.
pub proof fn lemma_transposed_entries(m: Matrix4)
    ensures
        forall|row: int, col: int|
            0 <= row < 4 && 0 <= col < 4 ==> #[trigger] m.transposed().at(row, col) == m.at(
                col,
                row,
            ),
{
    assert forall|row: int, col: int| 0 <= row < 4 && 0 <= col < 4 implies #[trigger] m.transposed().at(
        row,
        col,
    ) == m.at(col, row) by {
        let t = m.transposed();
        if row == 0 {
            assert(t.at(0, col) == m.at(col, 0));
        } else if row == 1 {
            assert(t.at(1, col) == m.at(col, 1));
        } else if row == 2 {
            assert(t.at(2, col) == m.at(col, 2));
        } else {
            assert(t.at(3, col) == m.at(col, 3));
        }
    }
}

/// Transposing twice gives the matrix back, entry for entry and bit for
/// bit. So the result compares equal to the matrix with `==` exactly if the
/// matrix compares equal to itself, which it does unless an entry is not a
/// number.
pub proof fn lemma_transpose_involution(m: Matrix4)
    ensures
        m.transposed().transposed() == m,
        m.transposed().transposed().same_numbers(m) == m.same_numbers(m),
{
}

/// The scaling matrix keeps its three factors on the diagonal, in order,
/// followed by one, and every other entry is zero.
pub proof fn lemma_scaling_entries(x: Scalar, y: Scalar, z: Scalar)
    ensures
        Matrix4::spec_scaling(x, y, z).at(0, 0) == x,
        Matrix4::spec_scaling(x, y, z).at(1, 1) == y,
        Matrix4::spec_scaling(x, y, z).at(2, 2) == z,
        Matrix4::spec_scaling(x, y, z).at(3, 3) == Scalar::spec_one(),
        forall|row: int, col: int|
            0 <= row < 4 && 0 <= col < 4 && row != col ==> #[trigger] Matrix4::spec_scaling(
                x,
                y,
                z,
            ).at(row, col) == Scalar::spec_zero(),
        Matrix4::spec_scaling(x, y, z).transposed() == Matrix4::spec_scaling(x, y, z),
{
    let m = Matrix4::spec_scaling(x, y, z);
    assert forall|row: int, col: int| 0 <= row < 4 && 0 <= col < 4 && row != col implies #[trigger] m.at(
        row,
        col,
    ) == Scalar::spec_zero() by {
        if row == 0 {
            assert(m.at(0, col) == Scalar::spec_zero());
        } else if row == 1 {
            assert(m.at(1, col) == Scalar::spec_zero());
        } else if row == 2 {
            assert(m.at(2, col) == Scalar::spec_zero());
        } else {
            assert(m.at(3, col) == Scalar::spec_zero());
        }
    }
}

} // verus!
