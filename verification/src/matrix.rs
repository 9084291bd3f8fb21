//! A 3x3 matrix of unit-scaled values.
//!
//! Probabilities and squared-moduli are real numbers in [0, 1]; here they
//! are carried as integers scaled by a caller-chosen unit, so that every
//! algebraic statement about the matrix is exact.

use vstd::prelude::*;
use crate::flavor::Flavor;

verus! {

/// A 3x3 grid of unit-scaled values, row index first.
#[derive(Clone, Copy, Debug, PartialEq, Eq, Structural)]
pub struct Mat3 {
    pub m00: i64,
    pub m01: i64,
    pub m02: i64,
    pub m10: i64,
    pub m11: i64,
    pub m12: i64,
    pub m20: i64,
    pub m21: i64,
    pub m22: i64,
}

impl Mat3 {
    /// The entry in a given row and column.
    pub open spec fn entry_spec(self, row: int, col: int) -> int {
        if row == 0 {
            if col == 0 { self.m00 as int } else if col == 1 { self.m01 as int } else { self.m02 as int }
        } else if row == 1 {
            if col == 0 { self.m10 as int } else if col == 1 { self.m11 as int } else { self.m12 as int }
        } else {
            if col == 0 { self.m20 as int } else if col == 1 { self.m21 as int } else { self.m22 as int }
        }
    }

    /// Sum of the entries of one row.
    pub open spec fn row_sum(self, row: int) -> int {
        self.entry_spec(row, 0) + self.entry_spec(row, 1) + self.entry_spec(row, 2)
    }

    /// Sum of the entries of one column.
    pub open spec fn col_sum(self, col: int) -> int {
        self.entry_spec(0, col) + self.entry_spec(1, col) + self.entry_spec(2, col)
    }

    /// Every row and every column sums to the given unit.
    pub open spec fn sums_to(self, unit: int) -> bool {
        forall|i: int| 0 <= i < 3 ==> #[trigger] self.row_sum(i) == unit && #[trigger] self.col_sum(i) == unit
    }

    /// The transpose, as a value.
    pub open spec fn transposed_spec(self) -> Mat3 {
        Mat3 {
            m00: self.m00,
            m01: self.m10,
            m02: self.m20,
            m10: self.m01,
            m11: self.m11,
            m12: self.m21,
            m20: self.m02,
            m21: self.m12,
            m22: self.m22,
        }
    }

    /// Entry at a pair of row/column indices.
    pub fn entry(&self, row: usize, col: usize) -> (v: i64)
        requires
            row < 3,
            col < 3,
        ensures
            v == self.entry_spec(row as int, col as int),
    {
        if row == 0 {
            if col == 0 { self.m00 } else if col == 1 { self.m01 } else { self.m02 }
        } else if row == 1 {
            if col == 0 { self.m10 } else if col == 1 { self.m11 } else { self.m12 }
        } else {
            if col == 0 { self.m20 } else if col == 1 { self.m21 } else { self.m22 }
        }
    }

    /// Entry for a source and a destination flavor, in the fixed index
    /// order electron 0, muon 1, tau 2.
    pub fn entry_for(&self, from: Flavor, to: Flavor) -> (v: i64)
        ensures
            v == self.entry_spec(from.index_spec(), to.index_spec()),
    {
        self.entry(from.index(), to.index())
    }

    /// The transpose.
    pub fn transposed(&self) -> (t: Mat3)
        ensures
            t == self.transposed_spec(),
            forall|r: int, c: int|
                0 <= r < 3 && 0 <= c < 3 ==> #[trigger] t.entry_spec(r, c) == self.entry_spec(c, r),
    {
        Mat3 {
            m00: self.m00,
            m01: self.m10,
            m02: self.m20,
            m10: self.m01,
            m11: self.m11,
            m12: self.m21,
            m20: self.m02,
            m21: self.m12,
            m22: self.m22,
        }
    }
}

} // verus!
