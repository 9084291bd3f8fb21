//! Shared probability-assembly logic.
//!
//! Both the vacuum and the matter calculator end the same way: from the
//! squared-moduli of the mixing matrix, three sine-squared kinematic
//! terms and a CP-violating invariant they compute four independent
//! quantities — P(e→e), P(mu→mu) and the CP-conserving and CP-violating
//! parts of the e/mu channel — and every other entry of the 3x3
//! probability matrix is then fixed by unitarity: each row and each
//! column must sum to one.  Deriving the remaining five entries from the
//! four computed ones makes unitarity hold by construction instead of by
//! accumulated rounding luck.
//!
//! The same fill applies one stage earlier to the squared-moduli
//! themselves: given Ue2^2, Ue3^2, Um2^2 and Um3^2, the other five
//! moduli follow from the rows and columns of the modulus matrix each
//! summing to one.
//!
//! Values are integers scaled by `unit` (the scaled value of the real
//! number one), so both fills are exact here.

use vstd::prelude::*;
use crate::matrix::Mat3;

verus! {

/// Magnitude bound on the scaled inputs of the two fills, far above any
/// physically used scale; it keeps every intermediate sum inside `i64`.
pub const FILL_BOUND: i64 = 0x0400_0000_0000_0000;

/// The entry of the assembled probability matrix in a given row and
/// column, as a function of the unit, the two diagonal survival
/// probabilities, and the CP-conserving and CP-violating parts of the
/// e/mu channel.  Rows and columns are ordered electron, muon, tau.
pub open spec fn assembled_entry(
    unit: int,
    pee: int,
    pmm: int,
    pme_cpc: int,
    pme_cpv: int,
    row: int,
    col: int,
) -> int {
    let pem = pme_cpc - pme_cpv;
    let pme = pme_cpc + pme_cpv;
    let pet = unit - pee - pem;
    let pmt = unit - pme - pmm;
    if row == 0 {
        if col == 0 { pee } else if col == 1 { pem } else { pet }
    } else if row == 1 {
        if col == 0 { pme } else if col == 1 { pmm } else { pmt }
    } else {
        if col == 0 { unit - pee - pme } else if col == 1 { unit - pem - pmm } else { unit - pet - pmt }
    }
}

/// Each row and each column of the assembled matrix sums to the unit:
/// the unitarity fill leaves no freedom for the derived entries.
pub proof fn lemma_assembled_sums_to_unit(unit: int, pee: int, pmm: int, pme_cpc: int, pme_cpv: int)
    ensures
        forall|i: int| 0 <= i < 3 ==>
            #[trigger] (assembled_entry(unit, pee, pmm, pme_cpc, pme_cpv, i, 0)
                + assembled_entry(unit, pee, pmm, pme_cpc, pme_cpv, i, 1)
                + assembled_entry(unit, pee, pmm, pme_cpc, pme_cpv, i, 2)) == unit,
        forall|j: int| 0 <= j < 3 ==>
            #[trigger] (assembled_entry(unit, pee, pmm, pme_cpc, pme_cpv, 0, j)
                + assembled_entry(unit, pee, pmm, pme_cpc, pme_cpv, 1, j)
                + assembled_entry(unit, pee, pmm, pme_cpc, pme_cpv, 2, j)) == unit,
{
}

/// Negating the CP-violating term transposes the assembled matrix.
///
/// The CP-violating invariant is odd in the phase delta while everything
/// else in the assembly is even in it, so this is the CP/T relation:
/// with delta negated, P(alpha -> beta) becomes P(beta -> alpha) — in
/// particular P(e -> mu) and P(mu -> e) swap.
pub proof fn lemma_cp_negation_transposes(unit: int, pee: int, pmm: int, pme_cpc: int, pme_cpv: int)
    ensures
        forall|r: int, c: int| 0 <= r < 3 && 0 <= c < 3 ==>
            #[trigger] assembled_entry(unit, pee, pmm, pme_cpc, -pme_cpv, r, c)
                == assembled_entry(unit, pee, pmm, pme_cpc, pme_cpv, c, r),
{
}

/// A CP-conserving channel (a vanishing CP-violating term) yields a
/// symmetric probability matrix.
pub proof fn lemma_cp_conserving_symmetric(unit: int, pee: int, pmm: int, pme_cpc: int)
    ensures
        forall|r: int, c: int| 0 <= r < 3 && 0 <= c < 3 ==>
            #[trigger] assembled_entry(unit, pee, pmm, pme_cpc, 0, r, c)
                == assembled_entry(unit, pee, pmm, pme_cpc, 0, c, r),
{
    lemma_cp_negation_transposes(unit, pee, pmm, pme_cpc, 0);
}

/// Assemble the full transition-probability matrix from the four
/// independently computed quantities.  Row and column order is electron,
/// muon, tau; the entry in row alpha and column beta is the scaled
/// P(alpha -> beta).  Every row and every column of the result sums to
/// `unit` by construction.
pub fn assemble_probabilities(unit: i64, pee: i64, pmm: i64, pme_cpc: i64, pme_cpv: i64) -> (m: Mat3)
    requires
        -FILL_BOUND <= unit <= FILL_BOUND,
        -FILL_BOUND <= pee <= FILL_BOUND,
        -FILL_BOUND <= pmm <= FILL_BOUND,
        -FILL_BOUND <= pme_cpc <= FILL_BOUND,
        -FILL_BOUND <= pme_cpv <= FILL_BOUND,
    ensures
        forall|r: int, c: int| 0 <= r < 3 && 0 <= c < 3 ==>
            #[trigger] m.entry_spec(r, c) == assembled_entry(
                unit as int, pee as int, pmm as int, pme_cpc as int, pme_cpv as int, r, c),
        m.sums_to(unit as int),
{
    let pem: i64 = pme_cpc - pme_cpv;
    let pme: i64 = pme_cpc + pme_cpv;
    let pet: i64 = unit - pee - pem;
    let pmt: i64 = unit - pme - pmm;
    let pte: i64 = unit - pee - pme;
    let ptm: i64 = unit - pem - pmm;
    let ptt: i64 = unit - pet - pmt;
    let m = Mat3 {
        m00: pee,
        m01: pem,
        m02: pet,
        m10: pme,
        m11: pmm,
        m12: pmt,
        m20: pte,
        m21: ptm,
        m22: ptt,
    };
    proof {
        assert forall|i: int| 0 <= i < 3 implies #[trigger] m.row_sum(i) == unit && #[trigger] m.col_sum(i)
            == unit by {
            assert(m.row_sum(0) == unit);
            assert(m.row_sum(1) == unit);
            assert(m.row_sum(2) == unit);
            assert(m.col_sum(0) == unit);
            assert(m.col_sum(1) == unit);
            assert(m.col_sum(2) == unit);
        }
    }
    m
}

/// The squared-modulus of the mixing matrix for a given flavor row
/// (electron 0, muon 1, tau 2) and mass column (mass state 1, 2, 3 at
/// columns 0, 1, 2), as the unitarity fill derives it from Ue2^2, Ue3^2,
/// Um2^2 and Um3^2.
pub open spec fn filled_modulus(
    unit: int,
    ue2sq: int,
    ue3sq: int,
    um2sq: int,
    um3sq: int,
    flavor: int,
    mass: int,
) -> int {
    let ue1sq = unit - ue3sq - ue2sq;
    let um1sq = unit - um3sq - um2sq;
    if flavor == 0 {
        if mass == 0 { ue1sq } else if mass == 1 { ue2sq } else { ue3sq }
    } else if flavor == 1 {
        if mass == 0 { um1sq } else if mass == 1 { um2sq } else { um3sq }
    } else {
        if mass == 0 { unit - um1sq - ue1sq } else if mass == 1 { unit - um2sq - ue2sq } else {
            unit - um3sq - ue3sq
        }
    }
}

/// Each flavor row and each mass column of the filled modulus matrix
/// sums to the unit.
pub proof fn lemma_filled_moduli_sum_to_unit(unit: int, ue2sq: int, ue3sq: int, um2sq: int, um3sq: int)
    ensures
        forall|i: int| 0 <= i < 3 ==>
            #[trigger] (filled_modulus(unit, ue2sq, ue3sq, um2sq, um3sq, i, 0)
                + filled_modulus(unit, ue2sq, ue3sq, um2sq, um3sq, i, 1)
                + filled_modulus(unit, ue2sq, ue3sq, um2sq, um3sq, i, 2)) == unit,
        forall|j: int| 0 <= j < 3 ==>
            #[trigger] (filled_modulus(unit, ue2sq, ue3sq, um2sq, um3sq, 0, j)
                + filled_modulus(unit, ue2sq, ue3sq, um2sq, um3sq, 1, j)
                + filled_modulus(unit, ue2sq, ue3sq, um2sq, um3sq, 2, j)) == unit,
{
}

/// Fill the 3x3 matrix of mixing squared-moduli from the four computed
/// ones, deriving the other five by unitarity.  Rows are flavors in the
/// order electron, muon, tau; columns are mass states 1, 2, 3.
pub fn fill_moduli(unit: i64, ue2sq: i64, ue3sq: i64, um2sq: i64, um3sq: i64) -> (m: Mat3)
    requires
        -FILL_BOUND <= unit <= FILL_BOUND,
        -FILL_BOUND <= ue2sq <= FILL_BOUND,
        -FILL_BOUND <= ue3sq <= FILL_BOUND,
        -FILL_BOUND <= um2sq <= FILL_BOUND,
        -FILL_BOUND <= um3sq <= FILL_BOUND,
    ensures
        forall|f: int, k: int| 0 <= f < 3 && 0 <= k < 3 ==>
            #[trigger] m.entry_spec(f, k) == filled_modulus(
                unit as int, ue2sq as int, ue3sq as int, um2sq as int, um3sq as int, f, k),
        m.sums_to(unit as int),
{
    let ue1sq: i64 = unit - ue3sq - ue2sq;
    let um1sq: i64 = unit - um3sq - um2sq;
    let ut1sq: i64 = unit - um1sq - ue1sq;
    let ut2sq: i64 = unit - um2sq - ue2sq;
    let ut3sq: i64 = unit - um3sq - ue3sq;
    let m = Mat3 {
        m00: ue1sq,
        m01: ue2sq,
        m02: ue3sq,
        m10: um1sq,
        m11: um2sq,
        m12: um3sq,
        m20: ut1sq,
        m21: ut2sq,
        m22: ut3sq,
    };
    proof {
        assert forall|i: int| 0 <= i < 3 implies #[trigger] m.row_sum(i) == unit && #[trigger] m.col_sum(i)
            == unit by {
            assert(m.row_sum(0) == unit);
            assert(m.row_sum(1) == unit);
            assert(m.row_sum(2) == unit);
            assert(m.col_sum(0) == unit);
            assert(m.col_sum(1) == unit);
            assert(m.col_sum(2) == unit);
        }
    }
    m
}

} // verus!
