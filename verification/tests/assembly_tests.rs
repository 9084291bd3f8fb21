use nufast::assembly::{assemble_probabilities, fill_moduli};
use nufast::flavor::Flavor;
use nufast::matrix::Mat3;

const UNIT: i64 = 1_000_000_000;

fn sample_matrix() -> Mat3 {
    // Scaled values of a plausible oscillation result: P(e->e), P(mu->mu)
    // and the CP-conserving / CP-violating parts of the e/mu channel.
    assemble_probabilities(UNIT, 931_000_000, 406_000_000, 98_500_000, -13_200_000)
}

#[test]
fn assembled_rows_sum_to_unit() {
    let m = sample_matrix();
    for row in 0..3 {
        let mut sum: i64 = 0;
        for col in 0..3 {
            sum += m.entry(row, col);
        }
        assert_eq!(sum, UNIT);
    }
}

#[test]
fn assembled_columns_sum_to_unit() {
    let m = sample_matrix();
    for col in 0..3 {
        let mut sum: i64 = 0;
        for row in 0..3 {
            sum += m.entry(row, col);
        }
        assert_eq!(sum, UNIT);
    }
}

#[test]
fn assembled_entries_match_the_fill() {
    let pee: i64 = 931_000_000;
    let pmm: i64 = 406_000_000;
    let cpc: i64 = 98_500_000;
    let cpv: i64 = -13_200_000;
    let m = assemble_probabilities(UNIT, pee, pmm, cpc, cpv);
    assert_eq!(m.m00, pee);
    assert_eq!(m.m01, cpc - cpv);
    assert_eq!(m.m10, cpc + cpv);
    assert_eq!(m.m11, pmm);
    assert_eq!(m.m02, UNIT - pee - (cpc - cpv));
    assert_eq!(m.m12, UNIT - (cpc + cpv) - pmm);
    assert_eq!(m.m20, UNIT - pee - (cpc + cpv));
    assert_eq!(m.m21, UNIT - (cpc - cpv) - pmm);
    assert_eq!(m.m22, UNIT - m.m02 - m.m12);
}

#[test]
fn negating_the_cp_term_transposes_the_matrix() {
    let direct = assemble_probabilities(UNIT, 931_000_000, 406_000_000, 98_500_000, -13_200_000);
    let negated = assemble_probabilities(UNIT, 931_000_000, 406_000_000, 98_500_000, 13_200_000);
    assert_eq!(negated, direct.transposed());
    assert_eq!(direct, negated.transposed());
}

#[test]
fn cp_conserving_matrix_is_symmetric() {
    let m = assemble_probabilities(UNIT, 931_000_000, 406_000_000, 98_500_000, 0);
    assert_eq!(m, m.transposed());
    assert_eq!(m.m01, m.m10);
}

#[test]
fn assembly_works_at_unit_one() {
    // The smallest scale: a pure survival "matrix".
    let m = assemble_probabilities(1, 1, 1, 0, 0);
    assert_eq!(m.m00, 1);
    assert_eq!(m.m11, 1);
    assert_eq!(m.m22, 1);
    assert_eq!(m.m01, 0);
    assert_eq!(m.m02, 0);
    assert_eq!(m.m12, 0);
    for row in 0..3 {
        let mut sum: i64 = 0;
        for col in 0..3 {
            sum += m.entry(row, col);
        }
        assert_eq!(sum, 1);
    }
}

#[test]
fn filled_moduli_rows_and_columns_sum_to_unit() {
    // Scaled values of Ue2^2, Ue3^2, Um2^2, Um3^2 for ordinary mixing
    // angles (s12^2 = 0.31, s13^2 = 0.02, s23^2 = 0.55).
    let m = fill_moduli(UNIT, 303_800_000, 20_000_000, 329_551_573, 539_000_000);
    for i in 0..3 {
        let mut row_sum: i64 = 0;
        let mut col_sum: i64 = 0;
        for j in 0..3 {
            row_sum += m.entry(i, j);
            col_sum += m.entry(j, i);
        }
        assert_eq!(row_sum, UNIT);
        assert_eq!(col_sum, UNIT);
    }
}

#[test]
fn filled_moduli_keep_the_given_entries() {
    let ue2sq: i64 = 303_800_000;
    let ue3sq: i64 = 20_000_000;
    let um2sq: i64 = 329_551_573;
    let um3sq: i64 = 539_000_000;
    let m = fill_moduli(UNIT, ue2sq, ue3sq, um2sq, um3sq);
    assert_eq!(m.m01, ue2sq);
    assert_eq!(m.m02, ue3sq);
    assert_eq!(m.m11, um2sq);
    assert_eq!(m.m12, um3sq);
    assert_eq!(m.m00, UNIT - ue3sq - ue2sq);
    assert_eq!(m.m10, UNIT - um3sq - um2sq);
    assert_eq!(m.m22, UNIT - um3sq - ue3sq);
}

#[test]
fn filled_moduli_with_decoupled_third_flavor() {
    // A vanishing reactor angle (s13^2 = 0) decouples the third mass
    // state from the electron row: the electron row splits between the
    // first two mass states and the tau row picks up the rest.
    let ue2sq: i64 = 310_000_000;
    let um2sq: i64 = 310_500_000;
    let um3sq: i64 = 539_000_000;
    let m = fill_moduli(UNIT, ue2sq, 0, um2sq, um3sq);
    assert_eq!(m.m02, 0);
    assert_eq!(m.m00, UNIT - ue2sq);
    assert_eq!(m.m22, UNIT - um3sq);
    assert_eq!(m.m21, UNIT - um2sq - ue2sq);
}

#[test]
fn flavor_indices_are_fixed() {
    assert_eq!(Flavor::Electron.index(), 0);
    assert_eq!(Flavor::Muon.index(), 1);
    assert_eq!(Flavor::Tau.index(), 2);
    for i in 0..3 {
        assert_eq!(Flavor::from_index(i).index(), i);
    }
}

#[test]
fn entry_for_follows_the_flavor_order() {
    let m = sample_matrix();
    assert_eq!(m.entry_for(Flavor::Electron, Flavor::Electron), m.m00);
    assert_eq!(m.entry_for(Flavor::Electron, Flavor::Muon), m.m01);
    assert_eq!(m.entry_for(Flavor::Muon, Flavor::Electron), m.m10);
    assert_eq!(m.entry_for(Flavor::Tau, Flavor::Muon), m.m21);
}

#[test]
fn transposed_swaps_rows_and_columns() {
    let m = sample_matrix();
    let t = m.transposed();
    for row in 0..3 {
        for col in 0..3 {
            assert_eq!(t.entry(row, col), m.entry(col, row));
        }
    }
}
