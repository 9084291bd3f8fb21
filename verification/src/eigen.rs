//! Algebra of the matter-eigenvalue solve.
//!
//! In matter the three effective squared-mass eigenvalues are the roots
//! of the cubic characteristic equation
//!
//! ```text
//! lambda^3 - A*lambda^2 + B*lambda - C = 0
//! ```
//!
//! of the effective Hamiltonian.  The calculator never diagonalizes a
//! matrix numerically: it starts from a closed-form estimate of the
//! largest root, polishes it with a fixed number of Newton iterations,
//! recovers the other two roots from the reduced quadratic, and
//! reconstructs the mixing squared-moduli from the roots by an exact
//! partial-fraction identity.  The lemmas here state, over exact
//! integers, the algebraic identities each of those steps relies on; the
//! floating-point front end evaluates the very same formulas.

use vstd::prelude::*;

verus! {

/// The residual of the cubic characteristic equation at `l`: zero
/// exactly at an eigenvalue.
pub open spec fn characteristic_residual(l: int, a: int, b: int, c: int) -> int {
    l * l * l - a * l * l + b * l - c
}

/// Numerator of the Newton update for the characteristic cubic, in the
/// addition-preferring arrangement `l*l*(l + l - a) + c` that the
/// refinement loop evaluates (it equals `2*l^3 - a*l^2 + c`).
pub open spec fn newton_numerator(l: int, a: int, c: int) -> int {
    l * l * (l + l - a) + c
}

/// Denominator of the Newton update: the derivative of the cubic at
/// `l`, in the arrangement `l*(2*(l - a) + l) + b` the loop evaluates
/// (it equals `3*l^2 - 2*a*l + b`).
pub open spec fn newton_denominator(l: int, a: int, b: int) -> int {
    l * (2 * (l - a) + l) + b
}

/// The Newton update is the exact division `numerator / denominator`;
/// this identity is why it refines a root: the numerator differs from
/// `l * denominator` by exactly the characteristic residual, so the
/// update moves `l` by `residual / derivative` — one Newton step on the
/// characteristic cubic.
pub proof fn lemma_newton_update_decomposition(l: int, a: int, b: int, c: int)
    by (nonlinear_arith)
    ensures
        newton_numerator(l, a, c) == l * newton_denominator(l, a, b) - characteristic_residual(
            l,
            a,
            b,
            c,
        ),
{
}

/// An exact eigenvalue is a fixed point of the refinement: at a root of
/// the characteristic cubic the Newton numerator equals `l` times the
/// Newton denominator, so the update (an exact division where the
/// derivative is nonzero) returns `l` itself.  Refinement can therefore
/// only move the iterate while the residual is nonzero.
pub proof fn lemma_root_is_newton_fixed_point(l: int, a: int, b: int, c: int)
    requires
        characteristic_residual(l, a, b, c) == 0,
    ensures
        newton_numerator(l, a, c) == l * newton_denominator(l, a, b),
{
    lemma_newton_update_decomposition(l, a, b, c);
}

/// Vieta's relations: three numbers are roots of the monic cubic whose
/// coefficients are their sum, the sum of their pairwise products and
/// their product.
pub proof fn lemma_vieta_roots(l1: int, l2: int, l3: int)
    by (nonlinear_arith)
    ensures
        characteristic_residual(l1, l1 + l2 + l3, l1 * l2 + l1 * l3 + l2 * l3, l1 * l2 * l3) == 0,
        characteristic_residual(l2, l1 + l2 + l3, l1 * l2 + l1 * l3 + l2 * l3, l1 * l2 * l3) == 0,
        characteristic_residual(l3, l1 + l2 + l3, l1 * l2 + l1 * l3 + l2 * l3, l1 * l2 * l3) == 0,
{
}

/// Recovery of the remaining eigenvalues from a known root.
///
/// Once the largest root `l3` of the cubic is known (and nonzero), the
/// other two are the roots of the reduced quadratic
/// `x^2 - (a - l3)*x + c/l3`.  Stated over integers with the division
/// cleared (`c == c3 * l3`): if `d` is a square root of the reduced
/// discriminant `(a - l3)^2 - 4*c3`, then `l2 = (a - l3 + d) / 2` and
/// `l1 = a - l3 - l2` are roots of the cubic too, and the three roots
/// carry the full Vieta data: they sum to `a` and `l1 * l2 == c3`.
pub proof fn lemma_remaining_eigenvalues(a: int, b: int, c: int, c3: int, l3: int, d: int, l2: int, l1: int)
    requires
        l3 != 0,
        characteristic_residual(l3, a, b, c) == 0,
        c == c3 * l3,
        d * d == (a - l3) * (a - l3) - 4 * c3,
        2 * l2 == a - l3 + d,
        l1 == a - l3 - l2,
    ensures
        l1 + l2 + l3 == a,
        l1 * l2 == c3,
        characteristic_residual(l2, a, b, c) == 0,
        characteristic_residual(l1, a, b, c) == 0,
{
    assert(b * l3 == a * l3 * l3 - l3 * l3 * l3 + c3 * l3) by (nonlinear_arith)
        requires
            characteristic_residual(l3, a, b, c) == 0,
            c == c3 * l3,
    ;
    assert(b == a * l3 - l3 * l3 + c3) by (nonlinear_arith)
        requires
            l3 != 0,
            b * l3 == a * l3 * l3 - l3 * l3 * l3 + c3 * l3,
    ;
    assert(4 * (l2 * l2 - (a - l3) * l2 + c3) == 0) by (nonlinear_arith)
        requires
            2 * l2 == a - l3 + d,
            d * d == (a - l3) * (a - l3) - 4 * c3,
    ;
    assert(l1 * l2 == c3) by (nonlinear_arith)
        requires
            l2 * l2 - (a - l3) * l2 + c3 == 0,
            l1 == a - l3 - l2,
    ;
    assert(characteristic_residual(l2, a, b, c) == 0) by (nonlinear_arith)
        requires
            l2 * l2 - (a - l3) * l2 + c3 == 0,
            b == a * l3 - l3 * l3 + c3,
            c == c3 * l3,
    ;
    assert(l1 * l1 - (a - l3) * l1 + c3 == 0) by (nonlinear_arith)
        requires
            l1 * l2 == c3,
            l1 + l2 == a - l3,
    ;
    assert(characteristic_residual(l1, a, b, c) == 0) by (nonlinear_arith)
        requires
            l1 * l1 - (a - l3) * l1 + c3 == 0,
            b == a * l3 - l3 * l3 + c3,
            c == c3 * l3,
    ;
}

/// The vacuum limit of the characteristic cubic.
///
/// With no matter potential the coefficients collapse to
/// `a = dm21 + dm31`, `b = dm21 * dm31` and `c = 0`, and the roots are
/// exactly `0`, `dm21` and `dm31`: the effective eigenvalues coincide
/// with the vacuum mass splittings, which is why the matter calculator
/// degenerates continuously to the vacuum one as the density goes to
/// zero.
pub proof fn lemma_vacuum_limit_roots(dm21: int, dm31: int)
    ensures
        characteristic_residual(0, dm21 + dm31, dm21 * dm31, 0) == 0,
        characteristic_residual(dm21, dm21 + dm31, dm21 * dm31, 0) == 0,
        characteristic_residual(dm31, dm21 + dm31, dm21 * dm31, 0) == 0,
{
    lemma_vieta_roots(0, dm21, dm31);
}

/// The quadratic numerator of the modulus reconstruction for one flavor:
/// `l*(l - s) + t`, where `s` and `t` are that flavor's diagonal
/// combinations of the characteristic coefficients (See/Tee for the
/// electron row, Smm/Tmm for the muon row).
pub open spec fn reconstruction_numerator(l: int, s: int, t: int) -> int {
    l * (l - s) + t
}

/// The partial-fraction identity behind the modulus reconstruction.
///
/// The reconstruction evaluates, for each eigenvalue, the flavor's
/// quadratic numerator divided by the product of that eigenvalue's
/// differences with the other two.  With the denominators cleared, the
/// three terms sum to the full eigenvalue-difference product — that is,
/// the three reconstructed squared-moduli of a flavor row sum exactly to
/// one, whatever the eigenvalues and the coefficients are.  It is an
/// exact algebraic identity, not an approximation.
pub proof fn lemma_reconstruction_partition(l1: int, l2: int, l3: int, s: int, t: int)
    ensures
        reconstruction_numerator(l3, s, t) * (l2 - l1) - reconstruction_numerator(l2, s, t) * (l3
            - l1) + reconstruction_numerator(l1, s, t) * (l3 - l2) == (l3 - l1) * (l3 - l2) * (l2
            - l1),
{
    // Each numerator-times-difference product distributed into a fixed
    // monomial form; with the mixed products commuted to a shared shape,
    // the final combination is linear in those monomials.
    lemma_distribute_numerator(l3, l2, l1, s, t);
    lemma_distribute_numerator(l2, l3, l1, s, t);
    lemma_distribute_numerator(l1, l3, l2, s, t);
    vstd::arithmetic::mul::lemma_mul_is_commutative(l3, l2);
    vstd::arithmetic::mul::lemma_mul_is_commutative(l3, l1);
    vstd::arithmetic::mul::lemma_mul_is_commutative(l2, l1);
    assert((l3 - l1) * (l3 - l2) * (l2 - l1) == l2 * (l3 * l3) - l1 * (l3 * l3) - l3 * (l2 * l2)
        + l1 * (l2 * l2) + l3 * (l1 * l1) - l2 * (l1 * l1)) by (nonlinear_arith);
}

/// One flavor-numerator term of the partition identity, distributed
/// into monomials.
proof fn lemma_distribute_numerator(x: int, y: int, z: int, s: int, t: int)
    ensures
        (x * (x - s) + t) * (y - z) == y * (x * x) - z * (x * x) - s * (x * y) + s * (x * z) + t
            * y - t * z,
{
    vstd::arithmetic::mul::lemma_mul_is_distributive_sub(x, x, s);
    vstd::arithmetic::mul::lemma_mul_is_distributive_sub(x * (x - s) + t, y, z);
    vstd::arithmetic::mul::lemma_mul_is_distributive_add_other_way(y, x * (x - s), t);
    vstd::arithmetic::mul::lemma_mul_is_distributive_add_other_way(z, x * (x - s), t);
    vstd::arithmetic::mul::lemma_mul_is_distributive_sub_other_way(y, x * x, x * s);
    vstd::arithmetic::mul::lemma_mul_is_distributive_sub_other_way(z, x * x, x * s);
    vstd::arithmetic::mul::lemma_mul_is_commutative(x * x, y);
    vstd::arithmetic::mul::lemma_mul_is_commutative(x * x, z);
    vstd::arithmetic::mul::lemma_mul_is_commutative(x, s);
    vstd::arithmetic::mul::lemma_mul_is_associative(s, x, y);
    vstd::arithmetic::mul::lemma_mul_is_associative(s, x, z);
}

} // verus!
