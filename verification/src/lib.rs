//! Verified core of a three-flavor neutrino oscillation calculator.
//!
//! The floating-point front ends evaluate trigonometric and square-root
//! expressions and therefore live outside this library.  What is verified
//! here is everything about the calculation that is exact algebra:
//!
//! * the layout of the 3x3 transition-probability matrix and the
//!   unitarity fill that derives five of its entries from the four
//!   independently computed ones (`assembly`), so that every row and
//!   every column sums to one by construction;
//! * the unitarity fill of the mixing-matrix squared-moduli (`assembly`);
//! * the algebraic identities behind the matter-eigenvalue solve: the
//!   Newton refinement of the cubic characteristic equation, recovery of
//!   the remaining eigenvalues from a known root, and the
//!   partial-fraction reconstruction of the squared-moduli (`eigen`).
//!
//! Quantities are carried as integers scaled by a caller-chosen unit, so
//! the statements hold exactly; the floating-point front end mirrors the
//! same formulas value for value.

pub mod assembly;
pub mod eigen;
pub mod flavor;
pub mod matrix;
