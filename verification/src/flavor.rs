//! The three neutrino flavors and their fixed matrix-index order.

use vstd::prelude::*;

verus! {

/// A neutrino interaction eigenstate.  The interface order is fixed:
/// electron is row/column 0, muon is 1, tau is 2.
#[derive(Clone, Copy, Debug, PartialEq, Eq, Structural)]
pub enum Flavor {
    Electron,
    Muon,
    Tau,
}

impl Flavor {
    /// The matrix index that this flavor occupies.
    pub open spec fn index_spec(self) -> int {
        match self {
            Flavor::Electron => 0,
            Flavor::Muon => 1,
            Flavor::Tau => 2,
        }
    }

    /// Matrix index of the flavor: electron 0, muon 1, tau 2.
    pub fn index(self) -> (i: usize)
        ensures
            i == self.index_spec(),
    {
        match self {
            Flavor::Electron => 0,
            Flavor::Muon => 1,
            Flavor::Tau => 2,
        }
    }

    /// The flavor that occupies a matrix index.
    pub fn from_index(i: usize) -> (f: Flavor)
        requires
            i < 3,
        ensures
            f.index_spec() == i,
    {
        if i == 0 {
            Flavor::Electron
        } else if i == 1 {
            Flavor::Muon
        } else {
            Flavor::Tau
        }
    }
}

} // verus!
