//! The enumerated wire versions, the service operations, and the declared
//! compatibility of each (operation, version) pair relative to the canonical
//! schema.

use vstd::prelude::*;

verus! {

/// A supported wire version. Version selection is always explicit: no
/// implicit default version is ever chosen.
#[derive(Clone, Copy, Debug, PartialEq, Eq, Structural)]
pub enum Version {
    V1,
    V2,
}

/// A service operation.
#[derive(Clone, Copy, Debug, PartialEq, Eq, Structural)]
pub enum Operation {
    Print,
    Sum,
}

/// How one version's shape of one operation relates to the canonical shape.
/// `StrictSubset` means projecting canonical values into the version can
/// fail; `Equal` and `Superset` mean it cannot.
#[derive(Clone, Copy, Debug, PartialEq, Eq, Structural)]
pub enum Compatibility {
    StrictSubset,
    Equal,
    Superset,
}

/// The declared compatibility of each (operation, version) pair.
pub open spec fn spec_compatibility(version: Version, operation: Operation) -> Compatibility {
    match (version, operation) {
        (Version::V1, Operation::Sum) => Compatibility::StrictSubset,
        (Version::V1, Operation::Print) => Compatibility::Equal,
        (Version::V2, Operation::Sum) => Compatibility::Equal,
        (Version::V2, Operation::Print) => Compatibility::Equal,
    }
}

/// The compatibility table, as executable code.
pub fn compatibility(version: Version, operation: Operation) -> (r: Compatibility)
    ensures
        r == spec_compatibility(version, operation),
{
    match (version, operation) {
        (Version::V1, Operation::Sum) => Compatibility::StrictSubset,
        (Version::V1, Operation::Print) => Compatibility::Equal,
        (Version::V2, Operation::Sum) => Compatibility::Equal,
        (Version::V2, Operation::Print) => Compatibility::Equal,
    }
}

} // verus!
