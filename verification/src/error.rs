//! Errors reported by the library.
use vstd::prelude::*;

verus! {

/// An error of the library, carrying the text that caused it.
#[derive(Debug, Clone, PartialEq, Eq)]
pub enum SolidityError {
    /// A data location keyword that is not known.
    UnknownDataLoc(String),
    /// A function state mutability keyword that is not known.
    UnknownStateMutability(String),
    /// A variable mutability keyword that is not known.
    UnknownMutability(String),
    /// A version constraint that cannot be parsed.
    InvalidVersionConstraint(String),
    /// A version constraint that no known compiler version satisfies.
    NoSatisfyingVersion(String),
    /// An assignment operator that is not known.
    InvalidAssignOp(String),
    /// A binary operator that is not known.
    InvalidBinOp(String),
    /// A unary operator that is not known.
    InvalidUnaryOp(String),
    /// A contract kind keyword that is not known.
    UnknownContractKind(String),
    /// A function kind keyword that is not known.
    UnknownFuncKind(String),
    /// The joined version constraints of a source that cannot be parsed.
    UnparsableVersion(String),
    /// Version constraints of a source that admit no version from 0.4.12 on.
    UnsupportedVersion(String),
}

} // verus!
