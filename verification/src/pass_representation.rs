//! The representation a pass operates on.
use vstd::prelude::*;

verus! {

/// The representation a pass operates on.
///
/// Passes can work on AST (high-level source structure), IR (low-level
/// normalized form), or both (hybrid passes).
#[derive(Debug, Clone, Copy, PartialEq, Eq, Hash, Structural)]
pub enum PassRepresentation {
    /// Operates on AST only
    Ast,
    /// Operates on IR only (requires IR generation)
    Ir,
    /// Operates on both AST and IR
    Hybrid,
}

/// The textual name of a representation.
pub open spec fn representation_name(r: PassRepresentation) -> Seq<char> {
    match r {
        PassRepresentation::Ast => "AST"@,
        PassRepresentation::Ir => "IR"@,
        PassRepresentation::Hybrid => "Hybrid"@,
    }
}

impl PassRepresentation {
    /// Get the string representation.
    pub fn as_str(&self) -> (res: &'static str)
        ensures
            res@ == representation_name(*self),
    {
        match self {
            PassRepresentation::Ast => "AST",
            PassRepresentation::Ir => "IR",
            PassRepresentation::Hybrid => "Hybrid",
        }
    }

    /// Check if this representation requires IR.
    pub fn requires_ir(&self) -> (res: bool)
        ensures
            res <==> (*self == PassRepresentation::Ir || *self == PassRepresentation::Hybrid),
    {
        matches!(self, PassRepresentation::Ir | PassRepresentation::Hybrid)
    }

    /// Check if this representation uses AST.
    pub fn uses_ast(&self) -> (res: bool)
        ensures
            res <==> (*self == PassRepresentation::Ast || *self == PassRepresentation::Hybrid),
    {
        matches!(self, PassRepresentation::Ast | PassRepresentation::Hybrid)
    }

    /// The text that displaying the representation produces.
    pub fn to_string(&self) -> (res: String)
        ensures
            res@ == representation_name(*self),
    {
        self.as_str().to_owned()
    }
}

} // verus!
