//! Function and variable specifiers: overriding, visibility, mutability.
use vstd::prelude::*;
use crate::error::SolidityError;
use crate::name::{Name, names_text, names_view};
use crate::text::{seq_join, str_eq, to_string, join, strings_view};

verus! {

//-------------------------------------------------------------------------
// Overriding
//-------------------------------------------------------------------------

/// Function and variable overriding.
#[derive(PartialEq, Eq, Debug)]
pub enum Overriding {
    /// No `override` specifier.
    Unspecified,
    /// Override all parent contracts.
    All,
    /// List of contract names that is overridden.
    Listed(Vec<Name>),
}

/// Text of an overriding specifier.
pub open spec fn overriding_text(o: &Overriding) -> Seq<char> {
    match o {
        Overriding::Unspecified => Seq::empty(),
        Overriding::All => "override"@,
        Overriding::Listed(names) => "override("@ + seq_join(names_text(names_view(names@)), ", "@)
            + ")"@,
    }
}

impl Overriding {
    pub fn is_all(&self) -> (res: bool)
        ensures
            res == (*self is All),
    {
        matches!(self, Overriding::All)
    }

    pub fn is_some(&self) -> (res: bool)
        ensures
            res == (*self is Listed),
    {
        matches!(self, Overriding::Listed(_))
    }

    pub fn is_none(&self) -> (res: bool)
        ensures
            res == (*self is Unspecified),
    {
        matches!(self, Overriding::Unspecified)
    }

    /// The text that displaying the specifier produces.
    pub fn to_string(&self) -> (res: String)
        ensures
            res@ == overriding_text(self),
    {
        match self {
            Overriding::Unspecified => String::new(),
            Overriding::All => to_string("override"),
            Overriding::Listed(names) => {
                let mut parts: Vec<String> = Vec::new();
                let mut i: usize = 0;
                while i < names.len()
                    invariant
                        i <= names.len(),
                        parts@.len() == i,
                        forall|j: int|
                            0 <= j < i ==> #[trigger] parts@[j]@ == crate::name::name_text(
                                names@[j]@,
                            ),
                    decreases names.len() - i,
                {
                    parts.push(names[i].to_string());
                    i = i + 1;
                }
                assert(strings_view(parts@) =~= names_text(names_view(names@)));
                let mut s = to_string("override(");
                s.append(join(&parts, ", ").as_str());
                s.append(")");
                s
            },
        }
    }
}

//-------------------------------------------------------------------------
// Function visibility
//-------------------------------------------------------------------------

/// Function visibility.
#[derive(PartialEq, Eq, Debug, Clone, Copy, Hash, Structural)]
pub enum FuncVis {
    Internal,
    External,
    Private,
    Public,
    /// No visibility specification.
    Unspecified,
}

/// The function visibility that a keyword names, if any.
pub open spec fn func_vis_of(s: Seq<char>) -> Option<FuncVis> {
    if s == "internal"@ {
        Some(FuncVis::Internal)
    } else if s == "external"@ {
        Some(FuncVis::External)
    } else if s == "public"@ {
        Some(FuncVis::Public)
    } else if s == "private"@ {
        Some(FuncVis::Private)
    } else {
        Option::None
    }
}

/// Text of a function visibility.
pub open spec fn func_vis_text(v: FuncVis) -> Seq<char> {
    match v {
        FuncVis::Internal => "internal"@,
        FuncVis::External => "external"@,
        FuncVis::Private => "private"@,
        FuncVis::Public => "public"@,
        FuncVis::Unspecified => Seq::empty(),
    }
}

impl FuncVis {
    /// The visibility named by a keyword; the keyword must be one of
    /// `internal`, `external`, `public`, `private`.
    pub fn new(visibility: &str) -> (res: Self)
        requires
            func_vis_of(visibility@) is Some,
        ensures
            res == func_vis_of(visibility@)->0,
    {
        if str_eq(visibility, "internal") {
            FuncVis::Internal
        } else if str_eq(visibility, "external") {
            FuncVis::External
        } else if str_eq(visibility, "public") {
            FuncVis::Public
        } else {
            FuncVis::Private
        }
    }

    /// The text that displaying the visibility produces.
    pub fn to_string(&self) -> (res: String)
        ensures
            res@ == func_vis_text(*self),
    {
        match self {
            FuncVis::Internal => to_string("internal"),
            FuncVis::External => to_string("external"),
            FuncVis::Private => to_string("private"),
            FuncVis::Public => to_string("public"),
            FuncVis::Unspecified => String::new(),
        }
    }
}

//-------------------------------------------------------------------------
// Variable visibility
//-------------------------------------------------------------------------

/// Variable visibility.
#[derive(PartialEq, Eq, Debug, Clone, Copy, Structural)]
pub enum VarVis {
    Internal,
    Private,
    Public,
    /// No visibility specification.
    Unspecified,
}

/// The variable visibility that a keyword names, if any.
pub open spec fn var_vis_of(s: Seq<char>) -> Option<VarVis> {
    if s == "internal"@ {
        Some(VarVis::Internal)
    } else if s == "public"@ {
        Some(VarVis::Public)
    } else if s == "private"@ {
        Some(VarVis::Private)
    } else {
        Option::None
    }
}

/// Text of a variable visibility; `internal` is not printed.
pub open spec fn var_vis_text(v: VarVis) -> Seq<char> {
    match v {
        VarVis::Internal => Seq::empty(),
        VarVis::Private => "private"@,
        VarVis::Public => "public"@,
        VarVis::Unspecified => Seq::empty(),
    }
}

impl VarVis {
    /// The visibility named by a keyword; the keyword must be one of
    /// `internal`, `public`, `private`.
    pub fn new(visibility: &str) -> (res: Self)
        requires
            var_vis_of(visibility@) is Some,
        ensures
            res == var_vis_of(visibility@)->0,
    {
        if str_eq(visibility, "internal") {
            VarVis::Internal
        } else if str_eq(visibility, "public") {
            VarVis::Public
        } else {
            VarVis::Private
        }
    }

    /// The text that displaying the visibility produces.
    pub fn to_string(&self) -> (res: String)
        ensures
            res@ == var_vis_text(*self),
    {
        match self {
            VarVis::Private => to_string("private"),
            VarVis::Public => to_string("public"),
            _ => String::new(),
        }
    }
}

//-------------------------------------------------------------------------
// Function mutability
//-------------------------------------------------------------------------

/// Function mutability.
#[derive(PartialEq, Eq, Debug, Clone, Copy, Hash, Structural)]
pub enum FuncMut {
    Payable,
    NonPayable,
    Pure,
    View,
    Constant,
    /// No mutability specification.
    Unspecified,
}

/// The function mutability that a keyword names, if any.
pub open spec fn func_mut_of(s: Seq<char>) -> Option<FuncMut> {
    if s == "payable"@ {
        Some(FuncMut::Payable)
    } else if s == "nonpayable"@ {
        Some(FuncMut::NonPayable)
    } else if s == "pure"@ {
        Some(FuncMut::Pure)
    } else if s == "view"@ {
        Some(FuncMut::View)
    } else {
        Option::None
    }
}

/// Text of a function mutability; `nonpayable` is not printed.
pub open spec fn func_mut_text(m: FuncMut) -> Seq<char> {
    match m {
        FuncMut::Constant => "constant"@,
        FuncMut::NonPayable => Seq::empty(),
        FuncMut::Payable => "payable"@,
        FuncMut::Pure => "pure"@,
        FuncMut::View => "view"@,
        FuncMut::Unspecified => Seq::empty(),
    }
}

impl FuncMut {
    /// The state mutability named by a keyword of the JSON AST.
    pub fn new(mutability: &str) -> (res: Result<Self, SolidityError>)
        ensures
            func_mut_of(mutability@) is Some ==> res == Ok::<FuncMut, SolidityError>(
                func_mut_of(mutability@)->0,
            ),
            func_mut_of(mutability@) is None ==> (res matches Err(
                SolidityError::UnknownStateMutability(t),
            ) && t@ == mutability@),
    {
        if str_eq(mutability, "payable") {
            Ok(FuncMut::Payable)
        } else if str_eq(mutability, "nonpayable") {
            Ok(FuncMut::NonPayable)
        } else if str_eq(mutability, "pure") {
            Ok(FuncMut::Pure)
        } else if str_eq(mutability, "view") {
            Ok(FuncMut::View)
        } else {
            Err(SolidityError::UnknownStateMutability(to_string(mutability)))
        }
    }

    pub fn is_view(&self) -> (res: bool)
        ensures
            res == (*self == FuncMut::View),
    {
        matches!(self, Self::View)
    }

    pub fn is_pure(&self) -> (res: bool)
        ensures
            res == (*self == FuncMut::Pure),
    {
        matches!(self, Self::Pure)
    }

    pub fn is_payable(&self) -> (res: bool)
        ensures
            res == (*self == FuncMut::Payable),
    {
        matches!(self, Self::Payable)
    }

    pub fn is_non_payable(&self) -> (res: bool)
        ensures
            res == (*self == FuncMut::NonPayable),
    {
        matches!(self, Self::NonPayable)
    }

    /// The text that displaying the mutability produces.
    pub fn to_string(&self) -> (res: String)
        ensures
            res@ == func_mut_text(*self),
    {
        match self {
            FuncMut::Constant => to_string("constant"),
            FuncMut::Payable => to_string("payable"),
            FuncMut::Pure => to_string("pure"),
            FuncMut::View => to_string("view"),
            _ => String::new(),
        }
    }
}

//-------------------------------------------------------------------------
// Variable mutability
//-------------------------------------------------------------------------

/// Variable mutability.
#[derive(PartialEq, Eq, Debug, Clone, Copy, Structural)]
pub enum VarMut {
    Constant,
    Immutable,
    Mutable,
    /// No mutability specification.
    Unspecified,
}

/// The variable mutability that a keyword names, if any.
pub open spec fn var_mut_of(s: Seq<char>) -> Option<VarMut> {
    if s == "mutable"@ {
        Some(VarMut::Mutable)
    } else if s == "immutable"@ {
        Some(VarMut::Immutable)
    } else if s == "constant"@ {
        Some(VarMut::Constant)
    } else {
        Option::None
    }
}

/// Text of a variable mutability.
pub open spec fn var_mut_text(m: VarMut) -> Seq<char> {
    match m {
        VarMut::Constant => "constant"@,
        VarMut::Immutable => "immutable"@,
        VarMut::Mutable => "mutable"@,
        VarMut::Unspecified => Seq::empty(),
    }
}

impl VarMut {
    /// The mutability named by a keyword of the JSON AST.
    pub fn new(mutability: &str) -> (res: Result<Self, SolidityError>)
        ensures
            var_mut_of(mutability@) is Some ==> res == Ok::<VarMut, SolidityError>(
                var_mut_of(mutability@)->0,
            ),
            var_mut_of(mutability@) is None ==> (res matches Err(
                SolidityError::UnknownMutability(t),
            ) && t@ == mutability@),
    {
        if str_eq(mutability, "mutable") {
            Ok(VarMut::Mutable)
        } else if str_eq(mutability, "immutable") {
            Ok(VarMut::Immutable)
        } else if str_eq(mutability, "constant") {
            Ok(VarMut::Constant)
        } else {
            Err(SolidityError::UnknownMutability(to_string(mutability)))
        }
    }

    pub fn is_mutable(&self) -> (res: bool)
        ensures
            res == (*self == VarMut::Mutable),
    {
        matches!(self, Self::Mutable)
    }

    pub fn is_immutable(&self) -> (res: bool)
        ensures
            res == (*self == VarMut::Immutable),
    {
        matches!(self, Self::Immutable)
    }

    /// The text that displaying the mutability produces.
    pub fn to_string(&self) -> (res: String)
        ensures
            res@ == var_mut_text(*self),
    {
        match self {
            VarMut::Constant => to_string("constant"),
            VarMut::Immutable => to_string("immutable"),
            VarMut::Mutable => to_string("mutable"),
            VarMut::Unspecified => String::new(),
        }
    }
}

} // verus!
