//! Expressions that carry only a type: `new` expressions and type names.
use vstd::prelude::*;
use crate::loc::Loc;
use crate::text::to_string;
use crate::types::{Type, type_text};

verus! {

/// A `new` expression creating a value of a type.
#[derive(PartialEq, Eq, Debug)]
pub struct NewExpr {
    pub id: Option<isize>,
    pub typ: Type,
    pub loc: Option<Loc>,
}

/// An expression that names a type.
#[derive(PartialEq, Eq, Debug)]
pub struct TypeNameExpr {
    pub id: Option<isize>,
    pub typ: Type,
    pub loc: Option<Loc>,
}

/// Text of a `new` expression.
pub open spec fn new_expr_text(e: NewExpr) -> Seq<char> {
    "new "@ + type_text(e.typ)
}

/// Text of a type name expression: the type, but `string` without its
/// data location.
pub open spec fn type_name_expr_text(e: TypeNameExpr) -> Seq<char> {
    match e.typ {
        Type::String { .. } => "string"@,
        _ => type_text(e.typ),
    }
}

impl NewExpr {
    pub fn new(id: Option<isize>, typ: Type, loc: Option<Loc>) -> (res: Self)
        ensures
            res == (NewExpr { id, typ, loc }),
    {
        NewExpr { id, typ, loc }
    }

    /// Replaces the type of the expression.
    pub fn update_data_type(&mut self, new_type: Type)
        ensures
            *final(self) == (NewExpr { typ: new_type, ..*old(self) }),
    {
        self.typ = new_type;
    }

    /// The text that displaying the expression produces.
    pub fn to_string(&self) -> (res: String)
        ensures
            res@ == new_expr_text(*self),
    {
        let mut s = to_string("new ");
        s.append(self.typ.to_string().as_str());
        s
    }
}

impl TypeNameExpr {
    pub fn new(id: Option<isize>, typ: Type, loc: Option<Loc>) -> (res: Self)
        ensures
            res == (TypeNameExpr { id, typ, loc }),
    {
        TypeNameExpr { id, typ, loc }
    }

    /// Replaces the type of the expression.
    pub fn update_data_type(&mut self, new_type: Type)
        ensures
            *final(self) == (TypeNameExpr { typ: new_type, ..*old(self) }),
    {
        self.typ = new_type;
    }

    /// The text that displaying the expression produces.
    pub fn to_string(&self) -> (res: String)
        ensures
            res@ == type_name_expr_text(*self),
    {
        match &self.typ {
            Type::String { .. } => to_string("string"),
            _ => self.typ.to_string(),
        }
    }
}

impl Clone for NewExpr {
    fn clone(&self) -> (res: Self)
        ensures
            res == *self,
    {
        NewExpr { id: self.id, typ: self.typ.clone(), loc: self.loc }
    }
}

impl Clone for TypeNameExpr {
    fn clone(&self) -> (res: Self)
        ensures
            res == *self,
    {
        TypeNameExpr { id: self.id, typ: self.typ.clone(), loc: self.loc }
    }
}

} // verus!
