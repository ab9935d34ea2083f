//! Definitions of a Solidity source unit: contract and function kinds,
//! enums, structs and user-defined value types.
use vstd::prelude::*;
use crate::error::SolidityError;
use crate::expressions::{Expr, Identifier, Rewrite, expr_text, opt_expr_rw, opt_expr_rw_ok};
use crate::loc::{DataLoc, Loc, data_loc_text};
use crate::name::{Name, NameView, name_text};
use crate::specifiers::{Overriding, VarMut, VarVis, overriding_text, var_mut_text, var_vis_text};
use crate::types::type_data_loc;
use crate::text::{seq_join, strings_view, join, indent, indent_text, str_eq, to_string};
use crate::types::{Type, type_text};

verus! {

/// Contract kind.
#[derive(PartialEq, Eq, Debug, Clone, Copy, Structural)]
pub enum ContractKind {
    Contract,
    Interface,
    Library,
}

/// The contract kind that a keyword names, if any.
pub open spec fn contract_kind_of(s: Seq<char>) -> Option<ContractKind> {
    if s == "contract"@ {
        Some(ContractKind::Contract)
    } else if s == "interface"@ {
        Some(ContractKind::Interface)
    } else if s == "library"@ {
        Some(ContractKind::Library)
    } else {
        None
    }
}

/// Text of a contract kind.
pub open spec fn contract_kind_text(k: ContractKind) -> Seq<char> {
    match k {
        ContractKind::Contract => "contract"@,
        ContractKind::Interface => "interface"@,
        ContractKind::Library => "library"@,
    }
}

impl ContractKind {
    /// The contract kind that `kind` names.
    pub fn from_string(kind: &str) -> (res: Result<Self, SolidityError>)
        ensures
            contract_kind_of(kind@) is Some ==> res == Ok::<ContractKind, SolidityError>(
                contract_kind_of(kind@)->0,
            ),
            contract_kind_of(kind@) is None ==> (res matches Err(
                SolidityError::UnknownContractKind(t),
            ) && t@ == kind@),
    {
        if str_eq(kind, "contract") {
            Ok(ContractKind::Contract)
        } else if str_eq(kind, "interface") {
            Ok(ContractKind::Interface)
        } else if str_eq(kind, "library") {
            Ok(ContractKind::Library)
        } else {
            Err(SolidityError::UnknownContractKind(to_string(kind)))
        }
    }

    /// The text that displaying the kind produces.
    pub fn to_string(&self) -> (res: String)
        ensures
            res@ == contract_kind_text(*self),
    {
        match self {
            ContractKind::Contract => to_string("contract"),
            ContractKind::Interface => to_string("interface"),
            ContractKind::Library => to_string("library"),
        }
    }
}

/// Function kind.
#[derive(PartialEq, Eq, Debug, Clone, Copy, Structural)]
pub enum FuncKind {
    Constructor,
    Receive,
    Fallback,
    ContractFunc,
    FreeFunc,
    Modifier,
}

/// The function kind that a keyword of the JSON AST names, if any.
pub open spec fn func_kind_of(s: Seq<char>) -> Option<FuncKind> {
    if s == "constructor"@ {
        Some(FuncKind::Constructor)
    } else if s == "receive"@ {
        Some(FuncKind::Receive)
    } else if s == "fallback"@ {
        Some(FuncKind::Fallback)
    } else if s == "function"@ {
        Some(FuncKind::ContractFunc)
    } else if s == "freeFunction"@ {
        Some(FuncKind::FreeFunc)
    } else if s == "modifier"@ {
        Some(FuncKind::Modifier)
    } else {
        None
    }
}

/// Text of a function kind, as its keyword in Solidity source.
pub open spec fn func_kind_text(k: FuncKind) -> Seq<char> {
    match k {
        FuncKind::Constructor => "constructor"@,
        FuncKind::Receive => "receive"@,
        FuncKind::Fallback => "fallback"@,
        FuncKind::ContractFunc => "function"@,
        FuncKind::FreeFunc => "function"@,
        FuncKind::Modifier => "modifier"@,
    }
}

impl FuncKind {
    /// The function kind that `kind` names.
    pub fn new(kind: &str) -> (res: Result<Self, SolidityError>)
        ensures
            func_kind_of(kind@) is Some ==> res == Ok::<FuncKind, SolidityError>(
                func_kind_of(kind@)->0,
            ),
            func_kind_of(kind@) is None ==> (res matches Err(SolidityError::UnknownFuncKind(t))
                && t@ == kind@),
    {
        if str_eq(kind, "constructor") {
            Ok(FuncKind::Constructor)
        } else if str_eq(kind, "receive") {
            Ok(FuncKind::Receive)
        } else if str_eq(kind, "fallback") {
            Ok(FuncKind::Fallback)
        } else if str_eq(kind, "function") {
            Ok(FuncKind::ContractFunc)
        } else if str_eq(kind, "freeFunction") {
            Ok(FuncKind::FreeFunc)
        } else if str_eq(kind, "modifier") {
            Ok(FuncKind::Modifier)
        } else {
            Err(SolidityError::UnknownFuncKind(to_string(kind)))
        }
    }

    /// The text that displaying the kind produces.
    pub fn to_string(&self) -> (res: String)
        ensures
            res@ == func_kind_text(*self),
    {
        match self {
            FuncKind::Constructor => to_string("constructor"),
            FuncKind::Receive => to_string("receive"),
            FuncKind::Fallback => to_string("fallback"),
            FuncKind::ContractFunc => to_string("function"),
            FuncKind::FreeFunc => to_string("function"),
            FuncKind::Modifier => to_string("modifier"),
        }
    }
}

/// Enum definition.
#[derive(PartialEq, Eq, Debug)]
pub struct EnumDef {
    pub id: Option<isize>,
    pub scope_id: Option<isize>,
    pub name: Name,
    pub elems: Vec<String>,
    pub loc: Option<Loc>,
}

/// Text of an enum definition: its members indented by four spaces, one
/// per line, separated by commas, in braces.
pub open spec fn enum_def_text(e: EnumDef) -> Seq<char> {
    "enum "@ + name_text(e.name@) + " {\n"@ + seq_join(
        strings_view(e.elems@).map_values(|m: Seq<char>| indent_text(m, 4)),
        ",\n"@,
    ) + "\n}"@
}

impl EnumDef {
    pub fn new(
        id: Option<isize>,
        scope: Option<isize>,
        name: Name,
        elems: Vec<String>,
        loc: Option<Loc>,
    ) -> (res: Self)
        ensures
            res == (EnumDef { id, scope_id: scope, name, elems, loc }),
    {
        EnumDef { id, scope_id: scope, name, elems, loc }
    }

    /// The text that displaying the definition produces.
    pub fn to_string(&self) -> (res: String)
        ensures
            res@ == enum_def_text(*self),
    {
        let mut parts: Vec<String> = Vec::new();
        let mut i: usize = 0;
        while i < self.elems.len()
            invariant
                i <= self.elems.len(),
                parts@.len() == i,
                forall|j: int| 0 <= j < i ==> #[trigger] parts@[j]@ == indent_text(self.elems@[j]@, 4),
            decreases self.elems.len() - i,
        {
            parts.push(indent(self.elems[i].as_str(), 4));
            i = i + 1;
        }
        assert(strings_view(parts@) =~= strings_view(self.elems@).map_values(
            |m: Seq<char>| indent_text(m, 4),
        ));
        let mut s = to_string("enum ");
        s.append(self.name.to_string().as_str());
        s.append(" {\n");
        s.append(join(&parts, ",\n").as_str());
        s.append("\n}");
        s
    }
}

/// Struct field.
#[derive(PartialEq, Eq, Debug)]
pub struct StructField {
    pub id: Option<isize>,
    pub name: String,
    pub typ: Type,
    pub loc: Option<Loc>,
}

/// Text of a struct field: its type and its name.
pub open spec fn struct_field_text(f: StructField) -> Seq<char> {
    type_text(f.typ) + " "@ + f.name@
}

impl StructField {
    pub fn new(id: Option<isize>, name: String, typ: Type, loc: Option<Loc>) -> (res: Self)
        ensures
            res == (StructField { id, name, typ, loc }),
    {
        StructField { id, name, typ, loc }
    }

    /// The text that displaying the field produces.
    pub fn to_string(&self) -> (res: String)
        ensures
            res@ == struct_field_text(*self),
    {
        let mut s = self.typ.to_string();
        s.append(" ");
        s.append(self.name.as_str());
        s
    }
}

/// Struct definition.
#[derive(PartialEq, Eq, Debug)]
pub struct StructDef {
    pub id: Option<isize>,
    pub scope_id: Option<isize>,
    pub name: Name,
    pub fields: Vec<StructField>,
    pub loc: Option<Loc>,
}

/// Text of a struct definition: each field, ended by a semicolon and
/// indented by four spaces, on a line of its own, in braces.
pub open spec fn struct_def_text(d: StructDef) -> Seq<char> {
    "struct "@ + name_text(d.name@) + " {\n"@ + seq_join(
        d.fields@.map_values(|f: StructField| indent_text(struct_field_text(f) + ";"@, 4)),
        "\n"@,
    ) + "\n}"@
}

impl StructDef {
    pub fn new(
        id: Option<isize>,
        scope: Option<isize>,
        name: Name,
        fields: Vec<StructField>,
        loc: Option<Loc>,
    ) -> (res: Self)
        ensures
            res == (StructDef { id, scope_id: scope, name, fields, loc }),
    {
        StructDef { id, scope_id: scope, name, fields, loc }
    }

    /// The text that displaying the definition produces.
    pub fn to_string(&self) -> (res: String)
        ensures
            res@ == struct_def_text(*self),
    {
        let mut parts: Vec<String> = Vec::new();
        let mut i: usize = 0;
        while i < self.fields.len()
            invariant
                i <= self.fields.len(),
                parts@.len() == i,
                forall|j: int|
                    0 <= j < i ==> #[trigger] parts@[j]@ == indent_text(
                        struct_field_text(self.fields@[j]) + ";"@,
                        4,
                    ),
            decreases self.fields.len() - i,
        {
            let mut f = self.fields[i].to_string();
            f.append(";");
            parts.push(indent(f.as_str(), 4));
            i = i + 1;
        }
        assert(strings_view(parts@) =~= self.fields@.map_values(
            |f: StructField| indent_text(struct_field_text(f) + ";"@, 4),
        ));
        let mut s = to_string("struct ");
        s.append(self.name.to_string().as_str());
        s.append(" {\n");
        s.append(join(&parts, "\n").as_str());
        s.append("\n}");
        s
    }
}

/// User-defined value type definition.
#[derive(PartialEq, Eq, Debug)]
pub struct TypeDef {
    pub id: Option<isize>,
    pub scope_id: Option<isize>,
    pub name: Name,
    pub base_typ: Type,
    pub loc: Option<Loc>,
}

/// Text of a user-defined value type definition.
pub open spec fn type_def_text(d: TypeDef) -> Seq<char> {
    "type "@ + name_text(d.name@) + " is "@ + type_text(d.base_typ) + ";"@
}

impl TypeDef {
    pub fn new(
        id: Option<isize>,
        scope: Option<isize>,
        name: Name,
        base: Type,
        loc: Option<Loc>,
    ) -> (res: Self)
        ensures
            res == (TypeDef { id, scope_id: scope, name, base_typ: base, loc }),
    {
        TypeDef { id, scope_id: scope, name, base_typ: base, loc }
    }

    /// The text that displaying the definition produces.
    pub fn to_string(&self) -> (res: String)
        ensures
            res@ == type_def_text(*self),
    {
        let mut s = to_string("type ");
        s.append(self.name.to_string().as_str());
        s.append(" is ");
        s.append(self.base_typ.to_string().as_str());
        s.append(";");
        s
    }
}

/// Variable declaration.
#[derive(PartialEq, Eq, Debug)]
pub struct VarDecl {
    pub id: Option<isize>,
    pub scope_id: Option<isize>,
    pub name: Name,
    pub typ: Type,
    pub value: Option<Expr>,
    pub mutability: VarMut,
    pub is_state_var: bool,
    pub overriding: Overriding,
    pub visibility: VarVis,
    pub data_loc: Option<DataLoc>,
    pub loc: Option<Loc>,
}

/// Whether the data location of a declared variable is printed: for
/// arrays, structs, mappings and strings, and for dynamic `bytes` that are
/// not state variables.
pub open spec fn prints_data_loc(v: VarDecl) -> bool {
    match v.typ {
        Type::Array { .. } | Type::Struct { .. } | Type::Mapping { .. } | Type::String { .. } => true,
        Type::Bytes { length, .. } => !v.is_state_var && length is None,
        _ => false,
    }
}

/// A space and `t`, or nothing when `t` is empty.
pub open spec fn spaced(t: Seq<char>) -> Seq<char> {
    if t.len() > 0 {
        " "@ + t
    } else {
        Seq::empty()
    }
}

/// The data location part of a declaration's text.
pub open spec fn var_decl_loc_part(v: VarDecl) -> Seq<char> {
    if type_data_loc(v.typ) != DataLoc::Unspecified && prints_data_loc(v) {
        match v.data_loc {
            Some(d) => " "@ + data_loc_text(d),
            None => Seq::empty(),
        }
    } else {
        Seq::empty()
    }
}

/// The mutability part of a declaration's text: nothing for a mutable
/// variable.
pub open spec fn var_decl_mut_part(v: VarDecl) -> Seq<char> {
    if v.mutability != VarMut::Mutable {
        " "@ + var_mut_text(v.mutability)
    } else {
        Seq::empty()
    }
}

/// The name and value part of a declaration's text.
pub open spec fn var_decl_tail(v: VarDecl) -> Seq<char> {
    (if v.name.base@.len() > 0 {
        " "@ + name_text(v.name@)
    } else {
        Seq::empty()
    }) + match v.value {
        Some(e) => " = "@ + expr_text(e),
        None => Seq::empty(),
    }
}

/// Text of a variable declaration: its type, data location, visibility,
/// mutability (unless mutable), overriding, name and initial value.
pub open spec fn var_decl_text(v: VarDecl) -> Seq<char> {
    type_text(v.typ) + var_decl_loc_part(v) + spaced(var_vis_text(v.visibility))
        + var_decl_mut_part(v) + spaced(overriding_text(&v.overriding)) + var_decl_tail(v)
}

/// Appends a space and `t`, unless `t` is empty.
fn push_spaced(s: &mut String, t: String)
    ensures
        final(s)@ == old(s)@ + spaced(t@),
{
    if !t.as_str().is_empty() {
        s.append(" ");
        s.append(t.as_str());
    }
}

impl VarDecl {
    pub fn new(
        id: Option<isize>,
        scope: Option<isize>,
        name: Name,
        typ: Type,
        value: Option<Expr>,
        mutability: VarMut,
        is_state_var: bool,
        visibility: VarVis,
        data_loc: Option<DataLoc>,
        overriding: Overriding,
        loc: Option<Loc>,
    ) -> (res: Self)
        ensures
            res == (VarDecl {
                id,
                scope_id: scope,
                name,
                typ,
                value,
                data_loc,
                mutability,
                is_state_var,
                visibility,
                overriding,
                loc,
            }),
    {
        VarDecl {
            id,
            scope_id: scope,
            name,
            typ,
            value,
            data_loc,
            mutability,
            is_state_var,
            visibility,
            overriding,
            loc,
        }
    }

    /// Sets the index of the variable's name.
    pub fn set_naming_index(&mut self, index: Option<usize>)
        ensures
            final(self).name@ == (NameView { index, ..old(self).name@ }),
            final(self).typ == old(self).typ,
            final(self).value == old(self).value,
    {
        self.name.index = index;
    }

    /// Appends the data location part of the text.
    fn push_loc_part(&self, s: &mut String)
        ensures
            final(s)@ == old(s)@ + var_decl_loc_part(*self),
    {
        let needs_loc = match &self.typ {
            Type::Array { .. } | Type::Struct { .. } | Type::Mapping { .. } | Type::String {
                ..
            } => true,
            Type::Bytes { length, .. } => !self.is_state_var && length.is_none(),
            _ => false,
        };
        let tloc = self.typ.data_loc();
        if !matches!(tloc, DataLoc::Unspecified) && needs_loc {
            if let Some(d) = &self.data_loc {
                s.append(" ");
                s.append(d.to_string().as_str());
            }
        }
    }

    /// Appends the name and value part of the text.
    fn push_tail(&self, s: &mut String)
        ensures
            final(s)@ == old(s)@ + var_decl_tail(*self),
    {
        if !self.name.base.as_str().is_empty() {
            s.append(" ");
            s.append(self.name.to_string().as_str());
        }
        if let Some(e) = &self.value {
            s.append(" = ");
            s.append(e.to_string().as_str());
        }
    }

    /// The text that displaying the declaration produces.
    pub fn to_string(&self) -> (res: String)
        ensures
            res@ == var_decl_text(*self),
    {
        let mut s = self.typ.to_string();
        self.push_loc_part(&mut s);
        push_spaced(&mut s, self.visibility.to_string());
        if !matches!(self.mutability, VarMut::Mutable) {
            s.append(" ");
            s.append(self.mutability.to_string().as_str());
        }
        push_spaced(&mut s, self.overriding.to_string());
        self.push_tail(&mut s);
        s
    }
}

//-------------------------------------------------------------------------
// Substitution in declarations
//-------------------------------------------------------------------------

/// Whether two `override` specifiers are the same, listed names by their
/// contents.
pub open spec fn overridings_same(a: Overriding, b: Overriding) -> bool {
    match (a, b) {
        (Overriding::Listed(x), Overriding::Listed(y)) => x@ == y@,
        (Overriding::All, Overriding::All) => true,
        (Overriding::Unspecified, Overriding::Unspecified) => true,
        _ => false,
    }
}

/// Whether declaration `b` is declaration `a` with its initial value
/// rewritten by `w`, and nothing else changed.
pub open spec fn var_decl_rw(w: Rewrite, a: VarDecl, b: VarDecl) -> bool {
    &&& a.id == b.id
    &&& a.scope_id == b.scope_id
    &&& a.name == b.name
    &&& a.typ == b.typ
    &&& opt_expr_rw(w, a.value, b.value)
    &&& a.mutability == b.mutability
    &&& a.is_state_var == b.is_state_var
    &&& overridings_same(a.overriding, b.overriding)
    &&& a.visibility == b.visibility
    &&& a.data_loc == b.data_loc
    &&& a.loc == b.loc
}

/// Whether the declarations of `b` are those of `a` rewritten by `w`,
/// position by position.
pub open spec fn var_decls_rw(w: Rewrite, a: Seq<VarDecl>, b: Seq<VarDecl>) -> bool {
    a.len() == b.len() && forall|i: int| 0 <= i < a.len() ==> var_decl_rw(w, a[i], b[i])
}

/// Whether the initial value of a declaration can be rewritten by `w`.
pub open spec fn var_decl_rw_ok(w: Rewrite, a: VarDecl) -> bool {
    opt_expr_rw_ok(w, a.value)
}

/// Whether each declaration can be rewritten by `w`.
pub open spec fn var_decls_rw_ok(w: Rewrite, a: Seq<VarDecl>) -> bool {
    forall|i: int| 0 <= i < a.len() ==> var_decl_rw_ok(w, a[i])
}

/// Whether declaration `b` is declaration `a` with the identifiers bound in
/// `p` replaced in its initial value.
pub open spec fn var_decl_subst(p: Seq<(Identifier, Expr)>, a: VarDecl, b: VarDecl) -> bool {
    var_decl_rw(Rewrite::Idents(p), a, b)
}

/// Whether the declarations of `b` are those of `a` with the identifiers
/// bound in `p` replaced, position by position.
pub open spec fn var_decls_subst(p: Seq<(Identifier, Expr)>, a: Seq<VarDecl>, b: Seq<VarDecl>) -> bool {
    var_decls_rw(Rewrite::Idents(p), a, b)
}

} // verus!
