//! Contracts and their elements: functions, errors, events, base
//! contracts, with the source text they print to.
use vstd::prelude::*;
use crate::definitions::{
    ContractKind, EnumDef, FuncKind, StructDef, TypeDef, VarDecl, contract_kind_text,
    enum_def_text, func_kind_text, spaced, struct_def_text, type_def_text, var_decl_text,
};
use crate::directives::{UsingDir, using_dir_text};
use crate::expressions::{CallExpr, Expr, expr_text, exprs_text, exprs_to_string};
use crate::loc::{DataLoc, Loc};
use crate::name::{Name, NameView, name_text};
use crate::specifiers::{FuncMut, FuncVis, Overriding, func_mut_text, func_vis_text, overriding_text};
use crate::stmts::{Block, block_printable, block_text};
use crate::text::{seq_join, strings_view, join, indent, indent_text, str_eq, to_string};
use crate::types::Type;
use crate::version::{VersionRange, check_range_constraint, spec_allows_any, range_parses};

verus! {

/// Contract definition.
#[derive(PartialEq, Eq, Debug)]
pub struct ContractDef {
    pub id: Option<isize>,
    pub scope_id: Option<isize>,
    pub name: Name,
    pub kind: ContractKind,
    pub is_abstract: bool,
    pub base_contracts: Vec<BaseContract>,
    pub body: Vec<ContractElem>,
    pub loc: Option<Loc>,
}

/// A base contract, with the arguments given to its constructor.
#[derive(PartialEq, Eq, Debug)]
pub struct BaseContract {
    pub name: Name,
    pub args: Vec<Expr>,
    pub loc: Option<Loc>,
}

/// An element of a contract.
#[derive(PartialEq, Eq, Debug)]
pub enum ContractElem {
    Using(UsingDir),
    Error(ErrorDef),
    Event(EventDef),
    Struct(StructDef),
    Enum(EnumDef),
    Type(TypeDef),
    Var(VarDecl),
    Func(FuncDef),
}

/// Error definition.
#[derive(PartialEq, Eq, Debug)]
pub struct ErrorDef {
    pub name: Name,
    pub params: Vec<VarDecl>,
    pub loc: Option<Loc>,
}

/// Event definition.
#[derive(PartialEq, Eq, Debug)]
pub struct EventDef {
    pub name: Name,
    pub is_anonymous: bool,
    pub params: Vec<VarDecl>,
    pub loc: Option<Loc>,
}

/// Function definition.
#[derive(PartialEq, Eq, Debug)]
pub struct FuncDef {
    pub id: Option<isize>,
    /// Id of the scope where the function is defined.
    pub scope_id: Option<isize>,
    pub name: Name,
    pub kind: FuncKind,
    pub is_virtual: bool,
    pub visibility: FuncVis,
    pub mutability: FuncMut,
    pub modifier_invocs: Vec<CallExpr>,
    pub overriding: Overriding,
    pub params: Vec<VarDecl>,
    pub return_vars: Vec<VarDecl>,
    pub body: Option<Block>,
    pub loc: Option<Loc>,
    /// The Solidity version constraint of the source of the function, as
    /// text.
    pub sol_ver: Option<String>,
}

//-------------------------------------------------------------------------
// Text
//-------------------------------------------------------------------------

/// The names of parameters, as texts.
pub open spec fn param_names_text(ps: Seq<VarDecl>) -> Seq<Seq<char>> {
    ps.map_values(|p: VarDecl| name_text(p.name@))
}

/// Texts of declarations.
pub open spec fn decls_text(ps: Seq<VarDecl>) -> Seq<Seq<char>> {
    ps.map_values(|p: VarDecl| var_decl_text(p))
}

/// The keyword that starts a function: its kind, but `function` for a
/// named function or a fallback function of a source admitting no version
/// from 0.6.0 on.
pub open spec fn func_keyword(f: FuncDef) -> Seq<char> {
    match f.sol_ver {
        Some(v) => if range_parses(v@) && !(range_parses(">=0.6.0"@) && spec_allows_any(
            ">=0.6.0"@,
            v@,
        )) && (f.kind == FuncKind::Fallback || f.name.base@.len() > 0) {
            "function"@
        } else {
            func_kind_text(f.kind)
        },
        None => func_kind_text(f.kind),
    }
}

/// The start of a function's text: its keyword, its name and the names of
/// its parameters.
pub open spec fn func_head_text(f: FuncDef) -> Seq<char> {
    func_keyword(f) + (if f.name.base@.len() > 0 {
        " "@ + name_text(f.name@)
    } else {
        Seq::empty()
    }) + "("@ + seq_join(param_names_text(f.params@), ", "@) + ")"@
}

/// The visibility, mutability and `virtual` part of a function's text; a
/// free function shows no visibility.
pub open spec fn func_attrs_text(f: FuncDef) -> Seq<char> {
    (if f.kind != FuncKind::FreeFunc {
        spaced(func_vis_text(f.visibility))
    } else {
        Seq::empty()
    }) + spaced(func_mut_text(f.mutability)) + (if f.is_virtual {
        " virtual"@
    } else {
        Seq::empty()
    })
}

/// The modifier invocations of a function, each after a space.
pub open spec fn func_modifiers_text(f: FuncDef) -> Seq<char> {
    if f.modifier_invocs@.len() > 0 {
        " "@ + seq_join(f.modifier_invocs@.map_values(|c: CallExpr| expr_text(Expr::Call(c))), " "@)
    } else {
        Seq::empty()
    }
}

/// The end of a function's text: its modifier invocations, overriding,
/// return variables and body (or `;`).
pub open spec fn func_tail_text(f: FuncDef) -> Seq<char> {
    func_modifiers_text(f) + spaced(overriding_text(&f.overriding)) + (if f.return_vars@.len() > 0 {
        " returns ("@ + seq_join(decls_text(f.return_vars@), ", "@) + ")"@
    } else {
        Seq::empty()
    }) + match f.body {
        None => ";"@,
        Some(b) => " "@ + block_text(b),
    }
}

/// Text of a function definition.
pub open spec fn func_def_text(f: FuncDef) -> Seq<char> {
    func_head_text(f) + func_attrs_text(f) + func_tail_text(f)
}

/// Text of an error definition: its name and the names of its parameters.
pub open spec fn error_def_text(e: ErrorDef) -> Seq<char> {
    "error "@ + name_text(e.name@) + " ("@ + seq_join(param_names_text(e.params@), ", "@) + ");"@
}

/// Text of an event definition: its name and the names of its parameters.
pub open spec fn event_def_text(e: EventDef) -> Seq<char> {
    "event "@ + name_text(e.name@) + " ("@ + seq_join(param_names_text(e.params@), ", "@) + ")"@
        + if e.is_anonymous {
        " anonymous;"@
    } else {
        ";"@
    }
}

/// Text of a base contract.
pub open spec fn base_contract_text(b: BaseContract) -> Seq<char> {
    if b.args@.len() == 0 {
        name_text(b.name@)
    } else {
        name_text(b.name@) + "("@ + seq_join(exprs_text(b.args@), ", "@) + ")"@
    }
}

/// Text of a contract element; a state variable ends with `;`.
pub open spec fn contract_elem_text(e: ContractElem) -> Seq<char> {
    match e {
        ContractElem::Enum(d) => enum_def_text(d),
        ContractElem::Error(d) => error_def_text(d),
        ContractElem::Event(d) => event_def_text(d),
        ContractElem::Func(d) => func_def_text(d),
        ContractElem::Struct(d) => struct_def_text(d),
        ContractElem::Type(d) => type_def_text(d),
        ContractElem::Using(d) => using_dir_text(d),
        ContractElem::Var(d) => var_decl_text(d) + ";"@,
    }
}

/// Text of a contract: its kind and name, the names of its base contracts,
/// and its elements indented by four spaces and separated by blank lines,
/// in braces.
pub open spec fn contract_def_text(c: ContractDef) -> Seq<char> {
    (if c.is_abstract {
        "abstract "@
    } else {
        Seq::empty()
    }) + contract_kind_text(c.kind) + " "@ + name_text(c.name@) + " "@ + (if c.base_contracts@.len()
        > 0 {
        "is "@ + seq_join(c.base_contracts@.map_values(|b: BaseContract| name_text(b.name@)), ", "@)
            + " "@
    } else {
        Seq::empty()
    }) + "{\n"@ + seq_join(
        c.body@.map_values(|e: ContractElem| indent_text(contract_elem_text(e), 4)),
        "\n\n"@,
    ) + "\n}"@
}

/// Whether a function can be printed: the inline assembly in its body can.
pub open spec fn func_printable(f: FuncDef) -> bool {
    match f.body {
        Some(b) => block_printable(b),
        None => true,
    }
}

/// Whether a contract element can be printed.
pub open spec fn contract_elem_printable(e: ContractElem) -> bool {
    match e {
        ContractElem::Func(f) => func_printable(f),
        _ => true,
    }
}

//-------------------------------------------------------------------------
// Printing
//-------------------------------------------------------------------------

/// The names of parameters, as texts.
fn param_names_to_strings(ps: &Vec<VarDecl>) -> (res: Vec<String>)
    ensures
        strings_view(res@) == param_names_text(ps@),
{
    let mut parts: Vec<String> = Vec::new();
    let mut i: usize = 0;
    while i < ps.len()
        invariant
            i <= ps.len(),
            parts@.len() == i,
            forall|j: int| 0 <= j < i ==> #[trigger] parts@[j]@ == name_text(ps@[j].name@),
        decreases ps.len() - i,
    {
        parts.push(ps[i].name.to_string());
        i = i + 1;
    }
    assert(strings_view(parts@) =~= param_names_text(ps@));
    parts
}

/// The texts of declarations.
fn decls_to_strings(ps: &Vec<VarDecl>) -> (res: Vec<String>)
    ensures
        strings_view(res@) == decls_text(ps@),
{
    let mut parts: Vec<String> = Vec::new();
    let mut i: usize = 0;
    while i < ps.len()
        invariant
            i <= ps.len(),
            parts@.len() == i,
            forall|j: int| 0 <= j < i ==> #[trigger] parts@[j]@ == var_decl_text(ps@[j]),
        decreases ps.len() - i,
    {
        parts.push(ps[i].to_string());
        i = i + 1;
    }
    assert(strings_view(parts@) =~= decls_text(ps@));
    parts
}

/// Appends a space and `t`, unless `t` is empty.
fn push_spaced(s: &mut String, t: String)
    ensures
        final(s)@ == old(s)@ + spaced(t@),
{
    if !t.as_str().is_empty() {
        s.append(" ");
        s.append(t.as_str());
    }
}

impl FuncDef {
    pub fn new(
        id: Option<isize>,
        scope: Option<isize>,
        name: Name,
        kind: FuncKind,
        body: Option<Block>,
        is_virtual: bool,
        visibility: FuncVis,
        mutability: FuncMut,
        params: Vec<VarDecl>,
        modifiers: Vec<CallExpr>,
        overriding: Overriding,
        return_vars: Vec<VarDecl>,
        loc: Option<Loc>,
        sol_ver: Option<String>,
    ) -> (res: Self)
        ensures
            res == (FuncDef {
                id,
                scope_id: scope,
                name,
                body,
                kind,
                is_virtual,
                visibility,
                mutability,
                params,
                modifier_invocs: modifiers,
                overriding,
                return_vars,
                loc,
                sol_ver,
            }),
    {
        FuncDef {
            id,
            scope_id: scope,
            name,
            body,
            kind,
            is_virtual,
            visibility,
            mutability,
            params,
            modifier_invocs: modifiers,
            overriding,
            return_vars,
            loc,
            sol_ver,
        }
    }

    pub fn is_fallback_function(&self) -> (res: bool)
        ensures
            res == (self.kind == FuncKind::Fallback),
    {
        matches!(self.kind, FuncKind::Fallback)
    }

    pub fn is_receive_function(&self) -> (res: bool)
        ensures
            res == (self.kind == FuncKind::Receive),
    {
        matches!(self.kind, FuncKind::Receive)
    }

    pub fn is_free_function(&self) -> (res: bool)
        ensures
            res == (self.kind == FuncKind::FreeFunc),
    {
        matches!(self.kind, FuncKind::FreeFunc)
    }

    /// Sets the index of the function's name.
    pub fn set_naming_index(&mut self, index: Option<usize>)
        ensures
            final(self).name@ == (NameView { index, ..old(self).name@ }),
            final(self).params == old(self).params,
            final(self).body == old(self).body,
    {
        self.name.index = index;
    }

    /// The keyword that starts the function (see `func_keyword`).
    fn keyword(&self) -> (res: String)
        ensures
            res@ == func_keyword(*self),
    {
        if let Some(v) = &self.sol_ver {
            match VersionRange::parse(v.as_str()) {
                Some(range) => {
                    if !check_range_constraint(&range, ">=0.6.0") && (self.is_fallback_function()
                        || !self.name.base.as_str().is_empty()) {
                        return to_string("function");
                    }
                },
                None => {},
            }
        }
        self.kind.to_string()
    }

    /// The start of the function's text (see `func_head_text`).
    fn head(&self) -> (res: String)
        ensures
            res@ == func_head_text(*self),
    {
        let mut s = self.keyword();
        if !self.name.base.as_str().is_empty() {
            s.append(" ");
            s.append(self.name.to_string().as_str());
        }
        s.append("(");
        s.append(join(&param_names_to_strings(&self.params), ", ").as_str());
        s.append(")");
        s
    }

    /// Appends the visibility, mutability and `virtual` part of the text.
    fn push_attrs(&self, s: &mut String)
        ensures
            final(s)@ == old(s)@ + func_attrs_text(*self),
    {
        let ghost s0 = s@;
        if !matches!(self.kind, FuncKind::FreeFunc) {
            push_spaced(s, self.visibility.to_string());
        }
        push_spaced(s, self.mutability.to_string());
        if self.is_virtual {
            s.append(" virtual");
        }
        assert(s@ =~= s0 + func_attrs_text(*self));
    }

    /// Appends the modifier invocations.
    fn push_modifiers(&self, s: &mut String)
        ensures
            final(s)@ == old(s)@ + func_modifiers_text(*self),
    {
        if self.modifier_invocs.len() > 0 {
            let mut parts: Vec<String> = Vec::new();
            let mut i: usize = 0;
            while i < self.modifier_invocs.len()
                invariant
                    i <= self.modifier_invocs.len(),
                    parts@.len() == i,
                    forall|j: int|
                        0 <= j < i ==> #[trigger] parts@[j]@ == expr_text(
                            Expr::Call(self.modifier_invocs@[j]),
                        ),
                decreases self.modifier_invocs.len() - i,
            {
                parts.push(self.modifier_invocs[i].to_string());
                i = i + 1;
            }
            assert(strings_view(parts@) =~= self.modifier_invocs@.map_values(
                |c: CallExpr| expr_text(Expr::Call(c)),
            ));
            s.append(" ");
            s.append(join(&parts, " ").as_str());
        }
    }

    /// Appends the modifiers, overriding, returns and body part of the text.
    #[verifier::rlimit(40)]
    fn push_tail(&self, s: &mut String)
        requires
            func_printable(*self),
        ensures
            final(s)@ == old(s)@ + func_tail_text(*self),
    {
        let ghost s0 = s@;
        self.push_modifiers(s);
        push_spaced(s, self.overriding.to_string());
        if self.return_vars.len() > 0 {
            s.append(" returns (");
            s.append(join(&decls_to_strings(&self.return_vars), ", ").as_str());
            s.append(")");
        }
        match &self.body {
            None => s.append(";"),
            Some(b) => {
                s.append(" ");
                s.append(b.to_string().as_str());
            },
        }
        assert(s@ =~= s0 + func_tail_text(*self));
    }

    /// The text that displaying the function produces. The inline assembly
    /// in its body must be printable.
    pub fn to_string(&self) -> (res: String)
        requires
            func_printable(*self),
        ensures
            res@ == func_def_text(*self),
    {
        let mut s = self.head();
        self.push_attrs(&mut s);
        self.push_tail(&mut s);
        s
    }
}

impl ErrorDef {
    pub fn new(name: Name, params: Vec<VarDecl>, loc: Option<Loc>) -> (res: Self)
        ensures
            res == (ErrorDef { name, params, loc }),
    {
        ErrorDef { name, params, loc }
    }

    /// The text that displaying the definition produces.
    pub fn to_string(&self) -> (res: String)
        ensures
            res@ == error_def_text(*self),
    {
        let mut s = to_string("error ");
        s.append(self.name.to_string().as_str());
        s.append(" (");
        s.append(join(&param_names_to_strings(&self.params), ", ").as_str());
        s.append(");");
        s
    }
}

impl EventDef {
    pub fn new(name: Name, anon: bool, params: Vec<VarDecl>, loc: Option<Loc>) -> (res: Self)
        ensures
            res == (EventDef { name, is_anonymous: anon, params, loc }),
    {
        EventDef { name, is_anonymous: anon, params, loc }
    }

    /// The text that displaying the definition produces.
    pub fn to_string(&self) -> (res: String)
        ensures
            res@ == event_def_text(*self),
    {
        let mut s = to_string("event ");
        s.append(self.name.to_string().as_str());
        s.append(" (");
        s.append(join(&param_names_to_strings(&self.params), ", ").as_str());
        s.append(")");
        if self.is_anonymous {
            s.append(" anonymous;");
        } else {
            s.append(";");
        }
        s
    }
}

impl BaseContract {
    pub fn new(name: Name, args: Vec<Expr>, loc: Option<Loc>) -> (res: Self)
        ensures
            res == (BaseContract { name, args, loc }),
    {
        BaseContract { name, args, loc }
    }

    /// The text that displaying the base contract produces.
    pub fn to_string(&self) -> (res: String)
        ensures
            res@ == base_contract_text(*self),
    {
        if self.args.len() == 0 {
            self.name.to_string()
        } else {
            let mut s = self.name.to_string();
            s.append("(");
            s.append(exprs_to_string(&self.args).as_str());
            s.append(")");
            s
        }
    }
}

impl ContractElem {
    /// The text that displaying the element produces.
    pub fn to_string(&self) -> (res: String)
        requires
            contract_elem_printable(*self),
        ensures
            res@ == contract_elem_text(*self),
    {
        match self {
            ContractElem::Enum(d) => d.to_string(),
            ContractElem::Error(d) => d.to_string(),
            ContractElem::Event(d) => d.to_string(),
            ContractElem::Func(d) => d.to_string(),
            ContractElem::Struct(d) => d.to_string(),
            ContractElem::Type(d) => d.to_string(),
            ContractElem::Using(d) => d.to_string(),
            ContractElem::Var(d) => {
                let mut s = d.to_string();
                s.append(";");
                s
            },
        }
    }
}

/// The functions among contract elements, in order.
pub open spec fn funcs_of(elems: Seq<ContractElem>) -> Seq<FuncDef>
    decreases elems.len(),
{
    if elems.len() == 0 {
        Seq::empty()
    } else {
        let rest = funcs_of(elems.drop_last());
        match elems.last() {
            ContractElem::Func(f) => rest.push(f),
            _ => rest,
        }
    }
}

/// Whether a contract element is a function that a lookup by `func_name`
/// finds: one whose name, without its index, is `func_name`, or a fallback
/// function when `func_name` is `fallback`.
pub open spec fn finds_function(e: ContractElem, func_name: Seq<char>) -> bool {
    match e {
        ContractElem::Func(f) => f.name.base@ == func_name || (func_name == "fallback"@ && f.kind
            == FuncKind::Fallback),
        _ => false,
    }
}

/// The type that a user-defined type of a contract element introduces:
/// a struct, an enum or a user-defined value type, scoped by the contract.
pub open spec fn user_type_of(e: ContractElem, contract: Name) -> Option<Type> {
    match e {
        ContractElem::Struct(s) => Some(
            Type::Struct { name: s.name, scope: Some(contract), data_loc: DataLoc::Unspecified },
        ),
        ContractElem::Enum(d) => Some(Type::Enum { name: d.name, scope: Some(contract) }),
        ContractElem::Type(d) => Some(Type::UserDefined { name: d.name, scope: Some(contract) }),
        _ => None,
    }
}

impl ContractDef {
    pub fn new(
        id: Option<isize>,
        scope_id: Option<isize>,
        name: Name,
        kind: ContractKind,
        is_abstract: bool,
        base_contracts: Vec<BaseContract>,
        body: Vec<ContractElem>,
        loc: Option<Loc>,
    ) -> (res: Self)
        ensures
            res == (ContractDef { id, scope_id, name, kind, is_abstract, base_contracts, body, loc }),
    {
        ContractDef { id, scope_id, name, kind, is_abstract, base_contracts, body, loc }
    }

    /// The functions of the contract, in order.
    pub fn functions(&self) -> (res: Vec<&FuncDef>)
        ensures
            res@.map_values(|f: &FuncDef| *f) == funcs_of(self.body@),
    {
        let mut res: Vec<&FuncDef> = Vec::new();
        let mut i: usize = 0;
        while i < self.body.len()
            invariant
                i <= self.body.len(),
                res@.map_values(|f: &FuncDef| *f) == funcs_of(self.body@.take(i as int)),
            decreases self.body.len() - i,
        {
            assert(self.body@.take(i + 1).drop_last() =~= self.body@.take(i as int));
            let ghost before = res@;
            if let ContractElem::Func(f) = &self.body[i] {
                res.push(f);
                assert(res@.map_values(|f: &FuncDef| *f) =~= before.map_values(|f: &FuncDef| *f).push(*f));
            }
            i = i + 1;
        }
        assert(self.body@.take(i as int) =~= self.body@);
        res
    }

    /// The first function that a lookup by `func_name` finds (see
    /// `finds_function`).
    pub fn find_function_def(&self, func_name: &str) -> (res: Option<&FuncDef>)
        ensures
            match res {
                Some(f) => exists|i: int|
                    0 <= i < self.body@.len() && self.body@[i] == ContractElem::Func(*f)
                        && finds_function(self.body@[i], func_name@) && forall|j: int|
                        0 <= j < i ==> !finds_function(#[trigger] self.body@[j], func_name@),
                None => forall|j: int|
                    0 <= j < self.body@.len() ==> !finds_function(#[trigger] self.body@[j], func_name@),
            },
    {
        let is_fallback = str_eq(func_name, "fallback");
        proof {
            reveal_strlit("fallback");
        }
        let mut i: usize = 0;
        while i < self.body.len()
            invariant
                i <= self.body.len(),
                is_fallback == (func_name@ == "fallback"@),
                forall|j: int| 0 <= j < i ==> !finds_function(#[trigger] self.body@[j], func_name@),
            decreases self.body.len() - i,
        {
            if let ContractElem::Func(func) = &self.body[i] {
                if str_eq(func.name.base.as_str(), func_name) || (is_fallback
                    && func.is_fallback_function()) {
                    assert(finds_function(self.body@[i as int], func_name@));
                    return Some(func);
                }
            }
            i = i + 1;
        }
        None
    }

    /// The types of the structs, enums and user-defined value types that
    /// the contract defines, in order. Every element of the contract must
    /// be such a definition.
    pub fn get_user_defined_types(&self) -> (res: Vec<Type>)
        requires
            forall|i: int| 0 <= i < self.body@.len() ==> (#[trigger] user_type_of(self.body@[i], self.name)) is Some,
        ensures
            res@ == self.body@.map_values(|e: ContractElem| user_type_of(e, self.name)->0),
    {
        let mut res: Vec<Type> = Vec::new();
        let mut i: usize = 0;
        while i < self.body.len()
            invariant
                i <= self.body.len(),
                forall|k: int| 0 <= k < self.body@.len() ==> (#[trigger] user_type_of(self.body@[k], self.name)) is Some,
                res@ == self.body@.take(i as int).map_values(
                    |e: ContractElem| user_type_of(e, self.name)->0,
                ),
            decreases self.body.len() - i,
        {
            let contract = Some(Name { base: self.name.base.clone(), index: self.name.index });
            let t = match &self.body[i] {
                ContractElem::Struct(s) => Type::Struct {
                    name: Name { base: s.name.base.clone(), index: s.name.index },
                    scope: contract,
                    data_loc: DataLoc::Unspecified,
                },
                ContractElem::Enum(d) => Type::Enum {
                    name: Name { base: d.name.base.clone(), index: d.name.index },
                    scope: contract,
                },
                ContractElem::Type(d) => Type::UserDefined {
                    name: Name { base: d.name.base.clone(), index: d.name.index },
                    scope: contract,
                },
                _ => {
                    assert(user_type_of(self.body@[i as int], self.name) is Some);
                    return res;
                },
            };
            res.push(t);
            i = i + 1;
            assert(self.body@.take(i as int).map_values(|e: ContractElem| user_type_of(e, self.name)->0)
                =~= self.body@.take(i - 1).map_values(
                |e: ContractElem| user_type_of(e, self.name)->0,
            ).push(user_type_of(self.body@[i - 1], self.name)->0));
        }
        assert(self.body@.take(i as int) =~= self.body@);
        res
    }

    /// The text that displaying the contract produces. The inline assembly
    /// in its functions must be printable.
    pub fn to_string(&self) -> (res: String)
        requires
            forall|i: int| 0 <= i < self.body@.len() ==> contract_elem_printable(#[trigger] self.body@[i]),
        ensures
            res@ == contract_def_text(*self),
    {
        let mut s = if self.is_abstract {
            to_string("abstract ")
        } else {
            String::new()
        };
        s.append(self.kind.to_string().as_str());
        s.append(" ");
        s.append(self.name.to_string().as_str());
        s.append(" ");
        if self.base_contracts.len() > 0 {
            let mut names: Vec<String> = Vec::new();
            let mut i: usize = 0;
            while i < self.base_contracts.len()
                invariant
                    i <= self.base_contracts.len(),
                    names@.len() == i,
                    forall|j: int|
                        0 <= j < i ==> #[trigger] names@[j]@ == name_text(self.base_contracts@[j].name@),
                decreases self.base_contracts.len() - i,
            {
                names.push(self.base_contracts[i].name.to_string());
                i = i + 1;
            }
            assert(strings_view(names@) =~= self.base_contracts@.map_values(
                |b: BaseContract| name_text(b.name@),
            ));
            s.append("is ");
            s.append(join(&names, ", ").as_str());
            s.append(" ");
        }
        let mut parts: Vec<String> = Vec::new();
        let mut i: usize = 0;
        while i < self.body.len()
            invariant
                i <= self.body.len(),
                parts@.len() == i,
                forall|j: int| 0 <= j < self.body@.len() ==> contract_elem_printable(#[trigger] self.body@[j]),
                forall|j: int|
                    0 <= j < i ==> #[trigger] parts@[j]@ == indent_text(contract_elem_text(self.body@[j]), 4),
            decreases self.body.len() - i,
        {
            let t = self.body[i].to_string();
            parts.push(indent(t.as_str(), 4));
            i = i + 1;
        }
        assert(strings_view(parts@) =~= self.body@.map_values(
            |e: ContractElem| indent_text(contract_elem_text(e), 4),
        ));
        s.append("{\n");
        s.append(join(&parts, "\n\n").as_str());
        s.append("\n}");
        s
    }
}

} // verus!
