//! Copies of functions, directives, definitions, contracts and source
//! unit elements: relations that say that a copy equals the original field
//! by field, lists element by element, and the functions that make them.
use vstd::prelude::*;
use crate::contracts::{BaseContract, ContractDef, ContractElem, ErrorDef, EventDef, FuncDef};
use crate::definitions::{EnumDef, StructDef, StructField, TypeDef, VarDecl, overridings_same, var_decl_subst, var_decls_subst};
use crate::directives::{
    ImportDir, ImportKind, ImportSourceUnit, ImportSymbol, ImportSymbols, UsingDir, UsingFunc,
    UsingKind, UsingLib,
};
use crate::expressions::{CallExpr, Expr, Identifier, call_same, copy_call, copy_exprs, expr_seqs_same};
use crate::name::{Name, NamePath};
use crate::source_unit::SourceUnitElem;
use crate::stmts::{Block, stmts_subst};
use crate::substitution::{copy_overriding, ref_pairs, subst_stmts, subst_var_decl, subst_var_decls};

verus! {

/// Whether two functions are the same: equal fields, and the same
/// declarations, invocations and statements, element by element.
pub open spec fn func_same(a: FuncDef, b: FuncDef) -> bool {
    &&& a.id == b.id
    &&& a.scope_id == b.scope_id
    &&& a.name == b.name
    &&& a.kind == b.kind
    &&& a.is_virtual == b.is_virtual
    &&& a.visibility == b.visibility
    &&& a.mutability == b.mutability
    &&& a.modifier_invocs@.len() == b.modifier_invocs@.len()
    &&& forall|i: int|
        0 <= i < a.modifier_invocs@.len() ==> call_same(a.modifier_invocs@[i], b.modifier_invocs@[i])
    &&& overridings_same(a.overriding, b.overriding)
    &&& var_decls_subst(Seq::empty(), a.params@, b.params@)
    &&& var_decls_subst(Seq::empty(), a.return_vars@, b.return_vars@)
    &&& (match (a.body, b.body) {
        (Some(x), Some(y)) => x.id == y.id && x.unchecked == y.unchecked && x.loc == y.loc
            && stmts_subst(Seq::empty(), x.body@, y.body@),
        (None, None) => true,
        _ => false,
    })
    &&& a.loc == b.loc
    &&& a.sol_ver == b.sol_ver
}


/// A copy of a function.
pub fn copy_func_def(f: &FuncDef) -> (res: FuncDef)
    ensures
        func_same(*f, res),
{
    let no_pairs: Vec<(Identifier, &Expr)> = Vec::new();
    assert(ref_pairs(no_pairs@) =~= Seq::empty());
    let mut invocs: Vec<CallExpr> = Vec::new();
    let mut i: usize = 0;
    while i < f.modifier_invocs.len()
        invariant
            i <= f.modifier_invocs.len(),
            invocs@.len() == i,
            forall|j: int| 0 <= j < i ==> call_same(f.modifier_invocs@[j], invocs@[j]),
        decreases f.modifier_invocs.len() - i,
    {
        invocs.push(copy_call(&f.modifier_invocs[i]));
        i = i + 1;
    }
    FuncDef {
        id: f.id,
        scope_id: f.scope_id,
        name: f.name.clone(),
        kind: f.kind,
        is_virtual: f.is_virtual,
        visibility: f.visibility,
        mutability: f.mutability,
        modifier_invocs: invocs,
        overriding: copy_overriding(&f.overriding),
        params: subst_var_decls(&no_pairs, &f.params),
        return_vars: subst_var_decls(&no_pairs, &f.return_vars),
        body: match &f.body {
            Some(b) => Some(
                Block { id: b.id, body: subst_stmts(&no_pairs, &b.body), unchecked: b.unchecked, loc: b.loc },
            ),
            None => None,
        },
        loc: f.loc,
        sol_ver: match &f.sol_ver {
            Some(v) => Some(v.clone()),
            None => None,
        },
    }
}

//-------------------------------------------------------------------------
// Directives and definitions
//-------------------------------------------------------------------------

/// Whether two import directives are the same.
pub open spec fn import_same(a: ImportDir, b: ImportDir) -> bool {
    a.id == b.id && match (a.kind, b.kind) {
        (ImportKind::ImportSourceUnit(x), ImportKind::ImportSourceUnit(y)) => x == y,
        (ImportKind::ImportSymbols(x), ImportKind::ImportSymbols(y)) => x.source_unit_path
            == y.source_unit_path && x.source_unit_abs_path == y.source_unit_abs_path
            && x.imported_symbols@ == y.imported_symbols@ && x.loc == y.loc,
        _ => false,
    }
}

/// Whether two functions attached by using directives are the same.
pub open spec fn using_func_same(a: UsingFunc, b: UsingFunc) -> bool {
    a.func_name == b.func_name && a.func_path.names@ == b.func_path.names@ && a.alias_operator
        == b.alias_operator
}

/// Whether two using directives are the same.
pub open spec fn using_same(a: UsingDir, b: UsingDir) -> bool {
    &&& a.id == b.id
    &&& a.target_type == b.target_type
    &&& a.is_global == b.is_global
    &&& a.loc == b.loc
    &&& match (a.kind, b.kind) {
        (UsingKind::UsingLib(x), UsingKind::UsingLib(y)) => x.lib_name == y.lib_name
            && x.lib_path.names@ == y.lib_path.names@,
        (UsingKind::UsingFunc(x), UsingKind::UsingFunc(y)) => x@.len() == y@.len() && forall|i: int|
            0 <= i < x@.len() ==> using_func_same(x@[i], y@[i]),
        _ => false,
    }
}

/// Whether two error definitions are the same.
pub open spec fn error_same(a: ErrorDef, b: ErrorDef) -> bool {
    a.name == b.name && var_decls_subst(Seq::empty(), a.params@, b.params@) && a.loc == b.loc
}

/// Whether two event definitions are the same.
pub open spec fn event_same(a: EventDef, b: EventDef) -> bool {
    a.name == b.name && a.is_anonymous == b.is_anonymous && var_decls_subst(
        Seq::empty(),
        a.params@,
        b.params@,
    ) && a.loc == b.loc
}

/// Whether two struct definitions are the same.
pub open spec fn struct_same(a: StructDef, b: StructDef) -> bool {
    a.id == b.id && a.scope_id == b.scope_id && a.name == b.name && a.fields@ == b.fields@ && a.loc
        == b.loc
}

/// Whether two enum definitions are the same.
pub open spec fn enum_same(a: EnumDef, b: EnumDef) -> bool {
    a.id == b.id && a.scope_id == b.scope_id && a.name == b.name && a.elems@ == b.elems@ && a.loc
        == b.loc
}

/// Whether two base contracts are the same.
pub open spec fn base_same(a: BaseContract, b: BaseContract) -> bool {
    a.name == b.name && expr_seqs_same(a.args@, b.args@) && a.loc == b.loc
}

/// Whether two contract elements are the same.
pub open spec fn contract_elem_same(a: ContractElem, b: ContractElem) -> bool {
    match (a, b) {
        (ContractElem::Using(x), ContractElem::Using(y)) => using_same(x, y),
        (ContractElem::Error(x), ContractElem::Error(y)) => error_same(x, y),
        (ContractElem::Event(x), ContractElem::Event(y)) => event_same(x, y),
        (ContractElem::Struct(x), ContractElem::Struct(y)) => struct_same(x, y),
        (ContractElem::Enum(x), ContractElem::Enum(y)) => enum_same(x, y),
        (ContractElem::Type(x), ContractElem::Type(y)) => x == y,
        (ContractElem::Var(x), ContractElem::Var(y)) => var_decl_subst(Seq::empty(), x, y),
        (ContractElem::Func(x), ContractElem::Func(y)) => func_same(x, y),
        _ => false,
    }
}

/// Whether two source unit elements are the same, but for contracts,
/// which `unit_elem_same` compares.
pub open spec fn elem_same_but_contract(a: SourceUnitElem, b: SourceUnitElem) -> bool {
    match (a, b) {
        (SourceUnitElem::Pragma(x), SourceUnitElem::Pragma(y)) => x == y,
        (SourceUnitElem::Import(x), SourceUnitElem::Import(y)) => import_same(x, y),
        (SourceUnitElem::Using(x), SourceUnitElem::Using(y)) => using_same(x, y),
        (SourceUnitElem::Error(x), SourceUnitElem::Error(y)) => error_same(x, y),
        (SourceUnitElem::Func(x), SourceUnitElem::Func(y)) => func_same(x, y),
        (SourceUnitElem::Var(x), SourceUnitElem::Var(y)) => var_decl_subst(Seq::empty(), x, y),
        (SourceUnitElem::Struct(x), SourceUnitElem::Struct(y)) => struct_same(x, y),
        (SourceUnitElem::Enum(x), SourceUnitElem::Enum(y)) => enum_same(x, y),
        (SourceUnitElem::UserType(x), SourceUnitElem::UserType(y)) => x == y,
        _ => false,
    }
}

/// A copy of a list of names.
fn copy_names(v: &Vec<Name>) -> (res: Vec<Name>)
    ensures
        res@ == v@,
{
    let mut res: Vec<Name> = Vec::new();
    let mut i: usize = 0;
    while i < v.len()
        invariant
            i <= v.len(),
            res@ == v@.take(i as int),
        decreases v.len() - i,
    {
        res.push(v[i].clone());
        i = i + 1;
        assert(res@ =~= v@.take(i as int));
    }
    assert(v@.take(i as int) =~= v@);
    res
}

/// A copy of an optional string.
fn copy_opt_string(s: &Option<String>) -> (res: Option<String>)
    ensures
        res == *s,
{
    match s {
        Some(x) => Some(x.clone()),
        None => None,
    }
}

/// A copy of an import directive.
pub fn copy_import(d: &ImportDir) -> (res: ImportDir)
    ensures
        import_same(*d, res),
{
    let kind = match &d.kind {
        ImportKind::ImportSourceUnit(x) => ImportKind::ImportSourceUnit(
            ImportSourceUnit {
                path: x.path.clone(),
                abs_path: x.abs_path.clone(),
                alias: copy_opt_string(&x.alias),
                loc: x.loc,
            },
        ),
        ImportKind::ImportSymbols(x) => {
            let mut syms: Vec<ImportSymbol> = Vec::new();
            let mut i: usize = 0;
            while i < x.imported_symbols.len()
                invariant
                    i <= x.imported_symbols.len(),
                    syms@ == x.imported_symbols@.take(i as int),
                decreases x.imported_symbols.len() - i,
            {
                let s = &x.imported_symbols[i];
                syms.push(
                    ImportSymbol {
                        symbol_name: s.symbol_name.clone(),
                        symbol_alias: copy_opt_string(&s.symbol_alias),
                        loc: s.loc,
                    },
                );
                i = i + 1;
                assert(syms@ =~= x.imported_symbols@.take(i as int));
            }
            assert(x.imported_symbols@.take(i as int) =~= x.imported_symbols@);
            ImportKind::ImportSymbols(
                ImportSymbols {
                    source_unit_path: x.source_unit_path.clone(),
                    source_unit_abs_path: x.source_unit_abs_path.clone(),
                    imported_symbols: syms,
                    loc: x.loc,
                },
            )
        },
    };
    ImportDir { id: d.id, kind }
}

/// A copy of a using directive.
pub fn copy_using(d: &UsingDir) -> (res: UsingDir)
    ensures
        using_same(*d, res),
{
    let kind = match &d.kind {
        UsingKind::UsingLib(x) => UsingKind::UsingLib(
            UsingLib { lib_name: x.lib_name.clone(), lib_path: NamePath { names: copy_names(&x.lib_path.names) } },
        ),
        UsingKind::UsingFunc(fs) => {
            let mut v: Vec<UsingFunc> = Vec::new();
            let mut i: usize = 0;
            while i < fs.len()
                invariant
                    i <= fs.len(),
                    v@.len() == i,
                    forall|j: int| 0 <= j < i ==> using_func_same(fs@[j], v@[j]),
                decreases fs.len() - i,
            {
                v.push(
                    UsingFunc {
                        func_name: fs[i].func_name.clone(),
                        func_path: NamePath { names: copy_names(&fs[i].func_path.names) },
                        alias_operator: copy_opt_string(&fs[i].alias_operator),
                    },
                );
                i = i + 1;
            }
            UsingKind::UsingFunc(v)
        },
    };
    UsingDir {
        id: d.id,
        kind,
        target_type: match &d.target_type {
            Some(t) => Some(t.clone()),
            None => None,
        },
        is_global: d.is_global,
        loc: d.loc,
    }
}

/// A copy of an error definition.
pub fn copy_error(d: &ErrorDef) -> (res: ErrorDef)
    ensures
        error_same(*d, res),
{
    let no_pairs: Vec<(Identifier, &Expr)> = Vec::new();
    assert(ref_pairs(no_pairs@) =~= Seq::empty());
    ErrorDef { name: d.name.clone(), params: subst_var_decls(&no_pairs, &d.params), loc: d.loc }
}

/// A copy of an event definition.
pub fn copy_event(d: &EventDef) -> (res: EventDef)
    ensures
        event_same(*d, res),
{
    let no_pairs: Vec<(Identifier, &Expr)> = Vec::new();
    assert(ref_pairs(no_pairs@) =~= Seq::empty());
    EventDef {
        name: d.name.clone(),
        is_anonymous: d.is_anonymous,
        params: subst_var_decls(&no_pairs, &d.params),
        loc: d.loc,
    }
}

/// A copy of a declaration.
pub fn copy_var_decl(v: &VarDecl) -> (res: VarDecl)
    ensures
        var_decl_subst(Seq::empty(), *v, res),
{
    let no_pairs: Vec<(Identifier, &Expr)> = Vec::new();
    assert(ref_pairs(no_pairs@) =~= Seq::empty());
    subst_var_decl(&no_pairs, v)
}

/// A copy of a struct definition.
pub fn copy_struct(d: &StructDef) -> (res: StructDef)
    ensures
        struct_same(*d, res),
{
    let mut fields: Vec<StructField> = Vec::new();
    let mut i: usize = 0;
    while i < d.fields.len()
        invariant
            i <= d.fields.len(),
            fields@ == d.fields@.take(i as int),
        decreases d.fields.len() - i,
    {
        let f = &d.fields[i];
        fields.push(StructField { id: f.id, name: f.name.clone(), typ: f.typ.clone(), loc: f.loc });
        i = i + 1;
        assert(fields@ =~= d.fields@.take(i as int));
    }
    assert(d.fields@.take(i as int) =~= d.fields@);
    StructDef { id: d.id, scope_id: d.scope_id, name: d.name.clone(), fields, loc: d.loc }
}

/// A copy of an enum definition.
pub fn copy_enum(d: &EnumDef) -> (res: EnumDef)
    ensures
        enum_same(*d, res),
{
    let mut elems: Vec<String> = Vec::new();
    let mut i: usize = 0;
    while i < d.elems.len()
        invariant
            i <= d.elems.len(),
            elems@ == d.elems@.take(i as int),
        decreases d.elems.len() - i,
    {
        elems.push(d.elems[i].clone());
        i = i + 1;
        assert(elems@ =~= d.elems@.take(i as int));
    }
    assert(d.elems@.take(i as int) =~= d.elems@);
    EnumDef { id: d.id, scope_id: d.scope_id, name: d.name.clone(), elems, loc: d.loc }
}

/// A copy of a user-defined value type definition.
pub fn copy_type_def(d: &TypeDef) -> (res: TypeDef)
    ensures
        res == *d,
{
    TypeDef { id: d.id, scope_id: d.scope_id, name: d.name.clone(), base_typ: d.base_typ.clone(), loc: d.loc }
}

/// A copy of a base contract.
pub fn copy_base(b: &BaseContract) -> (res: BaseContract)
    ensures
        base_same(*b, res),
{
    BaseContract { name: b.name.clone(), args: copy_exprs(&b.args), loc: b.loc }
}

/// A copy of a contract element.
pub fn copy_contract_elem(e: &ContractElem) -> (res: ContractElem)
    ensures
        contract_elem_same(*e, res),
{
    match e {
        ContractElem::Using(x) => ContractElem::Using(copy_using(x)),
        ContractElem::Error(x) => ContractElem::Error(copy_error(x)),
        ContractElem::Event(x) => ContractElem::Event(copy_event(x)),
        ContractElem::Struct(x) => ContractElem::Struct(copy_struct(x)),
        ContractElem::Enum(x) => ContractElem::Enum(copy_enum(x)),
        ContractElem::Type(x) => ContractElem::Type(copy_type_def(x)),
        ContractElem::Var(x) => ContractElem::Var(copy_var_decl(x)),
        ContractElem::Func(x) => ContractElem::Func(copy_func_def(x)),
    }
}

/// Copies of base contracts, in order.
pub fn copy_bases(bs: &Vec<BaseContract>) -> (res: Vec<BaseContract>)
    ensures
        res@.len() == bs@.len(),
        forall|i: int| 0 <= i < bs@.len() ==> base_same(bs@[i], res@[i]),
{
    let mut res: Vec<BaseContract> = Vec::new();
    let mut i: usize = 0;
    while i < bs.len()
        invariant
            i <= bs.len(),
            res@.len() == i,
            forall|j: int| 0 <= j < i ==> base_same(bs@[j], res@[j]),
        decreases bs.len() - i,
    {
        res.push(copy_base(&bs[i]));
        i = i + 1;
    }
    res
}

/// A copy of a source unit element that is not a contract.
pub fn copy_elem_but_contract(e: &SourceUnitElem) -> (res: SourceUnitElem)
    requires
        !(*e is Contract),
    ensures
        elem_same_but_contract(*e, res),
{
    match e {
        SourceUnitElem::Pragma(x) => SourceUnitElem::Pragma(x.clone()),
        SourceUnitElem::Import(x) => SourceUnitElem::Import(copy_import(x)),
        SourceUnitElem::Using(x) => SourceUnitElem::Using(copy_using(x)),
        SourceUnitElem::Error(x) => SourceUnitElem::Error(copy_error(x)),
        SourceUnitElem::Func(x) => SourceUnitElem::Func(copy_func_def(x)),
        SourceUnitElem::Var(x) => SourceUnitElem::Var(copy_var_decl(x)),
        SourceUnitElem::Struct(x) => SourceUnitElem::Struct(copy_struct(x)),
        SourceUnitElem::Enum(x) => SourceUnitElem::Enum(copy_enum(x)),
        SourceUnitElem::UserType(x) => SourceUnitElem::UserType(copy_type_def(x)),
        SourceUnitElem::Contract(_) => vstd::pervasive::unreached(),
    }
}

/// Whether two contracts are the same.
pub open spec fn contract_same(a: ContractDef, b: ContractDef) -> bool {
    &&& a.id == b.id
    &&& a.scope_id == b.scope_id
    &&& a.name == b.name
    &&& a.kind == b.kind
    &&& a.is_abstract == b.is_abstract
    &&& a.loc == b.loc
    &&& a.base_contracts@.len() == b.base_contracts@.len()
    &&& forall|i: int|
        0 <= i < a.base_contracts@.len() ==> base_same(a.base_contracts@[i], b.base_contracts@[i])
    &&& a.body@.len() == b.body@.len()
    &&& forall|i: int| 0 <= i < a.body@.len() ==> contract_elem_same(a.body@[i], b.body@[i])
}

/// Whether two source unit elements are the same.
pub open spec fn unit_elem_same(a: SourceUnitElem, b: SourceUnitElem) -> bool {
    match (a, b) {
        (SourceUnitElem::Contract(x), SourceUnitElem::Contract(y)) => contract_same(x, y),
        _ => elem_same_but_contract(a, b),
    }
}

/// A copy of a contract.
pub fn copy_contract(c: &ContractDef) -> (res: ContractDef)
    ensures
        contract_same(*c, res),
{
    let mut body: Vec<ContractElem> = Vec::new();
    let mut i: usize = 0;
    while i < c.body.len()
        invariant
            i <= c.body.len(),
            body@.len() == i,
            forall|j: int| 0 <= j < i ==> contract_elem_same(c.body@[j], body@[j]),
        decreases c.body.len() - i,
    {
        body.push(copy_contract_elem(&c.body[i]));
        i = i + 1;
    }
    ContractDef {
        id: c.id,
        scope_id: c.scope_id,
        name: c.name.clone(),
        kind: c.kind,
        is_abstract: c.is_abstract,
        base_contracts: copy_bases(&c.base_contracts),
        body,
        loc: c.loc,
    }
}

/// A copy of a source unit element.
pub fn copy_unit_elem(e: &SourceUnitElem) -> (res: SourceUnitElem)
    ensures
        unit_elem_same(*e, res),
{
    match e {
        SourceUnitElem::Contract(c) => SourceUnitElem::Contract(copy_contract(c)),
        _ => copy_elem_but_contract(e),
    }
}

} // verus!
