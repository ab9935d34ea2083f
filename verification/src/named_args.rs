//! Elimination of named arguments: the parameter names of functions,
//! errors and events, found by the key under which calls name them, and
//! calls whose named arguments are put in the order of those parameters.
use vstd::prelude::*;
use crate::contracts::{ContractDef, ContractElem, ErrorDef, EventDef, FuncDef};
use crate::definitions::VarDecl;
use crate::expressions::{
    CallArgs, CallExpr, Expr, NamedArg, call_opts_same, call_same, copy_call, copy_call_opts,
    copy_expr, expr_same, expr_seqs_same, expr_text,
};
use crate::name::{Name, NameView, name_text};
use crate::source_unit::{SourceUnit, SourceUnitElem};
use crate::text::{str_eq, strings_view};

verus! {

/// Finder of the parameter names of functions, events and errors; it
/// tracks the contract being visited.
#[derive(Debug)]
pub struct ParamNamesFinder {
    /// Name of the current contract when finding parameter names.
    pub current_contract: Option<String>,
}

/// The key under which a callable's parameter names are recorded: the
/// contract name, a dot and the callable's name, or the name alone outside
/// contracts.
pub open spec fn callable_key(contract: Option<Seq<char>>, name: NameView) -> Seq<char> {
    match contract {
        Some(c) => c + "."@ + name_text(name),
        None => name_text(name),
    }
}

impl ParamNamesFinder {
    pub fn new() -> (res: Self)
        ensures
            res.current_contract is None,
    {
        ParamNamesFinder { current_contract: None }
    }

    /// Encode the name of a callable object to a string.
    pub fn encode_callable_name(&self, name: &Name) -> (res: String)
        ensures
            res@ == callable_key(
                match self.current_contract {
                    Some(c) => Some(c@),
                    None => None,
                },
                name@,
            ),
    {
        match &self.current_contract {
            Some(contract) => {
                let mut s = contract.clone();
                s.append(".");
                s.append(name.to_string().as_str());
                s
            },
            None => name.to_string(),
        }
    }
}


/// The texts of the names of declared variables.
pub open spec fn decl_names(ps: Seq<VarDecl>) -> Seq<Seq<char>> {
    ps.map_values(|p: VarDecl| name_text(p.name@))
}

/// The view of a table of parameter names: each key with its names.
pub open spec fn table_view(t: Seq<(String, Vec<String>)>) -> Seq<(Seq<char>, Seq<Seq<char>>)> {
    t.map_values(|e: (String, Vec<String>)| (e.0@, strings_view(e.1@)))
}

/// The entries that the functions, errors and events of a contract add,
/// in order, under keys scoped by the contract's name.
pub open spec fn contract_entries(contract: Seq<char>, elems: Seq<ContractElem>) -> Seq<
    (Seq<char>, Seq<Seq<char>>),
>
    decreases elems.len(),
{
    if elems.len() == 0 {
        Seq::empty()
    } else {
        let rest = contract_entries(contract, elems.drop_last());
        match elems.last() {
            ContractElem::Func(f) => rest.push((callable_key(Some(contract), f.name@), decl_names(f.params@))),
            ContractElem::Error(e) => rest.push((callable_key(Some(contract), e.name@), decl_names(e.params@))),
            ContractElem::Event(e) => rest.push((callable_key(Some(contract), e.name@), decl_names(e.params@))),
            _ => rest,
        }
    }
}

/// The entries that the elements of source units add, in order: free
/// functions and errors under keys scoped by `scope`, and the elements of
/// contracts under keys scoped by the contract.
pub open spec fn elems_entries(scope: Option<Seq<char>>, elems: Seq<SourceUnitElem>) -> Seq<
    (Seq<char>, Seq<Seq<char>>),
>
    decreases elems.len(),
{
    if elems.len() == 0 {
        Seq::empty()
    } else {
        let rest = elems_entries(scope, elems.drop_last());
        match elems.last() {
            SourceUnitElem::Func(f) => rest.push((callable_key(scope, f.name@), decl_names(f.params@))),
            SourceUnitElem::Error(e) => rest.push((callable_key(scope, e.name@), decl_names(e.params@))),
            SourceUnitElem::Contract(c) => rest + contract_entries(name_text(c.name@), c.body@),
            _ => rest,
        }
    }
}

/// The entries that a list of source units adds, in order.
pub open spec fn units_entries(scope: Option<Seq<char>>, units: Seq<SourceUnit>) -> Seq<
    (Seq<char>, Seq<Seq<char>>),
>
    decreases units.len(),
{
    if units.len() == 0 {
        Seq::empty()
    } else {
        units_entries(scope, units.drop_last()) + elems_entries(scope, units.last().elems@)
    }
}

/// The names recorded under `key`: those of the last entry with that key.
pub open spec fn table_lookup(t: Seq<(Seq<char>, Seq<Seq<char>>)>, key: Seq<char>) -> Option<
    Seq<Seq<char>>,
>
    decreases t.len(),
{
    if t.len() == 0 {
        None
    } else if t.last().0 == key {
        Some(t.last().1)
    } else {
        table_lookup(t.drop_last(), key)
    }
}

/// The key under which a call looks up its callee's parameter names: the
/// callee's text for a member access, else the callee's text scoped by the
/// current contract, if any.
pub open spec fn callee_key(scope: Option<Seq<char>>, callee: Expr) -> Seq<char> {
    match callee {
        Expr::Member(_) => expr_text(callee),
        _ => match scope {
            Some(c) => c + "."@ + expr_text(callee),
            None => expr_text(callee),
        },
    }
}

/// The position of the first argument with the given name, if any.
pub open spec fn first_named(args: Seq<NamedArg>, name: Seq<char>) -> Option<int>
    decreases args.len(),
{
    if args.len() == 0 {
        None
    } else {
        match first_named(args.drop_last(), name) {
            Some(i) => Some(i),
            None => if args.last().name@ == name {
                Some(args.len() - 1)
            } else {
                None
            },
        }
    }
}

/// The values of the arguments, in the order of the parameter names: for
/// each name, the value of the first argument with that name, if any.
pub open spec fn ordered_values(params: Seq<Seq<char>>, args: Seq<NamedArg>) -> Seq<Expr>
    decreases params.len(),
{
    if params.len() == 0 {
        Seq::empty()
    } else {
        let rest = ordered_values(params.drop_last(), args);
        match first_named(args, params.last()) {
            Some(i) => rest.push(args[i].value),
            None => rest,
        }
    }
}

/// The parameter names that a call with named arguments is reordered by,
/// if its callee is known.
pub open spec fn call_params(
    table: Seq<(Seq<char>, Seq<Seq<char>>)>,
    scope: Option<Seq<char>>,
    call: CallExpr,
) -> Option<Seq<Seq<char>>> {
    match call.args {
        CallArgs::Named(_) => table_lookup(table, callee_key(scope, *call.callee)),
        CallArgs::Unnamed(_) => None,
    }
}

/// The view of an optional string.
pub open spec fn opt_text(s: Option<String>) -> Option<Seq<char>> {
    match s {
        Some(x) => Some(x@),
        None => None,
    }
}

/// The texts of the names of declared variables.
fn decl_names_exec(ps: &Vec<VarDecl>) -> (res: Vec<String>)
    ensures
        strings_view(res@) == decl_names(ps@),
{
    let mut res: Vec<String> = Vec::new();
    let mut i: usize = 0;
    while i < ps.len()
        invariant
            i <= ps.len(),
            res@.len() == i,
            forall|j: int| 0 <= j < i ==> #[trigger] res@[j]@ == name_text(ps@[j].name@),
        decreases ps.len() - i,
    {
        res.push(ps[i].name.to_string());
        i = i + 1;
    }
    assert(strings_view(res@) =~= decl_names(ps@));
    res
}

/// Appends an entry to a table of parameter names.
fn push_entry(acc: &mut Vec<(String, Vec<String>)>, key: String, names: Vec<String>)
    ensures
        table_view(final(acc)@) == table_view(old(acc)@).push((key@, strings_view(names@))),
{
    acc.push((key, names));
    assert(table_view(acc@) =~= table_view(old(acc)@).push((key@, strings_view(names@))));
}

impl ParamNamesFinder {
    /// Records the parameter names of a function under its key.
    pub fn fold_func_def(&self, acc: &mut Vec<(String, Vec<String>)>, func: &FuncDef)
        ensures
            table_view(final(acc)@) == table_view(old(acc)@).push(
                (callable_key(opt_text(self.current_contract), func.name@), decl_names(func.params@)),
            ),
    {
        push_entry(acc, self.encode_callable_name(&func.name), decl_names_exec(&func.params));
    }

    /// Records the parameter names of an error under its key.
    pub fn fold_error_def(&self, acc: &mut Vec<(String, Vec<String>)>, error: &ErrorDef)
        ensures
            table_view(final(acc)@) == table_view(old(acc)@).push(
                (callable_key(opt_text(self.current_contract), error.name@), decl_names(error.params@)),
            ),
    {
        push_entry(acc, self.encode_callable_name(&error.name), decl_names_exec(&error.params));
    }

    /// Records the parameter names of an event under its key.
    pub fn fold_event_def(&self, acc: &mut Vec<(String, Vec<String>)>, event: &EventDef)
        ensures
            table_view(final(acc)@) == table_view(old(acc)@).push(
                (callable_key(opt_text(self.current_contract), event.name@), decl_names(event.params@)),
            ),
    {
        push_entry(acc, self.encode_callable_name(&event.name), decl_names_exec(&event.params));
    }

    /// Records the parameter names of the functions, errors and events of
    /// a contract, under keys scoped by the contract's name; the current
    /// contract is the same after as before.
    pub fn fold_contract_def(&mut self, acc: &mut Vec<(String, Vec<String>)>, contract: &ContractDef)
        ensures
            table_view(final(acc)@) == table_view(old(acc)@) + contract_entries(
                name_text(contract.name@),
                contract.body@,
            ),
            final(self).current_contract == old(self).current_contract,
    {
        let saved = self.current_contract.take();
        self.current_contract = Some(contract.name.to_string());
        let ghost start = table_view(acc@);
        let ghost cname = name_text(contract.name@);
        let mut i: usize = 0;
        while i < contract.body.len()
            invariant
                i <= contract.body.len(),
                self.current_contract == Some(self.current_contract->0),
                self.current_contract->0@ == cname,
                cname == name_text(contract.name@),
                table_view(acc@) == start + contract_entries(cname, contract.body@.take(i as int)),
            decreases contract.body.len() - i,
        {
            assert(contract.body@.take(i + 1).drop_last() =~= contract.body@.take(i as int));
            match &contract.body[i] {
                ContractElem::Func(f) => self.fold_func_def(acc, f),
                ContractElem::Error(e) => self.fold_error_def(acc, e),
                ContractElem::Event(e) => self.fold_event_def(acc, e),
                _ => {},
            }
            i = i + 1;
        }
        assert(contract.body@.take(i as int) =~= contract.body@);
        self.current_contract = saved;
    }

    /// Records the parameter names of the free functions and errors of a
    /// source unit, and of the contracts' functions, errors and events.
    pub fn fold_source_unit(&mut self, acc: &mut Vec<(String, Vec<String>)>, source_unit: &SourceUnit)
        ensures
            table_view(final(acc)@) == table_view(old(acc)@) + elems_entries(
                opt_text(old(self).current_contract),
                source_unit.elems@,
            ),
            final(self).current_contract == old(self).current_contract,
    {
        let ghost start = table_view(acc@);
        let ghost scope = opt_text(self.current_contract);
        let ghost cur = self.current_contract;
        let mut i: usize = 0;
        while i < source_unit.elems.len()
            invariant
                i <= source_unit.elems.len(),
                self.current_contract == cur,
                scope == opt_text(cur),
                table_view(acc@) == start + elems_entries(scope, source_unit.elems@.take(i as int)),
            decreases source_unit.elems.len() - i,
        {
            assert(source_unit.elems@.take(i + 1).drop_last() =~= source_unit.elems@.take(i as int));
            let ghost before = table_view(acc@);
            match &source_unit.elems[i] {
                SourceUnitElem::Func(f) => self.fold_func_def(acc, f),
                SourceUnitElem::Error(e) => self.fold_error_def(acc, e),
                SourceUnitElem::Contract(c) => {
                    self.fold_contract_def(acc, c);
                    assert(table_view(acc@) =~= start + elems_entries(
                        scope,
                        source_unit.elems@.take(i + 1),
                    ));
                },
                _ => {},
            }
            i = i + 1;
        }
        assert(source_unit.elems@.take(i as int) =~= source_unit.elems@);
    }

    /// The parameter names of the functions, errors and events of a list of
    /// source units, each under the key that calls name it by, in order;
    /// a lookup takes the last entry with a key.
    pub fn find_parameter_names(&mut self, source_units: &Vec<SourceUnit>) -> (res: Vec<
        (String, Vec<String>),
    >)
        ensures
            table_view(res@) == units_entries(opt_text(old(self).current_contract), source_units@),
            final(self).current_contract == old(self).current_contract,
    {
        let mut acc: Vec<(String, Vec<String>)> = Vec::new();
        let ghost scope = opt_text(self.current_contract);
        let ghost cur = self.current_contract;
        let mut i: usize = 0;
        while i < source_units.len()
            invariant
                i <= source_units.len(),
                self.current_contract == cur,
                scope == opt_text(cur),
                table_view(acc@) == units_entries(scope, source_units@.take(i as int)),
            decreases source_units.len() - i,
        {
            assert(source_units@.take(i + 1).drop_last() =~= source_units@.take(i as int));
            self.fold_source_unit(&mut acc, &source_units[i]);
            i = i + 1;
        }
        assert(source_units@.take(i as int) =~= source_units@);
        acc
    }
}

/// Elimination of named arguments in calls, by the parameter names of the
/// callees; it tracks the contract being visited.
#[derive(Debug)]
pub struct NamedArgsEliminator {
    /// The parameter names of each callable, under its key.
    pub param_names_map: Vec<(String, Vec<String>)>,
    /// The name of the current contract.
    pub current_contract_scope: Option<String>,
}

impl NamedArgsEliminator {
    /// An eliminator with the parameter names of the functions, errors and
    /// events of the given source units, outside any contract.
    pub fn new(source_units: &Vec<SourceUnit>) -> (res: Self)
        ensures
            table_view(res.param_names_map@) == units_entries(None, source_units@),
            res.current_contract_scope is None,
    {
        let mut finder = ParamNamesFinder::new();
        let param_names_map = finder.find_parameter_names(source_units);
        NamedArgsEliminator { param_names_map, current_contract_scope: None }
    }

    /// A call with its named arguments put in the order of the parameters
    /// of its callee: for each parameter, the first argument of that name.
    /// A call with positional arguments, or whose callee is not known, is
    /// copied unchanged. Every argument must match a parameter.
    pub fn map_call_expr(&self, expr: &CallExpr) -> (res: CallExpr)
        requires
            call_params(table_view(self.param_names_map@), opt_text(self.current_contract_scope), *expr)
                matches Some(ps) ==> ordered_values(ps, expr.args->Named_0@).len()
                == expr.args->Named_0@.len(),
        ensures
            reordered(table_view(self.param_names_map@), opt_text(self.current_contract_scope), *expr, res),
    {
        reorder_named_args(&self.param_names_map, &self.current_contract_scope, expr)
    }
}

/// Whether call `res` is call `expr` with its named arguments put in the
/// order of the parameters recorded for its callee in `table`, in the scope
/// of contract `scope`; a call with positional arguments, or whose callee
/// is not recorded, is the same.
pub open spec fn reordered(
    table: Seq<(Seq<char>, Seq<Seq<char>>)>,
    scope: Option<Seq<char>>,
    expr: CallExpr,
    res: CallExpr,
) -> bool {
    match call_params(table, scope, expr) {
        None => call_same(expr, res),
        Some(ps) => {
            &&& res.id == expr.id
            &&& res.kind == expr.kind
            &&& res.typ == expr.typ
            &&& res.loc == expr.loc
            &&& expr_same(*expr.callee, *res.callee)
            &&& call_opts_same(expr.call_opts@, res.call_opts@)
            &&& res.args matches CallArgs::Unnamed(v) && expr_seqs_same(
                ordered_values(ps, expr.args->Named_0@),
                v@,
            )
        },
    }
}

/// The parameter names recorded last under `key`.
fn lookup<'a>(table: &'a Vec<(String, Vec<String>)>, key: &str) -> (res: Option<&'a Vec<String>>)
    ensures
        match res {
            Some(v) => table_lookup(table_view(table@), key@) == Some(strings_view(v@)),
            None => table_lookup(table_view(table@), key@) is None,
        },
{
    let mut i: usize = table.len();
    assert(table@.take(i as int) =~= table@);
    while i > 0
        invariant
            i <= table.len(),
            table_lookup(table_view(table@), key@) == table_lookup(
                table_view(table@.take(i as int)),
                key@,
            ),
        decreases i,
    {
        let ghost t = table_view(table@.take(i as int));
        assert(table_view(table@.take(i - 1)) =~= t.drop_last());
        if str_eq(table[i - 1].0.as_str(), key) {
            return Some(&table[i - 1].1);
        }
        i = i - 1;
    }
    None
}

/// The key under which a call looks up its callee (see `callee_key`).
fn callee_key_exec(scope: &Option<String>, callee: &Expr) -> (res: String)
    ensures
        res@ == callee_key(opt_text(*scope), *callee),
{
    match callee {
        Expr::Member(_) => callee.to_string(),
        _ => match scope {
            Some(c) => {
                let mut s = c.clone();
                s.append(".");
                s.append(callee.to_string().as_str());
                s
            },
            None => callee.to_string(),
        },
    }
}

/// A call with its named arguments put in the order of the parameters
/// recorded for its callee in `table`, in the scope of contract `scope`.
pub(crate) fn reorder_named_args(
    table: &Vec<(String, Vec<String>)>,
    scope: &Option<String>,
    expr: &CallExpr,
) -> (res: CallExpr)
    requires
        call_params(table_view(table@), opt_text(*scope), *expr) matches Some(ps) ==> ordered_values(
            ps,
            expr.args->Named_0@,
        ).len() == expr.args->Named_0@.len(),
    ensures
        reordered(table_view(table@), opt_text(*scope), *expr, res),
{
    match &expr.args {
        CallArgs::Unnamed(_) => copy_call(expr),
        CallArgs::Named(args) => {
            let key = callee_key_exec(scope, &expr.callee);
            let params = match lookup(table, key.as_str()) {
                Some(ps) => ps,
                None => {
                    return copy_call(expr);
                },
            };
            let ghost ps = strings_view(params@);
            let mut unnamed: Vec<Expr> = Vec::new();
            let mut k: usize = 0;
            while k < params.len()
                invariant
                    k <= params.len(),
                    ps == strings_view(params@),
                    expr_seqs_same(ordered_values(ps.take(k as int), args@), unnamed@),
                decreases params.len() - k,
            {
                assert(ps.take(k + 1).drop_last() =~= ps.take(k as int));
                assert(ps.take(k + 1).last() == params@[k as int]@);
                match first_arg(args, params[k].as_str()) {
                    Some(j) => {
                        unnamed.push(copy_expr(&args[j].value));
                    },
                    None => {},
                }
                k = k + 1;
            }
            assert(ps.take(k as int) =~= ps);
            CallExpr {
                id: expr.id,
                callee: Box::new(copy_expr(&expr.callee)),
                call_opts: copy_call_opts(&expr.call_opts),
                args: CallArgs::Unnamed(unnamed),
                kind: expr.kind,
                typ: expr.typ.clone(),
                loc: expr.loc,
            }
        },
    }
}

/// The position of the first argument named `name`, if any.
fn first_arg(args: &Vec<NamedArg>, name: &str) -> (res: Option<usize>)
    ensures
        match res {
            Some(j) => first_named(args@, name@) == Some(j as int) && j < args.len(),
            None => first_named(args@, name@) is None,
        },
{
    let mut i: usize = 0;
    while i < args.len()
        invariant
            i <= args.len(),
            first_named(args@.take(i as int), name@) is None,
        decreases args.len() - i,
    {
        assert(args@.take(i + 1).drop_last() =~= args@.take(i as int));
        if str_eq(args[i].name.as_str(), name) {
            proof {
                lemma_first_named_prefix(args@, name@, i as int);
            }
            return Some(i);
        }
        i = i + 1;
    }
    assert(args@.take(i as int) =~= args@);
    None
}

/// Where no argument before `i` has the name and argument `i` has it, the
/// first argument with the name is `i`.
proof fn lemma_first_named_prefix(args: Seq<NamedArg>, name: Seq<char>, i: int)
    requires
        0 <= i < args.len(),
        first_named(args.take(i), name) is None,
        args[i].name@ == name,
    ensures
        first_named(args, name) == Some(i),
    decreases args.len(),
{
    if i < args.len() - 1 {
        assert(args.drop_last().take(i) =~= args.take(i));
        lemma_first_named_prefix(args.drop_last(), name, i);
    } else {
        assert(args.drop_last() =~= args.take(i));
    }
}

} // verus!
