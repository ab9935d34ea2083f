//! Directives of a Solidity source unit: `import`, `pragma` and `using`.
use vstd::prelude::*;
use crate::loc::Loc;
use crate::name::{Name, NameView, NamePath, name_text, name_path_text, names_view};
use crate::text::{seq_join, strings_view, join, split_char, split_on, to_string, lemma_split_on_nonempty, lemma_join_split};
use crate::types::{Type, type_text};

verus! {

//-------------------------------------------------------------------------
// Import directives
//-------------------------------------------------------------------------

/// Import directive.
#[derive(PartialEq, Eq, Debug)]
pub struct ImportDir {
    pub id: Option<isize>,
    pub kind: ImportKind,
}

/// Kind of import directive.
#[derive(PartialEq, Eq, Debug)]
pub enum ImportKind {
    ImportSourceUnit(ImportSourceUnit),
    ImportSymbols(ImportSymbols),
}

/// Directive to import a source unit.
#[derive(PartialEq, Eq, Debug)]
pub struct ImportSourceUnit {
    /// Import path, as written.
    pub path: String,
    /// Absolute path of the source unit.
    pub abs_path: String,
    /// Alias given to the source unit.
    pub alias: Option<String>,
    pub loc: Option<Loc>,
}

/// Directive to import symbols.
#[derive(PartialEq, Eq, Debug)]
pub struct ImportSymbols {
    pub source_unit_path: String,
    pub source_unit_abs_path: String,
    pub imported_symbols: Vec<ImportSymbol>,
    pub loc: Option<Loc>,
}

/// One imported symbol.
#[derive(PartialEq, Eq, Debug)]
pub struct ImportSymbol {
    pub symbol_name: String,
    pub symbol_alias: Option<String>,
    pub loc: Option<Loc>,
}

/// Text of a directive that imports a source unit.
pub open spec fn import_source_unit_text(i: ImportSourceUnit) -> Seq<char> {
    "import \""@ + i.path@ + "\""@ + match i.alias {
        Option::None => ";"@,
        Some(a) => " as "@ + a@ + ";"@,
    }
}

/// Text of an imported symbol, with its alias if any.
pub open spec fn import_symbol_text(s: ImportSymbol) -> Seq<char> {
    match s.symbol_alias {
        Option::None => s.symbol_name@,
        Some(a) => s.symbol_name@ + " as "@ + a@,
    }
}

/// Text of a directive that imports symbols.
pub open spec fn import_symbols_text(i: ImportSymbols) -> Seq<char> {
    "import { "@ + seq_join(
        i.imported_symbols@.map_values(|s: ImportSymbol| import_symbol_text(s)),
        ", "@,
    ) + " } from \""@ + i.source_unit_path@ + "\";"@
}

/// Text of an import directive.
pub open spec fn import_dir_text(d: ImportDir) -> Seq<char> {
    match d.kind {
        ImportKind::ImportSourceUnit(i) => import_source_unit_text(i),
        ImportKind::ImportSymbols(i) => import_symbols_text(i),
    }
}

impl ImportDir {
    pub fn new(id: Option<isize>, kind: ImportKind) -> (res: Self)
        ensures
            res == (ImportDir { id, kind }),
    {
        ImportDir { id, kind }
    }

    pub fn new_import_path(id: Option<isize>, import: ImportSourceUnit) -> (res: Self)
        ensures
            res == (ImportDir { id, kind: ImportKind::ImportSourceUnit(import) }),
    {
        ImportDir::new(id, ImportKind::ImportSourceUnit(import))
    }

    pub fn new_import_symbols(id: Option<isize>, import: ImportSymbols) -> (res: Self)
        ensures
            res == (ImportDir { id, kind: ImportKind::ImportSymbols(import) }),
    {
        ImportDir::new(id, ImportKind::ImportSymbols(import))
    }

    /// The absolute path of the imported source unit.
    pub fn get_import_path(&self) -> (res: String)
        ensures
            res@ == match self.kind {
                ImportKind::ImportSourceUnit(i) => i.abs_path@,
                ImportKind::ImportSymbols(i) => i.source_unit_abs_path@,
            },
    {
        match &self.kind {
            ImportKind::ImportSourceUnit(i) => i.abs_path.clone(),
            ImportKind::ImportSymbols(i) => i.source_unit_abs_path.clone(),
        }
    }

    /// The text that displaying the directive produces.
    pub fn to_string(&self) -> (res: String)
        ensures
            res@ == import_dir_text(*self),
    {
        match &self.kind {
            ImportKind::ImportSourceUnit(i) => i.to_string(),
            ImportKind::ImportSymbols(i) => i.to_string(),
        }
    }
}

impl ImportSourceUnit {
    pub fn new(abs_path: String, path: String, alias: Option<String>, loc: Option<Loc>) -> (res:
        Self)
        ensures
            res == (ImportSourceUnit { path, abs_path, alias, loc }),
    {
        ImportSourceUnit { abs_path, path, alias, loc }
    }

    /// The text that displaying the directive produces.
    pub fn to_string(&self) -> (res: String)
        ensures
            res@ == import_source_unit_text(*self),
    {
        let mut s = to_string("import \"");
        s.append(self.path.as_str());
        s.append("\"");
        match &self.alias {
            Option::None => s.append(";"),
            Some(a) => {
                s.append(" as ");
                s.append(a.as_str());
                s.append(";");
            },
        }
        s
    }
}

impl ImportSymbols {
    pub fn new(abs_path: String, file_path: String, symbols: Vec<ImportSymbol>, loc: Option<Loc>) -> (res:
        Self)
        ensures
            res == (ImportSymbols {
                source_unit_abs_path: abs_path,
                source_unit_path: file_path,
                imported_symbols: symbols,
                loc,
            }),
    {
        ImportSymbols {
            source_unit_abs_path: abs_path,
            source_unit_path: file_path,
            imported_symbols: symbols,
            loc,
        }
    }

    /// The text that displaying the directive produces.
    pub fn to_string(&self) -> (res: String)
        ensures
            res@ == import_symbols_text(*self),
    {
        let mut parts: Vec<String> = Vec::new();
        let mut i: usize = 0;
        while i < self.imported_symbols.len()
            invariant
                i <= self.imported_symbols.len(),
                parts@.len() == i,
                forall|j: int|
                    0 <= j < i ==> #[trigger] parts@[j]@ == import_symbol_text(
                        self.imported_symbols@[j],
                    ),
            decreases self.imported_symbols.len() - i,
        {
            parts.push(self.imported_symbols[i].to_string());
            i = i + 1;
        }
        assert(strings_view(parts@) =~= self.imported_symbols@.map_values(
            |s: ImportSymbol| import_symbol_text(s),
        ));
        let mut s = to_string("import { ");
        s.append(join(&parts, ", ").as_str());
        s.append(" } from \"");
        s.append(self.source_unit_path.as_str());
        s.append("\";");
        s
    }
}

impl ImportSymbol {
    pub fn new(name: String, alias: Option<String>, loc: Option<Loc>) -> (res: Self)
        ensures
            res == (ImportSymbol { symbol_name: name, symbol_alias: alias, loc }),
    {
        ImportSymbol { symbol_name: name, symbol_alias: alias, loc }
    }

    /// The text that displaying the symbol produces.
    pub fn to_string(&self) -> (res: String)
        ensures
            res@ == import_symbol_text(*self),
    {
        let mut s = self.symbol_name.clone();
        if let Some(a) = &self.symbol_alias {
            s.append(" as ");
            s.append(a.as_str());
        }
        s
    }
}

//-------------------------------------------------------------------------
// Pragma directives
//-------------------------------------------------------------------------

/// Pragma directive.
#[derive(PartialEq, Eq, Debug)]
pub struct PragmaDir {
    pub id: Option<isize>,
    pub kind: PragmaKind,
    pub loc: Option<Loc>,
}

/// Kind of pragma directive.
#[derive(PartialEq, Eq, Debug)]
pub enum PragmaKind {
    Version(String),
    AbiCoder(String),
    Experimental(String),
}

/// Text of a pragma kind.
pub open spec fn pragma_kind_text(k: PragmaKind) -> Seq<char> {
    match k {
        PragmaKind::Version(v) => "solidity "@ + v@,
        PragmaKind::AbiCoder(v) => "abicoder "@ + v@,
        PragmaKind::Experimental(v) => "experimental "@ + v@,
    }
}

/// Text of a pragma directive.
pub open spec fn pragma_dir_text(p: PragmaDir) -> Seq<char> {
    "pragma "@ + pragma_kind_text(p.kind) + ";"@
}

impl PragmaDir {
    pub fn new(id: Option<isize>, kind: PragmaKind, loc: Option<Loc>) -> (res: Self)
        ensures
            res == (PragmaDir { id, kind, loc }),
    {
        PragmaDir { id, kind, loc }
    }

    /// The text that displaying the directive produces.
    pub fn to_string(&self) -> (res: String)
        ensures
            res@ == pragma_dir_text(*self),
    {
        let mut s = to_string("pragma ");
        s.append(self.kind.to_string().as_str());
        s.append(";");
        s
    }
}

impl PragmaKind {
    pub fn new_version(version: String) -> (res: Self)
        ensures
            res == PragmaKind::Version(version),
    {
        PragmaKind::Version(version)
    }

    pub fn new_abi_coder(string: String) -> (res: Self)
        ensures
            res == PragmaKind::AbiCoder(string),
    {
        PragmaKind::AbiCoder(string)
    }

    pub fn new_experimental(string: String) -> (res: Self)
        ensures
            res == PragmaKind::Experimental(string),
    {
        PragmaKind::Experimental(string)
    }

    /// The text that displaying the pragma kind produces.
    pub fn to_string(&self) -> (res: String)
        ensures
            res@ == pragma_kind_text(*self),
    {
        let (mut s, v) = match self {
            PragmaKind::Version(v) => (to_string("solidity "), v),
            PragmaKind::AbiCoder(v) => (to_string("abicoder "), v),
            PragmaKind::Experimental(v) => (to_string("experimental "), v),
        };
        s.append(v.as_str());
        s
    }
}

//-------------------------------------------------------------------------
// Using directives
//-------------------------------------------------------------------------

/// Using directive.
#[derive(PartialEq, Eq, Debug)]
pub struct UsingDir {
    pub id: Option<isize>,
    pub kind: UsingKind,
    pub target_type: Option<Type>,
    pub is_global: bool,
    pub loc: Option<Loc>,
}

/// What a using directive attaches: a library or a list of functions.
#[derive(PartialEq, Eq, Debug)]
pub enum UsingKind {
    UsingLib(UsingLib),
    UsingFunc(Vec<UsingFunc>),
}

/// A library attached by a using directive.
#[derive(PartialEq, Eq, Debug)]
pub struct UsingLib {
    pub lib_name: Name,
    /// Where the library is defined.
    pub lib_path: NamePath,
}

/// A function attached by a using directive.
#[derive(PartialEq, Eq, Debug)]
pub struct UsingFunc {
    pub func_name: Name,
    /// Where the function is defined.
    pub func_path: NamePath,
    pub alias_operator: Option<String>,
}

/// The name without index that a piece of a dotted path names.
pub open spec fn plain_name(s: Seq<char>) -> NameView {
    NameView { base: s, index: Option::None }
}

/// The names of a dotted path.
pub open spec fn path_names(p: Seq<char>) -> Seq<NameView> {
    split_on(p, '.').map_values(|s: Seq<char>| plain_name(s))
}

/// Text of a name in its scope: the scope, a dot and the name, or the
/// name alone when the scope prints to nothing.
pub open spec fn scoped_name_text(scope: Seq<NameView>, n: NameView) -> Seq<char> {
    if name_path_text(scope).len() == 0 {
        name_text(n)
    } else {
        name_path_text(scope) + "."@ + name_text(n)
    }
}

/// Text of an attached library.
pub open spec fn using_lib_text(u: UsingLib) -> Seq<char> {
    scoped_name_text(names_view(u.lib_path.names@), u.lib_name@)
}

/// Text of an attached function, with its operator alias if any.
pub open spec fn using_func_text(u: UsingFunc) -> Seq<char> {
    scoped_name_text(names_view(u.func_path.names@), u.func_name@) + match u.alias_operator {
        Some(op) => " as "@ + op@,
        Option::None => Seq::empty(),
    }
}

/// Text of what a using directive attaches.
pub open spec fn using_kind_text(k: UsingKind) -> Seq<char> {
    match k {
        UsingKind::UsingLib(l) => using_lib_text(l),
        UsingKind::UsingFunc(fs) => "{"@ + seq_join(
            fs@.map_values(|f: UsingFunc| using_func_text(f)),
            ", "@,
        ) + "}"@,
    }
}

/// Text of a using directive.
pub open spec fn using_dir_text(u: UsingDir) -> Seq<char> {
    "using "@ + using_kind_text(u.kind) + " for "@ + match u.target_type {
        Some(t) => type_text(t),
        Option::None => "*"@,
    } + if u.is_global {
        " global;"@
    } else {
        ";"@
    }
}

/// The names of the dotted path `name_path`, the last one apart.
fn split_name_path(name_path: &str) -> (res: (Vec<Name>, Name))
    ensures
        names_view(res.0@) == path_names(name_path@).drop_last(),
        res.1@ == path_names(name_path@).last(),
{
    let pieces = split_char(name_path, '.');
    let n = pieces.len();
    let mut names: Vec<Name> = Vec::new();
    let mut i: usize = 0;
    while i + 1 < n
        invariant
            n == pieces@.len(),
            n >= 1,
            strings_view(pieces@) == split_on(name_path@, '.'),
            i + 1 <= n,
            names_view(names@) == path_names(name_path@).take(i as int),
        decreases n - i,
    {
        let nm = Name::new(pieces[i].clone(), Option::None);
        let ghost prev = names_view(names@);
        names.push(nm);
        assert(names_view(names@) =~= prev.push(plain_name(pieces@[i as int]@)));
        i = i + 1;
        assert(path_names(name_path@).take(i as int) =~= prev.push(plain_name(pieces@[i - 1]@)));
    }
    assert(path_names(name_path@).take(i as int) =~= path_names(name_path@).drop_last());
    let last = Name::new(pieces[n - 1].clone(), Option::None);
    (names, last)
}

/// Appends a name in its scope.
fn push_scoped_name(s: &mut String, scope: &NamePath, n: &Name)
    ensures
        final(s)@ == old(s)@ + scoped_name_text(names_view(scope.names@), n@),
{
    let sc = scope.to_string();
    if sc.as_str().is_empty() {
        s.append(n.to_string().as_str());
    } else {
        s.append(sc.as_str());
        s.append(".");
        s.append(n.to_string().as_str());
    }
}

impl UsingDir {
    pub fn new(
        id: Option<isize>,
        kind: UsingKind,
        typ: Option<Type>,
        global: bool,
        loc: Option<Loc>,
    ) -> (res: Self)
        ensures
            res == (UsingDir { id, kind, target_type: typ, is_global: global, loc }),
    {
        UsingDir { id, kind, target_type: typ, is_global: global, loc }
    }

    /// The text that displaying the directive produces.
    pub fn to_string(&self) -> (res: String)
        ensures
            res@ == using_dir_text(*self),
    {
        let mut s = to_string("using ");
        s.append(self.kind.to_string().as_str());
        s.append(" for ");
        match &self.target_type {
            Some(t) => s.append(t.to_string().as_str()),
            Option::None => s.append("*"),
        }
        if self.is_global {
            s.append(" global;");
        } else {
            s.append(";");
        }
        s
    }
}

impl UsingKind {
    /// The text that displaying what the directive attaches produces.
    pub fn to_string(&self) -> (res: String)
        ensures
            res@ == using_kind_text(*self),
    {
        match self {
            UsingKind::UsingLib(l) => l.to_string(),
            UsingKind::UsingFunc(fs) => {
                let mut parts: Vec<String> = Vec::new();
                let mut i: usize = 0;
                while i < fs.len()
                    invariant
                        i <= fs.len(),
                        parts@.len() == i,
                        forall|j: int| 0 <= j < i ==> #[trigger] parts@[j]@ == using_func_text(fs@[j]),
                    decreases fs.len() - i,
                {
                    parts.push(fs[i].to_string());
                    i = i + 1;
                }
                assert(strings_view(parts@) =~= fs@.map_values(|f: UsingFunc| using_func_text(f)));
                let mut s = to_string("{");
                s.append(join(&parts, ", ").as_str());
                s.append("}");
                s
            },
        }
    }
}

impl UsingLib {
    /// The library that a dotted path names: the last name of the path is
    /// the library, the names before it are where it is defined.
    pub fn new(name_path: &str) -> (res: Self)
        ensures
            res.lib_name@ == path_names(name_path@).last(),
            names_view(res.lib_path.names@) == path_names(name_path@).drop_last(),
    {
        let (scope, name) = split_name_path(name_path);
        UsingLib { lib_name: name, lib_path: NamePath::new(scope) }
    }

    /// The text that displaying the library produces.
    pub fn to_string(&self) -> (res: String)
        ensures
            res@ == using_lib_text(*self),
    {
        let mut s = String::new();
        push_scoped_name(&mut s, &self.lib_path, &self.lib_name);
        s
    }
}

impl UsingFunc {
    /// The function that a dotted path names, with an operator alias: the
    /// last name of the path is the function, the names before it are where
    /// it is defined.
    pub fn new(name_path: &str, op: Option<&str>) -> (res: Self)
        ensures
            res.func_name@ == path_names(name_path@).last(),
            names_view(res.func_path.names@) == path_names(name_path@).drop_last(),
            match op {
                Some(o) => res.alias_operator matches Some(a) && a@ == o@,
                Option::None => res.alias_operator is None,
            },
    {
        let (scope, name) = split_name_path(name_path);
        let alias_operator = match op {
            Some(o) => Some(to_string(o)),
            Option::None => Option::None,
        };
        UsingFunc { func_name: name, func_path: NamePath::new(scope), alias_operator }
    }

    /// The text that displaying the function produces.
    pub fn to_string(&self) -> (res: String)
        ensures
            res@ == using_func_text(*self),
    {
        let mut s = String::new();
        push_scoped_name(&mut s, &self.func_path, &self.func_name);
        if let Some(op) = &self.alias_operator {
            s.append(" as ");
            s.append(op.as_str());
        }
        s
    }
}

/// A join is at least as long as its first part.
proof fn lemma_join_len(parts: Seq<Seq<char>>, sep: Seq<char>)
    requires
        parts.len() > 0,
    ensures
        seq_join(parts, sep).len() >= parts[0].len(),
    decreases parts.len(),
{
    if parts.len() > 1 {
        lemma_join_len(parts.drop_last(), sep);
    }
}

/// Reading a dotted path whose pieces are all nonempty into a library (or
/// a function) and printing it gives the path back: the names before the
/// last one, joined by dots, a dot, and the last name.
pub proof fn lemma_scoped_name_round_trip(p: Seq<char>)
    requires
        forall|i: int|
            0 <= i < split_on(p, '.').len() ==> (#[trigger] split_on(p, '.')[i]).len() > 0,
    ensures
        scoped_name_text(path_names(p).drop_last(), path_names(p).last()) == p,
{
    let pieces = split_on(p, '.');
    lemma_split_on_nonempty(p, '.');
    lemma_join_split(p, '.');
    reveal_strlit(".");
    assert("."@ =~= seq!['.']);
    assert(seq_join(pieces, "."@) == p);
    let names = path_names(p);
    let init = names.drop_last();
    assert(crate::name::names_text(init) =~= pieces.drop_last());
    assert(name_text(names.last()) == pieces.last());
    if pieces.len() == 1 {
        assert(name_path_text(init) =~= Seq::<char>::empty());
    } else {
        lemma_join_len(pieces.drop_last(), "."@);
        assert(pieces.drop_last()[0] == pieces[0]);
        assert(name_path_text(init).len() > 0);
        assert(seq_join(pieces, "."@) == seq_join(pieces.drop_last(), "."@) + "."@ + pieces.last());
    }
}

} // verus!
