//! Data types of Solidity: elementary types, arrays, mappings and the types
//! that user definitions introduce, with the source text they print to.
use vstd::prelude::*;
use crate::loc::{DataLoc, data_loc_text};
use crate::name::{Name, NameView, name_text};
use crate::text::{decimal, usize_to_string, to_string};

verus! {

/// A Solidity data type.
#[derive(Debug, PartialEq, Eq)]
pub enum Type {
    /// `bool`.
    Bool,
    /// A signed or unsigned integer of a bit width; no width for the type
    /// of an integer literal.
    Int { bitwidth: Option<usize>, is_signed: bool },
    /// `address`, payable or not.
    Address { payable: bool },
    /// `string`, at a data location.
    String { data_loc: DataLoc },
    /// `bytes` at a data location, or a fixed-size `bytesN`.
    Bytes { length: Option<usize>, data_loc: DataLoc },
    /// An array of a base type, of fixed or dynamic length.
    Array { base: Box<Type>, length: Option<usize>, data_loc: DataLoc },
    /// A mapping from a key type to a value type.
    Mapping { key: Box<Type>, value: Box<Type> },
    /// A struct type, with the contract that defines it if any, at a data
    /// location.
    Struct { name: Name, scope: Option<Name>, data_loc: DataLoc },
    /// An enum type, with the contract that defines it if any.
    Enum { name: Name, scope: Option<Name> },
    /// A contract, interface or library type.
    Contract { name: Name, is_lib: bool },
    /// A user-defined value type, with the contract that defines it if
    /// any.
    UserDefined { name: Name, scope: Option<Name> },
}

/// The data location as it follows a type: a space and the keyword, or
/// nothing when unspecified.
pub open spec fn loc_suffix(d: DataLoc) -> Seq<char> {
    match d {
        DataLoc::Unspecified => Seq::empty(),
        _ => " "@ + data_loc_text(d),
    }
}

/// Text of a type, as written in Solidity source.
pub open spec fn type_text(t: Type) -> Seq<char>
    decreases t,
{
    match t {
        Type::Bool => "bool"@,
        Type::Int { bitwidth, is_signed } => (if is_signed {
            "int"@
        } else {
            "uint"@
        }) + match bitwidth {
            Some(w) => decimal(w as nat),
            Option::None => Seq::empty(),
        },
        Type::Address { payable } => if payable {
            "address payable"@
        } else {
            "address"@
        },
        Type::String { data_loc } => "string"@ + loc_suffix(data_loc),
        Type::Bytes { length, data_loc } => match length {
            Some(n) => "bytes"@ + decimal(n as nat),
            Option::None => "bytes"@ + loc_suffix(data_loc),
        },
        Type::Array { base, length, data_loc } => type_text(*base) + "["@ + match length {
            Some(n) => decimal(n as nat),
            Option::None => Seq::empty(),
        } + "]"@ + loc_suffix(data_loc),
        Type::Mapping { key, value } => "mapping("@ + type_text(*key) + " => "@ + type_text(*value)
            + ")"@,
        Type::Struct { name, data_loc, .. } => name_text(name@) + loc_suffix(data_loc),
        Type::Enum { name, .. } => name_text(name@),
        Type::Contract { name, .. } => name_text(name@),
        Type::UserDefined { name, .. } => name_text(name@),
    }
}

/// The data location of a type that has one.
pub open spec fn type_data_loc(t: Type) -> DataLoc {
    match t {
        Type::String { data_loc } => data_loc,
        Type::Bytes { length: Option::None, data_loc } => data_loc,
        Type::Array { data_loc, .. } => data_loc,
        Type::Struct { data_loc, .. } => data_loc,
        _ => DataLoc::Unspecified,
    }
}

/// Appends the data location suffix.
fn push_loc_suffix(s: &mut String, d: DataLoc)
    ensures
        final(s)@ == old(s)@ + loc_suffix(d),
{
    match d {
        DataLoc::Unspecified => {},
        _ => {
            s.append(" ");
            s.append(d.to_string().as_str());
        },
    }
}

fn clone_name(n: &Name) -> (res: Name)
    ensures
        res == *n,
{
    Name { base: n.base.clone(), index: n.index }
}

fn clone_opt_name(n: &Option<Name>) -> (res: Option<Name>)
    ensures
        res == *n,
{
    match n {
        Some(x) => Some(clone_name(x)),
        None => None,
    }
}

impl Clone for Type {
    fn clone(&self) -> (res: Self)
        ensures
            res == *self,
        decreases self,
    {
        match self {
            Type::Bool => Type::Bool,
            Type::Int { bitwidth, is_signed } => Type::Int { bitwidth: *bitwidth, is_signed: *is_signed },
            Type::Address { payable } => Type::Address { payable: *payable },
            Type::String { data_loc } => Type::String { data_loc: *data_loc },
            Type::Bytes { length, data_loc } => Type::Bytes { length: *length, data_loc: *data_loc },
            Type::Array { base, length, data_loc } => {
                let b = (**base).clone();
                Type::Array { base: Box::new(b), length: *length, data_loc: *data_loc }
            },
            Type::Mapping { key, value } => {
                let k = (**key).clone();
                let v = (**value).clone();
                Type::Mapping { key: Box::new(k), value: Box::new(v) }
            },
            Type::Struct { name, scope, data_loc } => Type::Struct {
                name: clone_name(name),
                scope: clone_opt_name(scope),
                data_loc: *data_loc,
            },
            Type::Enum { name, scope } => Type::Enum { name: clone_name(name), scope: clone_opt_name(scope) },
            Type::Contract { name, is_lib } => Type::Contract { name: clone_name(name), is_lib: *is_lib },
            Type::UserDefined { name, scope } => Type::UserDefined {
                name: clone_name(name),
                scope: clone_opt_name(scope),
            },
        }
    }
}

impl Type {
    /// The data location of the type, `Unspecified` for a type without
    /// one.
    pub fn data_loc(&self) -> (res: DataLoc)
        ensures
            res == type_data_loc(*self),
    {
        match self {
            Type::String { data_loc } => *data_loc,
            Type::Bytes { length: Option::None, data_loc } => *data_loc,
            Type::Array { data_loc, .. } => *data_loc,
            Type::Struct { data_loc, .. } => *data_loc,
            _ => DataLoc::Unspecified,
        }
    }

    /// The text that displaying the type produces.
    pub fn to_string(&self) -> (res: String)
        ensures
            res@ == type_text(*self),
        decreases self,
    {
        match self {
            Type::Bool => to_string("bool"),
            Type::Int { bitwidth, is_signed } => {
                let mut s = if *is_signed {
                    to_string("int")
                } else {
                    to_string("uint")
                };
                if let Some(w) = bitwidth {
                    s.append(usize_to_string(*w).as_str());
                }
                s
            },
            Type::Address { payable } => if *payable {
                to_string("address payable")
            } else {
                to_string("address")
            },
            Type::String { data_loc } => {
                let mut s = to_string("string");
                push_loc_suffix(&mut s, *data_loc);
                s
            },
            Type::Bytes { length, data_loc } => {
                let mut s = to_string("bytes");
                match length {
                    Some(n) => s.append(usize_to_string(*n).as_str()),
                    Option::None => push_loc_suffix(&mut s, *data_loc),
                }
                s
            },
            Type::Array { base, length, data_loc } => {
                let mut s = base.to_string();
                s.append("[");
                if let Some(n) = length {
                    s.append(usize_to_string(*n).as_str());
                }
                s.append("]");
                push_loc_suffix(&mut s, *data_loc);
                s
            },
            Type::Mapping { key, value } => {
                let mut s = to_string("mapping(");
                s.append(key.to_string().as_str());
                s.append(" => ");
                s.append(value.to_string().as_str());
                s.append(")");
                s
            },
            Type::Struct { name, data_loc, .. } => {
                let mut s = name.to_string();
                push_loc_suffix(&mut s, *data_loc);
                s
            },
            Type::Enum { name, .. } => name.to_string(),
            Type::Contract { name, .. } => name.to_string(),
            Type::UserDefined { name, .. } => name.to_string(),
        }
    }
}

/// The views of an optional name.
pub open spec fn opt_name_view(n: Option<Name>) -> Option<NameView> {
    match n {
        Some(x) => Some(x@),
        None => None,
    }
}

/// Whether two types are the same, names taken by their views.
pub open spec fn types_same(t1: Type, t2: Type) -> bool
    decreases t1,
{
    match (t1, t2) {
        (
            Type::Array { base: b1, length: l1, data_loc: d1 },
            Type::Array { base: b2, length: l2, data_loc: d2 },
        ) => types_same(*b1, *b2) && l1 == l2 && d1 == d2,
        (Type::Mapping { key: k1, value: v1 }, Type::Mapping { key: k2, value: v2 }) => types_same(
            *k1,
            *k2,
        ) && types_same(*v1, *v2),
        (
            Type::Struct { name: n1, scope: s1, data_loc: d1 },
            Type::Struct { name: n2, scope: s2, data_loc: d2 },
        ) => n1@ == n2@ && opt_name_view(s1) == opt_name_view(s2) && d1 == d2,
        (Type::Enum { name: n1, scope: s1 }, Type::Enum { name: n2, scope: s2 }) => n1@ == n2@
            && opt_name_view(s1) == opt_name_view(s2),
        (Type::Contract { name: n1, is_lib: l1 }, Type::Contract { name: n2, is_lib: l2 }) => n1@
            == n2@ && l1 == l2,
        (Type::UserDefined { name: n1, scope: s1 }, Type::UserDefined { name: n2, scope: s2 }) => n1@
            == n2@ && opt_name_view(s1) == opt_name_view(s2),
        _ => t1 == t2,
    }
}

/// Whether two optional names are equal, by their views.
pub fn opt_names_equal(n1: &Option<Name>, n2: &Option<Name>) -> (res: bool)
    ensures
        res == (opt_name_view(*n1) == opt_name_view(*n2)),
{
    match (n1, n2) {
        (Some(a), Some(b)) => a.same(b),
        (None, None) => true,
        _ => false,
    }
}

impl Type {
    /// Whether two types are the same, names taken by their views.
    pub fn same(t1: &Type, t2: &Type) -> (res: bool)
        ensures
            res == types_same(*t1, *t2),
        decreases t1,
    {
        match (t1, t2) {
            (Type::Bool, Type::Bool) => true,
            (Type::Int { bitwidth: b1, is_signed: s1 }, Type::Int { bitwidth: b2, is_signed: s2 }) => *b1
                == *b2 && *s1 == *s2,
            (Type::Address { payable: p1 }, Type::Address { payable: p2 }) => *p1 == *p2,
            (Type::String { data_loc: d1 }, Type::String { data_loc: d2 }) => *d1 == *d2,
            (Type::Bytes { length: l1, data_loc: d1 }, Type::Bytes { length: l2, data_loc: d2 }) => *l1
                == *l2 && *d1 == *d2,
            (
                Type::Array { base: b1, length: l1, data_loc: d1 },
                Type::Array { base: b2, length: l2, data_loc: d2 },
            ) => Type::same(b1, b2) && *l1 == *l2 && *d1 == *d2,
            (Type::Mapping { key: k1, value: v1 }, Type::Mapping { key: k2, value: v2 }) => Type::same(
                k1,
                k2,
            ) && Type::same(v1, v2),
            (
                Type::Struct { name: n1, scope: s1, data_loc: d1 },
                Type::Struct { name: n2, scope: s2, data_loc: d2 },
            ) => n1.same(n2) && opt_names_equal(s1, s2) && *d1 == *d2,
            (Type::Enum { name: n1, scope: s1 }, Type::Enum { name: n2, scope: s2 }) => n1.same(n2)
                && opt_names_equal(s1, s2),
            (Type::Contract { name: n1, is_lib: l1 }, Type::Contract { name: n2, is_lib: l2 }) => n1.same(
                n2,
            ) && *l1 == *l2,
            (Type::UserDefined { name: n1, scope: s1 }, Type::UserDefined { name: n2, scope: s2 }) => n1.same(
                n2,
            ) && opt_names_equal(s1, s2),
            _ => false,
        }
    }
}

/// The text of a mapping type is `mapping(`, the key type, ` => `, the
/// value type and `)`: the key stands before the arrow, the value after.
pub proof fn lemma_mapping_text(key: Type, value: Type)
    ensures
        ({
            let t = type_text(Type::Mapping { key: Box::new(key), value: Box::new(value) });
            let k = type_text(key).len() as int;
            &&& t.len() == 8 + k + 4 + type_text(value).len() + 1
            &&& t.subrange(0, 8) == "mapping("@
            &&& t.subrange(8, 8 + k) == type_text(key)
            &&& t.subrange(8 + k, 12 + k) == " => "@
            &&& t.subrange(12 + k, t.len() - 1) == type_text(value)
            &&& t[t.len() - 1] == ')'
        }),
{
    reveal_strlit("mapping(");
    reveal_strlit(" => ");
    reveal_strlit(")");
    let t = type_text(Type::Mapping { key: Box::new(key), value: Box::new(value) });
    let k = type_text(key).len() as int;
    assert(t =~= "mapping("@ + type_text(key) + " => "@ + type_text(value) + ")"@);
    assert(t.subrange(0, 8) =~= "mapping("@);
    assert(t.subrange(8, 8 + k) =~= type_text(key));
    assert(t.subrange(8 + k, 12 + k) =~= " => "@);
    assert(t.subrange(12 + k, t.len() - 1) =~= type_text(value));
}

} // verus!
