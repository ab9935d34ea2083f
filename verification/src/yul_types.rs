//! Data types of Yul code.
use vstd::prelude::*;
use crate::text::{decimal, seq_join, strings_view, join, usize_to_string, to_string};

verus! {

/// A Yul IR data type.
#[derive(Debug, PartialEq, Eq, Hash)]
pub enum YulType {
    Int(YulIntType),
    String,
    Bool,
    Tuple(YulTupleType),
    Unkn,
}

/// An integer type of a bit width, signed or not.
#[derive(Debug, PartialEq, Eq, Hash, Clone, Copy)]
pub struct YulIntType {
    pub bitwidth: usize,
    pub is_signed: bool,
}

/// A tuple of types.
#[derive(Debug, PartialEq, Eq, Hash)]
pub struct YulTupleType {
    pub elems: Vec<YulType>,
}

/// Text of an integer type: `int` or `uint`, then the bit width.
pub open spec fn int_type_text(t: YulIntType) -> Seq<char> {
    (if t.is_signed {
        "int"@
    } else {
        "uint"@
    }) + decimal(t.bitwidth as nat)
}

/// Text of a type.
pub open spec fn yul_type_text(t: YulType) -> Seq<char>
    decreases t, 0nat,
{
    match t {
        YulType::Int(i) => int_type_text(i),
        YulType::String => "string"@,
        YulType::Bool => "bool"@,
        YulType::Tuple(tt) => "("@ + seq_join(yul_types_text(tt.elems@), ", "@) + ")"@,
        YulType::Unkn => "unresolved_type"@,
    }
}

/// Texts of a sequence of types.
pub open spec fn yul_types_text(ts: Seq<YulType>) -> Seq<Seq<char>>
    decreases ts, 1nat,
{
    if ts.len() == 0 {
        Seq::empty()
    } else {
        yul_types_text(ts.subrange(0, ts.len() - 1)).push(yul_type_text(ts[ts.len() - 1]))
    }
}

proof fn lemma_types_text(ts: Seq<YulType>)
    ensures
        yul_types_text(ts).len() == ts.len(),
        forall|i: int| 0 <= i < ts.len() ==> #[trigger] yul_types_text(ts)[i] == yul_type_text(ts[i]),
    decreases ts.len(),
{
    if ts.len() > 0 {
        let init = ts.subrange(0, ts.len() - 1);
        lemma_types_text(init);
        assert forall|i: int| 0 <= i < ts.len() implies #[trigger] yul_types_text(ts)[i]
            == yul_type_text(ts[i]) by {
            if i < ts.len() - 1 {
                assert(init[i] == ts[i]);
            }
        }
    }
}

impl YulIntType {
    pub fn new(bitwidth: usize, signed: bool) -> (res: Self)
        ensures
            res.bitwidth == bitwidth,
            res.is_signed == signed,
    {
        YulIntType { bitwidth, is_signed: signed }
    }

    /// The text that displaying the type produces.
    pub fn to_string(&self) -> (res: String)
        ensures
            res@ == int_type_text(*self),
    {
        let mut s = if self.is_signed {
            to_string("int")
        } else {
            to_string("uint")
        };
        s.append(usize_to_string(self.bitwidth).as_str());
        s
    }
}

impl YulTupleType {
    pub fn new(element_types: Vec<YulType>) -> (res: Self)
        ensures
            res.elems@ == element_types@,
    {
        YulTupleType { elems: element_types }
    }

    /// The text that displaying the type produces: the element types,
    /// separated by commas, in parentheses.
    pub fn to_string(&self) -> (res: String)
        ensures
            res@ == yul_type_text(YulType::Tuple(*self)),
        decreases self, 0nat,
    {
        let mut parts: Vec<String> = Vec::new();
        let mut i: usize = 0;
        while i < self.elems.len()
            invariant
                i <= self.elems.len(),
                parts@.len() == i,
                forall|j: int| 0 <= j < i ==> #[trigger] parts@[j]@ == yul_type_text(self.elems@[j]),
            decreases self.elems.len() - i,
        {
            proof {
                assert(decreases_to!(self => self.elems));
                assert(decreases_to!(self.elems => self.elems@));
                assert(decreases_to!(self.elems@ => self.elems@[i as int]));
            }
            parts.push(self.elems[i].to_string());
            i = i + 1;
        }
        proof {
            lemma_types_text(self.elems@);
            assert(strings_view(parts@) =~= yul_types_text(self.elems@));
        }
        let mut s = to_string("(");
        s.append(join(&parts, ", ").as_str());
        s.append(")");
        s
    }
}

impl YulType {
    /// The text that displaying the type produces.
    pub fn to_string(&self) -> (res: String)
        ensures
            res@ == yul_type_text(*self),
        decreases self, 1nat,
    {
        match self {
            YulType::Int(t) => t.to_string(),
            YulType::String => to_string("string"),
            YulType::Bool => to_string("bool"),
            YulType::Tuple(t) => t.to_string(),
            YulType::Unkn => to_string("unresolved_type"),
        }
    }
}

//-------------------------------------------------------------------------
// Copies
//-------------------------------------------------------------------------

/// Whether two types are the same; tuples element by element.
pub open spec fn yul_type_same(a: YulType, b: YulType) -> bool
    decreases a,
{
    match (a, b) {
        (YulType::Tuple(x), YulType::Tuple(y)) => x.elems@.len() == y.elems@.len() && forall|i: int|
            0 <= i < x.elems@.len() ==> yul_type_same(x.elems@[i], y.elems@[i]),
        (YulType::Int(x), YulType::Int(y)) => x == y,
        (YulType::String, YulType::String) => true,
        (YulType::Bool, YulType::Bool) => true,
        (YulType::Unkn, YulType::Unkn) => true,
        _ => false,
    }
}

/// A copy of a type.
pub fn copy_yul_type(t: &YulType) -> (res: YulType)
    ensures
        yul_type_same(*t, res),
    decreases t,
{
    match t {
        YulType::Int(i) => YulType::Int(*i),
        YulType::String => YulType::String,
        YulType::Bool => YulType::Bool,
        YulType::Tuple(tt) => YulType::Tuple(YulTupleType { elems: copy_yul_types(&tt.elems) }),
        YulType::Unkn => YulType::Unkn,
    }
}

/// Copies of types, in order.
fn copy_yul_types(ts: &Vec<YulType>) -> (res: Vec<YulType>)
    ensures
        res@.len() == ts@.len(),
        forall|i: int| 0 <= i < ts@.len() ==> yul_type_same(ts@[i], res@[i]),
    decreases ts@,
{
    let mut res: Vec<YulType> = Vec::new();
    let mut i: usize = 0;
    while i < ts.len()
        invariant
            i <= ts.len(),
            res@.len() == i,
            forall|j: int| 0 <= j < i ==> yul_type_same(ts@[j], res@[j]),
        decreases ts.len() - i,
    {
        res.push(copy_yul_type(&ts[i]));
        i = i + 1;
    }
    res
}

} // verus!
