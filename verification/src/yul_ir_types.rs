//! Data types of the Yul intermediate representation.
use vstd::prelude::*;
use crate::text::{decimal, seq_join, strings_view, join, usize_to_string, to_string};

verus! {

/// A Yul IR data type.
#[derive(Debug, PartialEq, Eq, Hash)]
pub enum YulIRType {
    Int(YulIRIntType),
    String,
    Bool,
    Tuple(YulIRTupleType),
    Unkn,
}

/// An integer type of a bit width, signed or not.
#[derive(Debug, PartialEq, Eq, Hash, Clone, Copy)]
pub struct YulIRIntType {
    pub bitwidth: usize,
    pub is_signed: bool,
}

/// A tuple of types.
#[derive(Debug, PartialEq, Eq, Hash)]
pub struct YulIRTupleType {
    pub elems: Vec<YulIRType>,
}

/// Text of an integer type: `int` or `uint`, then the bit width.
pub open spec fn int_type_text(t: YulIRIntType) -> Seq<char> {
    (if t.is_signed {
        "int"@
    } else {
        "uint"@
    }) + decimal(t.bitwidth as nat)
}

/// Text of a type.
pub open spec fn ir_type_text(t: YulIRType) -> Seq<char>
    decreases t, 0nat,
{
    match t {
        YulIRType::Int(i) => int_type_text(i),
        YulIRType::String => "string"@,
        YulIRType::Bool => "bool"@,
        YulIRType::Tuple(tt) => "("@ + seq_join(ir_types_text(tt.elems@), ", "@) + ")"@,
        YulIRType::Unkn => "unresolved_type"@,
    }
}

/// Texts of a sequence of types.
pub open spec fn ir_types_text(ts: Seq<YulIRType>) -> Seq<Seq<char>>
    decreases ts, 1nat,
{
    if ts.len() == 0 {
        Seq::empty()
    } else {
        ir_types_text(ts.subrange(0, ts.len() - 1)).push(ir_type_text(ts[ts.len() - 1]))
    }
}

proof fn lemma_types_text(ts: Seq<YulIRType>)
    ensures
        ir_types_text(ts).len() == ts.len(),
        forall|i: int| 0 <= i < ts.len() ==> #[trigger] ir_types_text(ts)[i] == ir_type_text(ts[i]),
    decreases ts.len(),
{
    if ts.len() > 0 {
        let init = ts.subrange(0, ts.len() - 1);
        lemma_types_text(init);
        assert forall|i: int| 0 <= i < ts.len() implies #[trigger] ir_types_text(ts)[i]
            == ir_type_text(ts[i]) by {
            if i < ts.len() - 1 {
                assert(init[i] == ts[i]);
            }
        }
    }
}

impl YulIRIntType {
    pub fn new(bitwidth: usize, signed: bool) -> (res: Self)
        ensures
            res.bitwidth == bitwidth,
            res.is_signed == signed,
    {
        YulIRIntType { bitwidth, is_signed: signed }
    }

    /// The text that displaying the type produces.
    pub fn to_string(&self) -> (res: String)
        ensures
            res@ == int_type_text(*self),
    {
        let mut s = if self.is_signed {
            to_string("int")
        } else {
            to_string("uint")
        };
        s.append(usize_to_string(self.bitwidth).as_str());
        s
    }
}

impl YulIRTupleType {
    pub fn new(element_types: Vec<YulIRType>) -> (res: Self)
        ensures
            res.elems@ == element_types@,
    {
        YulIRTupleType { elems: element_types }
    }

    /// The text that displaying the type produces: the element types,
    /// separated by commas, in parentheses.
    pub fn to_string(&self) -> (res: String)
        ensures
            res@ == ir_type_text(YulIRType::Tuple(*self)),
        decreases self, 0nat,
    {
        let mut parts: Vec<String> = Vec::new();
        let mut i: usize = 0;
        while i < self.elems.len()
            invariant
                i <= self.elems.len(),
                parts@.len() == i,
                forall|j: int| 0 <= j < i ==> #[trigger] parts@[j]@ == ir_type_text(self.elems@[j]),
            decreases self.elems.len() - i,
        {
            proof {
                assert(decreases_to!(self => self.elems));
                assert(decreases_to!(self.elems => self.elems@));
                assert(decreases_to!(self.elems@ => self.elems@[i as int]));
            }
            parts.push(self.elems[i].to_string());
            i = i + 1;
        }
        proof {
            lemma_types_text(self.elems@);
            assert(strings_view(parts@) =~= ir_types_text(self.elems@));
        }
        let mut s = to_string("(");
        s.append(join(&parts, ", ").as_str());
        s.append(")");
        s
    }
}

impl YulIRType {
    /// The text that displaying the type produces.
    pub fn to_string(&self) -> (res: String)
        ensures
            res@ == ir_type_text(*self),
        decreases self, 1nat,
    {
        match self {
            YulIRType::Int(t) => t.to_string(),
            YulIRType::String => to_string("string"),
            YulIRType::Bool => to_string("bool"),
            YulIRType::Tuple(t) => t.to_string(),
            YulIRType::Unkn => to_string("unresolved_type"),
        }
    }
}

} // verus!
