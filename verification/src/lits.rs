//! Literals of Solidity expressions: booleans, numbers (with their units),
//! strings, hex strings and unicode strings. Integer and fixed-point values
//! are held by their decimal text.
use vstd::prelude::*;
use crate::loc::Loc;
use crate::text::{str_eq, to_string};
use crate::types::Type;

verus! {

/// A literal.
#[derive(PartialEq, Eq, Debug)]
pub enum Lit {
    Bool(BoolLit),
    Num(NumLit),
    String(StringLit),
    Hex(HexLit),
    Unicode(UnicodeLit),
}

/// A boolean literal.
#[derive(PartialEq, Eq, Debug)]
pub struct BoolLit {
    pub value: bool,
    pub typ: Type,
    pub loc: Option<Loc>,
}

/// A hex string literal.
#[derive(PartialEq, Eq, Debug)]
pub struct HexLit {
    pub value: String,
    pub typ: Type,
    pub loc: Option<Loc>,
}

/// A number literal, with its unit if any.
#[derive(PartialEq, Eq, Debug)]
pub struct NumLit {
    pub value: Num,
    pub unit: Option<NumUnit>,
    pub loc: Option<Loc>,
}

/// The value of a number literal.
#[derive(PartialEq, Eq, Debug)]
pub enum Num {
    Int(IntNum),
    FixedNum(FixedNum),
    Hex(HexNum),
}

/// An integer, by its decimal text.
#[derive(PartialEq, Eq, Debug)]
pub struct IntNum {
    pub value: String,
    pub typ: Type,
}

/// A fixed-point number, by its decimal text.
#[derive(PartialEq, Eq, Debug)]
pub struct FixedNum {
    pub value: String,
    pub typ: Type,
}

/// A string literal.
#[derive(PartialEq, Eq, Debug)]
pub struct StringLit {
    pub value: String,
    pub typ: Type,
    pub loc: Option<Loc>,
}

/// A unicode string literal.
#[derive(PartialEq, Eq, Debug)]
pub struct UnicodeLit {
    pub value: String,
    pub typ: Type,
    pub loc: Option<Loc>,
}

/// The type of a number.
pub open spec fn num_type(n: Num) -> Type {
    match n {
        Num::Int(i) => i.typ,
        Num::FixedNum(f) => f.typ,
        Num::Hex(h) => h.typ,
    }
}

/// The number with its type replaced.
pub open spec fn num_with_type(n: Num, t: Type) -> Num {
    match n {
        Num::Int(i) => Num::Int(IntNum { typ: t, ..i }),
        Num::FixedNum(f) => Num::FixedNum(FixedNum { typ: t, ..f }),
        Num::Hex(h) => Num::Hex(HexNum { typ: t, ..h }),
    }
}

/// The location of a literal.
pub open spec fn lit_loc(l: Lit) -> Option<Loc> {
    match l {
        Lit::Bool(b) => b.loc,
        Lit::Num(n) => n.loc,
        Lit::String(s) => s.loc,
        Lit::Hex(h) => h.loc,
        Lit::Unicode(u) => u.loc,
    }
}

/// The type of a literal.
pub open spec fn lit_type(l: Lit) -> Type {
    match l {
        Lit::Bool(b) => b.typ,
        Lit::Num(n) => num_type(n.value),
        Lit::String(s) => s.typ,
        Lit::Hex(h) => h.typ,
        Lit::Unicode(u) => u.typ,
    }
}

/// The literal with its type replaced.
pub open spec fn lit_with_type(l: Lit, t: Type) -> Lit {
    match l {
        Lit::Bool(b) => Lit::Bool(BoolLit { typ: t, ..b }),
        Lit::Num(n) => Lit::Num(NumLit { value: num_with_type(n.value, t), ..n }),
        Lit::String(s) => Lit::String(StringLit { typ: t, ..s }),
        Lit::Hex(h) => Lit::Hex(HexLit { typ: t, ..h }),
        Lit::Unicode(u) => Lit::Unicode(UnicodeLit { typ: t, ..u }),
    }
}

/// Text of a number.
pub open spec fn num_text(n: Num) -> Seq<char> {
    match n {
        Num::Int(i) => i.value@,
        Num::FixedNum(f) => f.value@,
        Num::Hex(h) => h.value@,
    }
}

/// Text of a literal.
pub open spec fn lit_text(l: Lit) -> Seq<char> {
    match l {
        Lit::Bool(b) => if b.value {
            "true"@
        } else {
            "false"@
        },
        Lit::Num(n) => match n.unit {
            Some(u) => num_text(n.value) + " "@ + num_unit_text(u),
            None => num_text(n.value),
        },
        Lit::String(s) => "\""@ + s.value@ + "\""@,
        Lit::Hex(h) => "hex\""@ + h.value@ + "\""@,
        Lit::Unicode(u) => "unicode\""@ + u.value@ + "\""@,
    }
}

impl Lit {
    /// The location of the literal.
    pub fn loc(&self) -> (res: Option<Loc>)
        ensures
            res == lit_loc(*self),
    {
        match self {
            Lit::Bool(b) => b.loc,
            Lit::Num(n) => n.loc,
            Lit::String(s) => s.loc,
            Lit::Hex(h) => h.loc,
            Lit::Unicode(u) => u.loc,
        }
    }

    /// The type of the literal.
    pub fn typ(&self) -> (res: Type)
        ensures
            res == lit_type(*self),
    {
        match self {
            Lit::Bool(b) => b.typ.clone(),
            Lit::Num(n) => n.value.typ(),
            Lit::String(s) => s.typ.clone(),
            Lit::Hex(h) => h.typ.clone(),
            Lit::Unicode(u) => u.typ.clone(),
        }
    }

    /// Replaces the type of the literal.
    pub fn update_data_type(&mut self, new_type: Type)
        ensures
            *final(self) == lit_with_type(*old(self), new_type),
    {
        match self {
            Lit::Bool(lit) => lit.typ = new_type,
            Lit::Num(lit) => lit.update_data_type(new_type),
            Lit::String(lit) => lit.typ = new_type,
            Lit::Hex(lit) => lit.typ = new_type,
            Lit::Unicode(lit) => lit.typ = new_type,
        }
    }

    /// The text that displaying the literal produces.
    pub fn to_string(&self) -> (res: String)
        ensures
            res@ == lit_text(*self),
    {
        match self {
            Lit::Bool(b) => b.to_string(),
            Lit::Num(n) => n.to_string(),
            Lit::String(s) => s.to_string(),
            Lit::Hex(h) => h.to_string(),
            Lit::Unicode(u) => u.to_string(),
        }
    }
}

impl BoolLit {
    pub fn new(value: bool, typ: Type, loc: Option<Loc>) -> (res: Self)
        ensures
            res == (BoolLit { value, typ, loc }),
    {
        BoolLit { value, typ, loc }
    }

    /// Replaces the type of the literal.
    pub fn update_data_type(&mut self, new_type: Type)
        ensures
            *final(self) == (BoolLit { typ: new_type, ..*old(self) }),
    {
        self.typ = new_type;
    }

    /// The text that displaying the literal produces.
    pub fn to_string(&self) -> (res: String)
        ensures
            res@ == lit_text(Lit::Bool(*self)),
    {
        if self.value {
            to_string("true")
        } else {
            to_string("false")
        }
    }
}

impl HexLit {
    /// The text that displaying the literal produces.
    pub fn to_string(&self) -> (res: String)
        ensures
            res@ == lit_text(Lit::Hex(*self)),
    {
        let mut t = to_string("hex\"");
        t.append(self.value.as_str());
        t.append("\"");
        t
    }

    pub fn new(value: &str, typ: Type, loc: Option<Loc>) -> (res: Self)
        ensures
            res.value@ == value@,
            res.typ == typ,
            res.loc == loc,
    {
        HexLit { value: to_string(value), typ, loc }
    }

    /// Replaces the type of the literal.
    pub fn update_data_type(&mut self, new_type: Type)
        ensures
            *final(self) == (HexLit { typ: new_type, ..*old(self) }),
    {
        self.typ = new_type;
    }
}

impl StringLit {
    /// The text that displaying the literal produces.
    pub fn to_string(&self) -> (res: String)
        ensures
            res@ == lit_text(Lit::String(*self)),
    {
        let mut t = to_string("\"");
        t.append(self.value.as_str());
        t.append("\"");
        t
    }

    pub fn new(value: String, typ: Type, loc: Option<Loc>) -> (res: Self)
        ensures
            res == (StringLit { value, typ, loc }),
    {
        StringLit { value, typ, loc }
    }

    /// Replaces the type of the literal.
    pub fn update_data_type(&mut self, new_type: Type)
        ensures
            *final(self) == (StringLit { typ: new_type, ..*old(self) }),
    {
        self.typ = new_type;
    }
}

impl UnicodeLit {
    /// The text that displaying the literal produces.
    pub fn to_string(&self) -> (res: String)
        ensures
            res@ == lit_text(Lit::Unicode(*self)),
    {
        let mut t = to_string("unicode\"");
        t.append(self.value.as_str());
        t.append("\"");
        t
    }

    pub fn new(value: String, typ: Type, loc: Option<Loc>) -> (res: Self)
        ensures
            res == (UnicodeLit { value, typ, loc }),
    {
        UnicodeLit { value, typ, loc }
    }

    /// Replaces the type of the literal.
    pub fn update_data_type(&mut self, new_type: Type)
        ensures
            *final(self) == (UnicodeLit { typ: new_type, ..*old(self) }),
    {
        self.typ = new_type;
    }
}

impl NumLit {
    pub fn new(value: Num, unit: Option<NumUnit>, loc: Option<Loc>) -> (res: Self)
        ensures
            res == (NumLit { value, unit, loc }),
    {
        NumLit { value, unit, loc }
    }

    /// Replaces the type of the number.
    pub fn update_data_type(&mut self, new_type: Type)
        ensures
            *final(self) == (NumLit { value: num_with_type(old(self).value, new_type), ..*old(self) }),
    {
        self.value.update_data_type(new_type);
    }

    /// The text that displaying the literal produces: the number, then its
    /// unit if any.
    pub fn to_string(&self) -> (res: String)
        ensures
            res@ == lit_text(Lit::Num(*self)),
    {
        let mut s = self.value.to_string();
        if let Some(u) = &self.unit {
            s.append(" ");
            s.append(u.to_string().as_str());
        }
        s
    }
}

impl Num {
    /// The type of the number.
    pub fn typ(&self) -> (res: Type)
        ensures
            res == num_type(*self),
    {
        match self {
            Num::Int(n) => n.typ.clone(),
            Num::FixedNum(n) => n.typ.clone(),
            Num::Hex(n) => n.typ.clone(),
        }
    }

    /// Replaces the type of the number.
    pub fn update_data_type(&mut self, new_type: Type)
        ensures
            *final(self) == num_with_type(*old(self), new_type),
    {
        match self {
            Num::Int(n) => n.typ = new_type,
            Num::FixedNum(n) => n.typ = new_type,
            Num::Hex(n) => n.typ = new_type,
        }
    }

    /// The text that displaying the number produces.
    pub fn to_string(&self) -> (res: String)
        ensures
            res@ == num_text(*self),
    {
        match self {
            Num::Int(n) => n.value.clone(),
            Num::FixedNum(n) => n.value.clone(),
            Num::Hex(n) => n.value.clone(),
        }
    }
}

impl IntNum {
    pub fn new(value: String, typ: Type) -> (res: Self)
        ensures
            res == (IntNum { value, typ }),
    {
        IntNum { value, typ }
    }

    /// Replaces the type of the number.
    pub fn update_data_type(&mut self, new_type: Type)
        ensures
            *final(self) == (IntNum { typ: new_type, ..*old(self) }),
    {
        self.typ = new_type;
    }
}

impl FixedNum {
    pub fn new(value: String, typ: Type) -> (res: Self)
        ensures
            res == (FixedNum { value, typ }),
    {
        FixedNum { value, typ }
    }

    /// Replaces the type of the number.
    pub fn update_data_type(&mut self, new_type: Type)
        ensures
            *final(self) == (FixedNum { typ: new_type, ..*old(self) }),
    {
        self.typ = new_type;
    }
}

/// A hexadecimal number literal, by its text.
#[derive(PartialEq, Eq, Debug)]
pub struct HexNum {
    pub value: String,
    pub typ: Type,
}

impl HexNum {
    pub fn new(value: String, typ: Type) -> (res: Self)
        ensures
            res == (HexNum { value, typ }),
    {
        HexNum { value, typ }
    }

    /// Replaces the type of the literal.
    pub fn update_data_type(&mut self, new_type: Type)
        ensures
            *final(self) == (HexNum { typ: new_type, ..*old(self) }),
    {
        self.typ = new_type;
    }

    /// The text that displaying the literal produces: its value.
    pub fn to_string(&self) -> (res: String)
        ensures
            res@ == self.value@,
    {
        self.value.clone()
    }
}

/// A unit that a number literal can carry.
#[derive(PartialEq, Eq, Debug, Clone, Copy, Structural)]
pub enum NumUnit {
    Wei,
    /// 1 gwei = 10 ** 9 wei.
    Gwei,
    /// 1 szabo = 10 ** 12 wei.
    Szabo,
    /// 1 finney = 10 ** 15 wei.
    Finney,
    /// 1 ether = 10 ** 18 wei.
    Ether,
    Seconds,
    Minutes,
    Hours,
    Days,
    Weeks,
    Years,
}

/// The unit that a keyword names, if any.
pub open spec fn num_unit_of(s: Seq<char>) -> Option<NumUnit> {
    if s == "wei"@ {
        Some(NumUnit::Wei)
    } else if s == "gwei"@ {
        Some(NumUnit::Gwei)
    } else if s == "szabo"@ {
        Some(NumUnit::Szabo)
    } else if s == "finney"@ {
        Some(NumUnit::Finney)
    } else if s == "ether"@ {
        Some(NumUnit::Ether)
    } else if s == "seconds"@ {
        Some(NumUnit::Seconds)
    } else if s == "minutes"@ {
        Some(NumUnit::Minutes)
    } else if s == "hours"@ {
        Some(NumUnit::Hours)
    } else if s == "days"@ {
        Some(NumUnit::Days)
    } else if s == "weeks"@ {
        Some(NumUnit::Weeks)
    } else if s == "years"@ {
        Some(NumUnit::Years)
    } else {
        None
    }
}

/// Text of a unit: its keyword.
pub open spec fn num_unit_text(u: NumUnit) -> Seq<char> {
    match u {
        NumUnit::Wei => "wei"@,
        NumUnit::Gwei => "gwei"@,
        NumUnit::Szabo => "szabo"@,
        NumUnit::Finney => "finney"@,
        NumUnit::Ether => "ether"@,
        NumUnit::Seconds => "seconds"@,
        NumUnit::Minutes => "minutes"@,
        NumUnit::Hours => "hours"@,
        NumUnit::Days => "days"@,
        NumUnit::Weeks => "weeks"@,
        NumUnit::Years => "years"@,
    }
}

impl NumUnit {
    /// The unit that `unit` names; `unit` must be one of the unit keywords.
    pub fn new(unit: &str) -> (res: Self)
        requires
            num_unit_of(unit@) is Some,
        ensures
            res == num_unit_of(unit@)->0,
    {
        if str_eq(unit, "wei") {
            NumUnit::Wei
        } else if str_eq(unit, "gwei") {
            NumUnit::Gwei
        } else if str_eq(unit, "szabo") {
            NumUnit::Szabo
        } else if str_eq(unit, "finney") {
            NumUnit::Finney
        } else if str_eq(unit, "ether") {
            NumUnit::Ether
        } else if str_eq(unit, "seconds") {
            NumUnit::Seconds
        } else if str_eq(unit, "minutes") {
            NumUnit::Minutes
        } else if str_eq(unit, "hours") {
            NumUnit::Hours
        } else if str_eq(unit, "days") {
            NumUnit::Days
        } else if str_eq(unit, "weeks") {
            NumUnit::Weeks
        } else {
            NumUnit::Years
        }
    }

    /// The text that displaying the unit produces.
    pub fn to_string(&self) -> (res: String)
        ensures
            res@ == num_unit_text(*self),
    {
        match self {
            NumUnit::Wei => to_string("wei"),
            NumUnit::Gwei => to_string("gwei"),
            NumUnit::Szabo => to_string("szabo"),
            NumUnit::Finney => to_string("finney"),
            NumUnit::Ether => to_string("ether"),
            NumUnit::Seconds => to_string("seconds"),
            NumUnit::Minutes => to_string("minutes"),
            NumUnit::Hours => to_string("hours"),
            NumUnit::Days => to_string("days"),
            NumUnit::Weeks => to_string("weeks"),
            NumUnit::Years => to_string("years"),
        }
    }
}

//-------------------------------------------------------------------------
// Copies
//-------------------------------------------------------------------------

impl Clone for Num {
    fn clone(&self) -> (res: Self)
        ensures
            res == *self,
    {
        match self {
            Num::Int(n) => Num::Int(IntNum { value: n.value.clone(), typ: n.typ.clone() }),
            Num::FixedNum(n) => Num::FixedNum(FixedNum { value: n.value.clone(), typ: n.typ.clone() }),
            Num::Hex(n) => Num::Hex(HexNum { value: n.value.clone(), typ: n.typ.clone() }),
        }
    }
}

impl Clone for Lit {
    fn clone(&self) -> (res: Self)
        ensures
            res == *self,
    {
        match self {
            Lit::Bool(l) => Lit::Bool(BoolLit { value: l.value, typ: l.typ.clone(), loc: l.loc }),
            Lit::Num(l) => Lit::Num(NumLit { value: l.value.clone(), unit: l.unit, loc: l.loc }),
            Lit::String(l) => Lit::String(
                StringLit { value: l.value.clone(), typ: l.typ.clone(), loc: l.loc },
            ),
            Lit::Hex(l) => Lit::Hex(HexLit { value: l.value.clone(), typ: l.typ.clone(), loc: l.loc }),
            Lit::Unicode(l) => Lit::Unicode(
                UnicodeLit { value: l.value.clone(), typ: l.typ.clone(), loc: l.loc },
            ),
        }
    }
}

} // verus!
