//! Operators of expressions: assignment, binary and unary operators, and
//! kinds of calls.
use vstd::prelude::*;
use crate::error::SolidityError;
use crate::text::{str_eq, to_string};

verus! {
/// An assignment operator.
#[derive(PartialEq, Eq, Debug, Clone, Copy, Structural)]
pub enum AssignOp {
    Assign,
    AssignAdd,
    AssignSub,
    AssignMul,
    AssignDiv,
    AssignMod,
    AssignBitAnd,
    AssignBitOr,
    AssignBitXor,
    AssignShl,
    AssignShr,
    AssignSar,
}

/// A binary operator.
#[derive(PartialEq, Eq, Debug, Clone, Copy, Structural)]
pub enum BinOp {
    Lt,
    Gt,
    Le,
    Ge,
    Eq,
    Ne,
    And,
    Or,
    Add,
    Sub,
    Mul,
    Div,
    Mod,
    Power,
    BitAnd,
    BitOr,
    BitXor,
    Shl,
    Shr,
    Sar,
}

/// A unary operator.
#[derive(PartialEq, Eq, Debug, Clone, Copy, Structural)]
pub enum UnaryOp {
    PreIncr,
    PostIncr,
    PreDecr,
    PostDecr,
    Not,
    Neg,
    BitNot,
    Delete,
}

/// The kind of a call.
#[derive(PartialEq, Eq, Debug, Clone, Copy, Structural)]
pub enum CallKind {
    FuncCall,
    TypeConversionCall,
    StructConstructorCall,
    ErrorCall,
    EventCall,
    ModifierInvoc,
    BaseConstructorCall,
}

/// The assignment operator that a text spells, if any.
pub open spec fn assign_op_of(s: Seq<char>) -> Option<AssignOp> {
    if s == "="@ {
        Some(AssignOp::Assign)
    } else if s == "+="@ {
        Some(AssignOp::AssignAdd)
    } else if s == "-="@ {
        Some(AssignOp::AssignSub)
    } else if s == "*="@ {
        Some(AssignOp::AssignMul)
    } else if s == "/="@ {
        Some(AssignOp::AssignDiv)
    } else if s == "%="@ {
        Some(AssignOp::AssignMod)
    } else if s == "&="@ {
        Some(AssignOp::AssignBitAnd)
    } else if s == "|="@ {
        Some(AssignOp::AssignBitOr)
    } else if s == "^="@ {
        Some(AssignOp::AssignBitXor)
    } else if s == "<<="@ {
        Some(AssignOp::AssignShl)
    } else if s == ">>="@ {
        Some(AssignOp::AssignShr)
    } else if s == ">>>="@ {
        Some(AssignOp::AssignSar)
    } else {
        Option::None
    }
}

/// Text of an assignment operator.
pub open spec fn assign_op_text(o: AssignOp) -> Seq<char> {
    match o {
        AssignOp::Assign => "="@,
        AssignOp::AssignAdd => "+="@,
        AssignOp::AssignSub => "-="@,
        AssignOp::AssignMul => "*="@,
        AssignOp::AssignDiv => "/="@,
        AssignOp::AssignMod => "%="@,
        AssignOp::AssignBitAnd => "&="@,
        AssignOp::AssignBitOr => "|="@,
        AssignOp::AssignBitXor => "^="@,
        AssignOp::AssignShl => "<<="@,
        AssignOp::AssignShr => ">>="@,
        AssignOp::AssignSar => ">>>="@,
    }
}

/// The binary operator that a text spells, if any.
pub open spec fn bin_op_of(s: Seq<char>) -> Option<BinOp> {
    if s == "<"@ {
        Some(BinOp::Lt)
    } else if s == ">"@ {
        Some(BinOp::Gt)
    } else if s == "<="@ {
        Some(BinOp::Le)
    } else if s == ">="@ {
        Some(BinOp::Ge)
    } else if s == "=="@ {
        Some(BinOp::Eq)
    } else if s == "!="@ {
        Some(BinOp::Ne)
    } else if s == "&&"@ {
        Some(BinOp::And)
    } else if s == "||"@ {
        Some(BinOp::Or)
    } else if s == "+"@ {
        Some(BinOp::Add)
    } else if s == "-"@ {
        Some(BinOp::Sub)
    } else if s == "*"@ {
        Some(BinOp::Mul)
    } else if s == "/"@ {
        Some(BinOp::Div)
    } else if s == "%"@ {
        Some(BinOp::Mod)
    } else if s == "**"@ {
        Some(BinOp::Power)
    } else if s == "&"@ {
        Some(BinOp::BitAnd)
    } else if s == "|"@ {
        Some(BinOp::BitOr)
    } else if s == "^"@ {
        Some(BinOp::BitXor)
    } else if s == "<<"@ {
        Some(BinOp::Shl)
    } else if s == ">>"@ {
        Some(BinOp::Shr)
    } else if s == ">>>"@ {
        Some(BinOp::Sar)
    } else {
        Option::None
    }
}

/// Text of a binary operator.
pub open spec fn bin_op_text(o: BinOp) -> Seq<char> {
    match o {
        BinOp::Lt => "<"@,
        BinOp::Gt => ">"@,
        BinOp::Le => "<="@,
        BinOp::Ge => ">="@,
        BinOp::Eq => "=="@,
        BinOp::Ne => "!="@,
        BinOp::And => "&&"@,
        BinOp::Or => "||"@,
        BinOp::Add => "+"@,
        BinOp::Sub => "-"@,
        BinOp::Mul => "*"@,
        BinOp::Div => "/"@,
        BinOp::Mod => "%"@,
        BinOp::Power => "**"@,
        BinOp::BitAnd => "&"@,
        BinOp::BitOr => "|"@,
        BinOp::BitXor => "^"@,
        BinOp::Shl => "<<"@,
        BinOp::Shr => ">>"@,
        BinOp::Sar => ">>>"@,
    }
}

/// Text of a unary operator.
pub open spec fn unary_op_text(o: UnaryOp) -> Seq<char> {
    match o {
        UnaryOp::PreIncr => "++"@,
        UnaryOp::PostIncr => "++"@,
        UnaryOp::PreDecr => "--"@,
        UnaryOp::PostDecr => "--"@,
        UnaryOp::Not => "!"@,
        UnaryOp::Neg => "-"@,
        UnaryOp::BitNot => "~"@,
        UnaryOp::Delete => "delete"@,
    }
}

/// The unary operator that a text spells, prefix or postfix, if any.
pub open spec fn unary_op_of(s: Seq<char>, is_prefix: bool) -> Option<UnaryOp> {
    if s == "++"@ {
        Some(if is_prefix { UnaryOp::PreIncr } else { UnaryOp::PostIncr })
    } else if s == "--"@ {
        Some(if is_prefix { UnaryOp::PreDecr } else { UnaryOp::PostDecr })
    } else if s == "-"@ {
        Some(UnaryOp::Neg)
    } else if s == "!"@ {
        Some(UnaryOp::Not)
    } else if s == "~"@ {
        Some(UnaryOp::BitNot)
    } else if s == "delete"@ {
        Some(UnaryOp::Delete)
    } else {
        Option::None
    }
}

impl AssignOp {
    /// The assignment operator that `operator` spells.
    pub fn new(operator: &str) -> (res: Result<Self, SolidityError>)
        ensures
            assign_op_of(operator@) is Some ==> res == Ok::<AssignOp, SolidityError>(assign_op_of(operator@)->0),
            assign_op_of(operator@) is None ==> (res matches Err(SolidityError::InvalidAssignOp(t)) && t@
                == operator@),
    {
        if str_eq(operator, "=") {
            Ok(AssignOp::Assign)
        } else if str_eq(operator, "+=") {
            Ok(AssignOp::AssignAdd)
        } else if str_eq(operator, "-=") {
            Ok(AssignOp::AssignSub)
        } else if str_eq(operator, "*=") {
            Ok(AssignOp::AssignMul)
        } else if str_eq(operator, "/=") {
            Ok(AssignOp::AssignDiv)
        } else if str_eq(operator, "%=") {
            Ok(AssignOp::AssignMod)
        } else if str_eq(operator, "&=") {
            Ok(AssignOp::AssignBitAnd)
        } else if str_eq(operator, "|=") {
            Ok(AssignOp::AssignBitOr)
        } else if str_eq(operator, "^=") {
            Ok(AssignOp::AssignBitXor)
        } else if str_eq(operator, "<<=") {
            Ok(AssignOp::AssignShl)
        } else if str_eq(operator, ">>=") {
            Ok(AssignOp::AssignShr)
        } else if str_eq(operator, ">>>=") {
            Ok(AssignOp::AssignSar)
        } else {
            Err(SolidityError::InvalidAssignOp(to_string(operator)))
        }
    }

    /// The text that displaying the operator produces.
    pub fn to_string(&self) -> (res: String)
        ensures
            res@ == assign_op_text(*self),
    {
        match self {
            AssignOp::Assign => to_string("="),
            AssignOp::AssignAdd => to_string("+="),
            AssignOp::AssignSub => to_string("-="),
            AssignOp::AssignMul => to_string("*="),
            AssignOp::AssignDiv => to_string("/="),
            AssignOp::AssignMod => to_string("%="),
            AssignOp::AssignBitAnd => to_string("&="),
            AssignOp::AssignBitOr => to_string("|="),
            AssignOp::AssignBitXor => to_string("^="),
            AssignOp::AssignShl => to_string("<<="),
            AssignOp::AssignShr => to_string(">>="),
            AssignOp::AssignSar => to_string(">>>="),
        }
    }
}

impl BinOp {
    /// The binary operator that `operator` spells.
    pub fn new(operator: &str) -> (res: Result<Self, SolidityError>)
        ensures
            bin_op_of(operator@) is Some ==> res == Ok::<BinOp, SolidityError>(bin_op_of(operator@)->0),
            bin_op_of(operator@) is None ==> (res matches Err(SolidityError::InvalidBinOp(t)) && t@
                == operator@),
    {
        if str_eq(operator, "<") {
            Ok(BinOp::Lt)
        } else if str_eq(operator, ">") {
            Ok(BinOp::Gt)
        } else if str_eq(operator, "<=") {
            Ok(BinOp::Le)
        } else if str_eq(operator, ">=") {
            Ok(BinOp::Ge)
        } else if str_eq(operator, "==") {
            Ok(BinOp::Eq)
        } else if str_eq(operator, "!=") {
            Ok(BinOp::Ne)
        } else if str_eq(operator, "&&") {
            Ok(BinOp::And)
        } else if str_eq(operator, "||") {
            Ok(BinOp::Or)
        } else if str_eq(operator, "+") {
            Ok(BinOp::Add)
        } else if str_eq(operator, "-") {
            Ok(BinOp::Sub)
        } else if str_eq(operator, "*") {
            Ok(BinOp::Mul)
        } else if str_eq(operator, "/") {
            Ok(BinOp::Div)
        } else if str_eq(operator, "%") {
            Ok(BinOp::Mod)
        } else if str_eq(operator, "**") {
            Ok(BinOp::Power)
        } else if str_eq(operator, "&") {
            Ok(BinOp::BitAnd)
        } else if str_eq(operator, "|") {
            Ok(BinOp::BitOr)
        } else if str_eq(operator, "^") {
            Ok(BinOp::BitXor)
        } else if str_eq(operator, "<<") {
            Ok(BinOp::Shl)
        } else if str_eq(operator, ">>") {
            Ok(BinOp::Shr)
        } else if str_eq(operator, ">>>") {
            Ok(BinOp::Sar)
        } else {
            Err(SolidityError::InvalidBinOp(to_string(operator)))
        }
    }

    /// The text that displaying the operator produces.
    pub fn to_string(&self) -> (res: String)
        ensures
            res@ == bin_op_text(*self),
    {
        match self {
            BinOp::Lt => to_string("<"),
            BinOp::Gt => to_string(">"),
            BinOp::Le => to_string("<="),
            BinOp::Ge => to_string(">="),
            BinOp::Eq => to_string("=="),
            BinOp::Ne => to_string("!="),
            BinOp::And => to_string("&&"),
            BinOp::Or => to_string("||"),
            BinOp::Add => to_string("+"),
            BinOp::Sub => to_string("-"),
            BinOp::Mul => to_string("*"),
            BinOp::Div => to_string("/"),
            BinOp::Mod => to_string("%"),
            BinOp::Power => to_string("**"),
            BinOp::BitAnd => to_string("&"),
            BinOp::BitOr => to_string("|"),
            BinOp::BitXor => to_string("^"),
            BinOp::Shl => to_string("<<"),
            BinOp::Shr => to_string(">>"),
            BinOp::Sar => to_string(">>>"),
        }
    }
}

impl UnaryOp {
    /// The unary operator that `operator` spells, as a prefix or a postfix
    /// operator.
    pub fn new(operator: &str, is_prefix: bool) -> (res: Result<Self, SolidityError>)
        ensures
            unary_op_of(operator@, is_prefix) is Some ==> res == Ok::<UnaryOp, SolidityError>(
                unary_op_of(operator@, is_prefix)->0,
            ),
            unary_op_of(operator@, is_prefix) is None ==> (res matches Err(
                SolidityError::InvalidUnaryOp(t),
            ) && t@ == operator@),
    {
        if str_eq(operator, "++") {
            Ok(if is_prefix { UnaryOp::PreIncr } else { UnaryOp::PostIncr })
        } else if str_eq(operator, "--") {
            Ok(if is_prefix { UnaryOp::PreDecr } else { UnaryOp::PostDecr })
        } else if str_eq(operator, "-") {
            Ok(UnaryOp::Neg)
        } else if str_eq(operator, "!") {
            Ok(UnaryOp::Not)
        } else if str_eq(operator, "~") {
            Ok(UnaryOp::BitNot)
        } else if str_eq(operator, "delete") {
            Ok(UnaryOp::Delete)
        } else {
            Err(SolidityError::InvalidUnaryOp(to_string(operator)))
        }
    }

    /// The text that displaying the operator produces.
    pub fn to_string(&self) -> (res: String)
        ensures
            res@ == unary_op_text(*self),
    {
        match self {
            UnaryOp::PreIncr => to_string("++"),
            UnaryOp::PostIncr => to_string("++"),
            UnaryOp::PreDecr => to_string("--"),
            UnaryOp::PostDecr => to_string("--"),
            UnaryOp::Not => to_string("!"),
            UnaryOp::Neg => to_string("-"),
            UnaryOp::BitNot => to_string("~"),
            UnaryOp::Delete => to_string("delete"),
        }
    }
}

/// Printing an assignment operator and reading the text back gives the operator.
pub proof fn lemma_assign_op_round_trip(o: AssignOp)
    ensures
        assign_op_of(assign_op_text(o)) == Some(o),
{
    reveal_strlit("=");
    assert("="@ =~= seq!['=']);
    assert("="@[0] == '=');
    reveal_strlit("+=");
    assert("+="@ =~= seq!['+', '=']);
    assert("+="@[0] == '+');
    assert("+="@[1] == '=');
    reveal_strlit("-=");
    assert("-="@ =~= seq!['-', '=']);
    assert("-="@[0] == '-');
    assert("-="@[1] == '=');
    reveal_strlit("*=");
    assert("*="@ =~= seq!['*', '=']);
    assert("*="@[0] == '*');
    assert("*="@[1] == '=');
    reveal_strlit("/=");
    assert("/="@ =~= seq!['/', '=']);
    assert("/="@[0] == '/');
    assert("/="@[1] == '=');
    reveal_strlit("%=");
    assert("%="@ =~= seq!['%', '=']);
    assert("%="@[0] == '%');
    assert("%="@[1] == '=');
    reveal_strlit("&=");
    assert("&="@ =~= seq!['&', '=']);
    assert("&="@[0] == '&');
    assert("&="@[1] == '=');
    reveal_strlit("|=");
    assert("|="@ =~= seq!['|', '=']);
    assert("|="@[0] == '|');
    assert("|="@[1] == '=');
    reveal_strlit("^=");
    assert("^="@ =~= seq!['^', '=']);
    assert("^="@[0] == '^');
    assert("^="@[1] == '=');
    reveal_strlit("<<=");
    assert("<<="@ =~= seq!['<', '<', '=']);
    assert("<<="@[0] == '<');
    assert("<<="@[1] == '<');
    assert("<<="@[2] == '=');
    reveal_strlit(">>=");
    assert(">>="@ =~= seq!['>', '>', '=']);
    assert(">>="@[0] == '>');
    assert(">>="@[1] == '>');
    assert(">>="@[2] == '=');
    reveal_strlit(">>>=");
    assert(">>>="@ =~= seq!['>', '>', '>', '=']);
    assert(">>>="@[0] == '>');
    assert(">>>="@[1] == '>');
    assert(">>>="@[2] == '>');
    assert(">>>="@[3] == '=');
}

/// Reading an assignment operator and printing it gives the text back.
pub proof fn lemma_assign_op_text_round_trip(s: Seq<char>)
    requires
        assign_op_of(s) is Some,
    ensures
        assign_op_text(assign_op_of(s)->0) == s,
{
}

/// Printing a binary operator and reading the text back gives the operator.
pub proof fn lemma_bin_op_round_trip(o: BinOp)
    ensures
        bin_op_of(bin_op_text(o)) == Some(o),
{
    reveal_strlit("<");
    assert("<"@ =~= seq!['<']);
    assert("<"@[0] == '<');
    reveal_strlit(">");
    assert(">"@ =~= seq!['>']);
    assert(">"@[0] == '>');
    reveal_strlit("<=");
    assert("<="@ =~= seq!['<', '=']);
    assert("<="@[0] == '<');
    assert("<="@[1] == '=');
    reveal_strlit(">=");
    assert(">="@ =~= seq!['>', '=']);
    assert(">="@[0] == '>');
    assert(">="@[1] == '=');
    reveal_strlit("==");
    assert("=="@ =~= seq!['=', '=']);
    assert("=="@[0] == '=');
    assert("=="@[1] == '=');
    reveal_strlit("!=");
    assert("!="@ =~= seq!['!', '=']);
    assert("!="@[0] == '!');
    assert("!="@[1] == '=');
    reveal_strlit("&&");
    assert("&&"@ =~= seq!['&', '&']);
    assert("&&"@[0] == '&');
    assert("&&"@[1] == '&');
    reveal_strlit("||");
    assert("||"@ =~= seq!['|', '|']);
    assert("||"@[0] == '|');
    assert("||"@[1] == '|');
    reveal_strlit("+");
    assert("+"@ =~= seq!['+']);
    assert("+"@[0] == '+');
    reveal_strlit("-");
    assert("-"@ =~= seq!['-']);
    assert("-"@[0] == '-');
    reveal_strlit("*");
    assert("*"@ =~= seq!['*']);
    assert("*"@[0] == '*');
    reveal_strlit("/");
    assert("/"@ =~= seq!['/']);
    assert("/"@[0] == '/');
    reveal_strlit("%");
    assert("%"@ =~= seq!['%']);
    assert("%"@[0] == '%');
    reveal_strlit("**");
    assert("**"@ =~= seq!['*', '*']);
    assert("**"@[0] == '*');
    assert("**"@[1] == '*');
    reveal_strlit("&");
    assert("&"@ =~= seq!['&']);
    assert("&"@[0] == '&');
    reveal_strlit("|");
    assert("|"@ =~= seq!['|']);
    assert("|"@[0] == '|');
    reveal_strlit("^");
    assert("^"@ =~= seq!['^']);
    assert("^"@[0] == '^');
    reveal_strlit("<<");
    assert("<<"@ =~= seq!['<', '<']);
    assert("<<"@[0] == '<');
    assert("<<"@[1] == '<');
    reveal_strlit(">>");
    assert(">>"@ =~= seq!['>', '>']);
    assert(">>"@[0] == '>');
    assert(">>"@[1] == '>');
    reveal_strlit(">>>");
    assert(">>>"@ =~= seq!['>', '>', '>']);
    assert(">>>"@[0] == '>');
    assert(">>>"@[1] == '>');
    assert(">>>"@[2] == '>');
    match o {
        BinOp::Lt => {},
        BinOp::Gt => {},
        BinOp::Le => {},
        BinOp::Ge => {},
        BinOp::Eq => {},
        BinOp::Ne => {},
        BinOp::And => {},
        BinOp::Or => {},
        BinOp::Add => {},
        BinOp::Sub => {},
        BinOp::Mul => {},
        BinOp::Div => {},
        BinOp::Mod => {},
        BinOp::Power => {},
        BinOp::BitAnd => {},
        BinOp::BitOr => {},
        BinOp::BitXor => {},
        BinOp::Shl => {},
        BinOp::Shr => {},
        BinOp::Sar => {},
    }
}

/// Reading a binary operator and printing it gives the text back.
pub proof fn lemma_bin_op_text_round_trip(s: Seq<char>)
    requires
        bin_op_of(s) is Some,
    ensures
        bin_op_text(bin_op_of(s)->0) == s,
{
}

/// Reading a unary operator and printing it gives the text back.
pub proof fn lemma_unary_op_text_round_trip(s: Seq<char>, is_prefix: bool)
    requires
        unary_op_of(s, is_prefix) is Some,
    ensures
        unary_op_text(unary_op_of(s, is_prefix)->0) == s,
{
}

} // verus!
