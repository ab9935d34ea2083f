//! Sections of a Yul source unit: objects, code, data and comments.
use vstd::prelude::*;
use crate::text::{indent, indent_text, to_string};
use crate::yul_ast::{YulHexLit, YulStringLit};
use crate::yul_stmts::{YulBlock, block_text, block_printable};

verus! {

/// An object section: a name, its code and its sub-objects and data.
#[derive(Debug, PartialEq)]
pub struct YulObject {
    pub name: String,
    pub code: YulCode,
    pub children: Vec<YulObjectChild>,
}

/// A child of an object: an object or a data section.
#[derive(Debug, PartialEq)]
pub enum YulObjectChild {
    Object(YulObject),
    Data(YulData),
}

/// A code section.
#[derive(Debug, PartialEq, Eq)]
pub struct YulCode {
    pub body: YulBlock,
}

/// A data section: a name and a hex or string content.
#[derive(Debug, PartialEq, Eq, Hash)]
pub struct YulData {
    pub name: YulStringLit,
    pub content: YulDataContent,
}

/// The content of a data section.
#[derive(Debug, PartialEq, Eq, Hash)]
pub enum YulDataContent {
    Hex(YulHexLit),
    Str(YulStringLit),
}

/// A comment section.
#[derive(Debug, PartialEq, Eq, Hash, Clone)]
pub struct YulComment {
    pub content: String,
}

impl YulObject {
    pub fn new(name: String, code: YulCode, children: Vec<YulObjectChild>) -> (res: Self)
        ensures
            res.name == name,
            res.code == code,
            res.children@ == children@,
    {
        YulObject { name, code, children }
    }
}

impl YulCode {
    pub fn new(body: YulBlock) -> (res: Self)
        ensures
            res.body == body,
    {
        YulCode { body }
    }
}

impl YulData {
    pub fn new(name: YulStringLit, content: YulDataContent) -> (res: Self)
        ensures
            res.name == name,
            res.content == content,
    {
        YulData { name, content }
    }
}

impl YulComment {
    pub fn new(comment: String) -> (res: Self)
        ensures
            res.content == comment,
    {
        YulComment { content: comment }
    }

    /// The text that displaying the comment produces: its content.
    pub fn to_string(&self) -> (res: String)
        ensures
            res@ == self.content@,
    {
        self.content.clone()
    }
}

/// Text of a string literal, in double quotes.
pub open spec fn string_lit_text(s: YulStringLit) -> Seq<char> {
    "\""@ + s.value@ + "\""@
}

/// Text of a hex literal.
pub open spec fn hex_lit_text(h: YulHexLit) -> Seq<char> {
    "hex\""@ + h.value@ + "\""@
}

/// Text of a code section, ending with a line break.
pub open spec fn code_text(c: YulCode) -> Seq<char> {
    "code "@ + block_text(c.body) + "\n"@
}

/// Text of a data section.
pub open spec fn data_text(d: YulData) -> Seq<char> {
    "data "@ + string_lit_text(d.name) + " "@ + match d.content {
        YulDataContent::Hex(h) => hex_lit_text(h),
        YulDataContent::Str(s) => string_lit_text(s),
    }
}

/// Text of an object: its code and children, indented by four spaces, in
/// braces.
pub open spec fn object_text(o: YulObject) -> Seq<char>
    decreases o,
{
    "object "@ + o.name@ + " {\n"@ + indent_text(code_text(o.code), 4) + children_text(
        o.children@,
    ) + "\n}"@
}

/// Text of the children of an object, each indented by four spaces on a
/// line of its own.
pub open spec fn children_text(cs: Seq<YulObjectChild>) -> Seq<char>
    decreases cs,
{
    if cs.len() == 0 {
        Seq::empty()
    } else {
        children_text(cs.subrange(0, cs.len() - 1)) + "\n"@ + indent_text(
            child_text(cs[cs.len() - 1]),
            4,
        )
    }
}

/// Text of a child of an object.
pub open spec fn child_text(c: YulObjectChild) -> Seq<char>
    decreases c,
{
    match c {
        YulObjectChild::Object(o) => object_text(o),
        YulObjectChild::Data(d) => data_text(d),
    }
}

/// Whether all code of an object can be printed.
pub open spec fn object_printable(o: YulObject) -> bool
    decreases o,
{
    block_printable(o.code.body) && children_printable(o.children@)
}

/// Whether all code of the children can be printed.
pub open spec fn children_printable(cs: Seq<YulObjectChild>) -> bool
    decreases cs,
{
    cs.len() == 0 || (children_printable(cs.subrange(0, cs.len() - 1)) && match cs[cs.len() - 1] {
        YulObjectChild::Object(o) => object_printable(o),
        YulObjectChild::Data(_) => true,
    })
}

proof fn lemma_children(cs: Seq<YulObjectChild>, k: int)
    requires
        0 <= k < cs.len(),
    ensures
        children_text(cs.take(k + 1)) == children_text(cs.take(k)) + "\n"@ + indent_text(
            child_text(cs[k]),
            4,
        ),
        children_printable(cs) ==> match cs[k] {
            YulObjectChild::Object(o) => object_printable(o),
            YulObjectChild::Data(_) => true,
        },
    decreases cs.len(),
{
    assert(cs.take(k + 1).subrange(0, k) =~= cs.take(k));
    if k < cs.len() - 1 {
        let init = cs.subrange(0, cs.len() - 1);
        lemma_children(init, k);
        assert(init[k] == cs[k]);
        assert(init.take(k + 1) =~= cs.take(k + 1));
        assert(init.take(k) =~= cs.take(k));
    }
}

impl YulCode {
    /// The text that displaying the code section produces.
    pub fn to_string(&self) -> (res: String)
        requires
            block_printable(self.body),
        ensures
            res@ == code_text(*self),
    {
        let mut s = to_string("code ");
        s.append(self.body.to_string().as_str());
        s.append("\n");
        s
    }
}

impl YulData {
    /// The text that displaying the data section produces.
    pub fn to_string(&self) -> (res: String)
        ensures
            res@ == data_text(*self),
    {
        let mut s = to_string("data ");
        s.append("\"");
        s.append(self.name.value.as_str());
        s.append("\"");
        s.append(" ");
        match &self.content {
            YulDataContent::Hex(h) => {
                s.append("hex\"");
                s.append(h.value.as_str());
                s.append("\"");
            },
            YulDataContent::Str(t) => {
                s.append("\"");
                s.append(t.value.as_str());
                s.append("\"");
            },
        }
        s
    }
}

impl YulObject {
    /// The text that displaying the object produces.
    pub fn to_string(&self) -> (res: String)
        requires
            object_printable(*self),
        ensures
            res@ == object_text(*self),
        decreases self,
    {
        let mut s = to_string("object ");
        s.append(self.name.as_str());
        s.append(" {\n");
        s.append(indent(self.code.to_string().as_str(), 4).as_str());
        let ghost start = s@;
        assert(self.children@.take(0) =~= Seq::<YulObjectChild>::empty());
        let mut i: usize = 0;
        while i < self.children.len()
            invariant
                i <= self.children.len(),
                children_printable(self.children@),
                s@ == start + children_text(self.children@.take(i as int)),
            decreases self.children.len() - i,
        {
            proof {
                lemma_children(self.children@, i as int);
                assert(decreases_to!(self => self.children));
                assert(decreases_to!(self.children => self.children@));
                assert(decreases_to!(self.children@ => self.children@[i as int]));
            }
            let c = match &self.children[i] {
                YulObjectChild::Object(o) => {
                    proof {
                        assert(decreases_to!(self.children@[i as int] => *o));
                    }
                    o.to_string()
                },
                YulObjectChild::Data(d) => d.to_string(),
            };
            s.append("\n");
            s.append(indent(c.as_str(), 4).as_str());
            i = i + 1;
            assert(s@ =~= start + children_text(self.children@.take(i as int)));
        }
        assert(self.children@.take(i as int) =~= self.children@);
        s.append("\n}");
        s
    }
}

} // verus!
