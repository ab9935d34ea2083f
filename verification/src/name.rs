//! Names of declarations, with an optional disambiguating index, and
//! dotted name paths.
use vstd::prelude::*;
use crate::text::{decimal, seq_join, usize_to_string, to_string};

verus! {

/// A name: a base text and an optional index that makes it unique.
#[derive(Debug, PartialEq, Eq, Hash)]
pub struct Name {
    pub base: String,
    pub index: Option<usize>,
}

/// The mathematical value of a name.
pub struct NameView {
    pub base: Seq<char>,
    pub index: Option<usize>,
}

impl View for Name {
    type V = NameView;

    open spec fn view(&self) -> NameView {
        NameView { base: self.base@, index: self.index }
    }
}

/// Text of a name: the base, followed by `_` and the index if there is one.
pub open spec fn name_text(n: NameView) -> Seq<char> {
    match n.index {
        Some(i) => n.base + "_"@ + decimal(i as nat),
        Option::None => n.base,
    }
}

/// The views of a sequence of names.
pub open spec fn names_view(v: Seq<Name>) -> Seq<NameView> {
    v.map_values(|n: Name| n@)
}

/// The texts of a sequence of names.
pub open spec fn names_text(v: Seq<NameView>) -> Seq<Seq<char>> {
    v.map_values(|n: NameView| name_text(n))
}

impl Clone for Name {
    fn clone(&self) -> (res: Self)
        ensures
            res == *self,
    {
        Name { base: self.base.clone(), index: self.index }
    }
}

impl Name {
    /// A name with the given base and index.
    pub fn new(base: String, index: Option<usize>) -> (res: Self)
        ensures
            res@ == (NameView { base: base@, index }),
    {
        Name { base, index }
    }

    /// A name without index (`Name::from(&str)`).
    pub fn from_str(s: &str) -> (res: Self)
        ensures
            res@ == (NameView { base: s@, index: Option::None }),
    {
        Name { base: to_string(s), index: Option::None }
    }

    /// Whether two names have the same base and index.
    pub fn same(&self, other: &Name) -> (res: bool)
        ensures
            res == (self@ == other@),
    {
        let eq_index = match (self.index, other.index) {
            (Some(a), Some(b)) => a == b,
            (Option::None, Option::None) => true,
            _ => false,
        };
        eq_index && self.base == other.base
    }

    /// The text that displaying the name produces.
    pub fn to_string(&self) -> (res: String)
        ensures
            res@ == name_text(self@),
    {
        match self.index {
            Some(i) => {
                let mut s = self.base.clone();
                s.append("_");
                s.append(usize_to_string(i).as_str());
                s
            },
            Option::None => self.base.clone(),
        }
    }
}

/// A path of names, such as the scope of a library.
#[derive(Debug, PartialEq, Eq)]
pub struct NamePath {
    pub names: Vec<Name>,
}

/// Text of a name path: the names joined by dots.
pub open spec fn name_path_text(p: Seq<NameView>) -> Seq<char> {
    seq_join(names_text(p), "."@)
}

impl NamePath {
    pub fn new(names: Vec<Name>) -> (res: Self)
        ensures
            res.names@ == names@,
    {
        NamePath { names }
    }

    /// The text that displaying the path produces.
    pub fn to_string(&self) -> (res: String)
        ensures
            res@ == name_path_text(names_view(self.names@)),
    {
        let mut parts: Vec<String> = Vec::new();
        let mut i: usize = 0;
        while i < self.names.len()
            invariant
                i <= self.names.len(),
                parts@.len() == i,
                forall|j: int|
                    0 <= j < i ==> #[trigger] parts@[j]@ == name_text(self.names@[j]@),
            decreases self.names.len() - i,
        {
            parts.push(self.names[i].to_string());
            i = i + 1;
        }
        let res = crate::text::join(&parts, ".");
        assert(crate::text::strings_view(parts@) =~= names_text(names_view(self.names@)));
        res
    }
}

} // verus!
