//! Source code locations and data locations.
use vstd::prelude::*;
use crate::error::SolidityError;
use crate::text::{decimal, str_eq, to_string, usize_to_string};

verus! {

//-------------------------------------------------------------------------
// Source code location
//-------------------------------------------------------------------------

/// Source code location.
#[derive(PartialEq, Eq, Debug, Clone, Copy, Structural)]
pub struct Loc {
    pub start_line: usize,
    pub start_col: usize,
    pub end_line: usize,
    pub end_col: usize,
}

/// Text of a location: `start_line:start_col-end_line:end_col`.
pub open spec fn loc_text(l: Loc) -> Seq<char> {
    decimal(l.start_line as nat) + ":"@ + decimal(l.start_col as nat) + "-"@ + decimal(
        l.end_line as nat,
    ) + ":"@ + decimal(l.end_col as nat)
}

impl Loc {
    pub fn new(start_line: usize, start_col: usize, end_line: usize, end_col: usize) -> (res: Self)
        ensures
            res == (Loc { start_line, start_col, end_line, end_col }),
    {
        Loc { start_line, start_col, end_line, end_col }
    }

    /// The text that displaying the location produces.
    pub fn to_string(&self) -> (res: String)
        ensures
            res@ == loc_text(*self),
    {
        let mut s = usize_to_string(self.start_line);
        s.append(":");
        s.append(usize_to_string(self.start_col).as_str());
        s.append("-");
        s.append(usize_to_string(self.end_line).as_str());
        s.append(":");
        s.append(usize_to_string(self.end_col).as_str());
        s
    }
}

//-------------------------------------------------------------------------
// Data location
//-------------------------------------------------------------------------

#[derive(PartialEq, Eq, Debug, Clone, Copy, Hash, Structural)]
pub enum DataLoc {
    /// In memory.
    Memory,
    /// In storage.
    Storage,
    /// In function call data.
    Calldata,
    /// No data location specified.
    Unspecified,
}

/// The data location that a keyword names, if any.
pub open spec fn data_loc_of(s: Seq<char>) -> Option<DataLoc> {
    if s == "memory"@ {
        Some(DataLoc::Memory)
    } else if s == "storage"@ {
        Some(DataLoc::Storage)
    } else if s == "calldata"@ {
        Some(DataLoc::Calldata)
    } else if s == "default"@ {
        Some(DataLoc::Unspecified)
    } else {
        None
    }
}

/// Text of a data location; nothing for `None`.
pub open spec fn data_loc_text(d: DataLoc) -> Seq<char> {
    match d {
        DataLoc::Memory => "memory"@,
        DataLoc::Storage => "storage"@,
        DataLoc::Calldata => "calldata"@,
        DataLoc::Unspecified => Seq::empty(),
    }
}

impl DataLoc {
    /// Data location named by a keyword of the JSON AST.
    pub fn new(data_loc: &str) -> (res: Result<Self, SolidityError>)
        ensures
            data_loc_of(data_loc@) is Some ==> res == Ok::<DataLoc, SolidityError>(
                data_loc_of(data_loc@)->0,
            ),
            data_loc_of(data_loc@) is None ==> (res matches Err(
                SolidityError::UnknownDataLoc(t),
            ) && t@ == data_loc@),
    {
        if str_eq(data_loc, "memory") {
            Ok(DataLoc::Memory)
        } else if str_eq(data_loc, "storage") {
            Ok(DataLoc::Storage)
        } else if str_eq(data_loc, "calldata") {
            Ok(DataLoc::Calldata)
        } else if str_eq(data_loc, "default") {
            Ok(DataLoc::Unspecified)
        } else {
            Err(SolidityError::UnknownDataLoc(to_string(data_loc)))
        }
    }

    /// Check if the data location is `Calldata`.
    pub fn is_calldata(&self) -> (res: bool)
        ensures
            res == (*self == DataLoc::Calldata),
    {
        matches!(self, Self::Calldata)
    }

    /// Check if the data location is `Storage`.
    pub fn is_storage(&self) -> (res: bool)
        ensures
            res == (*self == DataLoc::Storage),
    {
        matches!(self, Self::Storage)
    }

    /// Check if the data location is `Memory`.
    pub fn is_memory(&self) -> (res: bool)
        ensures
            res == (*self == DataLoc::Memory),
    {
        matches!(self, Self::Memory)
    }

    /// The text that displaying the data location produces.
    pub fn to_string(&self) -> (res: String)
        ensures
            res@ == data_loc_text(*self),
    {
        match self {
            DataLoc::Memory => to_string("memory"),
            DataLoc::Storage => to_string("storage"),
            DataLoc::Calldata => to_string("calldata"),
            DataLoc::Unspecified => String::new(),
        }
    }
}

} // verus!
