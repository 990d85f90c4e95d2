//! The family of generated method that an attribute configures.

use vstd::prelude::*;
use crate::text::str_eq;

verus! {

/// Which family of generated method an attribute keyword selects.
#[derive(Clone, Copy, PartialEq, Eq, Structural, Debug)]
pub enum FuncType {
    /// A getter (`get`).
    Getter,
    /// A mutable getter (`get_mut`).
    MutableGetter,
    /// A setter (`set`).
    Setter,
    /// Inclusion in the generated debug output (`debug`).
    DebugField,
    /// The generated constructor (`new`).
    Constructor,
    /// No recognized family; the parser's permissive fallback.
    Unknown,
}

/// Which method family a piece of keyword text selects; unrecognized
/// text selects `Unknown`, never an error.
pub open spec fn spec_func_type_of(s: Seq<char>) -> FuncType {
    if s == "get"@ {
        FuncType::Getter
    } else if s == "get_mut"@ {
        FuncType::MutableGetter
    } else if s == "set"@ {
        FuncType::Setter
    } else if s == "debug"@ {
        FuncType::DebugField
    } else if s == "new"@ {
        FuncType::Constructor
    } else {
        FuncType::Unknown
    }
}

impl FuncType {
    /// Parses keyword text into a method family, as
    /// [`spec_func_type_of`] describes; unrecognized text yields
    /// `Unknown`.
    pub fn from_keyword(s: &str) -> (r: FuncType)
        ensures
            r == spec_func_type_of(s@),
    {
        if str_eq(s, "get") {
            FuncType::Getter
        } else if str_eq(s, "get_mut") {
            FuncType::MutableGetter
        } else if str_eq(s, "set") {
            FuncType::Setter
        } else if str_eq(s, "debug") {
            FuncType::DebugField
        } else if str_eq(s, "new") {
            FuncType::Constructor
        } else {
            FuncType::Unknown
        }
    }

    /// Whether this is the getter family.
    pub fn is_get(&self) -> (r: bool)
        ensures
            r == (*self == FuncType::Getter),
    {
        matches!(self, FuncType::Getter)
    }

    /// Whether this is the mutable-getter family.
    pub fn is_get_mut(&self) -> (r: bool)
        ensures
            r == (*self == FuncType::MutableGetter),
    {
        matches!(self, FuncType::MutableGetter)
    }

    /// Whether this is the setter family.
    pub fn is_set(&self) -> (r: bool)
        ensures
            r == (*self == FuncType::Setter),
    {
        matches!(self, FuncType::Setter)
    }

    /// Whether this is the debug-inclusion family.
    pub fn is_debug(&self) -> (r: bool)
        ensures
            r == (*self == FuncType::DebugField),
    {
        matches!(self, FuncType::DebugField)
    }

    /// Whether this is the constructor family.
    pub fn is_new(&self) -> (r: bool)
        ensures
            r == (*self == FuncType::Constructor),
    {
        matches!(self, FuncType::Constructor)
    }

    /// Whether no recognized family is selected.
    pub fn is_unknown(&self) -> (r: bool)
        ensures
            r == (*self == FuncType::Unknown),
    {
        matches!(self, FuncType::Unknown)
    }

    /// Whether the given keyword text selects a recognized method
    /// family.
    pub fn is_known(func_type_str: &str) -> (r: bool)
        ensures
            r == (spec_func_type_of(func_type_str@) != FuncType::Unknown),
    {
        let ft = FuncType::from_keyword(func_type_str);
        !ft.is_unknown()
    }
}

} // verus!
