//! The shape a getter returns its value in, the shape a setter accepts
//! its input in, and the classification of a custom-type directive's
//! text into a setter strategy.

use vstd::prelude::*;
use crate::text::{
    contains_char, has_prefix, has_suffix, spec_contains_char, spec_has_prefix, spec_has_suffix,
    str_eq,
};

verus! {

/// How a getter returns the field's value.
#[derive(Clone, Copy, PartialEq, Eq, Structural, Debug)]
pub enum ReturnStrategy {
    /// Return a reference to the field (`reference`).
    ByRef,
    /// Return a clone of the field (`clone`).
    ByClone,
    /// Return the field by bitwise copy (`copy`).
    ByCopy,
    /// Dereference or unwrap the field (`deref`).
    ByDeref,
    /// No explicit choice: infer from the field's type.
    Inferred,
}

/// How a setter accepts its input.
#[derive(Clone, Copy, PartialEq, Eq, Structural, Debug)]
pub enum ParamStrategy {
    /// Accept exactly the field's type and assign it.
    Direct,
    /// Accept `impl AsRef<..>` and assign `val.as_ref().to_owned()`.
    ViaAsRef,
    /// Accept `impl Into<..>` and assign `val.into()`.
    ViaInto,
    /// Accept `impl AsMut<..>` and assign `val.into()`.
    ViaAsMut,
    /// Accept `impl Deref<..>` and assign `val.into()`.
    ViaDeref,
    /// Accept an `impl` of the captured bound text and assign
    /// `val.into()`.
    Custom,
}

/// Which return strategy a bare keyword selects, if any.
pub open spec fn spec_return_strategy_of(s: Seq<char>) -> Option<ReturnStrategy> {
    if s == "reference"@ {
        Some(ReturnStrategy::ByRef)
    } else if s == "clone"@ {
        Some(ReturnStrategy::ByClone)
    } else if s == "copy"@ {
        Some(ReturnStrategy::ByCopy)
    } else if s == "deref"@ {
        Some(ReturnStrategy::ByDeref)
    } else {
        None
    }
}

/// Parses a bare keyword into a return strategy, as
/// [`spec_return_strategy_of`] describes.
pub fn return_strategy_of(s: &str) -> (r: Option<ReturnStrategy>)
    ensures
        r == spec_return_strategy_of(s@),
{
    if str_eq(s, "reference") {
        Some(ReturnStrategy::ByRef)
    } else if str_eq(s, "clone") {
        Some(ReturnStrategy::ByClone)
    } else if str_eq(s, "copy") {
        Some(ReturnStrategy::ByCopy)
    } else if str_eq(s, "deref") {
        Some(ReturnStrategy::ByDeref)
    } else {
        None
    }
}

/// Which setter strategy the trimmed text of a custom-type directive
/// selects: a recognized conversion-trait bound by its prefix; any other
/// generic-looking bound (it holds both `<` and `>` and does not start
/// with `impl `) is a custom bound; everything else falls back to a
/// direct assignment.
pub open spec fn spec_classify_param(s: Seq<char>) -> ParamStrategy {
    if spec_has_prefix(s, "AsRef<"@) && spec_has_suffix(s, ">"@) {
        ParamStrategy::ViaAsRef
    } else if spec_has_prefix(s, "Into<"@) && spec_has_suffix(s, ">"@) {
        ParamStrategy::ViaInto
    } else if spec_has_prefix(s, "AsMut<"@) && spec_has_suffix(s, ">"@) {
        ParamStrategy::ViaAsMut
    } else if spec_has_prefix(s, "Deref<"@) && spec_has_suffix(s, ">"@) {
        ParamStrategy::ViaDeref
    } else if spec_contains_char(s, '<') && spec_contains_char(s, '>') && !spec_has_prefix(
        s,
        "impl "@,
    ) {
        ParamStrategy::Custom
    } else {
        ParamStrategy::Direct
    }
}

/// Classifies the text of a custom-type directive into a setter
/// strategy, as [`spec_classify_param`] describes.
pub fn classify_parameter_expression(s: &str) -> (r: ParamStrategy)
    ensures
        r == spec_classify_param(s@),
{
    if has_prefix(s, "AsRef<") && has_suffix(s, ">") {
        ParamStrategy::ViaAsRef
    } else if has_prefix(s, "Into<") && has_suffix(s, ">") {
        ParamStrategy::ViaInto
    } else if has_prefix(s, "AsMut<") && has_suffix(s, ">") {
        ParamStrategy::ViaAsMut
    } else if has_prefix(s, "Deref<") && has_suffix(s, ">") {
        ParamStrategy::ViaDeref
    } else if contains_char(s, '<') && contains_char(s, '>') && !has_prefix(s, "impl ") {
        ParamStrategy::Custom
    } else {
        ParamStrategy::Direct
    }
}

} // verus!
