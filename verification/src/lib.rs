//! Verified core of a derive-macro boilerplate generator.
//!
//! The library parses per-field attribute annotations into configuration
//! records and synthesizes accessor methods, constructors and debug
//! formatting bodies for annotated data structures.  The host macro
//! runtime (which supplies raw syntax trees and renders generated code
//! back to source) lives outside the library; the library works on its
//! own models of tokens, types and definitions.

pub mod cfg;
pub mod debug;
pub mod func;
pub mod generate;
pub mod input;
pub mod laws;
pub mod method;
pub mod parse;
pub mod shape;
pub mod strategy;
pub mod text;
pub mod token;
pub mod visibility;

use vstd::prelude::*;
use crate::debug::{
    inner_display_debug, inner_display_debug_format, spec_display_impl,
};
use crate::generate::{inner_lombok_data, spec_input_wf, spec_lombok_impl, spec_unsupported_msg};
use crate::input::InputModel;
use crate::method::{DisplayImplModel, ImplModel};

verus! {

/// Generates the getter methods of a structure's fields, as the
/// `get` annotations configure them.
pub fn getter(input: &InputModel) -> (r: Result<ImplModel, String>)
    requires
        spec_input_wf(input@),
    ensures
        input@.data is StructData ==> (r matches Ok(m) && m@ == spec_lombok_impl(
            input@,
            true,
            false,
            false,
        )),
        !(input@.data is StructData) ==> (r matches Err(e) && e@ == spec_unsupported_msg()),
{
    inner_lombok_data(input, true, false, false)
}

/// Generates the mutable getter methods of a structure's fields, as
/// the `get_mut` annotations configure them.
pub fn getter_mut(input: &InputModel) -> (r: Result<ImplModel, String>)
    requires
        spec_input_wf(input@),
    ensures
        input@.data is StructData ==> (r matches Ok(m) && m@ == spec_lombok_impl(
            input@,
            false,
            true,
            false,
        )),
        !(input@.data is StructData) ==> (r matches Err(e) && e@ == spec_unsupported_msg()),
{
    inner_lombok_data(input, false, true, false)
}

/// Generates the setter methods of a structure's fields, as the `set`
/// annotations configure them.
pub fn setter(input: &InputModel) -> (r: Result<ImplModel, String>)
    requires
        spec_input_wf(input@),
    ensures
        input@.data is StructData ==> (r matches Ok(m) && m@ == spec_lombok_impl(
            input@,
            false,
            false,
            true,
        )),
        !(input@.data is StructData) ==> (r matches Err(e) && e@ == spec_unsupported_msg()),
{
    inner_lombok_data(input, false, false, true)
}

/// Generates getters, mutable getters and setters for a structure's
/// fields in one block.
pub fn data(input: &InputModel) -> (r: Result<ImplModel, String>)
    requires
        spec_input_wf(input@),
    ensures
        input@.data is StructData ==> (r matches Ok(m) && m@ == spec_lombok_impl(
            input@,
            true,
            true,
            true,
        )),
        !(input@.data is StructData) ==> (r matches Err(e) && e@ == spec_unsupported_msg()),
{
    inner_lombok_data(input, true, true, true)
}

/// Generates the display shim that forwards to the standard debug
/// format.
pub fn display_debug(input: &InputModel) -> (r: DisplayImplModel)
    ensures
        r@ == spec_display_impl(input@, false),
{
    inner_display_debug(input)
}

/// Generates the display shim that forwards to the detailed debug
/// format.
pub fn display_debug_format(input: &InputModel) -> (r: DisplayImplModel)
    ensures
        r@ == spec_display_impl(input@, true),
{
    inner_display_debug_format(input)
}

} // verus!
