//! The configuration record that one attribute annotation parses into.

use vstd::prelude::*;
use crate::func::FuncType;
use crate::strategy::{ParamStrategy, ReturnStrategy};
use crate::visibility::Visibility;

verus! {

/// Everything one attribute annotation can configure: the method family
/// it addresses, whether that family is skipped, the access level, the
/// getter's return strategy, the setter's parameter strategy, and the
/// captured text of a custom-type directive, if one was given.
#[derive(Debug, PartialEq, Eq)]
pub struct Cfg {
    /// The method family the annotation configures.
    pub func_type: FuncType,
    /// Whether generation of that family is suppressed.
    pub skip: bool,
    /// The access level of the generated method.
    pub visibility: Visibility,
    /// How a getter returns its value.
    pub return_strategy: ReturnStrategy,
    /// How a setter accepts its input.
    pub param_strategy: ParamStrategy,
    /// The captured text of a custom-type directive.
    pub param_override: Option<String>,
}

/// The mathematical view of a [`Cfg`].
pub struct CfgView {
    pub func_type: FuncType,
    pub skip: bool,
    pub visibility: Visibility,
    pub return_strategy: ReturnStrategy,
    pub param_strategy: ParamStrategy,
    pub param_override: Option<Seq<char>>,
}

impl View for Cfg {
    type V = CfgView;

    open spec fn view(&self) -> CfgView {
        CfgView {
            func_type: self.func_type,
            skip: self.skip,
            visibility: self.visibility,
            return_strategy: self.return_strategy,
            param_strategy: self.param_strategy,
            param_override: match self.param_override {
                Some(s) => Some(s@),
                None => None,
            },
        }
    }
}

/// The configuration an annotation starts from: no method family, not
/// skipped, public, with both strategies left to their defaults.
pub open spec fn spec_cfg_default() -> CfgView {
    CfgView {
        func_type: FuncType::Unknown,
        skip: false,
        visibility: Visibility::Public,
        return_strategy: ReturnStrategy::Inferred,
        param_strategy: ParamStrategy::Direct,
        param_override: None,
    }
}

impl Default for Cfg {
    /// The default configuration, as [`spec_cfg_default`] describes.
    fn default() -> (r: Cfg)
        ensures
            r@ == spec_cfg_default(),
    {
        Cfg {
            func_type: FuncType::Unknown,
            skip: false,
            visibility: Visibility::Public,
            return_strategy: ReturnStrategy::Inferred,
            param_strategy: ParamStrategy::Direct,
            param_override: None,
        }
    }
}

} // verus!
