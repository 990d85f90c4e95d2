//! Synthesis of the custom debug implementation — every field not
//! marked `debug(skip)` is shown, skipped fields are omitted entirely —
//! and of the display shim that forwards to the debug output.

use vstd::prelude::*;
use crate::func::FuncType;
use crate::generate::{make_impl_header, spec_impl_header, spec_input_wf};
use crate::input::{
    DataModel, DataView, FieldModel, FieldView, FieldsModel, FieldsView, InputModel, InputView,
    VariantModel, VariantView,
};
use crate::method::{
    debug_arms_view, DebugArm, DebugArmView, DebugBody, DebugBodyView, DebugImplModel,
    DebugImplView, DisplayImplModel, DisplayImplView,
};
use crate::parse::{analyze_attributes, spec_analyze};
use crate::shape::strings_view;
use crate::token::TokenView;
use vstd::pervasive::unreached;

verus! {

/// Whether a field is left out of the generated debug output: the
/// first of its annotations that configures the debug family and says
/// skip decides; with no such annotation the field is shown.
pub open spec fn spec_debug_skip(ats: Seq<Seq<TokenView>>, k: int) -> bool
    decreases ats.len() - k,
{
    if k < 0 || k >= ats.len() {
        false
    } else {
        let c = spec_analyze(ats[k]);
        if c.func_type == FuncType::DebugField && c.skip {
            true
        } else {
            spec_debug_skip(ats, k + 1)
        }
    }
}

/// Whether a field is left out of the generated debug output, as
/// [`spec_debug_skip`] describes.
#[verifier::loop_isolation(false)]
fn debug_skip(field: &FieldModel) -> (r: bool)
    ensures
        r == spec_debug_skip(field@.attrs, 0),
{
    let ghost av = field@.attrs;
    let n = field.attrs.len();
    let mut k: usize = 0;
    while k < n
        invariant
            k <= n,
            spec_debug_skip(av, 0) == spec_debug_skip(av, k as int),
        decreases n - k,
    {
        let cfg = analyze_attributes(&field.attrs[k]);
        proof {
            assert(av[k as int] == field.attrs@[k as int]@);
        }
        if cfg.func_type.is_debug() && cfg.skip {
            return true;
        }
        k = k + 1;
    }
    false
}

/// The names of the named fields shown in the debug output, from
/// position `k` on: skipped fields are omitted entirely.
pub open spec fn spec_debug_named(fl: Seq<FieldView>, k: int) -> Seq<Seq<char>>
    decreases fl.len() - k,
{
    if k < 0 || k >= fl.len() {
        Seq::<Seq<char>>::empty()
    } else {
        let rest = spec_debug_named(fl, k + 1);
        if spec_debug_skip(fl[k].attrs, 0) {
            rest
        } else {
            seq![fl[k].name->Some_0] + rest
        }
    }
}

/// The positions of the positional fields shown in the debug output,
/// from position `k` on: skipped fields are omitted entirely.
pub open spec fn spec_debug_tuple(fl: Seq<FieldView>, k: int) -> Seq<int>
    decreases fl.len() - k,
{
    if k < 0 || k >= fl.len() {
        Seq::<int>::empty()
    } else {
        let rest = spec_debug_tuple(fl, k + 1);
        if spec_debug_skip(fl[k].attrs, 0) {
            rest
        } else {
            seq![k] + rest
        }
    }
}

/// All field names of a named field list, from position `k` on — what
/// an enum arm's pattern binds, skipped fields included.
pub open spec fn spec_all_names(fl: Seq<FieldView>, k: int) -> Seq<Seq<char>>
    decreases fl.len() - k,
{
    if k < 0 || k >= fl.len() {
        Seq::<Seq<char>>::empty()
    } else {
        seq![fl[k].name->Some_0] + spec_all_names(fl, k + 1)
    }
}

/// The debug arm of one enum variant: its pattern binds every field,
/// the output shows the fields not marked skipped.
pub open spec fn spec_debug_arm(v: VariantView) -> DebugArmView {
    match v.fields {
        FieldsView::Named(fl) => DebugArmView::NamedArm {
            variant: v.name,
            bound: spec_all_names(fl, 0),
            shown: spec_debug_named(fl, 0),
        },
        FieldsView::Unnamed(fl) => DebugArmView::TupleArm {
            variant: v.name,
            arity: fl.len() as int,
            shown: spec_debug_tuple(fl, 0),
        },
        FieldsView::Unit => DebugArmView::UnitArm { variant: v.name },
    }
}

/// The debug arms of an enum's variants, from position `k` on.
pub open spec fn spec_debug_arms(vs: Seq<VariantView>, k: int) -> Seq<DebugArmView>
    decreases vs.len() - k,
{
    if k < 0 || k >= vs.len() {
        Seq::<DebugArmView>::empty()
    } else {
        seq![spec_debug_arm(vs[k])] + spec_debug_arms(vs, k + 1)
    }
}

/// What the generated debug implementation prints, by the shape of the
/// definition's body.
pub open spec fn spec_debug_body(d: DataView) -> DebugBodyView {
    match d {
        DataView::StructData(fs) => match fs {
            FieldsView::Named(fl) => DebugBodyView::StructBody(spec_debug_named(fl, 0)),
            FieldsView::Unnamed(fl) => DebugBodyView::TupleBody(spec_debug_tuple(fl, 0)),
            FieldsView::Unit => DebugBodyView::UnitBody,
        },
        DataView::EnumData(vs) => DebugBodyView::EnumBody(spec_debug_arms(vs, 0)),
        DataView::UnionData => DebugBodyView::UnitBody,
    }
}

/// The debug implementation for one definition.
pub open spec fn spec_custom_debug(m: InputView) -> DebugImplView {
    DebugImplView { header: spec_impl_header(m), body: spec_debug_body(m.data) }
}

/// The diagnostic for a debug derive applied to a union.
pub open spec fn spec_union_msg() -> Seq<char> {
    "Debug derive is not supported for unions"@
}

/// The names of the named fields shown in the debug output, as
/// [`spec_debug_named`] describes.
#[verifier::loop_isolation(false)]
fn debug_named_fields(fl: &Vec<FieldModel>) -> (r: Vec<String>)
    requires
        forall|i: int| 0 <= i < fl@.len() ==> (#[trigger] fl@[i])@.name is Some,
    ensures
        strings_view(r@) == spec_debug_named(crate::input::fields_seq_view(fl@), 0),
{
    let ghost flv = crate::input::fields_seq_view(fl@);
    let mut out: Vec<String> = Vec::new();
    let n = fl.len();
    let mut k: usize = 0;
    proof {
        assert(strings_view(out@) =~= Seq::<Seq<char>>::empty());
        assert(Seq::<Seq<char>>::empty() + spec_debug_named(flv, 0) =~= spec_debug_named(flv, 0));
    }
    while k < n
        invariant
            k <= n,
            spec_debug_named(flv, 0) == strings_view(out@) + spec_debug_named(flv, k as int),
        decreases n - k,
    {
        proof {
            assert(flv[k as int] == fl@[k as int]@);
        }
        let skip = debug_skip(&fl[k]);
        if !skip {
            let nm: String = match &fl[k].name {
                Some(nm) => nm.clone(),
                None => unreached(),
            };
            let ghost pre = out@;
            out.push(nm);
            proof {
                assert(strings_view(out@) =~= strings_view(pre).push(flv[k as int].name->Some_0));
                assert(strings_view(out@) + spec_debug_named(flv, k as int + 1) =~= strings_view(
                    pre,
                ) + spec_debug_named(flv, k as int));
            }
        }
        k = k + 1;
    }
    proof {
        assert(strings_view(out@) + Seq::<Seq<char>>::empty() =~= strings_view(out@));
    }
    out
}

/// The view of a sequence of positions.
pub open spec fn indices_view(ixs: Seq<usize>) -> Seq<int> {
    Seq::new(ixs.len(), |i: int| ixs[i] as int)
}

/// The positions of the positional fields shown in the debug output,
/// as [`spec_debug_tuple`] describes.
#[verifier::loop_isolation(false)]
fn debug_tuple_fields(fl: &Vec<FieldModel>) -> (r: Vec<usize>)
    ensures
        indices_view(r@) == spec_debug_tuple(crate::input::fields_seq_view(fl@), 0),
{
    let ghost flv = crate::input::fields_seq_view(fl@);
    let mut out: Vec<usize> = Vec::new();
    let n = fl.len();
    let mut k: usize = 0;
    proof {
        assert(indices_view(out@) =~= Seq::<int>::empty());
        assert(Seq::<int>::empty() + spec_debug_tuple(flv, 0) =~= spec_debug_tuple(flv, 0));
    }
    while k < n
        invariant
            k <= n,
            spec_debug_tuple(flv, 0) == indices_view(out@) + spec_debug_tuple(flv, k as int),
        decreases n - k,
    {
        proof {
            assert(flv[k as int] == fl@[k as int]@);
        }
        let skip = debug_skip(&fl[k]);
        if !skip {
            let ghost pre = out@;
            out.push(k);
            proof {
                assert(indices_view(out@) =~= indices_view(pre).push(k as int));
                assert(indices_view(out@) + spec_debug_tuple(flv, k as int + 1) =~= indices_view(
                    pre,
                ) + spec_debug_tuple(flv, k as int));
            }
        }
        k = k + 1;
    }
    proof {
        assert(indices_view(out@) + Seq::<int>::empty() =~= indices_view(out@));
    }
    out
}

/// All field names of a named field list, as [`spec_all_names`]
/// describes.
#[verifier::loop_isolation(false)]
fn all_field_names(fl: &Vec<FieldModel>) -> (r: Vec<String>)
    requires
        forall|i: int| 0 <= i < fl@.len() ==> (#[trigger] fl@[i])@.name is Some,
    ensures
        strings_view(r@) == spec_all_names(crate::input::fields_seq_view(fl@), 0),
{
    let ghost flv = crate::input::fields_seq_view(fl@);
    let mut out: Vec<String> = Vec::new();
    let n = fl.len();
    let mut k: usize = 0;
    proof {
        assert(strings_view(out@) =~= Seq::<Seq<char>>::empty());
        assert(Seq::<Seq<char>>::empty() + spec_all_names(flv, 0) =~= spec_all_names(flv, 0));
    }
    while k < n
        invariant
            k <= n,
            spec_all_names(flv, 0) == strings_view(out@) + spec_all_names(flv, k as int),
        decreases n - k,
    {
        proof {
            assert(flv[k as int] == fl@[k as int]@);
        }
        let nm: String = match &fl[k].name {
            Some(nm) => nm.clone(),
            None => unreached(),
        };
        let ghost pre = out@;
        out.push(nm);
        proof {
            assert(strings_view(out@) =~= strings_view(pre).push(flv[k as int].name->Some_0));
            assert(strings_view(out@) + spec_all_names(flv, k as int + 1) =~= strings_view(pre)
                + spec_all_names(flv, k as int));
        }
        k = k + 1;
    }
    proof {
        assert(strings_view(out@) + Seq::<Seq<char>>::empty() =~= strings_view(out@));
    }
    out
}

/// The debug arm of one variant, as [`spec_debug_arm`] describes.
fn debug_arm(v: &VariantModel) -> (r: DebugArm)
    requires
        crate::generate::spec_fields_wf(v@.fields),
    ensures
        r@ == spec_debug_arm(v@),
{
    match &v.fields {
        FieldsModel::Named(fl) => {
            proof {
                assert forall|i: int| 0 <= i < fl@.len() implies (#[trigger] fl@[i])@.name
                    is Some by {
                    assert(crate::input::fields_seq_view(fl@)[i] == fl@[i]@);
                }
            }
            let bound = all_field_names(fl);
            let shown = debug_named_fields(fl);
            DebugArm::NamedArm { variant: v.name.clone(), bound, shown }
        }
        FieldsModel::Unnamed(fl) => {
            let shown = debug_tuple_fields(fl);
            DebugArm::TupleArm { variant: v.name.clone(), arity: fl.len(), shown }
        }
        FieldsModel::Unit => DebugArm::UnitArm { variant: v.name.clone() },
    }
}

/// Generates the debug implementation for one definition: structures
/// and enums of all variant kinds are supported, skipped fields are
/// omitted entirely from the output; a union is rejected with a fixed
/// diagnostic.
#[verifier::loop_isolation(false)]
pub fn inner_custom_debug(input: &InputModel) -> (r: Result<DebugImplModel, String>)
    requires
        spec_input_wf(input@),
    ensures
        !(input@.data is UnionData) ==> (r matches Ok(m) && m@ == spec_custom_debug(input@)),
        input@.data is UnionData ==> (r matches Err(e) && e@ == spec_union_msg()),
{
    match &input.data {
        DataModel::StructData(fs) => {
            let body: DebugBody = match fs {
                FieldsModel::Named(fl) => {
                    proof {
                        assert(crate::generate::spec_fields_wf(input@.data->StructData_0));
                        assert forall|i: int| 0 <= i < fl@.len() implies (#[trigger] fl@[i])@.name
                            is Some by {
                            assert(crate::input::fields_seq_view(fl@)[i] == fl@[i]@);
                        }
                    }
                    DebugBody::StructBody(debug_named_fields(fl))
                }
                FieldsModel::Unnamed(fl) => DebugBody::TupleBody(debug_tuple_fields(fl)),
                FieldsModel::Unit => DebugBody::UnitBody,
            };
            let header = make_impl_header(input);
            Ok(DebugImplModel { header, body })
        }
        DataModel::EnumData(vs) => {
            let ghost vsv = crate::input::variants_view(vs@);
            let mut arms: Vec<DebugArm> = Vec::new();
            let n = vs.len();
            let mut k: usize = 0;
            proof {
                assert(debug_arms_view(arms@) =~= Seq::<DebugArmView>::empty());
                assert(Seq::<DebugArmView>::empty() + spec_debug_arms(vsv, 0) =~= spec_debug_arms(
                    vsv,
                    0,
                ));
            }
            while k < n
                invariant
                    k <= n,
                    spec_debug_arms(vsv, 0) == debug_arms_view(arms@) + spec_debug_arms(
                        vsv,
                        k as int,
                    ),
                decreases n - k,
            {
                proof {
                    assert(vsv[k as int] == vs@[k as int]@);
                }
                let a = debug_arm(&vs[k]);
                let ghost pre = arms@;
                arms.push(a);
                proof {
                    assert(debug_arms_view(arms@) =~= debug_arms_view(pre).push(
                        spec_debug_arm(vsv[k as int]),
                    ));
                    assert(debug_arms_view(arms@) + spec_debug_arms(vsv, k as int + 1)
                        =~= debug_arms_view(pre) + spec_debug_arms(vsv, k as int));
                }
                k = k + 1;
            }
            proof {
                assert(debug_arms_view(arms@) + Seq::<DebugArmView>::empty() =~= debug_arms_view(
                    arms@,
                ));
            }
            let header = make_impl_header(input);
            Ok(DebugImplModel { header, body: DebugBody::EnumBody(arms) })
        }
        DataModel::UnionData => Err(String::from_str("Debug derive is not supported for unions")),
    }
}

/// The display shim for one definition: it forwards to the debug
/// output, detailed or standard.
pub open spec fn spec_display_impl(m: InputView, detailed: bool) -> DisplayImplView {
    DisplayImplView { header: spec_impl_header(m), detailed }
}

/// Generates the display shim: the implementation forwards to the
/// type's debug output, in the detailed format when `is_format` is
/// set.
pub fn inner_display(input: &InputModel, is_format: bool) -> (r: DisplayImplModel)
    ensures
        r@ == spec_display_impl(input@, is_format),
{
    DisplayImplModel { header: make_impl_header(input), detailed: is_format }
}

/// Generates the display shim with the standard debug format.
pub fn inner_display_debug(input: &InputModel) -> (r: DisplayImplModel)
    ensures
        r@ == spec_display_impl(input@, false),
{
    inner_display(input, false)
}

/// Generates the display shim with the detailed debug format.
pub fn inner_display_debug_format(input: &InputModel) -> (r: DisplayImplModel)
    ensures
        r@ == spec_display_impl(input@, true),
{
    inner_display(input, true)
}

} // verus!
