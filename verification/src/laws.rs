//! The engine's general guarantees, stated and proved once over all
//! inputs: what an unannotated field gets, what `skip` suppresses, when
//! the panic-free companion accessor appears, what the `clone` and
//! `reference` strategies return, and that synthesis is a pure function
//! of its input.

use vstd::prelude::*;
use crate::cfg::{spec_cfg_default, CfgView};
use crate::debug::spec_custom_debug;
use crate::func::FuncType;
use crate::generate::{
    spec_accessor_suffix, spec_ctor, spec_engine_run, spec_engine_step, spec_field_ref,
    spec_generate_field, spec_getter_method, spec_getter_methods, spec_is_option, spec_is_result,
    spec_lombok_impl, spec_mut_getter_method, spec_setter_method, EngineSt,
};
use crate::input::{FieldView, InputView};
use crate::method::{
    FieldRefView, GetterBody, MethodView, RetShapeView, SetterBody, SetterParamView,
};
use crate::parse::spec_analyze;
use crate::shape::TypeShapeView;
use crate::strategy::ReturnStrategy;
use crate::visibility::Visibility;

verus! {

/// A field with no annotations, with getter, mutable getter and setter
/// all requested, gets exactly one of each, public, with the default
/// strategies: a borrowing getter and a directly assigning setter — or,
/// for an `Option` or `Result` field, the unwrapping getter with its
/// panic-free companion.
pub proof fn lemma_unannotated_field_defaults(f: FieldView, idx: Option<int>)
    requires
        f.attrs.len() == 0,
    ensures
        !(spec_is_option(f.ty) || spec_is_result(f.ty)) ==> spec_generate_field(
            f,
            idx,
            true,
            true,
            true,
        ) =~= seq![
            MethodView::Getter {
                name: "get_"@ + spec_accessor_suffix(f, idx),
                vis: Visibility::Public,
                ret: RetShapeView::RefTo(f.ty),
                body: GetterBody::BorrowField,
                field: spec_field_ref(f, idx),
            },
            MethodView::MutGetter {
                name: "get_mut_"@ + spec_accessor_suffix(f, idx),
                vis: Visibility::Public,
                ret: RetShapeView::MutRefTo(f.ty),
                field: spec_field_ref(f, idx),
            },
            MethodView::Setter {
                name: "set_"@ + spec_accessor_suffix(f, idx),
                vis: Visibility::Public,
                param: SetterParamView::Exact(f.ty),
                body: SetterBody::AssignDirect,
                field: spec_field_ref(f, idx),
            },
        ],
        (spec_is_option(f.ty) || spec_is_result(f.ty)) ==> spec_generate_field(
            f,
            idx,
            true,
            true,
            true,
        ) =~= seq![
            spec_getter_method(spec_cfg_default(), f.ty, spec_accessor_suffix(f, idx), spec_field_ref(f, idx)),
            MethodView::TryGetter {
                name: "try_get_"@ + spec_accessor_suffix(f, idx),
                vis: Visibility::Public,
                ret: RetShapeView::RefTo(f.ty),
                field: spec_field_ref(f, idx),
            },
            MethodView::MutGetter {
                name: "get_mut_"@ + spec_accessor_suffix(f, idx),
                vis: Visibility::Public,
                ret: RetShapeView::MutRefTo(f.ty),
                field: spec_field_ref(f, idx),
            },
            MethodView::Setter {
                name: "set_"@ + spec_accessor_suffix(f, idx),
                vis: Visibility::Public,
                param: SetterParamView::Exact(f.ty),
                body: SetterBody::AssignDirect,
                field: spec_field_ref(f, idx),
            },
        ],
{
    let ty = f.ty;
    let suffix = spec_accessor_suffix(f, idx);
    let fref = spec_field_ref(f, idx);
    let st0 = EngineSt { has_get: false, has_get_mut: false, has_set: false, out: Seq::empty() };
    assert(spec_engine_run(f.attrs, 0, st0, ty, suffix, fref, true, true, true) == st0);
    let d = spec_cfg_default();
    assert(Seq::<MethodView>::empty() + spec_getter_methods(d, ty, suffix, fref)
        =~= spec_getter_methods(d, ty, suffix, fref));
    assert(spec_mut_getter_method(d, ty, suffix, fref) == MethodView::MutGetter {
        name: "get_mut_"@ + suffix,
        vis: Visibility::Public,
        ret: RetShapeView::MutRefTo(ty),
        field: fref,
    });
    assert(spec_setter_method(d, ty, suffix, fref) == MethodView::Setter {
        name: "set_"@ + suffix,
        vis: Visibility::Public,
        param: SetterParamView::Exact(ty),
        body: SetterBody::AssignDirect,
        field: fref,
    });
}

/// A field whose single annotation configures the getter with `skip`
/// gets no getter and no companion accessor, even though getter
/// generation is requested; the mutable getter and the setter, where
/// requested, still fall back to their defaults.
pub proof fn lemma_get_skip_suppresses_getter(
    f: FieldView,
    idx: Option<int>,
    need_getter_mut: bool,
    need_setter: bool,
)
    requires
        f.attrs.len() == 1,
        spec_analyze(f.attrs[0]).func_type == FuncType::Getter,
        spec_analyze(f.attrs[0]).skip,
    ensures
        spec_generate_field(f, idx, true, need_getter_mut, need_setter) =~= (if need_getter_mut {
            seq![
                spec_mut_getter_method(
                    spec_cfg_default(),
                    f.ty,
                    spec_accessor_suffix(f, idx),
                    spec_field_ref(f, idx),
                ),
            ]
        } else {
            Seq::<MethodView>::empty()
        }) + (if need_setter {
            seq![
                spec_setter_method(
                    spec_cfg_default(),
                    f.ty,
                    spec_accessor_suffix(f, idx),
                    spec_field_ref(f, idx),
                ),
            ]
        } else {
            Seq::<MethodView>::empty()
        }),
        forall|j: int|
            0 <= j < spec_generate_field(f, idx, true, need_getter_mut, need_setter).len() ==> !(
            #[trigger] spec_generate_field(f, idx, true, need_getter_mut, need_setter)[j]
                is Getter) && !(spec_generate_field(f, idx, true, need_getter_mut, need_setter)[j]
                is TryGetter),
{
    let ty = f.ty;
    let suffix = spec_accessor_suffix(f, idx);
    let fref = spec_field_ref(f, idx);
    let st0 = EngineSt { has_get: false, has_get_mut: false, has_set: false, out: Seq::empty() };
    let c = spec_analyze(f.attrs[0]);
    let st1 = spec_engine_step(st0, c, ty, suffix, fref, true, need_getter_mut, need_setter);
    assert(spec_engine_run(f.attrs, 0, st0, ty, suffix, fref, true, need_getter_mut, need_setter)
        == spec_engine_run(f.attrs, 1, st1, ty, suffix, fref, true, need_getter_mut, need_setter));
    assert(spec_engine_run(f.attrs, 1, st1, ty, suffix, fref, true, need_getter_mut, need_setter)
        == st1);
    assert(st1.has_get && !st1.has_get_mut && !st1.has_set && st1.out =~= Seq::<
        MethodView,
    >::empty());
}

/// Whatever return strategy a getter-claiming configuration carries,
/// over an `Option` or `Result` field it emits exactly the primary
/// getter and the panic-free companion, which borrows the raw
/// container under the `try_get_` name with the same access level.
pub proof fn lemma_try_companion_always(
    c: CfgView,
    ty: TypeShapeView,
    suffix: Seq<char>,
    fref: FieldRefView,
)
    requires
        spec_is_option(ty) || spec_is_result(ty),
    ensures
        spec_getter_methods(c, ty, suffix, fref).len() == 2,
        spec_getter_methods(c, ty, suffix, fref)[0] == spec_getter_method(c, ty, suffix, fref),
        spec_getter_methods(c, ty, suffix, fref)[1] == (MethodView::TryGetter {
            name: "try_get_"@ + suffix,
            vis: c.visibility,
            ret: RetShapeView::RefTo(ty),
            field: fref,
        }),
{
}

/// A getter configured with the `clone` strategy returns the field's
/// own type by value — not a reference to it — by cloning the field.
pub proof fn lemma_clone_getter_owns_its_result(
    c: CfgView,
    ty: TypeShapeView,
    suffix: Seq<char>,
    fref: FieldRefView,
)
    requires
        c.return_strategy == ReturnStrategy::ByClone,
    ensures
        spec_getter_method(c, ty, suffix, fref) == (MethodView::Getter {
            name: "get_"@ + suffix,
            vis: c.visibility,
            ret: RetShapeView::Owned(ty),
            body: GetterBody::CloneField,
            field: fref,
        }),
{
}

/// A getter configured with the `reference` strategy borrows the field
/// itself: its result is a reference to the field's storage.
pub proof fn lemma_reference_getter_borrows_field(
    c: CfgView,
    ty: TypeShapeView,
    suffix: Seq<char>,
    fref: FieldRefView,
)
    requires
        c.return_strategy == ReturnStrategy::ByRef,
    ensures
        spec_getter_method(c, ty, suffix, fref) == (MethodView::Getter {
            name: "get_"@ + suffix,
            vis: c.visibility,
            ret: RetShapeView::RefTo(ty),
            body: GetterBody::BorrowField,
            field: fref,
        }),
{
}

/// The first configuration per method family wins: once a family is
/// claimed, a later configuration of the same family emits nothing and
/// changes nothing but the claim it repeats — its skip flag and access
/// level do not override the first.
pub proof fn lemma_first_claim_wins(
    st: EngineSt,
    c: CfgView,
    ty: TypeShapeView,
    suffix: Seq<char>,
    fref: FieldRefView,
    need_getter: bool,
    need_getter_mut: bool,
    need_setter: bool,
)
    ensures
        c.func_type == FuncType::Getter && st.has_get ==> spec_engine_step(
            st,
            c,
            ty,
            suffix,
            fref,
            need_getter,
            need_getter_mut,
            need_setter,
        ) == st,
        c.func_type == FuncType::MutableGetter && st.has_get_mut ==> spec_engine_step(
            st,
            c,
            ty,
            suffix,
            fref,
            need_getter,
            need_getter_mut,
            need_setter,
        ) == st,
        c.func_type == FuncType::Setter && st.has_set ==> spec_engine_step(
            st,
            c,
            ty,
            suffix,
            fref,
            need_getter,
            need_getter_mut,
            need_setter,
        ) == st,
{
}

/// Synthesis is a pure function of the input: two definitions that are
/// equal, token for token, synthesize equal accessor blocks, equal
/// constructors and equal debug implementations — running the engine
/// twice on the same input changes nothing.
pub proof fn lemma_synthesis_deterministic(
    a: InputView,
    b: InputView,
    need_getter: bool,
    need_getter_mut: bool,
    need_setter: bool,
)
    requires
        a == b,
    ensures
        spec_lombok_impl(a, need_getter, need_getter_mut, need_setter) == spec_lombok_impl(
            b,
            need_getter,
            need_getter_mut,
            need_setter,
        ),
        spec_ctor(a) == spec_ctor(b),
        spec_custom_debug(a) == spec_custom_debug(b),
{
}

/// The per-field engine is likewise a pure function of the field and
/// the request flags.
pub proof fn lemma_field_engine_deterministic(
    f: FieldView,
    g: FieldView,
    idx: Option<int>,
    need_getter: bool,
    need_getter_mut: bool,
    need_setter: bool,
)
    requires
        f == g,
    ensures
        spec_generate_field(f, idx, need_getter, need_getter_mut, need_setter)
            == spec_generate_field(g, idx, need_getter, need_getter_mut, need_setter),
{
}

} // verus!
