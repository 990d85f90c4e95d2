//! The method synthesis engine: for one field, it parses every attached
//! annotation, lets the first configuration per method family win,
//! applies defaults for families no annotation claimed, and emits the
//! methods.

use vstd::prelude::*;
use crate::cfg::{spec_cfg_default, Cfg, CfgView};
use crate::func::FuncType;
use crate::input::{
    DataModel, DataView, FieldModel, FieldView, FieldsModel, FieldsView, GenericParamModel,
    GenericParamView, InputModel, InputView,
};
use crate::method::{
    ctor_inits_view, ctor_params_view, methods_view, type_params_view, CtorInit,
    CtorInitView, CtorModel, CtorParam, CtorParamView, CtorView, FieldRef, FieldRefView,
    GetterBody, ImplHeader, ImplHeaderView, ImplModel, ImplView, Method, MethodView, RetShape,
    RetShapeView, SetterBody, SetterParam, SetterParamView, TypeParamModel, TypeParamView,
};
use crate::parse::{analyze_attributes, spec_analyze};
use crate::shape::{
    copy_type_shape, is_container_of, lemma_shapes_view_index, lemma_shapes_view_len, render_type,
    spec_is_container_of, spec_type_text, ContainerKind, TypeShape, TypeShapeView,
};
use crate::shape::strings_view;
use crate::strategy::{ParamStrategy, ReturnStrategy};
use crate::text::{dec_string, has_prefix, spec_clean_name_text, spec_dec_digits};
use crate::token::TokenView;
use vstd::pervasive::unreached;

verus! {

/// Strips the raw-identifier prefix `r#` from a field name, if present.
pub fn get_clean_attr_name(attr_str: &str) -> (r: String)
    ensures
        r@ == spec_clean_name_text(attr_str@),
{
    if has_prefix(attr_str, "r#") {
        proof {
            reveal_strlit("r#");
        }
        let n = attr_str.unicode_len();
        let stripped = attr_str.substring_char(2, n);
        proof {
            assert(stripped@ =~= spec_clean_name_text(attr_str@));
        }
        stripped.to_owned()
    } else {
        proof {
            reveal_strlit("r#");
        }
        attr_str.to_owned()
    }
}

/// Whether a type is syntactically an `Option`.
pub open spec fn spec_is_option(t: TypeShapeView) -> bool {
    spec_is_container_of(ContainerKind::OptionTag, t)
}

/// Whether a type is syntactically a `Result`.
pub open spec fn spec_is_result(t: TypeShapeView) -> bool {
    spec_is_container_of(ContainerKind::ResultTag, t)
}

/// The first generic argument of a type, or the type itself when it has
/// none.
pub open spec fn spec_first_arg_or_self(t: TypeShapeView) -> TypeShapeView {
    match t {
        TypeShapeView::Path { segments: _, args } => if args.len() >= 1 {
            args[0]
        } else {
            t
        },
        TypeShapeView::Verbatim(_) => t,
    }
}

/// The first generic argument of a type, or the type itself, as
/// [`spec_first_arg_or_self`] describes.
pub fn first_arg_or_self<'a>(t: &'a TypeShape) -> (r: &'a TypeShape)
    ensures
        r@ == spec_first_arg_or_self(t@),
{
    match t {
        TypeShape::Path { segments: _, args } => {
            proof {
                lemma_shapes_view_len(args@);
                if args@.len() >= 1 {
                    lemma_shapes_view_index(args@, 0);
                }
            }
            if args.len() >= 1 {
                &args[0]
            } else {
                t
            }
        }
        TypeShape::Verbatim(_) => t,
    }
}

/// The view of an optional positional index.
pub open spec fn spec_opt_index(oi: Option<usize>) -> Option<int> {
    match oi {
        Some(i) => Some(i as int),
        None => None,
    }
}

/// The name part shared by a field's accessors: the cleaned field name,
/// or the decimal index of a positional field.
pub open spec fn spec_accessor_suffix(f: FieldView, idx: Option<int>) -> Seq<char> {
    match idx {
        Some(i) => spec_dec_digits(i as nat),
        None => spec_clean_name_text(f.name->Some_0),
    }
}

/// How the emitted methods refer to the field.
pub open spec fn spec_field_ref(f: FieldView, idx: Option<int>) -> FieldRefView {
    match idx {
        Some(i) => FieldRefView::IndexField(i),
        None => FieldRefView::NamedField(f.name->Some_0),
    }
}

/// The primary getter a configuration emits: its name is `get_` and the
/// field's suffix; its return shape and body follow the configured
/// return strategy and the field's type.
pub open spec fn spec_getter_method(
    c: CfgView,
    ty: TypeShapeView,
    suffix: Seq<char>,
    fref: FieldRefView,
) -> MethodView {
    let name = "get_"@ + suffix;
    if c.return_strategy == ReturnStrategy::ByRef {
        MethodView::Getter {
            name,
            vis: c.visibility,
            ret: RetShapeView::RefTo(ty),
            body: GetterBody::BorrowField,
            field: fref,
        }
    } else if c.return_strategy == ReturnStrategy::ByClone {
        MethodView::Getter {
            name,
            vis: c.visibility,
            ret: RetShapeView::Owned(ty),
            body: GetterBody::CloneField,
            field: fref,
        }
    } else if c.return_strategy == ReturnStrategy::ByCopy {
        MethodView::Getter {
            name,
            vis: c.visibility,
            ret: RetShapeView::Owned(ty),
            body: GetterBody::CopyField,
            field: fref,
        }
    } else if c.return_strategy == ReturnStrategy::ByDeref {
        if spec_is_option(ty) {
            MethodView::Getter {
                name,
                vis: c.visibility,
                ret: RetShapeView::Owned(spec_first_arg_or_self(ty)),
                body: GetterBody::MatchOptionOrPanic,
                field: fref,
            }
        } else if spec_is_result(ty) {
            MethodView::Getter {
                name,
                vis: c.visibility,
                ret: RetShapeView::Owned(spec_first_arg_or_self(ty)),
                body: GetterBody::MatchResultOrPanic,
                field: fref,
            }
        } else if spec_is_container_of(ContainerKind::BoxTag, ty) {
            MethodView::Getter {
                name,
                vis: c.visibility,
                ret: RetShapeView::Owned(spec_first_arg_or_self(ty)),
                body: GetterBody::DerefMoveField,
                field: fref,
            }
        } else if spec_is_container_of(ContainerKind::RcTag, ty) || spec_is_container_of(
            ContainerKind::ArcTag,
            ty,
        ) {
            MethodView::Getter {
                name,
                vis: c.visibility,
                ret: RetShapeView::Owned(spec_first_arg_or_self(ty)),
                body: GetterBody::CloneReferent,
                field: fref,
            }
        } else {
            MethodView::Getter {
                name,
                vis: c.visibility,
                ret: RetShapeView::Owned(spec_first_arg_or_self(ty)),
                body: GetterBody::DerefField,
                field: fref,
            }
        }
    } else {
        if spec_is_option(ty) || spec_is_result(ty) {
            MethodView::Getter {
                name,
                vis: c.visibility,
                ret: RetShapeView::Owned(spec_first_arg_or_self(ty)),
                body: GetterBody::CloneUnwrapField,
                field: fref,
            }
        } else {
            MethodView::Getter {
                name,
                vis: c.visibility,
                ret: RetShapeView::RefTo(ty),
                body: GetterBody::BorrowField,
                field: fref,
            }
        }
    }
}

/// Everything a getter-claiming configuration emits: the primary
/// getter, and — whenever the field is an `Option` or a `Result`,
/// whatever the strategy — the panic-free `try_get_` companion that
/// borrows the raw container.
pub open spec fn spec_getter_methods(
    c: CfgView,
    ty: TypeShapeView,
    suffix: Seq<char>,
    fref: FieldRefView,
) -> Seq<MethodView> {
    if spec_is_option(ty) || spec_is_result(ty) {
        seq![
            spec_getter_method(c, ty, suffix, fref),
            MethodView::TryGetter {
                name: "try_get_"@ + suffix,
                vis: c.visibility,
                ret: RetShapeView::RefTo(ty),
                field: fref,
            },
        ]
    } else {
        seq![spec_getter_method(c, ty, suffix, fref)]
    }
}

/// The mutable getter a configuration emits: `&mut` access to the
/// field, with no strategy variation.
pub open spec fn spec_mut_getter_method(
    c: CfgView,
    ty: TypeShapeView,
    suffix: Seq<char>,
    fref: FieldRefView,
) -> MethodView {
    MethodView::MutGetter {
        name: "get_mut_"@ + suffix,
        vis: c.visibility,
        ret: RetShapeView::MutRefTo(ty),
        field: fref,
    }
}

/// The element type an `impl AsRef<..>` setter converts from: `str` for
/// a `String` field, a slice of the element type for a `Vec` field, and
/// the field's own type otherwise.
pub open spec fn spec_asref_target(ty: TypeShapeView) -> Seq<char> {
    if spec_is_container_of(ContainerKind::StringTag, ty) {
        "str"@
    } else if spec_is_container_of(ContainerKind::VecTag, ty) {
        match ty {
            TypeShapeView::Path { segments: _, args } => if args.len() >= 1 {
                "["@ + spec_type_text(args[0]) + "]"@
            } else {
                spec_type_text(ty)
            },
            TypeShapeView::Verbatim(_) => spec_type_text(ty),
        }
    } else {
        spec_type_text(ty)
    }
}

/// The setter a configuration emits: its parameter and assignment
/// follow the configured parameter strategy; every setter returns
/// `&mut Self`.
pub open spec fn spec_setter_method(
    c: CfgView,
    ty: TypeShapeView,
    suffix: Seq<char>,
    fref: FieldRefView,
) -> MethodView {
    let name = "set_"@ + suffix;
    if c.param_strategy == ParamStrategy::Direct {
        MethodView::Setter {
            name,
            vis: c.visibility,
            param: SetterParamView::Exact(ty),
            body: SetterBody::AssignDirect,
            field: fref,
        }
    } else if c.param_strategy == ParamStrategy::ViaAsRef {
        MethodView::Setter {
            name,
            vis: c.visibility,
            param: SetterParamView::ImplBound("AsRef<"@ + spec_asref_target(ty) + ">"@),
            body: SetterBody::AssignAsRefOwned,
            field: fref,
        }
    } else {
        MethodView::Setter {
            name,
            vis: c.visibility,
            param: SetterParamView::ImplBound(
                match c.param_override {
                    Some(t) => t,
                    None => "Into<"@ + spec_type_text(ty) + ">"@,
                },
            ),
            body: SetterBody::AssignInto,
            field: fref,
        }
    }
}

/// The engine's bookkeeping over one field: which method families an
/// annotation has claimed, and what has been emitted so far.
pub struct EngineSt {
    pub has_get: bool,
    pub has_get_mut: bool,
    pub has_set: bool,
    pub out: Seq<MethodView>,
}

/// One engine step: the configuration of one annotation claims its
/// method family (the first claim wins); it emits the family's methods
/// only when it is the first claim, is not skipped, and the family is
/// requested.  A configuration that says `skip` without naming a family
/// is inert.
pub open spec fn spec_engine_step(
    st: EngineSt,
    c: CfgView,
    ty: TypeShapeView,
    suffix: Seq<char>,
    fref: FieldRefView,
    need_getter: bool,
    need_getter_mut: bool,
    need_setter: bool,
) -> EngineSt {
    if c.skip && c.func_type == FuncType::Unknown {
        st
    } else if c.func_type == FuncType::Getter {
        EngineSt {
            has_get: true,
            out: if !c.skip && !st.has_get && need_getter {
                st.out + spec_getter_methods(c, ty, suffix, fref)
            } else {
                st.out
            },
            ..st
        }
    } else if c.func_type == FuncType::MutableGetter {
        EngineSt {
            has_get_mut: true,
            out: if !c.skip && !st.has_get_mut && need_getter_mut {
                st.out.push(spec_mut_getter_method(c, ty, suffix, fref))
            } else {
                st.out
            },
            ..st
        }
    } else if c.func_type == FuncType::Setter {
        EngineSt {
            has_set: true,
            out: if !c.skip && !st.has_set && need_setter {
                st.out.push(spec_setter_method(c, ty, suffix, fref))
            } else {
                st.out
            },
            ..st
        }
    } else {
        st
    }
}

/// The engine's pass over a field's annotations from position `k` on:
/// each annotation is parsed and stepped through [`spec_engine_step`]
/// in source order.
pub open spec fn spec_engine_run(
    ats: Seq<Seq<TokenView>>,
    k: int,
    st: EngineSt,
    ty: TypeShapeView,
    suffix: Seq<char>,
    fref: FieldRefView,
    need_getter: bool,
    need_getter_mut: bool,
    need_setter: bool,
) -> EngineSt
    decreases ats.len() - k,
{
    if k < 0 || k >= ats.len() {
        st
    } else {
        spec_engine_run(
            ats,
            k + 1,
            spec_engine_step(
                st,
                spec_analyze(ats[k]),
                ty,
                suffix,
                fref,
                need_getter,
                need_getter_mut,
                need_setter,
            ),
            ty,
            suffix,
            fref,
            need_getter,
            need_getter_mut,
            need_setter,
        )
    }
}

/// Everything the engine emits for one field: the claims of its
/// annotations in order, then a default getter, mutable getter and
/// setter — public, with inferred strategies — for each requested
/// family no annotation claimed.
pub open spec fn spec_generate_field(
    f: FieldView,
    idx: Option<int>,
    need_getter: bool,
    need_getter_mut: bool,
    need_setter: bool,
) -> Seq<MethodView> {
    let ty = f.ty;
    let suffix = spec_accessor_suffix(f, idx);
    let fref = spec_field_ref(f, idx);
    let st0 = EngineSt { has_get: false, has_get_mut: false, has_set: false, out: Seq::empty() };
    let st = spec_engine_run(
        f.attrs,
        0,
        st0,
        ty,
        suffix,
        fref,
        need_getter,
        need_getter_mut,
        need_setter,
    );
    let d = spec_cfg_default();
    let out1 = if !st.has_get && need_getter {
        st.out + spec_getter_methods(d, ty, suffix, fref)
    } else {
        st.out
    };
    let out2 = if !st.has_get_mut && need_getter_mut {
        out1.push(spec_mut_getter_method(d, ty, suffix, fref))
    } else {
        out1
    };
    if !st.has_set && need_setter {
        out2.push(spec_setter_method(d, ty, suffix, fref))
    } else {
        out2
    }
}

/// How the emitted methods refer to the field, as [`spec_field_ref`]
/// describes.
fn make_field_ref(field: &FieldModel, field_index: Option<usize>) -> (r: FieldRef)
    requires
        field_index is None ==> field.name is Some,
    ensures
        r@ == spec_field_ref(field@, spec_opt_index(field_index)),
{
    match field_index {
        Some(i) => FieldRef::IndexField(i),
        None => match &field.name {
            Some(n) => FieldRef::NamedField(n.clone()),
            None => unreached(),
        },
    }
}

/// Emits the getter (and, for `Option` and `Result` fields, the
/// `try_get_` companion) that the configuration asks for.
fn emit_getter(c: &Cfg, field: &FieldModel, field_index: Option<usize>, suffix: &String, out: &mut Vec<Method>)
    requires
        field_index is None ==> field.name is Some,
    ensures
        methods_view(final(out)@) == methods_view(old(out)@) + spec_getter_methods(
            c@,
            field@.ty,
            suffix@,
            spec_field_ref(field@, spec_opt_index(field_index)),
        ),
{
    let ghost ty = field@.ty;
    let ghost fref = spec_field_ref(field@, spec_opt_index(field_index));
    let mut name = String::from_str("get_");
    name.append(suffix.as_str());
    let vis = field_vis(c);
    let is_opt = is_container_of(ContainerKind::OptionTag, &field.ty);
    let is_res = is_container_of(ContainerKind::ResultTag, &field.ty);
    let primary: Method = match c.return_strategy {
        ReturnStrategy::ByRef => Method::Getter {
            name,
            vis,
            ret: RetShape::RefTo(copy_type_shape(&field.ty)),
            body: GetterBody::BorrowField,
            field: make_field_ref(field, field_index),
        },
        ReturnStrategy::ByClone => Method::Getter {
            name,
            vis,
            ret: RetShape::Owned(copy_type_shape(&field.ty)),
            body: GetterBody::CloneField,
            field: make_field_ref(field, field_index),
        },
        ReturnStrategy::ByCopy => Method::Getter {
            name,
            vis,
            ret: RetShape::Owned(copy_type_shape(&field.ty)),
            body: GetterBody::CopyField,
            field: make_field_ref(field, field_index),
        },
        ReturnStrategy::ByDeref => {
            let inner = copy_type_shape(first_arg_or_self(&field.ty));
            let body = if is_opt {
                GetterBody::MatchOptionOrPanic
            } else if is_res {
                GetterBody::MatchResultOrPanic
            } else if is_container_of(ContainerKind::BoxTag, &field.ty) {
                GetterBody::DerefMoveField
            } else if is_container_of(ContainerKind::RcTag, &field.ty) || is_container_of(
                ContainerKind::ArcTag,
                &field.ty,
            ) {
                GetterBody::CloneReferent
            } else {
                GetterBody::DerefField
            };
            Method::Getter {
                name,
                vis,
                ret: RetShape::Owned(inner),
                body,
                field: make_field_ref(field, field_index),
            }
        }
        ReturnStrategy::Inferred => {
            if is_opt || is_res {
                Method::Getter {
                    name,
                    vis,
                    ret: RetShape::Owned(copy_type_shape(first_arg_or_self(&field.ty))),
                    body: GetterBody::CloneUnwrapField,
                    field: make_field_ref(field, field_index),
                }
            } else {
                Method::Getter {
                    name,
                    vis,
                    ret: RetShape::RefTo(copy_type_shape(&field.ty)),
                    body: GetterBody::BorrowField,
                    field: make_field_ref(field, field_index),
                }
            }
        }
    };
    let ghost before = out@;
    out.push(primary);
    proof {
        assert(methods_view(out@) =~= methods_view(before).push(
            spec_getter_method(c@, ty, suffix@, fref),
        ));
    }
    if is_opt || is_res {
        let mut tname = String::from_str("try_get_");
        tname.append(suffix.as_str());
        let companion = Method::TryGetter {
            name: tname,
            vis: field_vis(c),
            ret: RetShape::RefTo(copy_type_shape(&field.ty)),
            field: make_field_ref(field, field_index),
        };
        let ghost mid = out@;
        out.push(companion);
        proof {
            assert(methods_view(out@) =~= methods_view(mid).push(
                MethodView::TryGetter {
                    name: "try_get_"@ + suffix@,
                    vis: c@.visibility,
                    ret: RetShapeView::RefTo(ty),
                    field: fref,
                },
            ));
            assert(methods_view(out@) =~= methods_view(old(out)@) + spec_getter_methods(
                c@,
                ty,
                suffix@,
                fref,
            ));
        }
    } else {
        proof {
            assert(methods_view(out@) =~= methods_view(old(out)@) + spec_getter_methods(
                c@,
                ty,
                suffix@,
                fref,
            ));
        }
    }
}

/// The configured access level, copied out of the configuration.
fn field_vis(c: &Cfg) -> (r: crate::visibility::Visibility)
    ensures
        r == c@.visibility,
{
    c.visibility
}

/// Emits the mutable getter that the configuration asks for.
fn emit_mut_getter(
    c: &Cfg,
    field: &FieldModel,
    field_index: Option<usize>,
    suffix: &String,
    out: &mut Vec<Method>,
)
    requires
        field_index is None ==> field.name is Some,
    ensures
        methods_view(final(out)@) == methods_view(old(out)@).push(
            spec_mut_getter_method(
                c@,
                field@.ty,
                suffix@,
                spec_field_ref(field@, spec_opt_index(field_index)),
            ),
        ),
{
    let mut name = String::from_str("get_mut_");
    name.append(suffix.as_str());
    let m = Method::MutGetter {
        name,
        vis: field_vis(c),
        ret: RetShape::MutRefTo(copy_type_shape(&field.ty)),
        field: make_field_ref(field, field_index),
    };
    let ghost before = out@;
    out.push(m);
    proof {
        assert(methods_view(out@) =~= methods_view(before).push(
            spec_mut_getter_method(
                c@,
                field@.ty,
                suffix@,
                spec_field_ref(field@, spec_opt_index(field_index)),
            ),
        ));
    }
}

/// Emits the setter that the configuration asks for.
fn emit_setter(
    c: &Cfg,
    field: &FieldModel,
    field_index: Option<usize>,
    suffix: &String,
    out: &mut Vec<Method>,
)
    requires
        field_index is None ==> field.name is Some,
    ensures
        methods_view(final(out)@) == methods_view(old(out)@).push(
            spec_setter_method(
                c@,
                field@.ty,
                suffix@,
                spec_field_ref(field@, spec_opt_index(field_index)),
            ),
        ),
{
    let mut name = String::from_str("set_");
    name.append(suffix.as_str());
    let m: Method = match c.param_strategy {
        ParamStrategy::Direct => Method::Setter {
            name,
            vis: field_vis(c),
            param: SetterParam::Exact(copy_type_shape(&field.ty)),
            body: SetterBody::AssignDirect,
            field: make_field_ref(field, field_index),
        },
        ParamStrategy::ViaAsRef => {
            let mut bound = String::from_str("AsRef<");
            let target: String = if is_container_of(ContainerKind::StringTag, &field.ty) {
                String::from_str("str")
            } else if is_container_of(ContainerKind::VecTag, &field.ty) {
                match &field.ty {
                    TypeShape::Path { segments: _, args } => {
                        proof {
                            lemma_shapes_view_len(args@);
                            if args@.len() >= 1 {
                                lemma_shapes_view_index(args@, 0);
                            }
                        }
                        if args.len() >= 1 {
                            let mut t = String::from_str("[");
                            t.append(render_type(&args[0]).as_str());
                            t.append("]");
                            t
                        } else {
                            render_type(&field.ty)
                        }
                    }
                    TypeShape::Verbatim(_) => render_type(&field.ty),
                }
            } else {
                render_type(&field.ty)
            };
            bound.append(target.as_str());
            bound.append(">");
            proof {
                assert(bound@ == "AsRef<"@ + spec_asref_target(field@.ty) + ">"@);
            }
            Method::Setter {
                name,
                vis: field_vis(c),
                param: SetterParam::ImplBound(bound),
                body: SetterBody::AssignAsRefOwned,
                field: make_field_ref(field, field_index),
            }
        }
        _ => {
            let bound: String = match &c.param_override {
                Some(t) => t.clone(),
                None => {
                    let mut b = String::from_str("Into<");
                    b.append(render_type(&field.ty).as_str());
                    b.append(">");
                    b
                }
            };
            Method::Setter {
                name,
                vis: field_vis(c),
                param: SetterParam::ImplBound(bound),
                body: SetterBody::AssignInto,
                field: make_field_ref(field, field_index),
            }
        }
    };
    let ghost before = out@;
    out.push(m);
    proof {
        assert(methods_view(out@) =~= methods_view(before).push(
            spec_setter_method(
                c@,
                field@.ty,
                suffix@,
                spec_field_ref(field@, spec_opt_index(field_index)),
            ),
        ));
    }
}

/// Generates the accessor methods of one field: every attached
/// annotation is parsed, the first configuration per method family
/// wins, `skip` suppresses its family absolutely, and each requested
/// family no annotation claimed falls back to a public default, as
/// [`spec_generate_field`] describes.
#[verifier::loop_isolation(false)]
pub fn generate_getter_setter(
    field: &FieldModel,
    field_index: Option<usize>,
    need_getter: bool,
    need_getter_mut: bool,
    need_setter: bool,
) -> (r: Vec<Method>)
    requires
        field_index is None ==> field.name is Some,
    ensures
        methods_view(r@) == spec_generate_field(
            field@,
            spec_opt_index(field_index),
            need_getter,
            need_getter_mut,
            need_setter,
        ),
{
    let suffix: String = match field_index {
        Some(i) => dec_string(i),
        None => match &field.name {
            Some(n) => get_clean_attr_name(n.as_str()),
            None => unreached(),
        },
    };
    let ghost ty = field@.ty;
    let ghost fref = spec_field_ref(field@, spec_opt_index(field_index));
    let ghost av = field@.attrs;
    let ghost st0 = EngineSt { has_get: false, has_get_mut: false, has_set: false, out: Seq::empty() };
    proof {
        assert(suffix@ == spec_accessor_suffix(field@, spec_opt_index(field_index)));
    }
    let mut out: Vec<Method> = Vec::new();
    let mut has_g = false;
    let mut has_gm = false;
    let mut has_s = false;
    proof {
        assert(methods_view(out@) =~= Seq::<MethodView>::empty());
    }
    let n = field.attrs.len();
    let mut k: usize = 0;
    while k < n
        invariant
            k <= n,
            spec_engine_run(av, 0, st0, ty, suffix@, fref, need_getter, need_getter_mut, need_setter)
                == spec_engine_run(
                av,
                k as int,
                EngineSt { has_get: has_g, has_get_mut: has_gm, has_set: has_s, out: methods_view(out@) },
                ty,
                suffix@,
                fref,
                need_getter,
                need_getter_mut,
                need_setter,
            ),
        decreases n - k,
    {
        let ghost st_pre = EngineSt {
            has_get: has_g,
            has_get_mut: has_gm,
            has_set: has_s,
            out: methods_view(out@),
        };
        let cfg = analyze_attributes(&field.attrs[k]);
        proof {
            assert(av[k as int] == field.attrs@[k as int]@);
        }
        if cfg.skip && cfg.func_type.is_unknown() {
        } else if cfg.func_type.is_get() {
            if !cfg.skip && !has_g && need_getter {
                emit_getter(&cfg, field, field_index, &suffix, &mut out);
            }
            has_g = true;
        } else if cfg.func_type.is_get_mut() {
            if !cfg.skip && !has_gm && need_getter_mut {
                emit_mut_getter(&cfg, field, field_index, &suffix, &mut out);
            }
            has_gm = true;
        } else if cfg.func_type.is_set() {
            if !cfg.skip && !has_s && need_setter {
                emit_setter(&cfg, field, field_index, &suffix, &mut out);
            }
            has_s = true;
        }
        proof {
            let st_post = EngineSt {
                has_get: has_g,
                has_get_mut: has_gm,
                has_set: has_s,
                out: methods_view(out@),
            };
            assert(st_post == spec_engine_step(
                st_pre,
                cfg@,
                ty,
                suffix@,
                fref,
                need_getter,
                need_getter_mut,
                need_setter,
            ));
        }
        k = k + 1;
    }
    let d = Cfg::default();
    if !has_g && need_getter {
        emit_getter(&d, field, field_index, &suffix, &mut out);
    }
    if !has_gm && need_getter_mut {
        emit_mut_getter(&d, field, field_index, &suffix, &mut out);
    }
    if !has_s && need_setter {
        emit_setter(&d, field, field_index, &suffix, &mut out);
    }
    out
}

/// The lifetime parameters among a definition's generic parameters, in
/// order.
pub open spec fn spec_lifetimes(gs: Seq<GenericParamView>) -> Seq<Seq<char>>
    decreases gs,
{
    if gs.len() == 0 {
        Seq::<Seq<char>>::empty()
    } else {
        let rest = spec_lifetimes(gs.drop_last());
        match gs.last() {
            GenericParamView::LifetimeParam(s) => rest.push(s),
            _ => rest,
        }
    }
}

/// The type parameters among a definition's generic parameters, in
/// order, with their bounds.
pub open spec fn spec_type_params(gs: Seq<GenericParamView>) -> Seq<TypeParamView>
    decreases gs,
{
    if gs.len() == 0 {
        Seq::<TypeParamView>::empty()
    } else {
        let rest = spec_type_params(gs.drop_last());
        match gs.last() {
            GenericParamView::TypeParamDecl { name, bounds } => rest.push(
                TypeParamView { name, bounds },
            ),
            _ => rest,
        }
    }
}

/// The generic context an emitted block carries over from the input:
/// its name, its lifetime and type parameters split out of the generic
/// parameter list, and its `where` clause, all unchanged.
pub open spec fn spec_impl_header(m: InputView) -> ImplHeaderView {
    ImplHeaderView {
        target_name: m.name,
        lifetimes: spec_lifetimes(m.generics),
        type_params: spec_type_params(m.generics),
        where_clause: m.where_clause,
    }
}

/// Splits the definition's generic parameters and carries them into an
/// impl header, as [`spec_impl_header`] describes.
#[verifier::loop_isolation(false)]
pub fn make_impl_header(input: &InputModel) -> (r: ImplHeader)
    ensures
        r@ == spec_impl_header(input@),
{
    let ghost gv = crate::input::generics_view(input.generics@);
    let mut lts: Vec<String> = Vec::new();
    let mut tps: Vec<TypeParamModel> = Vec::new();
    let n = input.generics.len();
    let mut i: usize = 0;
    proof {
        assert(gv.take(0) =~= Seq::<GenericParamView>::empty());
        assert(strings_view(lts@) =~= spec_lifetimes(gv.take(0)));
        assert(type_params_view(tps@) =~= spec_type_params(gv.take(0)));
    }
    while i < n
        invariant
            i <= n,
            strings_view(lts@) == spec_lifetimes(gv.take(i as int)),
            type_params_view(tps@) == spec_type_params(gv.take(i as int)),
        decreases n - i,
    {
        proof {
            assert(gv.take(i as int + 1).drop_last() =~= gv.take(i as int));
            assert(gv.take(i as int + 1).last() == gv[i as int]);
        }
        match &input.generics[i] {
            GenericParamModel::LifetimeParam(s) => {
                let ghost pre = lts@;
                lts.push(s.clone());
                proof {
                    assert(strings_view(lts@) =~= strings_view(pre).push(s@));
                }
            }
            GenericParamModel::TypeParamDecl { name, bounds } => {
                let b: Option<String> = match bounds {
                    Some(t) => Some(t.clone()),
                    None => None,
                };
                let ghost pre = tps@;
                let tp = TypeParamModel { name: name.clone(), bounds: b };
                tps.push(tp);
                proof {
                    assert(type_params_view(tps@) =~= type_params_view(pre).push(
                        TypeParamView { name: name@, bounds: match bounds {
                            Some(t) => Some(t@),
                            None => None,
                        } },
                    ));
                }
            }
        }
        i = i + 1;
    }
    proof {
        assert(gv.take(n as int) =~= gv);
    }
    let wc: Option<String> = match &input.where_clause {
        Some(w) => Some(w.clone()),
        None => None,
    };
    ImplHeader {
        target_name: input.name.clone(),
        lifetimes: lts,
        type_params: tps,
        where_clause: wc,
    }
}

/// Whether every named field carries a name — what the engine needs of
/// a field list before it can derive accessor names from it.
pub open spec fn spec_fields_wf(fs: FieldsView) -> bool {
    match fs {
        FieldsView::Named(fl) => forall|i: int| 0 <= i < fl.len() ==> fl[i].name is Some,
        _ => true,
    }
}

/// Whether every named field of the definition carries a name.
pub open spec fn spec_input_wf(m: InputView) -> bool {
    match m.data {
        DataView::StructData(fs) => spec_fields_wf(fs),
        DataView::EnumData(vs) => forall|i: int|
            0 <= i < vs.len() ==> spec_fields_wf(#[trigger] vs[i].fields),
        DataView::UnionData => true,
    }
}

/// The methods of a list of named fields, from position `k` on, in
/// field order.
pub open spec fn spec_named_methods(
    fl: Seq<FieldView>,
    k: int,
    need_getter: bool,
    need_getter_mut: bool,
    need_setter: bool,
) -> Seq<MethodView>
    decreases fl.len() - k,
{
    if k < 0 || k >= fl.len() {
        Seq::<MethodView>::empty()
    } else {
        spec_generate_field(fl[k], None, need_getter, need_getter_mut, need_setter)
            + spec_named_methods(fl, k + 1, need_getter, need_getter_mut, need_setter)
    }
}

/// The methods of a list of positional fields, from position `k` on,
/// in field order.
pub open spec fn spec_tuple_methods(
    fl: Seq<FieldView>,
    k: int,
    need_getter: bool,
    need_getter_mut: bool,
    need_setter: bool,
) -> Seq<MethodView>
    decreases fl.len() - k,
{
    if k < 0 || k >= fl.len() {
        Seq::<MethodView>::empty()
    } else {
        spec_generate_field(fl[k], Some(k), need_getter, need_getter_mut, need_setter)
            + spec_tuple_methods(fl, k + 1, need_getter, need_getter_mut, need_setter)
    }
}

/// The methods of a structure's field list: one batch per field, in
/// order; a unit structure gets none.
pub open spec fn spec_struct_methods(
    fs: FieldsView,
    need_getter: bool,
    need_getter_mut: bool,
    need_setter: bool,
) -> Seq<MethodView> {
    match fs {
        FieldsView::Named(fl) => spec_named_methods(fl, 0, need_getter, need_getter_mut, need_setter),
        FieldsView::Unnamed(fl) => spec_tuple_methods(
            fl,
            0,
            need_getter,
            need_getter_mut,
            need_setter,
        ),
        FieldsView::Unit => Seq::<MethodView>::empty(),
    }
}

/// The diagnostic for a derive applied to anything but a structure.
pub open spec fn spec_unsupported_msg() -> Seq<char> {
    "#[derive(Lombok)] is only supported for structs."@
}

/// The accessor impl block for one definition: the generic context kept
/// unchanged and the methods of every field, as [`spec_struct_methods`]
/// describes.
pub open spec fn spec_lombok_impl(
    m: InputView,
    need_getter: bool,
    need_getter_mut: bool,
    need_setter: bool,
) -> ImplView {
    ImplView {
        header: spec_impl_header(m),
        methods: spec_struct_methods(
            m.data->StructData_0,
            need_getter,
            need_getter_mut,
            need_setter,
        ),
    }
}

/// Generates the accessor methods of every field of a list.
#[verifier::loop_isolation(false)]
fn generate_fields(
    fl: &Vec<FieldModel>,
    positional: bool,
    need_getter: bool,
    need_getter_mut: bool,
    need_setter: bool,
) -> (r: Vec<Method>)
    requires
        !positional ==> forall|i: int|
            0 <= i < fl@.len() ==> (#[trigger] fl@[i])@.name is Some,
    ensures
        methods_view(r@) == if positional {
            spec_tuple_methods(
                crate::input::fields_seq_view(fl@),
                0,
                need_getter,
                need_getter_mut,
                need_setter,
            )
        } else {
            spec_named_methods(
                crate::input::fields_seq_view(fl@),
                0,
                need_getter,
                need_getter_mut,
                need_setter,
            )
        },
{
    let ghost flv = crate::input::fields_seq_view(fl@);
    let mut out: Vec<Method> = Vec::new();
    let n = fl.len();
    let mut k: usize = 0;
    proof {
        assert(methods_view(out@) =~= Seq::<MethodView>::empty());
        assert(Seq::<MethodView>::empty() + (if positional {
            spec_tuple_methods(flv, 0, need_getter, need_getter_mut, need_setter)
        } else {
            spec_named_methods(flv, 0, need_getter, need_getter_mut, need_setter)
        }) =~= if positional {
            spec_tuple_methods(flv, 0, need_getter, need_getter_mut, need_setter)
        } else {
            spec_named_methods(flv, 0, need_getter, need_getter_mut, need_setter)
        });
    }
    while k < n
        invariant
            k <= n,
            (if positional {
                spec_tuple_methods(flv, 0, need_getter, need_getter_mut, need_setter)
            } else {
                spec_named_methods(flv, 0, need_getter, need_getter_mut, need_setter)
            }) == methods_view(out@) + (if positional {
                spec_tuple_methods(flv, k as int, need_getter, need_getter_mut, need_setter)
            } else {
                spec_named_methods(flv, k as int, need_getter, need_getter_mut, need_setter)
            }),
        decreases n - k,
    {
        let idx: Option<usize> = if positional {
            Some(k)
        } else {
            None
        };
        let ghost pre = out@;
        let mut ms = generate_getter_setter(
            &fl[k],
            idx,
            need_getter,
            need_getter_mut,
            need_setter,
        );
        let ghost msv = ms@;
        out.append(&mut ms);
        proof {
            assert(flv[k as int] == fl@[k as int]@);
            assert(methods_view(out@) =~= methods_view(pre) + methods_view(msv));
            assert(methods_view(out@) + (if positional {
                spec_tuple_methods(flv, k as int + 1, need_getter, need_getter_mut, need_setter)
            } else {
                spec_named_methods(flv, k as int + 1, need_getter, need_getter_mut, need_setter)
            }) =~= methods_view(pre) + (if positional {
                spec_tuple_methods(flv, k as int, need_getter, need_getter_mut, need_setter)
            } else {
                spec_named_methods(flv, k as int, need_getter, need_getter_mut, need_setter)
            }));
        }
        k = k + 1;
    }
    proof {
        assert(methods_view(out@) + Seq::<MethodView>::empty() =~= methods_view(out@));
    }
    out
}

/// Generates the whole accessor impl block for one definition: every
/// field of a structure gets its methods; a definition that is no
/// structure is rejected with a fixed diagnostic.
pub fn inner_lombok_data(
    input: &InputModel,
    need_getter: bool,
    need_getter_mut: bool,
    need_setter: bool,
) -> (r: Result<ImplModel, String>)
    requires
        spec_input_wf(input@),
    ensures
        input@.data is StructData ==> (r matches Ok(m) && m@ == spec_lombok_impl(
            input@,
            need_getter,
            need_getter_mut,
            need_setter,
        )),
        !(input@.data is StructData) ==> (r matches Err(e) && e@ == spec_unsupported_msg()),
{
    match &input.data {
        DataModel::StructData(fs) => {
            let methods: Vec<Method> = match fs {
                FieldsModel::Named(fl) => {
                    proof {
                        assert(spec_fields_wf(input@.data->StructData_0));
                        assert forall|i: int| 0 <= i < fl@.len() implies (#[trigger] fl@[i])@.name
                            is Some by {
                            assert(crate::input::fields_seq_view(fl@)[i] == fl@[i]@);
                        }
                    }
                    generate_fields(fl, false, need_getter, need_getter_mut, need_setter)
                }
                FieldsModel::Unnamed(fl) => generate_fields(
                    fl,
                    true,
                    need_getter,
                    need_getter_mut,
                    need_setter,
                ),
                FieldsModel::Unit => Vec::new(),
            };
            let header = make_impl_header(input);
            let m = ImplModel { header, methods };
            proof {
                if m.methods@.len() == 0 {
                    assert(methods_view(m.methods@) =~= Seq::<MethodView>::empty());
                }
            }
            Ok(m)
        }
        _ => Err(String::from_str("#[derive(Lombok)] is only supported for structs.")),
    }
}

/// Whether a field is left out of the generated constructor: the first
/// of its annotations that configures the constructor family decides
/// with its skip flag; with no such annotation the field is accepted as
/// a parameter.
pub open spec fn spec_ctor_skip(ats: Seq<Seq<TokenView>>, k: int) -> bool
    decreases ats.len() - k,
{
    if k < 0 || k >= ats.len() {
        false
    } else {
        let c = spec_analyze(ats[k]);
        if c.func_type == FuncType::Constructor {
            c.skip
        } else {
            spec_ctor_skip(ats, k + 1)
        }
    }
}

/// Whether a field is left out of the generated constructor, as
/// [`spec_ctor_skip`] describes.
#[verifier::loop_isolation(false)]
fn ctor_skip(field: &FieldModel) -> (r: bool)
    ensures
        r == spec_ctor_skip(field@.attrs, 0),
{
    let ghost av = field@.attrs;
    let n = field.attrs.len();
    let mut k: usize = 0;
    while k < n
        invariant
            k <= n,
            spec_ctor_skip(av, 0) == spec_ctor_skip(av, k as int),
        decreases n - k,
    {
        let cfg = analyze_attributes(&field.attrs[k]);
        proof {
            assert(av[k as int] == field.attrs@[k as int]@);
        }
        if cfg.func_type.is_new() {
            return cfg.skip;
        }
        k = k + 1;
    }
    false
}

/// The parameter name a field contributes to the constructor: the
/// field's own name, or `field_` and its decimal position.
pub open spec fn spec_ctor_param_name(f: FieldView, idx: Option<int>) -> Seq<char> {
    match idx {
        Some(i) => "field_"@ + spec_dec_digits(i as nat),
        None => f.name->Some_0,
    }
}

/// The constructor parameters of a field list from position `k` on:
/// one per field not marked skipped, in field order.
pub open spec fn spec_ctor_params(fl: Seq<FieldView>, k: int, positional: bool) -> Seq<
    CtorParamView,
>
    decreases fl.len() - k,
{
    if k < 0 || k >= fl.len() {
        Seq::<CtorParamView>::empty()
    } else {
        let rest = spec_ctor_params(fl, k + 1, positional);
        if spec_ctor_skip(fl[k].attrs, 0) {
            rest
        } else {
            seq![
                CtorParamView {
                    name: spec_ctor_param_name(fl[k], if positional { Some(k) } else { None }),
                    ty: fl[k].ty,
                },
            ] + rest
        }
    }
}

/// The field initializers of a field list from position `k` on: a
/// skipped field takes its type's default value, every other field
/// takes its parameter.
pub open spec fn spec_ctor_inits(fl: Seq<FieldView>, k: int, positional: bool) -> Seq<CtorInitView>
    decreases fl.len() - k,
{
    if k < 0 || k >= fl.len() {
        Seq::<CtorInitView>::empty()
    } else {
        let name = spec_ctor_param_name(fl[k], if positional { Some(k) } else { None });
        let init = if spec_ctor_skip(fl[k].attrs, 0) {
            CtorInitView::DefaultInit(name)
        } else {
            CtorInitView::FromParam(name)
        };
        seq![init] + spec_ctor_inits(fl, k + 1, positional)
    }
}

/// The fields of a structure's field list, and whether they are
/// positional.
pub open spec fn spec_fields_list(fs: FieldsView) -> Seq<FieldView> {
    match fs {
        FieldsView::Named(fl) => fl,
        FieldsView::Unnamed(fl) => fl,
        FieldsView::Unit => Seq::<FieldView>::empty(),
    }
}

/// Whether a field list is positional.
pub open spec fn spec_fields_positional(fs: FieldsView) -> bool {
    fs is Unnamed
}

/// The constructor for one structure: its access level from the
/// structure-level directive, one parameter per field not marked
/// skipped, and one initializer per field.
pub open spec fn spec_ctor(m: InputView) -> CtorView {
    let fs = m.data->StructData_0;
    let fl = spec_fields_list(fs);
    let positional = spec_fields_positional(fs);
    CtorView {
        header: spec_impl_header(m),
        vis: crate::parse::spec_parse_new_visibility(m.attrs, 0),
        named_fields: !positional,
        params: spec_ctor_params(fl, 0, positional),
        inits: spec_ctor_inits(fl, 0, positional),
    }
}

/// Builds the constructor parameters and initializers of a field list.
#[verifier::loop_isolation(false)]
fn ctor_fields(fl: &Vec<FieldModel>, positional: bool) -> (r: (Vec<CtorParam>, Vec<CtorInit>))
    requires
        !positional ==> forall|i: int| 0 <= i < fl@.len() ==> (#[trigger] fl@[i])@.name is Some,
    ensures
        ctor_params_view(r.0@) == spec_ctor_params(
            crate::input::fields_seq_view(fl@),
            0,
            positional,
        ),
        ctor_inits_view(r.1@) == spec_ctor_inits(
            crate::input::fields_seq_view(fl@),
            0,
            positional,
        ),
{
    let ghost flv = crate::input::fields_seq_view(fl@);
    let mut params: Vec<CtorParam> = Vec::new();
    let mut inits: Vec<CtorInit> = Vec::new();
    let n = fl.len();
    let mut k: usize = 0;
    proof {
        assert(ctor_params_view(params@) =~= Seq::<CtorParamView>::empty());
        assert(ctor_inits_view(inits@) =~= Seq::<CtorInitView>::empty());
        assert(Seq::<CtorParamView>::empty() + spec_ctor_params(flv, 0, positional)
            =~= spec_ctor_params(flv, 0, positional));
        assert(Seq::<CtorInitView>::empty() + spec_ctor_inits(flv, 0, positional)
            =~= spec_ctor_inits(flv, 0, positional));
    }
    while k < n
        invariant
            k <= n,
            spec_ctor_params(flv, 0, positional) == ctor_params_view(params@) + spec_ctor_params(
                flv,
                k as int,
                positional,
            ),
            spec_ctor_inits(flv, 0, positional) == ctor_inits_view(inits@) + spec_ctor_inits(
                flv,
                k as int,
                positional,
            ),
        decreases n - k,
    {
        proof {
            assert(flv[k as int] == fl@[k as int]@);
        }
        let skip = ctor_skip(&fl[k]);
        let pname: String = if positional {
            let mut p = String::from_str("field_");
            p.append(dec_string(k).as_str());
            p
        } else {
            match &fl[k].name {
                Some(nm) => nm.clone(),
                None => unreached(),
            }
        };
        let ghost params_pre = params@;
        let ghost inits_pre = inits@;
        if skip {
            let ghost pnv = pname@;
            inits.push(CtorInit::DefaultInit(pname));
            proof {
                assert(ctor_inits_view(inits@) =~= ctor_inits_view(inits_pre).push(
                    CtorInitView::DefaultInit(pnv),
                ));
                assert(ctor_inits_view(inits@) + spec_ctor_inits(flv, k as int + 1, positional)
                    =~= ctor_inits_view(inits_pre) + spec_ctor_inits(flv, k as int, positional));
            }
        } else {
            let ghost pnv = pname@;
            params.push(CtorParam { name: pname.clone(), ty: copy_type_shape(&fl[k].ty) });
            inits.push(CtorInit::FromParam(pname));
            proof {
                assert(ctor_params_view(params@) =~= ctor_params_view(params_pre).push(
                    CtorParamView {
                        name: spec_ctor_param_name(
                            flv[k as int],
                            if positional {
                                Some(k as int)
                            } else {
                                None
                            },
                        ),
                        ty: flv[k as int].ty,
                    },
                ));
                assert(ctor_params_view(params@) + spec_ctor_params(flv, k as int + 1, positional)
                    =~= ctor_params_view(params_pre) + spec_ctor_params(flv, k as int, positional));
                assert(ctor_inits_view(inits@) =~= ctor_inits_view(inits_pre).push(
                    CtorInitView::FromParam(pnv),
                ));
                assert(ctor_inits_view(inits@) + spec_ctor_inits(flv, k as int + 1, positional)
                    =~= ctor_inits_view(inits_pre) + spec_ctor_inits(flv, k as int, positional));
            }
        }
        k = k + 1;
    }
    proof {
        assert(ctor_params_view(params@) + Seq::<CtorParamView>::empty() =~= ctor_params_view(
            params@,
        ));
        assert(ctor_inits_view(inits@) + Seq::<CtorInitView>::empty() =~= ctor_inits_view(inits@));
    }
    (params, inits)
}

/// Generates the constructor for one definition: fields marked skipped
/// are initialized from their type's default value instead of being
/// accepted, and the structure-level directive sets the access level; a
/// definition that is no structure is rejected with a fixed diagnostic.
pub fn generate_constructor(input: &InputModel) -> (r: Result<CtorModel, String>)
    requires
        spec_input_wf(input@),
    ensures
        input@.data is StructData ==> (r matches Ok(c) && c@ == spec_ctor(input@)),
        !(input@.data is StructData) ==> (r matches Err(e) && e@ == spec_unsupported_msg()),
{
    match &input.data {
        DataModel::StructData(fs) => {
            let vis = crate::parse::parse_new_visibility(input);
            let (params, inits, named_fields): (Vec<CtorParam>, Vec<CtorInit>, bool) = match fs {
                FieldsModel::Named(fl) => {
                    proof {
                        assert(spec_fields_wf(input@.data->StructData_0));
                        assert forall|i: int| 0 <= i < fl@.len() implies (#[trigger] fl@[i])@.name
                            is Some by {
                            assert(crate::input::fields_seq_view(fl@)[i] == fl@[i]@);
                        }
                    }
                    let (p, ini) = ctor_fields(fl, false);
                    (p, ini, true)
                }
                FieldsModel::Unnamed(fl) => {
                    let (p, ini) = ctor_fields(fl, true);
                    (p, ini, false)
                }
                FieldsModel::Unit => (Vec::new(), Vec::new(), true),
            };
            let header = make_impl_header(input);
            let c = CtorModel { header, vis, named_fields, params, inits };
            proof {
                if c.params@.len() == 0 {
                    assert(ctor_params_view(c.params@) =~= Seq::<CtorParamView>::empty());
                }
                if c.inits@.len() == 0 {
                    assert(ctor_inits_view(c.inits@) =~= Seq::<CtorInitView>::empty());
                }
            }
            Ok(c)
        }
        _ => Err(String::from_str("#[derive(Lombok)] is only supported for structs.")),
    }
}

} // verus!
