//! Model of the code the engine emits: the generated methods of one
//! accessor impl block, the generated constructor, the generated debug
//! implementation, and the display shim.

use vstd::prelude::*;
use crate::shape::{type_shape_view, TypeShape, TypeShapeView};
use crate::visibility::Visibility;

verus! {

/// How a generated method refers to its field.
#[derive(Debug, PartialEq, Eq)]
pub enum FieldRef {
    /// By name, e.g. `self.name`.
    NamedField(String),
    /// By position, e.g. `self.0`.
    IndexField(usize),
}

/// The mathematical view of a [`FieldRef`].
pub enum FieldRefView {
    NamedField(Seq<char>),
    IndexField(int),
}

/// The view of a field reference.
pub open spec fn field_ref_view(f: FieldRef) -> FieldRefView {
    match f {
        FieldRef::NamedField(s) => FieldRefView::NamedField(s@),
        FieldRef::IndexField(i) => FieldRefView::IndexField(i as int),
    }
}

impl View for FieldRef {
    type V = FieldRefView;

    open spec fn view(&self) -> FieldRefView {
        field_ref_view(*self)
    }
}

/// The return shape of a generated accessor.
#[derive(Debug, PartialEq, Eq)]
pub enum RetShape {
    /// `&T`.
    RefTo(TypeShape),
    /// `T` by value.
    Owned(TypeShape),
    /// `&mut T`.
    MutRefTo(TypeShape),
}

/// The mathematical view of a [`RetShape`].
pub enum RetShapeView {
    RefTo(TypeShapeView),
    Owned(TypeShapeView),
    MutRefTo(TypeShapeView),
}

/// The view of a return shape.
pub open spec fn ret_shape_view(r: RetShape) -> RetShapeView {
    match r {
        RetShape::RefTo(t) => RetShapeView::RefTo(type_shape_view(t)),
        RetShape::Owned(t) => RetShapeView::Owned(type_shape_view(t)),
        RetShape::MutRefTo(t) => RetShapeView::MutRefTo(type_shape_view(t)),
    }
}

impl View for RetShape {
    type V = RetShapeView;

    open spec fn view(&self) -> RetShapeView {
        ret_shape_view(*self)
    }
}

/// The body of a generated getter.
#[derive(Clone, Copy, PartialEq, Eq, Structural, Debug)]
pub enum GetterBody {
    /// `&self.f`
    BorrowField,
    /// `self.f.clone()`
    CloneField,
    /// `self.f`
    CopyField,
    /// `self.f.clone().unwrap()` — panics when the value is absent or
    /// an error.
    CloneUnwrapField,
    /// Match on an `Option` field: a present value is cloned out, an
    /// absent one panics with a message naming the field.
    MatchOptionOrPanic,
    /// Match on a `Result` field: an `Ok` value is cloned out, an `Err`
    /// panics with the error's debug text.
    MatchResultOrPanic,
    /// `*self.f`, moving out of a box.
    DerefMoveField,
    /// `(*self.f).clone()`, cloning the referent of a shared handle.
    CloneReferent,
    /// `*self.f`, a plain dereference.
    DerefField,
}

/// The parameter a generated setter accepts.
#[derive(Debug, PartialEq, Eq)]
pub enum SetterParam {
    /// Exactly the field's type.
    Exact(TypeShape),
    /// `impl` of the given bound text, e.g. `impl AsRef<str>`.
    ImplBound(String),
}

/// The mathematical view of a [`SetterParam`].
pub enum SetterParamView {
    Exact(TypeShapeView),
    ImplBound(Seq<char>),
}

/// The view of a setter parameter.
pub open spec fn setter_param_view(p: SetterParam) -> SetterParamView {
    match p {
        SetterParam::Exact(t) => SetterParamView::Exact(type_shape_view(t)),
        SetterParam::ImplBound(s) => SetterParamView::ImplBound(s@),
    }
}

impl View for SetterParam {
    type V = SetterParamView;

    open spec fn view(&self) -> SetterParamView {
        setter_param_view(*self)
    }
}

/// The assignment a generated setter performs; every setter returns
/// `&mut Self` for call chaining.
#[derive(Clone, Copy, PartialEq, Eq, Structural, Debug)]
pub enum SetterBody {
    /// `self.f = val;`
    AssignDirect,
    /// `self.f = val.as_ref().to_owned();`
    AssignAsRefOwned,
    /// `self.f = val.into();`
    AssignInto,
}

/// One generated method.
#[derive(Debug, PartialEq, Eq)]
pub enum Method {
    /// A getter taking `&self`.
    Getter { name: String, vis: Visibility, ret: RetShape, body: GetterBody, field: FieldRef },
    /// The panic-free companion of a getter over an `Option` or
    /// `Result` field: it borrows the raw container.
    TryGetter { name: String, vis: Visibility, ret: RetShape, field: FieldRef },
    /// A mutable getter: `&mut self.f`.
    MutGetter { name: String, vis: Visibility, ret: RetShape, field: FieldRef },
    /// A setter taking `&mut self` and one value, returning `&mut Self`.
    Setter { name: String, vis: Visibility, param: SetterParam, body: SetterBody, field: FieldRef },
}

/// The mathematical view of a [`Method`].
pub enum MethodView {
    Getter {
        name: Seq<char>,
        vis: Visibility,
        ret: RetShapeView,
        body: GetterBody,
        field: FieldRefView,
    },
    TryGetter { name: Seq<char>, vis: Visibility, ret: RetShapeView, field: FieldRefView },
    MutGetter { name: Seq<char>, vis: Visibility, ret: RetShapeView, field: FieldRefView },
    Setter {
        name: Seq<char>,
        vis: Visibility,
        param: SetterParamView,
        body: SetterBody,
        field: FieldRefView,
    },
}

/// The view of one generated method.
pub open spec fn method_view(m: Method) -> MethodView {
    match m {
        Method::Getter { name, vis, ret, body, field } => MethodView::Getter {
            name: name@,
            vis,
            ret: ret_shape_view(ret),
            body,
            field: field_ref_view(field),
        },
        Method::TryGetter { name, vis, ret, field } => MethodView::TryGetter {
            name: name@,
            vis,
            ret: ret_shape_view(ret),
            field: field_ref_view(field),
        },
        Method::MutGetter { name, vis, ret, field } => MethodView::MutGetter {
            name: name@,
            vis,
            ret: ret_shape_view(ret),
            field: field_ref_view(field),
        },
        Method::Setter { name, vis, param, body, field } => MethodView::Setter {
            name: name@,
            vis,
            param: setter_param_view(param),
            body,
            field: field_ref_view(field),
        },
    }
}

impl View for Method {
    type V = MethodView;

    open spec fn view(&self) -> MethodView {
        method_view(*self)
    }
}

/// The view of a sequence of methods, element by element.
pub open spec fn methods_view(ms: Seq<Method>) -> Seq<MethodView> {
    Seq::new(ms.len(), |i: int| method_view(ms[i]))
}

/// One type parameter carried over from the input definition.
#[derive(Debug, PartialEq, Eq)]
pub struct TypeParamModel {
    /// The parameter's name.
    pub name: String,
    /// The source text of its bounds, when it has any.
    pub bounds: Option<String>,
}

/// The mathematical view of a [`TypeParamModel`].
pub struct TypeParamView {
    pub name: Seq<char>,
    pub bounds: Option<Seq<char>>,
}

/// The view of one type parameter.
pub open spec fn type_param_view(t: TypeParamModel) -> TypeParamView {
    TypeParamView {
        name: t.name@,
        bounds: match t.bounds {
            Some(b) => Some(b@),
            None => None,
        },
    }
}

impl View for TypeParamModel {
    type V = TypeParamView;

    open spec fn view(&self) -> TypeParamView {
        type_param_view(*self)
    }
}

/// The view of a sequence of type parameters, element by element.
pub open spec fn type_params_view(ts: Seq<TypeParamModel>) -> Seq<TypeParamView> {
    Seq::new(ts.len(), |i: int| type_param_view(ts[i]))
}

/// The generic context an emitted impl block carries over from the
/// input: the type's name, its lifetime and type parameters, and its
/// `where` clause, all unchanged.
#[derive(Debug, PartialEq, Eq)]
pub struct ImplHeader {
    /// The name of the type the block is for.
    pub target_name: String,
    /// The lifetime parameters, in declaration order.
    pub lifetimes: Vec<String>,
    /// The type parameters with their bounds, in declaration order.
    pub type_params: Vec<TypeParamModel>,
    /// The source text of the `where` clause, when there is one.
    pub where_clause: Option<String>,
}

/// The mathematical view of an [`ImplHeader`].
pub struct ImplHeaderView {
    pub target_name: Seq<char>,
    pub lifetimes: Seq<Seq<char>>,
    pub type_params: Seq<TypeParamView>,
    pub where_clause: Option<Seq<char>>,
}

/// The view of an impl header.
pub open spec fn impl_header_view(h: ImplHeader) -> ImplHeaderView {
    ImplHeaderView {
        target_name: h.target_name@,
        lifetimes: crate::shape::strings_view(h.lifetimes@),
        type_params: type_params_view(h.type_params@),
        where_clause: match h.where_clause {
            Some(s) => Some(s@),
            None => None,
        },
    }
}

impl View for ImplHeader {
    type V = ImplHeaderView;

    open spec fn view(&self) -> ImplHeaderView {
        impl_header_view(*self)
    }
}

/// The accessor impl block the engine emits for one definition.
#[derive(Debug, PartialEq, Eq)]
pub struct ImplModel {
    /// The block's generic context.
    pub header: ImplHeader,
    /// The generated methods, in emission order.
    pub methods: Vec<Method>,
}

/// The mathematical view of an [`ImplModel`].
pub struct ImplView {
    pub header: ImplHeaderView,
    pub methods: Seq<MethodView>,
}

impl View for ImplModel {
    type V = ImplView;

    open spec fn view(&self) -> ImplView {
        ImplView { header: impl_header_view(self.header), methods: methods_view(self.methods@) }
    }
}

/// How one field of the constructed value is initialized.
#[derive(Debug, PartialEq, Eq)]
pub enum CtorInit {
    /// From the constructor parameter of the given name.
    FromParam(String),
    /// From the field type's default value; the field keeps the given
    /// name.
    DefaultInit(String),
}

/// The mathematical view of a [`CtorInit`].
pub enum CtorInitView {
    FromParam(Seq<char>),
    DefaultInit(Seq<char>),
}

/// The view of one constructor initializer.
pub open spec fn ctor_init_view(c: CtorInit) -> CtorInitView {
    match c {
        CtorInit::FromParam(s) => CtorInitView::FromParam(s@),
        CtorInit::DefaultInit(s) => CtorInitView::DefaultInit(s@),
    }
}

impl View for CtorInit {
    type V = CtorInitView;

    open spec fn view(&self) -> CtorInitView {
        ctor_init_view(*self)
    }
}

/// The view of a sequence of constructor initializers.
pub open spec fn ctor_inits_view(cs: Seq<CtorInit>) -> Seq<CtorInitView> {
    Seq::new(cs.len(), |i: int| ctor_init_view(cs[i]))
}

/// One parameter of the generated constructor.
#[derive(Debug, PartialEq, Eq)]
pub struct CtorParam {
    /// The parameter's name.
    pub name: String,
    /// The parameter's type: the field's declared type.
    pub ty: TypeShape,
}

/// The mathematical view of a [`CtorParam`].
pub struct CtorParamView {
    pub name: Seq<char>,
    pub ty: TypeShapeView,
}

/// The view of one constructor parameter.
pub open spec fn ctor_param_view(p: CtorParam) -> CtorParamView {
    CtorParamView { name: p.name@, ty: type_shape_view(p.ty) }
}

impl View for CtorParam {
    type V = CtorParamView;

    open spec fn view(&self) -> CtorParamView {
        ctor_param_view(*self)
    }
}

/// The view of a sequence of constructor parameters.
pub open spec fn ctor_params_view(ps: Seq<CtorParam>) -> Seq<CtorParamView> {
    Seq::new(ps.len(), |i: int| ctor_param_view(ps[i]))
}

/// The constructor the engine emits for one structure.
#[derive(Debug, PartialEq, Eq)]
pub struct CtorModel {
    /// The constructor's generic context.
    pub header: ImplHeader,
    /// The constructor's access level.
    pub vis: Visibility,
    /// Whether the structure has named fields (`Self { .. }`) rather
    /// than positional ones (`Self(..)`).
    pub named_fields: bool,
    /// The accepted parameters, in field order, skipped fields left
    /// out.
    pub params: Vec<CtorParam>,
    /// One initializer per field, in field order.
    pub inits: Vec<CtorInit>,
}

/// The mathematical view of a [`CtorModel`].
pub struct CtorView {
    pub header: ImplHeaderView,
    pub vis: Visibility,
    pub named_fields: bool,
    pub params: Seq<CtorParamView>,
    pub inits: Seq<CtorInitView>,
}

impl View for CtorModel {
    type V = CtorView;

    open spec fn view(&self) -> CtorView {
        CtorView {
            header: impl_header_view(self.header),
            vis: self.vis,
            named_fields: self.named_fields,
            params: ctor_params_view(self.params@),
            inits: ctor_inits_view(self.inits@),
        }
    }
}

/// One match arm of a generated debug implementation for an enum.
#[derive(Debug, PartialEq, Eq)]
pub enum DebugArm {
    /// A struct-like variant: the pattern binds every field by name,
    /// the output shows the listed ones.
    NamedArm { variant: String, bound: Vec<String>, shown: Vec<String> },
    /// A tuple variant: the pattern binds all `arity` fields, the
    /// output shows the listed positions.
    TupleArm { variant: String, arity: usize, shown: Vec<usize> },
    /// A unit variant.
    UnitArm { variant: String },
}

/// The mathematical view of a [`DebugArm`].
pub enum DebugArmView {
    NamedArm { variant: Seq<char>, bound: Seq<Seq<char>>, shown: Seq<Seq<char>> },
    TupleArm { variant: Seq<char>, arity: int, shown: Seq<int> },
    UnitArm { variant: Seq<char> },
}

/// The view of one debug arm.
pub open spec fn debug_arm_view(a: DebugArm) -> DebugArmView {
    match a {
        DebugArm::NamedArm { variant, bound, shown } => DebugArmView::NamedArm {
            variant: variant@,
            bound: crate::shape::strings_view(bound@),
            shown: crate::shape::strings_view(shown@),
        },
        DebugArm::TupleArm { variant, arity, shown } => DebugArmView::TupleArm {
            variant: variant@,
            arity: arity as int,
            shown: Seq::new(shown@.len(), |i: int| shown@[i] as int),
        },
        DebugArm::UnitArm { variant } => DebugArmView::UnitArm { variant: variant@ },
    }
}

impl View for DebugArm {
    type V = DebugArmView;

    open spec fn view(&self) -> DebugArmView {
        debug_arm_view(*self)
    }
}

/// The view of a sequence of debug arms.
pub open spec fn debug_arms_view(arms: Seq<DebugArm>) -> Seq<DebugArmView> {
    Seq::new(arms.len(), |i: int| debug_arm_view(arms[i]))
}

/// The body of a generated debug implementation.
#[derive(Debug, PartialEq, Eq)]
pub enum DebugBody {
    /// A structure with named fields: the names shown, skipped fields
    /// left out entirely.
    StructBody(Vec<String>),
    /// A tuple structure: the positions shown.
    TupleBody(Vec<usize>),
    /// A unit structure: only the name is shown.
    UnitBody,
    /// An enum: one arm per variant.
    EnumBody(Vec<DebugArm>),
}

/// The mathematical view of a [`DebugBody`].
pub enum DebugBodyView {
    StructBody(Seq<Seq<char>>),
    TupleBody(Seq<int>),
    UnitBody,
    EnumBody(Seq<DebugArmView>),
}

/// The view of a debug body.
pub open spec fn debug_body_view(b: DebugBody) -> DebugBodyView {
    match b {
        DebugBody::StructBody(names) => DebugBodyView::StructBody(
            crate::shape::strings_view(names@),
        ),
        DebugBody::TupleBody(ixs) => DebugBodyView::TupleBody(
            Seq::new(ixs@.len(), |i: int| ixs@[i] as int),
        ),
        DebugBody::UnitBody => DebugBodyView::UnitBody,
        DebugBody::EnumBody(arms) => DebugBodyView::EnumBody(debug_arms_view(arms@)),
    }
}

impl View for DebugBody {
    type V = DebugBodyView;

    open spec fn view(&self) -> DebugBodyView {
        debug_body_view(*self)
    }
}

/// The debug implementation the engine emits for one definition.
#[derive(Debug, PartialEq, Eq)]
pub struct DebugImplModel {
    /// The implementation's generic context.
    pub header: ImplHeader,
    /// What the implementation prints.
    pub body: DebugBody,
}

/// The mathematical view of a [`DebugImplModel`].
pub struct DebugImplView {
    pub header: ImplHeaderView,
    pub body: DebugBodyView,
}

impl View for DebugImplModel {
    type V = DebugImplView;

    open spec fn view(&self) -> DebugImplView {
        DebugImplView { header: impl_header_view(self.header), body: debug_body_view(self.body) }
    }
}

/// The display shim the engine emits: it forwards to the type's debug
/// output, in the standard or the detailed format.
#[derive(Debug, PartialEq, Eq)]
pub struct DisplayImplModel {
    /// The implementation's generic context.
    pub header: ImplHeader,
    /// Whether the detailed (`{:#?}`) format is used rather than the
    /// standard (`{:?}`) one.
    pub detailed: bool,
}

/// The mathematical view of a [`DisplayImplModel`].
pub struct DisplayImplView {
    pub header: ImplHeaderView,
    pub detailed: bool,
}

impl View for DisplayImplModel {
    type V = DisplayImplView;

    open spec fn view(&self) -> DisplayImplView {
        DisplayImplView { header: impl_header_view(self.header), detailed: self.detailed }
    }
}

} // verus!
