//! Model of a parsed structure or enum definition, as the host hands it
//! to the library: the definition's name, its generic parameters, its
//! annotations and its fields.

use vstd::prelude::*;
use crate::shape::{type_shape_view, TypeShape, TypeShapeView};
use crate::token::{tokens_view, Attr, TokenView};

verus! {

/// One field of a structure or of an enum variant.
pub struct FieldModel {
    /// The field's name; a positional (tuple) field has none.
    pub name: Option<String>,
    /// The field's declared type.
    pub ty: TypeShape,
    /// The annotations attached to the field, in source order.
    pub attrs: Vec<Attr>,
}

/// The mathematical view of a [`FieldModel`].
pub struct FieldView {
    pub name: Option<Seq<char>>,
    pub ty: TypeShapeView,
    pub attrs: Seq<Seq<TokenView>>,
}

/// The view of a sequence of annotations, element by element.
pub open spec fn attrs_view(ats: Seq<Attr>) -> Seq<Seq<TokenView>> {
    Seq::new(ats.len(), |i: int| tokens_view(ats[i].tokens@))
}

/// The view of one field.
pub open spec fn field_view(f: FieldModel) -> FieldView {
    FieldView {
        name: match f.name {
            Some(s) => Some(s@),
            None => None,
        },
        ty: type_shape_view(f.ty),
        attrs: attrs_view(f.attrs@),
    }
}

impl View for FieldModel {
    type V = FieldView;

    open spec fn view(&self) -> FieldView {
        field_view(*self)
    }
}

/// The view of a sequence of fields, element by element.
pub open spec fn fields_seq_view(fs: Seq<FieldModel>) -> Seq<FieldView> {
    Seq::new(fs.len(), |i: int| field_view(fs[i]))
}

/// The field list of a structure or variant: named fields, positional
/// fields, or none at all.
pub enum FieldsModel {
    Named(Vec<FieldModel>),
    Unnamed(Vec<FieldModel>),
    Unit,
}

/// The mathematical view of a [`FieldsModel`].
pub enum FieldsView {
    Named(Seq<FieldView>),
    Unnamed(Seq<FieldView>),
    Unit,
}

/// The view of a field list.
pub open spec fn fields_model_view(fs: FieldsModel) -> FieldsView {
    match fs {
        FieldsModel::Named(v) => FieldsView::Named(fields_seq_view(v@)),
        FieldsModel::Unnamed(v) => FieldsView::Unnamed(fields_seq_view(v@)),
        FieldsModel::Unit => FieldsView::Unit,
    }
}

impl View for FieldsModel {
    type V = FieldsView;

    open spec fn view(&self) -> FieldsView {
        fields_model_view(*self)
    }
}

/// One variant of an enum definition.
pub struct VariantModel {
    /// The variant's name.
    pub name: String,
    /// The variant's fields.
    pub fields: FieldsModel,
}

/// The mathematical view of a [`VariantModel`].
pub struct VariantView {
    pub name: Seq<char>,
    pub fields: FieldsView,
}

/// The view of one variant.
pub open spec fn variant_view(v: VariantModel) -> VariantView {
    VariantView { name: v.name@, fields: fields_model_view(v.fields) }
}

impl View for VariantModel {
    type V = VariantView;

    open spec fn view(&self) -> VariantView {
        variant_view(*self)
    }
}

/// The view of a sequence of variants, element by element.
pub open spec fn variants_view(vs: Seq<VariantModel>) -> Seq<VariantView> {
    Seq::new(vs.len(), |i: int| variant_view(vs[i]))
}

/// The body of a definition: a structure, an enum, or a union.
pub enum DataModel {
    StructData(FieldsModel),
    EnumData(Vec<VariantModel>),
    UnionData,
}

/// The mathematical view of a [`DataModel`].
pub enum DataView {
    StructData(FieldsView),
    EnumData(Seq<VariantView>),
    UnionData,
}

/// The view of a definition body.
pub open spec fn data_view(d: DataModel) -> DataView {
    match d {
        DataModel::StructData(fs) => DataView::StructData(fields_model_view(fs)),
        DataModel::EnumData(vs) => DataView::EnumData(variants_view(vs@)),
        DataModel::UnionData => DataView::UnionData,
    }
}

impl View for DataModel {
    type V = DataView;

    open spec fn view(&self) -> DataView {
        data_view(*self)
    }
}

/// One generic parameter of the definition.
pub enum GenericParamModel {
    /// A lifetime parameter, kept as its source text, e.g. `'a`.
    LifetimeParam(String),
    /// A type parameter: its name and, when present, the source text of
    /// its bounds, e.g. `Default + Clone`.
    TypeParamDecl { name: String, bounds: Option<String> },
}

/// The mathematical view of a [`GenericParamModel`].
pub enum GenericParamView {
    LifetimeParam(Seq<char>),
    TypeParamDecl { name: Seq<char>, bounds: Option<Seq<char>> },
}

/// The view of one generic parameter.
pub open spec fn generic_param_view(g: GenericParamModel) -> GenericParamView {
    match g {
        GenericParamModel::LifetimeParam(s) => GenericParamView::LifetimeParam(s@),
        GenericParamModel::TypeParamDecl { name, bounds } => GenericParamView::TypeParamDecl {
            name: name@,
            bounds: match bounds {
                Some(b) => Some(b@),
                None => None,
            },
        },
    }
}

impl View for GenericParamModel {
    type V = GenericParamView;

    open spec fn view(&self) -> GenericParamView {
        generic_param_view(*self)
    }
}

/// The view of a sequence of generic parameters, element by element.
pub open spec fn generics_view(gs: Seq<GenericParamModel>) -> Seq<GenericParamView> {
    Seq::new(gs.len(), |i: int| generic_param_view(gs[i]))
}

/// A parsed structure-or-enum definition, as the host supplies it.
pub struct InputModel {
    /// The defined type's name.
    pub name: String,
    /// The generic parameters, in declaration order.
    pub generics: Vec<GenericParamModel>,
    /// The source text of the `where` clause, when there is one.
    pub where_clause: Option<String>,
    /// The annotations attached to the whole definition.
    pub attrs: Vec<Attr>,
    /// The definition's body.
    pub data: DataModel,
}

/// The mathematical view of an [`InputModel`].
pub struct InputView {
    pub name: Seq<char>,
    pub generics: Seq<GenericParamView>,
    pub where_clause: Option<Seq<char>>,
    pub attrs: Seq<Seq<TokenView>>,
    pub data: DataView,
}

/// The view of a definition.
pub open spec fn input_view(m: InputModel) -> InputView {
    InputView {
        name: m.name@,
        generics: generics_view(m.generics@),
        where_clause: match m.where_clause {
            Some(s) => Some(s@),
            None => None,
        },
        attrs: attrs_view(m.attrs@),
        data: data_view(m.data),
    }
}

impl View for InputModel {
    type V = InputView;

    open spec fn view(&self) -> InputView {
        input_view(*self)
    }
}

} // verus!
