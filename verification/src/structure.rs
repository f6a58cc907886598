use vstd::prelude::*;
use crate::parser::{Flag, FlagView, flags_seq_view};

verus! {

/// The shape of a field's declared type, as far as synthesis reads it: whether
/// it is already an aliasing (reference) type, and its text otherwise opaque.
#[derive(Debug)]
pub struct TypeRef {
    pub is_reference: bool,
    pub base: String,
}

/// Ghost mirror of `TypeRef`.
pub struct TypeRefView {
    pub is_reference: bool,
    pub base: Seq<char>,
}

impl View for TypeRef {
    type V = TypeRefView;

    open spec fn view(&self) -> TypeRefView {
        TypeRefView { is_reference: self.is_reference, base: self.base@ }
    }
}

impl Clone for TypeRef {
    fn clone(&self) -> (r: Self)
        ensures
            r == *self,
    {
        TypeRef { is_reference: self.is_reference, base: self.base.clone() }
    }
}

/// One annotation attached to a field: the recognized accessor-flag list, the
/// recognized attribute in an unusable shape (not a parenthesized list), or
/// any other annotation, carried through untouched as opaque text.
#[derive(Debug)]
pub enum FieldAttr {
    GsFlags(Vec<Flag>),
    GsFlagsMisused,
    Other(String),
}

/// Ghost mirror of `FieldAttr`.
pub enum FieldAttrView {
    GsFlags(Seq<FlagView>),
    GsFlagsMisused,
    Other(Seq<char>),
}

impl View for FieldAttr {
    type V = FieldAttrView;

    open spec fn view(&self) -> FieldAttrView {
        match self {
            FieldAttr::GsFlags(flags) => FieldAttrView::GsFlags(flags_seq_view(flags@)),
            FieldAttr::GsFlagsMisused => FieldAttrView::GsFlagsMisused,
            FieldAttr::Other(t) => FieldAttrView::Other(t@),
        }
    }
}

/// The view of a sequence of field attributes.
pub open spec fn attrs_seq_view(s: Seq<FieldAttr>) -> Seq<FieldAttrView> {
    s.map_values(|a: FieldAttr| a@)
}

/// One named field of the structure: its identifier, its declared type, and
/// its annotations.
#[derive(Debug)]
pub struct FieldDef {
    pub name: String,
    pub ty: TypeRef,
    pub attrs: Vec<FieldAttr>,
}

/// Ghost mirror of `FieldDef`.
pub struct FieldDefView {
    pub name: Seq<char>,
    pub ty: TypeRefView,
    pub attrs: Seq<FieldAttrView>,
}

impl View for FieldDef {
    type V = FieldDefView;

    open spec fn view(&self) -> FieldDefView {
        FieldDefView { name: self.name@, ty: self.ty@, attrs: attrs_seq_view(self.attrs@) }
    }
}

/// The view of a sequence of fields.
pub open spec fn fields_seq_view(s: Seq<FieldDef>) -> Seq<FieldDefView> {
    s.map_values(|f: FieldDef| f@)
}

/// The fields of a structure definition: named fields are the supported shape.
#[derive(Debug)]
pub enum StructFields {
    Named(Vec<FieldDef>),
    Unnamed,
    Unit,
}

/// Ghost mirror of `StructFields`.
pub enum StructFieldsView {
    Named(Seq<FieldDefView>),
    Unnamed,
    Unit,
}

impl View for StructFields {
    type V = StructFieldsView;

    open spec fn view(&self) -> StructFieldsView {
        match self {
            StructFields::Named(fds) => StructFieldsView::Named(fields_seq_view(fds@)),
            StructFields::Unnamed => StructFieldsView::Unnamed,
            StructFields::Unit => StructFieldsView::Unit,
        }
    }
}

/// A structure definition in the abstract form the engine consumes: its
/// identifier and its fields.
#[derive(Debug)]
pub struct StructDef {
    pub name: String,
    pub fields: StructFields,
}

/// Ghost mirror of `StructDef`.
pub struct StructDefView {
    pub name: Seq<char>,
    pub fields: StructFieldsView,
}

impl View for StructDef {
    type V = StructDefView;

    open spec fn view(&self) -> StructDefView {
        StructDefView { name: self.name@, fields: self.fields@ }
    }
}

} // verus!
