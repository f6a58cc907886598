use vstd::prelude::*;
use crate::settings::{
    OperationKind,
    InlineHint,
    ResolvedMethodSpec,
    ResolvedSpecView,
};
use crate::structure::{TypeRef, TypeRefView};

verus! {

/// The body of a synthesized method: assign the single parameter to the field,
/// read the field as it is declared, or read an alias of the field.
#[derive(Debug)]
pub enum MethodBody {
    AssignParamToField(String),
    ReadField(String),
    ReadFieldRef(String),
}

/// Ghost mirror of `MethodBody`.
pub enum MethodBodyView {
    AssignParamToField(Seq<char>),
    ReadField(Seq<char>),
    ReadFieldRef(Seq<char>),
}

impl View for MethodBody {
    type V = MethodBodyView;

    open spec fn view(&self) -> MethodBodyView {
        match self {
            MethodBody::AssignParamToField(f) => MethodBodyView::AssignParamToField(f@),
            MethodBody::ReadField(f) => MethodBodyView::ReadField(f@),
            MethodBody::ReadFieldRef(f) => MethodBodyView::ReadFieldRef(f@),
        }
    }
}

/// The field a method body touches.
pub open spec fn spec_body_field(b: MethodBodyView) -> Seq<char> {
    match b {
        MethodBodyView::AssignParamToField(f) => f,
        MethodBodyView::ReadField(f) => f,
        MethodBodyView::ReadFieldRef(f) => f,
    }
}

/// The single parameter of a synthesized setter.
#[derive(Debug)]
pub struct ParamDef {
    pub name: String,
    pub ty: TypeRef,
}

/// Ghost mirror of `ParamDef`.
pub struct ParamDefView {
    pub name: Seq<char>,
    pub ty: TypeRefView,
}

impl View for ParamDef {
    type V = ParamDefView;

    open spec fn view(&self) -> ParamDefView {
        ParamDefView { name: self.name@, ty: self.ty@ }
    }
}

/// One synthesized method definition: its identifier, inlining hint and
/// visibility taken verbatim from the resolved spec, and the shape its
/// operation kind dictates: whether it mutates the receiver, its parameter
/// list, its return type, and its body.
#[derive(Debug)]
pub struct MethodDef {
    pub name: String,
    pub inline: Option<InlineHint>,
    pub vis: String,
    pub mutates: bool,
    pub param: Option<ParamDef>,
    pub ret: Option<TypeRef>,
    pub body: MethodBody,
}

/// Ghost mirror of `MethodDef`.
pub struct MethodDefView {
    pub name: Seq<char>,
    pub inline: Option<InlineHint>,
    pub vis: Seq<char>,
    pub mutates: bool,
    pub param: Option<ParamDefView>,
    pub ret: Option<TypeRefView>,
    pub body: MethodBodyView,
}

impl View for MethodDef {
    type V = MethodDefView;

    open spec fn view(&self) -> MethodDefView {
        MethodDefView {
            name: self.name@,
            inline: self.inline,
            vis: self.vis@,
            mutates: self.mutates,
            param: match &self.param {
                Some(p) => Some(p@),
                None => None,
            },
            ret: match &self.ret {
                Some(t) => Some(t@),
                None => None,
            },
            body: self.body@,
        }
    }
}

/// The view of a sequence of methods.
pub open spec fn methods_seq_view(s: Seq<MethodDef>) -> Seq<MethodDefView> {
    s.map_values(|m: MethodDef| m@)
}

/// The name of a setter's parameter: `new_<field>`.
pub open spec fn spec_param_name(field: Seq<char>) -> Seq<char> {
    "new_"@ + field
}

/// The return type of a getter that aliases the field: the field's own type
/// when that is already an aliasing type — no indirection is added — and a
/// reference to it otherwise.
pub open spec fn spec_ref_return(ty: TypeRefView) -> TypeRefView {
    if ty.is_reference {
        ty
    } else {
        TypeRefView { is_reference: true, base: ty.base }
    }
}

/// The method one resolved spec synthesizes for a field of the given type.
///
/// A `SetValue` spec yields a mutating method with one parameter
/// `new_<field>` of the field's type and no return value, whose body assigns
/// the parameter to the field. A `GetByCopy` spec yields a non-mutating method
/// without parameters returning the field's declared type exactly, whose body
/// reads the field. A `GetByReference` spec yields a non-mutating method
/// without parameters whose return type and body alias the field, adding a
/// reference only when the field's type is not already one.
pub open spec fn spec_synthesize(
    s: ResolvedSpecView,
    field: Seq<char>,
    ty: TypeRefView,
) -> MethodDefView {
    match s.kind {
        OperationKind::SetValue => MethodDefView {
            name: s.name,
            inline: s.inline,
            vis: s.vis,
            mutates: true,
            param: Some(ParamDefView { name: spec_param_name(field), ty }),
            ret: None,
            body: MethodBodyView::AssignParamToField(field),
        },
        OperationKind::GetByCopy => MethodDefView {
            name: s.name,
            inline: s.inline,
            vis: s.vis,
            mutates: false,
            param: None,
            ret: Some(ty),
            body: MethodBodyView::ReadField(field),
        },
        OperationKind::GetByReference => MethodDefView {
            name: s.name,
            inline: s.inline,
            vis: s.vis,
            mutates: false,
            param: None,
            ret: Some(spec_ref_return(ty)),
            body: if ty.is_reference {
                MethodBodyView::ReadField(field)
            } else {
                MethodBodyView::ReadFieldRef(field)
            },
        },
    }
}

/// Synthesizes the method one resolved spec describes for a field of the
/// given type.
pub fn synthesize_method(spec: &ResolvedMethodSpec, field: &String, ty: &TypeRef) -> (m: MethodDef)
    ensures
        m@ == spec_synthesize(spec@, field@, ty@),
{
    match spec.kind {
        OperationKind::SetValue => MethodDef {
            name: spec.name.clone(),
            inline: spec.inline,
            vis: spec.vis.clone(),
            mutates: true,
            param: Some(
                ParamDef {
                    name: String::from_str("new_").concat(field.as_str()),
                    ty: ty.clone(),
                },
            ),
            ret: None,
            body: MethodBody::AssignParamToField(field.clone()),
        },
        OperationKind::GetByCopy => MethodDef {
            name: spec.name.clone(),
            inline: spec.inline,
            vis: spec.vis.clone(),
            mutates: false,
            param: None,
            ret: Some(ty.clone()),
            body: MethodBody::ReadField(field.clone()),
        },
        OperationKind::GetByReference => MethodDef {
            name: spec.name.clone(),
            inline: spec.inline,
            vis: spec.vis.clone(),
            mutates: false,
            param: None,
            ret: Some(
                if ty.is_reference {
                    ty.clone()
                } else {
                    TypeRef { is_reference: true, base: ty.base.clone() }
                },
            ),
            body: if ty.is_reference {
                MethodBody::ReadField(field.clone())
            } else {
                MethodBody::ReadFieldRef(field.clone())
            },
        },
    }
}

} // verus!
