use vstd::prelude::*;

verus! {

/// The operation kinds a flag can request: a mutating setter, a getter that
/// returns an alias to the field, or a getter that returns the field by copy.
#[derive(Clone, Copy, PartialEq, Eq, Structural, Debug)]
pub enum OperationKind {
    SetValue,
    GetByReference,
    GetByCopy,
}

/// An inlining hint carried by a settings list (`inline_always` / `inline_never`).
#[derive(Clone, Copy, PartialEq, Eq, Structural, Debug)]
pub enum InlineHint {
    Always,
    Never,
}

/// One layer of configuration before resolution. Any attribute may be absent,
/// meaning "not specified at this layer".
#[derive(Debug)]
pub struct PartialMethodSettings {
    pub name: Option<String>,
    pub inline: Option<InlineHint>,
    pub vis: Option<String>,
}

/// Ghost mirror of `PartialMethodSettings`, with identifiers as character sequences.
pub struct PartialSettingsView {
    pub name: Option<Seq<char>>,
    pub inline: Option<InlineHint>,
    pub vis: Option<Seq<char>>,
}

impl View for PartialMethodSettings {
    type V = PartialSettingsView;

    open spec fn view(&self) -> PartialSettingsView {
        PartialSettingsView {
            name: match self.name {
                Some(n) => Some(n@),
                None => None,
            },
            inline: self.inline,
            vis: match self.vis {
                Some(v) => Some(v@),
                None => None,
            },
        }
    }
}

/// The settings record that specifies nothing.
pub open spec fn empty_settings() -> PartialSettingsView {
    PartialSettingsView { name: None, inline: None, vis: None }
}

/// The fallback merge: for each attribute keep the left operand's value if
/// present, else take the right operand's value.
pub open spec fn merged(a: PartialSettingsView, b: PartialSettingsView) -> PartialSettingsView {
    PartialSettingsView {
        name: match a.name {
            Some(_) => a.name,
            None => b.name,
        },
        inline: match a.inline {
            Some(_) => a.inline,
            None => b.inline,
        },
        vis: match a.vis {
            Some(_) => a.vis,
            None => b.vis,
        },
    }
}

/// The same record with its name attribute cleared. Default layers never
/// dictate a method's final identifier, so their name is dropped.
pub open spec fn cleared_name(a: PartialSettingsView) -> PartialSettingsView {
    PartialSettingsView { name: None, inline: a.inline, vis: a.vis }
}

impl PartialMethodSettings {
    /// A settings record that specifies nothing.
    pub fn new() -> (r: Self)
        ensures
            r@ == empty_settings(),
    {
        PartialMethodSettings { name: None, inline: None, vis: None }
    }

    /// The fallback merge: prefer this record's present attributes, fall back
    /// to `other`'s for the absent ones.
    pub fn or(self, other: Self) -> (r: Self)
        ensures
            r@ == merged(self@, other@),
    {
        PartialMethodSettings {
            name: match self.name {
                Some(n) => Some(n),
                None => other.name,
            },
            inline: match self.inline {
                Some(i) => Some(i),
                None => other.inline,
            },
            vis: match self.vis {
                Some(v) => Some(v),
                None => other.vis,
            },
        }
    }

    /// This record with its name attribute cleared.
    pub fn remove_name(self) -> (r: Self)
        ensures
            r@ == cleared_name(self@),
    {
        PartialMethodSettings { name: None, inline: self.inline, vis: self.vis }
    }
}

impl Clone for PartialMethodSettings {
    fn clone(&self) -> (r: Self)
        ensures
            r@ == self@,
    {
        PartialMethodSettings {
            name: match &self.name {
                Some(n) => Some(n.clone()),
                None => None,
            },
            inline: self.inline,
            vis: match &self.vis {
                Some(v) => Some(v.clone()),
                None => None,
            },
        }
    }
}

/// A fully-resolved specification for one method of one field: every attribute
/// is determined. `inline` stays optional because "no inlining hint" is itself
/// the hard-coded default.
#[derive(Debug)]
pub struct ResolvedMethodSpec {
    pub kind: OperationKind,
    pub name: String,
    pub inline: Option<InlineHint>,
    pub vis: String,
}

/// Ghost mirror of `ResolvedMethodSpec`.
pub struct ResolvedSpecView {
    pub kind: OperationKind,
    pub name: Seq<char>,
    pub inline: Option<InlineHint>,
    pub vis: Seq<char>,
}

impl View for ResolvedMethodSpec {
    type V = ResolvedSpecView;

    open spec fn view(&self) -> ResolvedSpecView {
        ResolvedSpecView { kind: self.kind, name: self.name@, inline: self.inline, vis: self.vis@ }
    }
}

impl Clone for ResolvedMethodSpec {
    fn clone(&self) -> (r: Self)
        ensures
            r@ == self@,
    {
        ResolvedMethodSpec {
            kind: self.kind,
            name: self.name.clone(),
            inline: self.inline,
            vis: self.vis.clone(),
        }
    }
}

/// The verb that begins a method's fallback name, keyed by operation kind.
pub open spec fn kind_verb(kind: OperationKind) -> Seq<char> {
    match kind {
        OperationKind::SetValue => "set_"@,
        OperationKind::GetByReference => "get_"@,
        OperationKind::GetByCopy => "get_"@,
    }
}

/// The deterministic `<verb>_<field>` fallback name for a method.
pub open spec fn default_method_name(kind: OperationKind, field: Seq<char>) -> Seq<char> {
    kind_verb(kind) + field
}

/// The hard-coded default visibility of a synthesized method.
pub open spec fn default_visibility() -> Seq<char> {
    "pub"@
}

/// Completing a merged settings record into a resolved spec: an absent name
/// falls back to the `<verb>_<field>` pattern, an absent visibility to the
/// default visibility, and an absent inlining hint stays absent.
pub open spec fn spec_complete(
    s: PartialSettingsView,
    kind: OperationKind,
    field: Seq<char>,
) -> ResolvedSpecView {
    ResolvedSpecView {
        kind,
        name: match s.name {
            Some(n) => n,
            None => default_method_name(kind, field),
        },
        inline: s.inline,
        vis: match s.vis {
            Some(v) => v,
            None => default_visibility(),
        },
    }
}

/// Resolution of the four configuration layers for one field and one operation
/// kind, most specific first: field-specific flag, field-wide default,
/// struct-wide flag of the same kind, struct-wide default. Each lower layer
/// only fills gaps left by the higher ones; what is still absent afterwards is
/// completed with the hard-coded defaults.
pub open spec fn spec_resolve(
    field_flag: PartialSettingsView,
    field_default: PartialSettingsView,
    struct_flag: PartialSettingsView,
    struct_default: PartialSettingsView,
    kind: OperationKind,
    field: Seq<char>,
) -> ResolvedSpecView {
    spec_complete(
        merged(merged(merged(field_flag, field_default), struct_flag), struct_default),
        kind,
        field,
    )
}

/// The executable `<verb>_<field>` fallback name.
pub fn default_name(kind: OperationKind, field: &String) -> (r: String)
    ensures
        r@ == default_method_name(kind, field@),
{
    let verb = match kind {
        OperationKind::SetValue => "set_",
        OperationKind::GetByReference => "get_",
        OperationKind::GetByCopy => "get_",
    };
    String::from_str(verb).concat(field.as_str())
}

impl PartialMethodSettings {
    /// Complete this (already merged) settings record for the given kind and
    /// field into a fully-resolved method specification.
    pub fn build(self, kind: OperationKind, field: &String) -> (r: ResolvedMethodSpec)
        ensures
            r@ == spec_complete(self@, kind, field@),
    {
        let name = match self.name {
            Some(n) => n,
            None => default_name(kind, field),
        };
        let vis = match self.vis {
            Some(v) => v,
            None => String::from_str("pub"),
        };
        ResolvedMethodSpec { kind, name, inline: self.inline, vis }
    }

    /// Complete this record while discarding any name it carries: used for the
    /// specs a struct-wide flag derives, whose identifier is always the
    /// `<verb>_<field>` pattern.
    pub fn build_with_default_name(self, kind: OperationKind, field: &String) -> (r:
        ResolvedMethodSpec)
        ensures
            r@ == spec_complete(cleared_name(self@), kind, field@),
    {
        self.remove_name().build(kind, field)
    }
}

} // verus!
