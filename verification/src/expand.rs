use vstd::prelude::*;
use crate::errors::{ExpandError, ExpandErrorView};
use crate::parser::{Flag, FlagView, flags_seq_view};
use crate::registry::{
    FieldEntry,
    FieldEntryView,
    FieldRegistry,
    StructContext,
    build_registry,
    collect_struct_context,
    empty_struct_context,
    entries_seq_view,
    kinded_seq_view,
    spec_entries,
    spec_struct_context,
    specs_seq_view,
    KindedSettings,
};
use crate::settings::PartialMethodSettings;
use crate::structure::{
    FieldAttr,
    FieldAttrView,
    FieldDef,
    FieldDefView,
    StructDef,
    StructDefView,
    StructFields,
    StructFieldsView,
    attrs_seq_view,
    fields_seq_view,
};
use crate::synth::{
    MethodDef,
    MethodDefView,
    methods_seq_view,
    spec_synthesize,
    synthesize_method,
};

verus! {

/// The attributes a field keeps in the emitted structure definition: every
/// annotation that is not the recognized accessor-flag attribute is left
/// untouched; the recognized attribute is consumed.
pub open spec fn spec_kept_attrs(attrs: Seq<FieldAttrView>) -> Seq<FieldAttrView>
    decreases attrs.len(),
{
    if attrs.len() == 0 {
        Seq::empty()
    } else {
        let rest = spec_kept_attrs(attrs.drop_last());
        match attrs.last() {
            FieldAttrView::Other(_) => rest.push(attrs.last()),
            _ => rest,
        }
    }
}

/// One field as it is emitted: unchanged but for the consumed attribute.
pub open spec fn spec_stripped_field(fd: FieldDefView) -> FieldDefView {
    FieldDefView { name: fd.name, ty: fd.ty, attrs: spec_kept_attrs(fd.attrs) }
}

/// The emitted fields, in declaration order.
pub open spec fn spec_stripped_fields(fds: Seq<FieldDefView>) -> Seq<FieldDefView> {
    fds.map_values(|fd: FieldDefView| spec_stripped_field(fd))
}

/// The methods one registry entry synthesizes, in spec order.
pub open spec fn spec_entry_methods(e: FieldEntryView) -> Seq<MethodDefView> {
    e.specs.map_values(|s| spec_synthesize(s, e.field, e.ty))
}

/// The methods of all registry entries, in registry order.
pub open spec fn spec_methods_acc(entries: Seq<FieldEntryView>, acc: Seq<MethodDefView>) -> Seq<
    MethodDefView,
>
    decreases entries.len(),
{
    if entries.len() == 0 {
        acc
    } else {
        spec_methods_acc(entries.drop_first(), acc + spec_entry_methods(entries[0]))
    }
}

/// One output unit: the structure definition with the accessor attributes
/// consumed, and the synthesized methods of its implementation block.
#[derive(Debug)]
pub struct Expansion {
    pub item: StructDef,
    pub methods: Vec<MethodDef>,
}

/// Ghost mirror of `Expansion`.
pub struct ExpansionView {
    pub item: StructDefView,
    pub methods: Seq<MethodDefView>,
}

impl View for Expansion {
    type V = ExpansionView;

    open spec fn view(&self) -> ExpansionView {
        ExpansionView { item: self.item@, methods: methods_seq_view(self.methods@) }
    }
}

/// The view of the optional struct-level flag list.
pub open spec fn gs_attrs_view(o: Option<Vec<Flag>>) -> Option<Seq<FlagView>> {
    match o {
        Some(flags) => Some(flags_seq_view(flags@)),
        None => None,
    }
}

/// The view of an expansion result.
pub open spec fn expansion_result_view(r: Result<Expansion, ExpandError>) -> Result<
    ExpansionView,
    ExpandErrorView,
> {
    match r {
        Ok(x) => Ok(x@),
        Err(e) => Err(e@),
    }
}

/// The whole expansion of one annotated structure: the struct-wide
/// configuration is collected from the struct-level flags, every named field
/// is resolved into its registry entry, each resolved spec is synthesized into
/// a method, and the output unit pairs the stripped structure definition with
/// the methods. A structure without named fields is rejected.
pub open spec fn spec_expand(gs_attrs: Option<Seq<FlagView>>, input: StructDefView) -> Result<
    ExpansionView,
    ExpandErrorView,
> {
    let ctx_r = match gs_attrs {
        Option::None => Ok(empty_struct_context()),
        Option::Some(flags) => spec_struct_context(flags),
    };
    match ctx_r {
        Err(e) => Err(e),
        Ok(ctx) => match input.fields {
            StructFieldsView::Named(fds) => match spec_entries(fds, ctx, Seq::empty()) {
                Err(e) => Err(e),
                Ok(entries) => Ok(
                    ExpansionView {
                        item: StructDefView {
                            name: input.name,
                            fields: StructFieldsView::Named(spec_stripped_fields(fds)),
                        },
                        methods: spec_methods_acc(entries, Seq::empty()),
                    },
                ),
            },
            _ => Err(ExpandErrorView::UnsupportedShape),
        },
    }
}

/// The attributes a field keeps in the emitted definition.
fn kept_attrs(attrs: &Vec<FieldAttr>) -> (r: Vec<FieldAttr>)
    ensures
        attrs_seq_view(r@) == spec_kept_attrs(attrs_seq_view(attrs@)),
{
    let ghost av = attrs_seq_view(attrs@);
    let mut out: Vec<FieldAttr> = Vec::new();
    let mut i: usize = 0;
    proof {
        assert(attrs_seq_view(out@) =~= spec_kept_attrs(av.take(0)));
    }
    while i < attrs.len()
        invariant
            i <= attrs@.len(),
            av == attrs_seq_view(attrs@),
            attrs_seq_view(out@) == spec_kept_attrs(av.take(i as int)),
        decreases attrs@.len() - i,
    {
        proof {
            assert(av.take(i as int + 1).drop_last() =~= av.take(i as int));
            assert(av.take(i as int + 1).last() == av[i as int]);
        }
        let ghost outv = attrs_seq_view(out@);
        match &attrs[i] {
            FieldAttr::Other(t) => {
                let item = FieldAttr::Other(t.clone());
                let ghost itemv = item@;
                proof {
                    assert(itemv == av[i as int]);
                }
                out.push(item);
                proof {
                    assert(attrs_seq_view(out@) =~= outv.push(itemv));
                }
            },
            _ => {},
        }
        i = i + 1;
    }
    proof {
        assert(av.take(attrs@.len() as int) =~= av);
    }
    out
}

/// One field as it is emitted.
fn strip_field(fd: &FieldDef) -> (r: FieldDef)
    ensures
        r@ == spec_stripped_field(fd@),
{
    FieldDef { name: fd.name.clone(), ty: fd.ty.clone(), attrs: kept_attrs(&fd.attrs) }
}

/// The emitted fields, in declaration order.
fn strip_fields(fds: &Vec<FieldDef>) -> (r: Vec<FieldDef>)
    ensures
        fields_seq_view(r@) == spec_stripped_fields(fields_seq_view(fds@)),
{
    let ghost fv = fields_seq_view(fds@);
    let mut out: Vec<FieldDef> = Vec::new();
    let mut i: usize = 0;
    while i < fds.len()
        invariant
            i <= fds@.len(),
            fv == fields_seq_view(fds@),
            out@.len() == i,
            forall|l: int| 0 <= l < i ==> fields_seq_view(out@)[l] == spec_stripped_field(fv[l]),
        decreases fds@.len() - i,
    {
        let ghost outv = fields_seq_view(out@);
        let item = strip_field(&fds[i]);
        let ghost itemv = item@;
        out.push(item);
        proof {
            assert(fields_seq_view(out@) =~= outv.push(itemv));
        }
        i = i + 1;
    }
    proof {
        assert(fields_seq_view(out@) =~= spec_stripped_fields(fv));
    }
    out
}

/// Appends the methods one registry entry synthesizes.
fn append_entry_methods(acc: Vec<MethodDef>, e: &FieldEntry) -> (r: Vec<MethodDef>)
    ensures
        methods_seq_view(r@) == methods_seq_view(acc@) + spec_entry_methods(e@),
{
    let ghost accv = methods_seq_view(acc@);
    let ghost emv = spec_entry_methods(e@);
    let mut out = acc;
    let mut j: usize = 0;
    while j < e.specs.len()
        invariant
            j <= e.specs@.len(),
            accv == methods_seq_view(out@).take(accv.len() as int),
            emv == spec_entry_methods(e@),
            methods_seq_view(out@).len() == accv.len() + j,
            forall|l: int| 0 <= l < accv.len() ==> methods_seq_view(out@)[l] == accv[l],
            forall|l: int| 0 <= l < j ==> methods_seq_view(out@)[accv.len() + l] == emv[l],
        decreases e.specs@.len() - j,
    {
        let ghost outv = methods_seq_view(out@);
        let m = synthesize_method(&e.specs[j], &e.field, &e.ty);
        let ghost mv = m@;
        proof {
            assert(specs_seq_view(e.specs@)[j as int] == e.specs@[j as int]@);
            assert(mv == emv[j as int]);
        }
        out.push(m);
        proof {
            assert(methods_seq_view(out@) =~= outv.push(mv));
        }
        j = j + 1;
    }
    proof {
        assert(methods_seq_view(out@) =~= accv + emv);
    }
    out
}

/// Synthesizes the methods of the registry entries from position `i` on.
fn methods_from(entries: &Vec<FieldEntry>, i: usize, acc: Vec<MethodDef>) -> (r: Vec<MethodDef>)
    requires
        i <= entries@.len(),
    ensures
        methods_seq_view(r@) == spec_methods_acc(
            entries_seq_view(entries@).skip(i as int),
            methods_seq_view(acc@),
        ),
    decreases entries@.len() - i,
{
    let ghost ev = entries_seq_view(entries@);
    if i == entries.len() {
        proof {
            assert(ev.skip(i as int).len() == 0);
        }
        acc
    } else {
        proof {
            assert(ev.skip(i as int)[0] == ev[i as int]);
            assert(ev.skip(i as int).drop_first() =~= ev.skip(i as int + 1));
        }
        let acc2 = append_entry_methods(acc, &entries[i]);
        methods_from(entries, i + 1, acc2)
    }
}

/// Synthesizes the methods of all registry entries, in registry order.
pub fn synthesize_all(entries: &Vec<FieldEntry>) -> (r: Vec<MethodDef>)
    ensures
        methods_seq_view(r@) == spec_methods_acc(entries_seq_view(entries@), Seq::empty()),
{
    proof {
        assert(entries_seq_view(entries@).skip(0) =~= entries_seq_view(entries@));
        assert(methods_seq_view(Seq::<MethodDef>::empty()) =~= Seq::<MethodDefView>::empty());
    }
    methods_from(entries, 0, Vec::new())
}

/// Expands one annotated structure definition: collects the struct-wide
/// configuration from the struct-level flags, resolves every named field into
/// its registry entry, synthesizes one method per resolved spec, and emits the
/// stripped structure definition together with the methods as one output unit.
/// A malformed flag anywhere invalidates the whole expansion; a structure
/// without named fields is rejected.
pub fn expand_get_set(gs_attrs: Option<Vec<Flag>>, input: StructDef) -> (r: Result<
    Expansion,
    ExpandError,
>)
    ensures
        expansion_result_view(r) == spec_expand(gs_attrs_view(gs_attrs), input@),
{
    let ctx = match &gs_attrs {
        Option::None => {
            let c = StructContext {
                default_props: PartialMethodSettings::new(),
                kind_props: Vec::new(),
            };
            proof {
                assert(kinded_seq_view(Seq::<KindedSettings>::empty()) =~= Seq::<
                    crate::registry::KindedSettingsView,
                >::empty());
                assert(c@ == empty_struct_context());
            }
            c
        },
        Option::Some(flags) => match collect_struct_context(flags) {
            Err(e) => return Err(e),
            Ok(c) => c,
        },
    };
    match input.fields {
        StructFields::Named(fds) => {
            let registry = match build_registry(&fds, &ctx) {
                Err(e) => return Err(e),
                Ok(rg) => rg,
            };
            let methods = synthesize_all(&registry.entries);
            let stripped = strip_fields(&fds);
            Ok(
                Expansion {
                    item: StructDef { name: input.name, fields: StructFields::Named(stripped) },
                    methods,
                },
            )
        },
        StructFields::Unnamed => Err(ExpandError::UnsupportedShape),
        StructFields::Unit => Err(ExpandError::UnsupportedShape),
    }
}

} // verus!
