use vstd::prelude::*;
use crate::errors::ExpandErrorView;
use crate::expand::{spec_entry_methods, spec_expand, spec_methods_acc, ExpansionView};
use crate::parser::{spec_default_props, spec_flag_kind, spec_flag_props, spec_flag_word, FlagView};
use crate::registry::{
    FieldEntryView,
    KindedSettingsView,
    StructContextView,
    empty_struct_context,
    spec_derived_specs,
    spec_entries,
    spec_explicit_specs,
    spec_field_entry,
    spec_field_flags,
    spec_has_skip,
    spec_kind_layer,
    spec_specs_have_name,
    spec_struct_context,
};
use crate::semantics::{
    FieldBinding,
    Value,
    lemma_lookup_after_store,
    spec_getter_result,
    spec_lookup,
    spec_setter_effect,
};
use crate::settings::{
    empty_settings,
    OperationKind,
    PartialSettingsView,
    ResolvedSpecView,
    default_method_name,
    default_visibility,
    spec_complete,
    spec_resolve,
};
use crate::structure::{FieldDefView, StructDefView, StructFieldsView, TypeRefView};
use crate::synth::{spec_body_field, spec_synthesize, MethodDefView};

verus! {

/// A field marked `skip` resolves to an empty spec set, whatever the
/// struct-wide flags and defaults say, so nothing is ever synthesized for it.
pub proof fn lemma_skip_suppresses_all(
    fd: FieldDefView,
    ctx: StructContextView,
    flags: Seq<FlagView>,
    entry: FieldEntryView,
)
    requires
        spec_field_flags(fd.attrs, Seq::empty()) == Ok::<Seq<FlagView>, ExpandErrorView>(flags),
        spec_has_skip(flags),
        spec_field_entry(fd, ctx) == Ok::<FieldEntryView, ExpandErrorView>(entry),
    ensures
        entry.all_skip,
        entry.specs.len() == 0,
        spec_entry_methods(entry) == Seq::<crate::synth::MethodDefView>::empty(),
{
    assert(spec_entry_methods(entry) =~= Seq::<crate::synth::MethodDefView>::empty());
}

/// A registry entry carries the name and the type of the field it was
/// resolved from.
pub proof fn lemma_entry_names_its_field(
    fd: FieldDefView,
    ctx: StructContextView,
    entry: FieldEntryView,
)
    requires
        spec_field_entry(fd, ctx) == Ok::<FieldEntryView, ExpandErrorView>(entry),
    ensures
        entry.field == fd.name,
        entry.ty == fd.ty,
{
}

/// An `Ok` registry holds one entry per field, in declaration order, each the
/// resolution of its field.
pub proof fn lemma_entries_pointwise(
    fds: Seq<FieldDefView>,
    ctx: StructContextView,
    acc: Seq<FieldEntryView>,
    es: Seq<FieldEntryView>,
)
    requires
        spec_entries(fds, ctx, acc) == Ok::<Seq<FieldEntryView>, ExpandErrorView>(es),
    ensures
        es.len() == acc.len() + fds.len(),
        forall|k: int| 0 <= k < acc.len() ==> es[k] == acc[k],
        forall|k: int|
            0 <= k < fds.len() ==> spec_field_entry(fds[k], ctx) == Ok::<
                FieldEntryView,
                ExpandErrorView,
            >(es[acc.len() + k]),
    decreases fds.len(),
{
    if fds.len() == 0 {
    } else {
        match spec_field_entry(fds[0], ctx) {
            Ok(entry) => {
                lemma_entries_pointwise(fds.drop_first(), ctx, acc.push(entry), es);
                assert forall|k: int| 0 <= k < fds.len() implies spec_field_entry(fds[k], ctx)
                    == Ok::<FieldEntryView, ExpandErrorView>(es[acc.len() + k]) by {
                    if k == 0 {
                        assert(es[acc.len() as int] == acc.push(entry)[acc.len() as int]);
                    } else {
                        assert(fds.drop_first()[k - 1] == fds[k]);
                    }
                }
            },
            Err(_) => {
                assert(false);
            },
        }
    }
}

/// Every method the emitter assembles reads or writes the field of the entry
/// it was synthesized from: if every entry is either about another field or
/// empty, no method touches the given field.
pub proof fn lemma_methods_avoid_field(
    entries: Seq<FieldEntryView>,
    acc: Seq<MethodDefView>,
    name: Seq<char>,
)
    requires
        forall|k: int|
            0 <= k < entries.len() ==> entries[k].field != name || entries[k].specs.len() == 0,
        forall|j: int| 0 <= j < acc.len() ==> spec_body_field(#[trigger] acc[j].body) != name,
    ensures
        forall|j: int|
            0 <= j < spec_methods_acc(entries, acc).len() ==> spec_body_field(
                #[trigger] spec_methods_acc(entries, acc)[j].body,
            ) != name,
    decreases entries.len(),
{
    if entries.len() == 0 {
    } else {
        let em = spec_entry_methods(entries[0]);
        let acc2 = acc + em;
        assert forall|j: int| 0 <= j < acc2.len() implies spec_body_field(
            #[trigger] acc2[j].body,
        ) != name by {
            if j < acc.len() {
                assert(acc2[j] == acc[j]);
            } else {
                assert(acc2[j] == em[j - acc.len()]);
                let s = entries[0].specs[j - acc.len()];
                assert(em[j - acc.len()] == spec_synthesize(s, entries[0].field, entries[0].ty));
                assert(spec_body_field(spec_synthesize(s, entries[0].field, entries[0].ty).body)
                    == entries[0].field);
            }
        }
        lemma_methods_avoid_field(entries.drop_first(), acc2, name);
    }
}

/// The skip law at the level of the whole expansion: when a field of the input
/// carries the `skip` marker and expansion succeeds, no method of the output —
/// getter or setter — reads or writes that field, whatever the struct-wide
/// flags and defaults say. The fields are assumed pairwise distinct by name,
/// as in any well-formed structure definition.
pub proof fn lemma_skip_suppresses_in_expansion(
    gs_attrs: Option<Seq<FlagView>>,
    input: StructDefView,
    fds: Seq<FieldDefView>,
    i: int,
    flags: Seq<FlagView>,
    out: ExpansionView,
)
    requires
        input.fields == StructFieldsView::Named(fds),
        forall|a: int, b: int|
            0 <= a < b < fds.len() ==> (#[trigger] fds[a].name) != (#[trigger] fds[b].name),
        0 <= i < fds.len(),
        spec_field_flags(fds[i].attrs, Seq::empty()) == Ok::<Seq<FlagView>, ExpandErrorView>(
            flags,
        ),
        spec_has_skip(flags),
        spec_expand(gs_attrs, input) == Ok::<ExpansionView, ExpandErrorView>(out),
    ensures
        forall|j: int|
            0 <= j < out.methods.len() ==> spec_body_field(#[trigger] out.methods[j].body)
                != fds[i].name,
{
    let ctx = match gs_attrs {
        Option::None => empty_struct_context(),
        Option::Some(fl) => match spec_struct_context(fl) {
            Ok(c) => c,
            Err(_) => empty_struct_context(),
        },
    };
    let entries_r = spec_entries(fds, ctx, Seq::empty());
    assert(entries_r is Ok);
    let es = match entries_r {
        Ok(es) => es,
        Err(_) => Seq::empty(),
    };
    assert(out.methods == spec_methods_acc(es, Seq::empty()));
    lemma_entries_pointwise(fds, ctx, Seq::empty(), es);
    assert forall|k: int|
        0 <= k < es.len() implies es[k].field != fds[i].name || es[k].specs.len() == 0 by {
        lemma_entry_names_its_field(fds[k], ctx, es[k]);
        if k == i {
            lemma_skip_suppresses_all(fds[i], ctx, flags, es[i]);
        }
    }
    lemma_methods_avoid_field(es, Seq::empty(), fds[i].name);
}

/// Resolution picks, for each attribute independently, the most specific layer
/// that defines it: field-specific flag, then field-wide default, then the
/// struct-wide flag of the same kind, then the struct-wide default, and the
/// hard-coded fallback only when no layer defines it.
pub proof fn lemma_most_specific_wins(
    l1: PartialSettingsView,
    l2: PartialSettingsView,
    l3: PartialSettingsView,
    l4: PartialSettingsView,
    kind: OperationKind,
    field: Seq<char>,
)
    ensures
        ({
            let r = spec_resolve(l1, l2, l3, l4, kind, field);
            &&& (l1.name matches Some(n) ==> r.name == n)
            &&& (l1.name is None ==> (l2.name matches Some(n) ==> r.name == n))
            &&& (l1.name is None && l2.name is None ==> (l3.name matches Some(n) ==> r.name == n))
            &&& (l1.name is None && l2.name is None && l3.name is None ==> (l4.name matches Some(n)
                ==> r.name == n))
            &&& (l1.name is None && l2.name is None && l3.name is None && l4.name is None
                ==> r.name == default_method_name(kind, field))
            &&& (l1.inline matches Some(h) ==> r.inline == Some(h))
            &&& (l1.inline is None ==> (l2.inline matches Some(h) ==> r.inline == Some(h)))
            &&& (l1.inline is None && l2.inline is None ==> (l3.inline matches Some(h) ==> r.inline
                == Some(h)))
            &&& (l1.inline is None && l2.inline is None && l3.inline is None ==> (
            l4.inline matches Some(h) ==> r.inline == Some(h)))
            &&& (l1.inline is None && l2.inline is None && l3.inline is None && l4.inline is None
                ==> r.inline is None)
            &&& (l1.vis matches Some(v) ==> r.vis == v)
            &&& (l1.vis is None ==> (l2.vis matches Some(v) ==> r.vis == v))
            &&& (l1.vis is None && l2.vis is None ==> (l3.vis matches Some(v) ==> r.vis == v))
            &&& (l1.vis is None && l2.vis is None && l3.vis is None ==> (l4.vis matches Some(v)
                ==> r.vis == v))
            &&& (l1.vis is None && l2.vis is None && l3.vis is None && l4.vis is None ==> r.vis
                == default_visibility())
            &&& r.kind == kind
        }),
{
}

/// The settings record a resolved spec fully determines.
pub open spec fn spec_settings_of(r: ResolvedSpecView) -> PartialSettingsView {
    PartialSettingsView { name: Some(r.name), inline: r.inline, vis: Some(r.vis) }
}

/// Resolution is idempotent: resolving the same four layers again yields the
/// identical spec, completing an already-resolved spec changes nothing, and
/// re-resolving with the previous resolution as the most specific layer over
/// the same lower layers yields the identical spec again.
pub proof fn lemma_resolution_idempotent(
    l1: PartialSettingsView,
    l2: PartialSettingsView,
    l3: PartialSettingsView,
    l4: PartialSettingsView,
    kind: OperationKind,
    field: Seq<char>,
)
    ensures
        ({
            let r = spec_resolve(l1, l2, l3, l4, kind, field);
            &&& spec_resolve(l1, l2, l3, l4, kind, field) == r
            &&& spec_complete(spec_settings_of(r), kind, field) == r
            &&& spec_resolve(spec_settings_of(r), l2, l3, l4, kind, field) == r
        }),
{
}

/// A `rename` supplied at the field-flag layer names the synthesized method
/// exactly, overriding the `<verb>_<field>` fallback pattern. (The default
/// layers and the struct-wide flag layer reach resolution with their name
/// attribute cleared, so a rename can only take effect from this layer.)
pub proof fn lemma_rename_overrides_default(
    l1: PartialSettingsView,
    l2: PartialSettingsView,
    l3: PartialSettingsView,
    l4: PartialSettingsView,
    kind: OperationKind,
    field: Seq<char>,
    n: Seq<char>,
)
    requires
        l1.name == Some(n),
    ensures
        spec_resolve(l1, l2, l3, l4, kind, field).name == n,
{
}

/// The explicit pass only appends: what was accumulated stays, in place.
proof fn lemma_explicit_prefix(
    flags: Seq<FlagView>,
    l2: PartialSettingsView,
    ks: Seq<KindedSettingsView>,
    l4: PartialSettingsView,
    field: Seq<char>,
    acc: Seq<ResolvedSpecView>,
    v: Seq<ResolvedSpecView>,
)
    requires
        spec_explicit_specs(flags, l2, ks, l4, field, acc) == Ok::<
            Seq<ResolvedSpecView>,
            ExpandErrorView,
        >(v),
    ensures
        v.len() >= acc.len(),
        forall|j: int| 0 <= j < acc.len() ==> v[j] == acc[j],
    decreases flags.len(),
{
    if flags.len() == 0 {
    } else {
        let f = flags[0];
        let w = spec_flag_word(f);
        if w == "default"@ || w == "skip"@ {
            lemma_explicit_prefix(flags.drop_first(), l2, ks, l4, field, acc, v);
        } else {
            match spec_flag_props(f) {
                Err(_) => {
                    assert(false);
                },
                Ok(l1) => match spec_flag_kind(f) {
                    Err(_) => {
                        assert(false);
                    },
                    Ok(k) => {
                        let r = spec_resolve(l1, l2, spec_kind_layer(ks, k), l4, k, field);
                        lemma_explicit_prefix(
                            flags.drop_first(),
                            l2,
                            ks,
                            l4,
                            field,
                            acc.push(r),
                            v,
                        );
                    },
                },
            }
        }
    }
}

/// Every operation flag of the field leaves its resolution in the explicit
/// pass's result: the four-layer resolution of flag `m` is among the specs.
proof fn lemma_explicit_contains(
    flags: Seq<FlagView>,
    l2: PartialSettingsView,
    ks: Seq<KindedSettingsView>,
    l4: PartialSettingsView,
    field: Seq<char>,
    acc: Seq<ResolvedSpecView>,
    v: Seq<ResolvedSpecView>,
    m: int,
    l1: PartialSettingsView,
    k: OperationKind,
)
    requires
        spec_explicit_specs(flags, l2, ks, l4, field, acc) == Ok::<
            Seq<ResolvedSpecView>,
            ExpandErrorView,
        >(v),
        0 <= m < flags.len(),
        spec_flag_word(flags[m]) != "default"@,
        spec_flag_word(flags[m]) != "skip"@,
        spec_flag_props(flags[m]) == Ok::<PartialSettingsView, ExpandErrorView>(l1),
        spec_flag_kind(flags[m]) == Ok::<OperationKind, ExpandErrorView>(k),
    ensures
        exists|n: int|
            0 <= n < v.len() && v[n] == spec_resolve(
                l1,
                l2,
                spec_kind_layer(ks, k),
                l4,
                k,
                field,
            ),
    decreases flags.len(),
{
    let f = flags[0];
    let w = spec_flag_word(f);
    if w == "default"@ || w == "skip"@ {
        assert(flags.drop_first()[m - 1] == flags[m]);
        lemma_explicit_contains(flags.drop_first(), l2, ks, l4, field, acc, v, m - 1, l1, k);
    } else {
        match spec_flag_props(f) {
            Err(_) => {
                assert(false);
            },
            Ok(l1h) => match spec_flag_kind(f) {
                Err(_) => {
                    assert(false);
                },
                Ok(kh) => {
                    let r = spec_resolve(l1h, l2, spec_kind_layer(ks, kh), l4, kh, field);
                    if m == 0 {
                        lemma_explicit_prefix(
                            flags.drop_first(),
                            l2,
                            ks,
                            l4,
                            field,
                            acc.push(r),
                            v,
                        );
                        assert(v[acc.len() as int] == r);
                    } else {
                        assert(flags.drop_first()[m - 1] == flags[m]);
                        lemma_explicit_contains(
                            flags.drop_first(),
                            l2,
                            ks,
                            l4,
                            field,
                            acc.push(r),
                            v,
                            m - 1,
                            l1,
                            k,
                        );
                    }
                },
            },
        }
    }
}

/// The derived pass only appends: the explicit specs stay, in place.
proof fn lemma_derived_prefix(
    ks: Seq<KindedSettingsView>,
    l2: PartialSettingsView,
    l4: PartialSettingsView,
    field: Seq<char>,
    acc: Seq<ResolvedSpecView>,
)
    ensures
        spec_derived_specs(ks, l2, l4, field, acc).len() >= acc.len(),
        forall|j: int|
            0 <= j < acc.len() ==> spec_derived_specs(ks, l2, l4, field, acc)[j] == acc[j],
    decreases ks.len(),
{
    if ks.len() == 0 {
    } else {
        let r = spec_resolve(empty_settings(), l2, ks[0].settings, l4, ks[0].kind, field);
        let acc2 = if spec_specs_have_name(acc, r.name) {
            acc
        } else {
            acc.push(r)
        };
        lemma_derived_prefix(ks.drop_first(), l2, l4, field, acc2);
        assert forall|j: int| 0 <= j < acc.len() implies spec_derived_specs(
            ks,
            l2,
            l4,
            field,
            acc,
        )[j] == acc[j] by {
            assert(acc2[j] == acc[j]);
            assert(spec_derived_specs(ks.drop_first(), l2, l4, field, acc2)[j] == acc2[j]);
        }
    }
}

/// The emitter only appends: what was assembled stays, in place.
proof fn lemma_methods_prefix(entries: Seq<FieldEntryView>, acc: Seq<MethodDefView>)
    ensures
        spec_methods_acc(entries, acc).len() >= acc.len(),
        forall|j: int| 0 <= j < acc.len() ==> spec_methods_acc(entries, acc)[j] == acc[j],
    decreases entries.len(),
{
    if entries.len() == 0 {
    } else {
        let acc2 = acc + spec_entry_methods(entries[0]);
        lemma_methods_prefix(entries.drop_first(), acc2);
        assert forall|j: int| 0 <= j < acc.len() implies spec_methods_acc(entries, acc)[j]
            == acc[j] by {
            assert(acc2[j] == acc[j]);
            assert(spec_methods_acc(entries.drop_first(), acc2)[j] == acc2[j]);
        }
    }
}

/// The emitter loses no resolved spec: the method synthesized from spec `n` of
/// entry `k` stands in the assembled output.
pub proof fn lemma_methods_complete(
    entries: Seq<FieldEntryView>,
    acc: Seq<MethodDefView>,
    k: int,
    n: int,
)
    requires
        0 <= k < entries.len(),
        0 <= n < entries[k].specs.len(),
    ensures
        exists|j: int|
            0 <= j < spec_methods_acc(entries, acc).len() && spec_methods_acc(entries, acc)[j]
                == spec_synthesize(entries[k].specs[n], entries[k].field, entries[k].ty),
    decreases entries.len(),
{
    let em = spec_entry_methods(entries[0]);
    let acc2 = acc + em;
    if k == 0 {
        lemma_methods_prefix(entries.drop_first(), acc2);
        assert(acc2[acc.len() + n] == em[n]);
        assert(spec_methods_acc(entries, acc)[acc.len() + n] == spec_synthesize(
            entries[0].specs[n],
            entries[0].field,
            entries[0].ty,
        ));
    } else {
        assert(entries.drop_first()[k - 1] == entries[k]);
        lemma_methods_complete(entries.drop_first(), acc2, k - 1, n);
    }
}

/// The precedence chain at the level of the whole expansion: an operation flag
/// of a non-skipped field reaches the successful expansion as exactly the
/// method synthesized from the four-layer resolution — the flag's own settings
/// over the field-wide default over the struct-wide flag of the same kind over
/// the struct-wide default. Which layer decides each attribute of that
/// resolution is `lemma_most_specific_wins`.
pub proof fn lemma_flag_resolution_reaches_expansion(
    gs_attrs: Option<Seq<FlagView>>,
    input: StructDefView,
    fds: Seq<FieldDefView>,
    i: int,
    flags: Seq<FlagView>,
    m: int,
    l1: PartialSettingsView,
    k: OperationKind,
    l2: PartialSettingsView,
    ctx: StructContextView,
    out: ExpansionView,
)
    requires
        input.fields == StructFieldsView::Named(fds),
        0 <= i < fds.len(),
        match gs_attrs {
            Option::None => ctx == empty_struct_context(),
            Option::Some(fl) => spec_struct_context(fl) == Ok::<
                StructContextView,
                ExpandErrorView,
            >(ctx),
        },
        spec_field_flags(fds[i].attrs, Seq::empty()) == Ok::<Seq<FlagView>, ExpandErrorView>(
            flags,
        ),
        !spec_has_skip(flags),
        spec_default_props(flags) == Ok::<PartialSettingsView, ExpandErrorView>(l2),
        0 <= m < flags.len(),
        spec_flag_word(flags[m]) != "default"@,
        spec_flag_word(flags[m]) != "skip"@,
        spec_flag_props(flags[m]) == Ok::<PartialSettingsView, ExpandErrorView>(l1),
        spec_flag_kind(flags[m]) == Ok::<OperationKind, ExpandErrorView>(k),
        spec_expand(gs_attrs, input) == Ok::<ExpansionView, ExpandErrorView>(out),
    ensures
        exists|j: int|
            0 <= j < out.methods.len() && (#[trigger] out.methods[j]) == spec_synthesize(
                spec_resolve(
                    l1,
                    l2,
                    spec_kind_layer(ctx.kind_props, k),
                    ctx.default_props,
                    k,
                    fds[i].name,
                ),
                fds[i].name,
                fds[i].ty,
            ),
{
    let entries_r = spec_entries(fds, ctx, Seq::empty());
    assert(entries_r is Ok);
    let es = match entries_r {
        Ok(es) => es,
        Err(_) => Seq::empty(),
    };
    assert(out.methods == spec_methods_acc(es, Seq::empty()));
    lemma_entries_pointwise(fds, ctx, Seq::empty(), es);
    let entry = es[i];
    assert(spec_field_entry(fds[i], ctx) == Ok::<FieldEntryView, ExpandErrorView>(entry));
    lemma_entry_names_its_field(fds[i], ctx, entry);
    match spec_explicit_specs(
        flags,
        l2,
        ctx.kind_props,
        ctx.default_props,
        fds[i].name,
        Seq::empty(),
    ) {
        Err(_) => {
            assert(false);
        },
        Ok(explicit) => {
            let r = spec_resolve(
                l1,
                l2,
                spec_kind_layer(ctx.kind_props, k),
                ctx.default_props,
                k,
                fds[i].name,
            );
            lemma_explicit_contains(
                flags,
                l2,
                ctx.kind_props,
                ctx.default_props,
                fds[i].name,
                Seq::empty(),
                explicit,
                m,
                l1,
                k,
            );
            let n = choose|n: int| 0 <= n < explicit.len() && explicit[n] == r;
            lemma_derived_prefix(ctx.kind_props, l2, ctx.default_props, fds[i].name, explicit);
            assert(entry.specs[n] == r);
            lemma_methods_complete(es, Seq::empty(), i, n);
            let j = choose|j: int|
                0 <= j < spec_methods_acc(es, Seq::empty()).len() && spec_methods_acc(
                    es,
                    Seq::empty(),
                )[j] == spec_synthesize(es[i].specs[n], es[i].field, es[i].ty);
            assert(out.methods[j] == spec_synthesize(r, fds[i].name, fds[i].ty));
        },
    }
}

/// The rename law at the level of the whole expansion: when a non-skipped
/// field carries an operation flag whose settings resolve to the name `id`,
/// the successful expansion holds a method named exactly `id`, overriding the
/// `<verb>_<field>` pattern.
pub proof fn lemma_rename_names_method_in_expansion(
    gs_attrs: Option<Seq<FlagView>>,
    input: StructDefView,
    fds: Seq<FieldDefView>,
    i: int,
    flags: Seq<FlagView>,
    m: int,
    l1: PartialSettingsView,
    k: OperationKind,
    l2: PartialSettingsView,
    ctx: StructContextView,
    id: Seq<char>,
    out: ExpansionView,
)
    requires
        input.fields == StructFieldsView::Named(fds),
        0 <= i < fds.len(),
        match gs_attrs {
            Option::None => ctx == empty_struct_context(),
            Option::Some(fl) => spec_struct_context(fl) == Ok::<
                StructContextView,
                ExpandErrorView,
            >(ctx),
        },
        spec_field_flags(fds[i].attrs, Seq::empty()) == Ok::<Seq<FlagView>, ExpandErrorView>(
            flags,
        ),
        !spec_has_skip(flags),
        spec_default_props(flags) == Ok::<PartialSettingsView, ExpandErrorView>(l2),
        0 <= m < flags.len(),
        spec_flag_word(flags[m]) != "default"@,
        spec_flag_word(flags[m]) != "skip"@,
        spec_flag_props(flags[m]) == Ok::<PartialSettingsView, ExpandErrorView>(l1),
        spec_flag_kind(flags[m]) == Ok::<OperationKind, ExpandErrorView>(k),
        l1.name == Some(id),
        spec_expand(gs_attrs, input) == Ok::<ExpansionView, ExpandErrorView>(out),
    ensures
        exists|j: int| 0 <= j < out.methods.len() && (#[trigger] out.methods[j]).name == id,
{
    lemma_flag_resolution_reaches_expansion(
        gs_attrs,
        input,
        fds,
        i,
        flags,
        m,
        l1,
        k,
        l2,
        ctx,
        out,
    );
    let r = spec_resolve(
        l1,
        l2,
        spec_kind_layer(ctx.kind_props, k),
        ctx.default_props,
        k,
        fds[i].name,
    );
    lemma_rename_overrides_default(
        l1,
        l2,
        spec_kind_layer(ctx.kind_props, k),
        ctx.default_props,
        k,
        fds[i].name,
        id,
    );
    let j = choose|j: int|
        0 <= j < out.methods.len() && (#[trigger] out.methods[j]) == spec_synthesize(
            r,
            fds[i].name,
            fds[i].ty,
        );
    assert(out.methods[j].name == id);
}

/// Round trip: invoking the setter synthesized for a field with value `v` and
/// then either getter synthesized for the same field yields `v` — by copy, or
/// as the value the returned alias points to.
pub proof fn lemma_set_then_get_round_trip(
    set_spec: ResolvedSpecView,
    get_spec: ResolvedSpecView,
    field: Seq<char>,
    ty: TypeRefView,
    s: Seq<FieldBinding>,
    v: Value,
)
    requires
        set_spec.kind == OperationKind::SetValue,
        get_spec.kind == OperationKind::GetByReference || get_spec.kind
            == OperationKind::GetByCopy,
        spec_lookup(s, field) is Some,
    ensures
        spec_getter_result(
            spec_synthesize(get_spec, field, ty),
            spec_setter_effect(spec_synthesize(set_spec, field, ty), s, v),
        ) == Some(v),
{
    lemma_lookup_after_store(s, field, v);
}

} // verus!
