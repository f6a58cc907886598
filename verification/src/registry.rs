use vstd::prelude::*;
use crate::errors::{ExpandError, ExpandErrorView};
use crate::parser::{
    Flag,
    FlagView,
    flags_seq_view,
    flag_word,
    word_is,
    flag_kind,
    spec_flag_word,
    spec_flag_kind,
    spec_flag_props,
    spec_default_props,
    extract_opt_func_props,
    extract_default_func_props,
};
use crate::settings::{
    OperationKind,
    PartialMethodSettings,
    PartialSettingsView,
    ResolvedMethodSpec,
    ResolvedSpecView,
    empty_settings,
    cleared_name,
    spec_resolve,
};
use crate::structure::{
    TypeRef,
    TypeRefView,
    FieldAttr,
    FieldAttrView,
    FieldDef,
    FieldDefView,
    attrs_seq_view,
    fields_seq_view,
};

verus! {

/// The partial settings one struct-wide operation flag contributes, together
/// with the operation kind it requests. Its name attribute is already cleared:
/// a struct-wide flag's `rename` applies to no single method, since one
/// identifier cannot name a method on every field.
#[derive(Debug)]
pub struct KindedSettings {
    pub kind: OperationKind,
    pub settings: PartialMethodSettings,
}

/// Ghost mirror of `KindedSettings`.
pub struct KindedSettingsView {
    pub kind: OperationKind,
    pub settings: PartialSettingsView,
}

impl View for KindedSettings {
    type V = KindedSettingsView;

    open spec fn view(&self) -> KindedSettingsView {
        KindedSettingsView { kind: self.kind, settings: self.settings@ }
    }
}

/// The view of a sequence of kinded settings.
pub open spec fn kinded_seq_view(s: Seq<KindedSettings>) -> Seq<KindedSettingsView> {
    s.map_values(|k: KindedSettings| k@)
}

/// The struct-wide configuration: the struct-wide default layer and the
/// per-kind layers of the struct-wide operation flags, in flag order.
#[derive(Debug)]
pub struct StructContext {
    pub default_props: PartialMethodSettings,
    pub kind_props: Vec<KindedSettings>,
}

/// Ghost mirror of `StructContext`.
pub struct StructContextView {
    pub default_props: PartialSettingsView,
    pub kind_props: Seq<KindedSettingsView>,
}

impl View for StructContext {
    type V = StructContextView;

    open spec fn view(&self) -> StructContextView {
        StructContextView { default_props: self.default_props@, kind_props: kinded_seq_view(self.kind_props@) }
    }
}

/// The context of a structure that carries no struct-wide annotation.
pub open spec fn empty_struct_context() -> StructContextView {
    StructContextView { default_props: empty_settings(), kind_props: Seq::empty() }
}

/// Per field: its declared type, whether a `skip` flag suppresses all
/// synthesis for it, and the resolved method specs that apply to it, in the
/// order encountered (field flags first, then struct-wide flags).
#[derive(Debug)]
pub struct FieldEntry {
    pub field: String,
    pub ty: TypeRef,
    pub all_skip: bool,
    pub specs: Vec<ResolvedMethodSpec>,
}

/// Ghost mirror of `FieldEntry`.
pub struct FieldEntryView {
    pub field: Seq<char>,
    pub ty: TypeRefView,
    pub all_skip: bool,
    pub specs: Seq<ResolvedSpecView>,
}

impl View for FieldEntry {
    type V = FieldEntryView;

    open spec fn view(&self) -> FieldEntryView {
        FieldEntryView {
            field: self.field@,
            ty: self.ty@,
            all_skip: self.all_skip,
            specs: specs_seq_view(self.specs@),
        }
    }
}

/// The view of a sequence of resolved specs.
pub open spec fn specs_seq_view(s: Seq<ResolvedMethodSpec>) -> Seq<ResolvedSpecView> {
    s.map_values(|r: ResolvedMethodSpec| r@)
}

/// The view of a sequence of field entries.
pub open spec fn entries_seq_view(s: Seq<FieldEntry>) -> Seq<FieldEntryView> {
    s.map_values(|e: FieldEntry| e@)
}

/// The registry of all fields of one structure, in declaration order.
#[derive(Debug)]
pub struct FieldRegistry {
    pub entries: Vec<FieldEntry>,
}

impl View for FieldRegistry {
    type V = Seq<FieldEntryView>;

    open spec fn view(&self) -> Seq<FieldEntryView> {
        entries_seq_view(self.entries@)
    }
}

/// Whether some collected struct-wide flag already requests this kind.
pub open spec fn spec_has_kind(ks: Seq<KindedSettingsView>, k: OperationKind) -> bool {
    exists|i: int| 0 <= i < ks.len() && ks[i].kind == k
}

/// The settings layer the struct-wide flag of the given kind supplies, or the
/// empty layer when no struct-wide flag requests that kind.
pub open spec fn spec_kind_layer(ks: Seq<KindedSettingsView>, k: OperationKind) -> PartialSettingsView
    decreases ks.len(),
{
    if ks.len() == 0 {
        empty_settings()
    } else if ks[0].kind == k {
        ks[0].settings
    } else {
        spec_kind_layer(ks.drop_first(), k)
    }
}

/// Collects the struct-wide operation flags into per-kind layers. `default`
/// flags contribute no layer of their own. A kind requested twice at the same
/// scope is rejected outright — the safer reading of a repeated flag, rather
/// than silently keeping one of the two.
pub open spec fn spec_collect_struct_kinds(
    flags: Seq<FlagView>,
    acc: Seq<KindedSettingsView>,
) -> Result<Seq<KindedSettingsView>, ExpandErrorView>
    decreases flags.len(),
{
    if flags.len() == 0 {
        Ok(acc)
    } else {
        let f = flags[0];
        if spec_flag_word(f) == "default"@ {
            spec_collect_struct_kinds(flags.drop_first(), acc)
        } else {
            match spec_flag_props(f) {
                Err(e) => Err(e),
                Ok(p) => match spec_flag_kind(f) {
                    Err(e) => Err(e),
                    Ok(k) => if spec_has_kind(acc, k) {
                        Err(ExpandErrorView::MalformedFlag(spec_flag_word(f)))
                    } else {
                        spec_collect_struct_kinds(
                            flags.drop_first(),
                            acc.push(KindedSettingsView { kind: k, settings: cleared_name(p) }),
                        )
                    },
                },
            }
        }
    }
}

/// The struct-wide configuration the struct-level annotation denotes.
pub open spec fn spec_struct_context(flags: Seq<FlagView>) -> Result<
    StructContextView,
    ExpandErrorView,
> {
    match spec_default_props(flags) {
        Err(e) => Err(e),
        Ok(d) => match spec_collect_struct_kinds(flags, Seq::empty()) {
            Err(e) => Err(e),
            Ok(ks) => Ok(StructContextView { default_props: d, kind_props: ks }),
        },
    }
}

/// The view of a struct-context result.
pub open spec fn context_result_view(r: Result<StructContext, ExpandError>) -> Result<
    StructContextView,
    ExpandErrorView,
> {
    match r {
        Ok(c) => Ok(c@),
        Err(e) => Err(e@),
    }
}

/// All accessor flags attached to a field, gathered across its recognized
/// attributes in order; a recognized attribute in an unusable shape is an
/// error, and any other attribute contributes nothing.
pub open spec fn spec_field_flags(attrs: Seq<FieldAttrView>, acc: Seq<FlagView>) -> Result<
    Seq<FlagView>,
    ExpandErrorView,
>
    decreases attrs.len(),
{
    if attrs.len() == 0 {
        Ok(acc)
    } else {
        match attrs[0] {
            FieldAttrView::GsFlags(fl) => spec_field_flags(attrs.drop_first(), acc + fl),
            FieldAttrView::GsFlagsMisused => Err(ExpandErrorView::MalformedAttributeUsage),
            FieldAttrView::Other(_) => spec_field_flags(attrs.drop_first(), acc),
        }
    }
}

/// Whether the field's flags contain the `skip` marker, in any flag shape.
pub open spec fn spec_has_skip(flags: Seq<FlagView>) -> bool {
    exists|i: int| 0 <= i < flags.len() && spec_flag_word(#[trigger] flags[i]) == "skip"@
}

/// Whether a resolved spec of this kind is already present.
pub open spec fn spec_specs_have_kind(specs: Seq<ResolvedSpecView>, k: OperationKind) -> bool {
    exists|i: int| 0 <= i < specs.len() && specs[i].kind == k
}

/// Whether a resolved spec with this method name is already present.
pub open spec fn spec_specs_have_name(specs: Seq<ResolvedSpecView>, n: Seq<char>) -> bool {
    exists|i: int| 0 <= i < specs.len() && specs[i].name == n
}

/// Resolves the field's own operation flags, in order. Each flag is resolved
/// against the four layers (its own settings, the field-wide default, the
/// struct-wide flag of the same kind, the struct-wide default); `default` and
/// `skip` flags produce no spec of their own. A kind the field requests twice
/// is rejected outright rather than silently reduced to one spec; so is a
/// second spec that would resolve to an identifier already taken on this field
/// (two getter kinds both fall back to `get_<field>`), since one impl block
/// cannot hold two methods of one name.
pub open spec fn spec_explicit_specs(
    flags: Seq<FlagView>,
    field_default: PartialSettingsView,
    struct_kinds: Seq<KindedSettingsView>,
    struct_default: PartialSettingsView,
    field: Seq<char>,
    acc: Seq<ResolvedSpecView>,
) -> Result<Seq<ResolvedSpecView>, ExpandErrorView>
    decreases flags.len(),
{
    if flags.len() == 0 {
        Ok(acc)
    } else {
        let f = flags[0];
        let w = spec_flag_word(f);
        if w == "default"@ || w == "skip"@ {
            spec_explicit_specs(
                flags.drop_first(),
                field_default,
                struct_kinds,
                struct_default,
                field,
                acc,
            )
        } else {
            match spec_flag_props(f) {
                Err(e) => Err(e),
                Ok(l1) => match spec_flag_kind(f) {
                    Err(e) => Err(e),
                    Ok(k) => {
                        let r = spec_resolve(
                            l1,
                            field_default,
                            spec_kind_layer(struct_kinds, k),
                            struct_default,
                            k,
                            field,
                        );
                        if spec_specs_have_kind(acc, k) || spec_specs_have_name(acc, r.name) {
                            Err(ExpandErrorView::MalformedFlag(w))
                        } else {
                            spec_explicit_specs(
                                flags.drop_first(),
                                field_default,
                                struct_kinds,
                                struct_default,
                                field,
                                acc.push(r),
                            )
                        }
                    },
                },
            }
        }
    }
}

/// Adds the specs the struct-wide operation flags derive for this field, in
/// flag order. A derived spec is resolved without a field-specific layer, so
/// its identifier is always the `<verb>_<field>` pattern; it is added only
/// when no spec of that name is present yet — a field flag of the same kind
/// and name wins outright.
pub open spec fn spec_derived_specs(
    struct_kinds: Seq<KindedSettingsView>,
    field_default: PartialSettingsView,
    struct_default: PartialSettingsView,
    field: Seq<char>,
    acc: Seq<ResolvedSpecView>,
) -> Seq<ResolvedSpecView>
    decreases struct_kinds.len(),
{
    if struct_kinds.len() == 0 {
        acc
    } else {
        let r = spec_resolve(
            empty_settings(),
            field_default,
            struct_kinds[0].settings,
            struct_default,
            struct_kinds[0].kind,
            field,
        );
        let acc2 = if spec_specs_have_name(acc, r.name) {
            acc
        } else {
            acc.push(r)
        };
        spec_derived_specs(struct_kinds.drop_first(), field_default, struct_default, field, acc2)
    }
}

/// The registry entry one field resolves to. A field marked `skip` keeps an
/// empty spec set whatever the struct-wide flags and defaults say; its other
/// flags are still held to the grammar but produce nothing.
pub open spec fn spec_field_entry(fd: FieldDefView, ctx: StructContextView) -> Result<
    FieldEntryView,
    ExpandErrorView,
> {
    match spec_field_flags(fd.attrs, Seq::empty()) {
        Err(e) => Err(e),
        Ok(flags) => match spec_default_props(flags) {
            Err(e) => Err(e),
            Ok(field_default) => match spec_explicit_specs(
                flags,
                field_default,
                ctx.kind_props,
                ctx.default_props,
                fd.name,
                Seq::empty(),
            ) {
                Err(e) => Err(e),
                Ok(explicit) => if spec_has_skip(flags) {
                    Ok(
                        FieldEntryView {
                            field: fd.name,
                            ty: fd.ty,
                            all_skip: true,
                            specs: Seq::empty(),
                        },
                    )
                } else {
                    Ok(
                        FieldEntryView {
                            field: fd.name,
                            ty: fd.ty,
                            all_skip: false,
                            specs: spec_derived_specs(
                                ctx.kind_props,
                                field_default,
                                ctx.default_props,
                                fd.name,
                                explicit,
                            ),
                        },
                    )
                },
            },
        },
    }
}

/// The view of a field-entry result.
pub open spec fn entry_result_view(r: Result<FieldEntry, ExpandError>) -> Result<
    FieldEntryView,
    ExpandErrorView,
> {
    match r {
        Ok(e) => Ok(e@),
        Err(e) => Err(e@),
    }
}

/// The registry of all fields, in declaration order.
pub open spec fn spec_entries(fds: Seq<FieldDefView>, ctx: StructContextView, acc: Seq<
    FieldEntryView,
>) -> Result<Seq<FieldEntryView>, ExpandErrorView>
    decreases fds.len(),
{
    if fds.len() == 0 {
        Ok(acc)
    } else {
        match spec_field_entry(fds[0], ctx) {
            Err(e) => Err(e),
            Ok(entry) => spec_entries(fds.drop_first(), ctx, acc.push(entry)),
        }
    }
}

/// The view of a registry result.
pub open spec fn registry_result_view(r: Result<FieldRegistry, ExpandError>) -> Result<
    Seq<FieldEntryView>,
    ExpandErrorView,
> {
    match r {
        Ok(reg) => Ok(reg@),
        Err(e) => Err(e@),
    }
}

/// Collects the struct-wide flags into per-kind layers, from position `i` on.
fn collect_struct_kinds_from(flags: &Vec<Flag>, i: usize, acc: Vec<KindedSettings>) -> (r: Result<
    Vec<KindedSettings>,
    ExpandError,
>)
    requires
        i <= flags@.len(),
    ensures
        match r {
            Ok(ks) => spec_collect_struct_kinds(flags_seq_view(flags@).skip(i as int), kinded_seq_view(acc@))
                == Ok::<_, ExpandErrorView>(kinded_seq_view(ks@)),
            Err(e) => spec_collect_struct_kinds(flags_seq_view(flags@).skip(i as int), kinded_seq_view(acc@))
                == Err::<Seq<KindedSettingsView>, _>(e@),
        },
    decreases flags@.len() - i,
{
    let ghost fv = flags_seq_view(flags@);
    if i == flags.len() {
        proof {
            assert(fv.skip(i as int).len() == 0);
        }
        Ok(acc)
    } else {
        proof {
            assert(fv.skip(i as int)[0] == fv[i as int]);
            assert(fv.skip(i as int).drop_first() =~= fv.skip(i as int + 1));
        }
        let f = &flags[i];
        if word_is(flag_word(f), "default") {
            collect_struct_kinds_from(flags, i + 1, acc)
        } else {
            match extract_opt_func_props(f) {
                Err(e) => Err(e),
                Ok(p) => match flag_kind(f) {
                    Err(e) => Err(e),
                    Ok(k) => if kinds_have(&acc, k) {
                        Err(ExpandError::MalformedFlag(flag_word(f).clone()))
                    } else {
                        let ghost accv = kinded_seq_view(acc@);
                        let item = KindedSettings { kind: k, settings: p.remove_name() };
                        let ghost itemv = item@;
                        let mut acc2 = acc;
                        acc2.push(item);
                        proof {
                            assert(kinded_seq_view(acc2@) =~= accv.push(itemv));
                        }
                        collect_struct_kinds_from(flags, i + 1, acc2)
                    },
                },
            }
        }
    }
}

/// Whether some collected layer already has this kind.
fn kinds_have(ks: &Vec<KindedSettings>, k: OperationKind) -> (b: bool)
    ensures
        b == spec_has_kind(kinded_seq_view(ks@), k),
{
    let ghost kv = kinded_seq_view(ks@);
    let mut i: usize = 0;
    while i < ks.len()
        invariant
            i <= ks@.len(),
            kv == kinded_seq_view(ks@),
            forall|j: int| 0 <= j < i ==> kv[j].kind != k,
        decreases ks@.len() - i,
    {
        if ks[i].kind == k {
            proof {
                assert(kv[i as int].kind == k);
            }
            return true;
        }
        i = i + 1;
    }
    false
}

/// Builds the struct-wide configuration from the struct-level annotation's
/// flags: the struct-wide default layer and one name-cleared layer per
/// operation kind requested at struct level.
pub fn collect_struct_context(flags: &Vec<Flag>) -> (r: Result<StructContext, ExpandError>)
    ensures
        context_result_view(r) == spec_struct_context(flags_seq_view(flags@)),
{
    let d = match extract_default_func_props(flags) {
        Err(e) => return Err(e),
        Ok(d) => d,
    };
    proof {
        assert(flags_seq_view(flags@).skip(0) =~= flags_seq_view(flags@));
        assert(kinded_seq_view(Seq::<KindedSettings>::empty()) =~= Seq::<
            KindedSettingsView,
        >::empty());
    }
    match collect_struct_kinds_from(flags, 0, Vec::new()) {
        Err(e) => Err(e),
        Ok(ks) => Ok(StructContext { default_props: d, kind_props: ks }),
    }
}

/// Appends clones of one attribute's flags to the accumulator.
fn append_flags(acc: Vec<Flag>, fl: &Vec<Flag>) -> (r: Vec<Flag>)
    ensures
        flags_seq_view(r@) == flags_seq_view(acc@) + flags_seq_view(fl@),
{
    let ghost accv = flags_seq_view(acc@);
    let ghost flv = flags_seq_view(fl@);
    let mut out = acc;
    let mut j: usize = 0;
    while j < fl.len()
        invariant
            j <= fl@.len(),
            flv == flags_seq_view(fl@),
            flags_seq_view(out@) =~= accv + flv.take(j as int),
        decreases fl@.len() - j,
    {
        let ghost outv = flags_seq_view(out@);
        let item = fl[j].clone();
        let ghost itemv = item@;
        proof {
            assert(itemv == flv[j as int]);
        }
        out.push(item);
        proof {
            assert(flags_seq_view(out@) =~= outv.push(itemv));
            assert(outv.push(itemv) =~= accv + flv.take(j as int + 1));
        }
        j = j + 1;
    }
    proof {
        assert(flv.take(fl@.len() as int) =~= flv);
    }
    out
}

/// Gathers the accessor flags of the field's attributes, from position `i` on.
fn collect_field_flags_from(attrs: &Vec<FieldAttr>, i: usize, acc: Vec<Flag>) -> (r: Result<
    Vec<Flag>,
    ExpandError,
>)
    requires
        i <= attrs@.len(),
    ensures
        match r {
            Ok(v) => spec_field_flags(attrs_seq_view(attrs@).skip(i as int), flags_seq_view(acc@))
                == Ok::<_, ExpandErrorView>(flags_seq_view(v@)),
            Err(e) => spec_field_flags(attrs_seq_view(attrs@).skip(i as int), flags_seq_view(acc@))
                == Err::<Seq<FlagView>, _>(e@),
        },
    decreases attrs@.len() - i,
{
    let ghost av = attrs_seq_view(attrs@);
    if i == attrs.len() {
        proof {
            assert(av.skip(i as int).len() == 0);
        }
        Ok(acc)
    } else {
        proof {
            assert(av.skip(i as int)[0] == av[i as int]);
            assert(av.skip(i as int).drop_first() =~= av.skip(i as int + 1));
        }
        match &attrs[i] {
            FieldAttr::GsFlags(fl) => {
                let acc2 = append_flags(acc, fl);
                collect_field_flags_from(attrs, i + 1, acc2)
            },
            FieldAttr::GsFlagsMisused => Err(ExpandError::MalformedAttributeUsage),
            FieldAttr::Other(_) => collect_field_flags_from(attrs, i + 1, acc),
        }
    }
}

/// Gathers all accessor flags attached to a field, across its recognized
/// attributes in order; a recognized attribute that is not a parenthesized
/// flag list is an error.
pub fn collect_field_flags(attrs: &Vec<FieldAttr>) -> (r: Result<Vec<Flag>, ExpandError>)
    ensures
        match r {
            Ok(v) => spec_field_flags(attrs_seq_view(attrs@), Seq::empty()) == Ok::<
                _,
                ExpandErrorView,
            >(flags_seq_view(v@)),
            Err(e) => spec_field_flags(attrs_seq_view(attrs@), Seq::empty()) == Err::<
                Seq<FlagView>,
                _,
            >(e@),
        },
{
    proof {
        assert(attrs_seq_view(attrs@).skip(0) =~= attrs_seq_view(attrs@));
        assert(flags_seq_view(Seq::<Flag>::empty()) =~= Seq::<FlagView>::empty());
    }
    collect_field_flags_from(attrs, 0, Vec::new())
}

/// Whether the field's flags contain the `skip` marker.
pub fn has_skip(flags: &Vec<Flag>) -> (b: bool)
    ensures
        b == spec_has_skip(flags_seq_view(flags@)),
{
    let ghost fv = flags_seq_view(flags@);
    let mut i: usize = 0;
    while i < flags.len()
        invariant
            i <= flags@.len(),
            fv == flags_seq_view(flags@),
            forall|j: int| 0 <= j < i ==> spec_flag_word(#[trigger] fv[j]) != "skip"@,
        decreases flags@.len() - i,
    {
        if word_is(flag_word(&flags[i]), "skip") {
            proof {
                assert(spec_flag_word(fv[i as int]) == "skip"@);
            }
            return true;
        }
        i = i + 1;
    }
    false
}

/// Whether a resolved spec of this kind is already present.
fn specs_have_kind(specs: &Vec<ResolvedMethodSpec>, k: OperationKind) -> (b: bool)
    ensures
        b == spec_specs_have_kind(specs_seq_view(specs@), k),
{
    let ghost sv = specs_seq_view(specs@);
    let mut i: usize = 0;
    while i < specs.len()
        invariant
            i <= specs@.len(),
            sv == specs_seq_view(specs@),
            forall|j: int| 0 <= j < i ==> sv[j].kind != k,
        decreases specs@.len() - i,
    {
        if specs[i].kind == k {
            proof {
                assert(sv[i as int].kind == k);
            }
            return true;
        }
        i = i + 1;
    }
    false
}

/// Whether a resolved spec with this method name is already present.
fn specs_have_name(specs: &Vec<ResolvedMethodSpec>, n: &String) -> (b: bool)
    ensures
        b == spec_specs_have_name(specs_seq_view(specs@), n@),
{
    let ghost sv = specs_seq_view(specs@);
    let mut i: usize = 0;
    while i < specs.len()
        invariant
            i <= specs@.len(),
            sv == specs_seq_view(specs@),
            forall|j: int| 0 <= j < i ==> sv[j].name != n@,
        decreases specs@.len() - i,
    {
        if specs[i].name == *n {
            proof {
                assert(sv[i as int].name == n@);
            }
            return true;
        }
        i = i + 1;
    }
    false
}

/// The settings layer of the struct-wide flag with this kind, from `i` on.
fn kind_layer_from(ks: &Vec<KindedSettings>, i: usize, k: OperationKind) -> (r:
    PartialMethodSettings)
    requires
        i <= ks@.len(),
    ensures
        r@ == spec_kind_layer(kinded_seq_view(ks@).skip(i as int), k),
    decreases ks@.len() - i,
{
    let ghost kv = kinded_seq_view(ks@);
    if i == ks.len() {
        proof {
            assert(kv.skip(i as int).len() == 0);
        }
        PartialMethodSettings::new()
    } else {
        proof {
            assert(kv.skip(i as int)[0] == kv[i as int]);
            assert(kv.skip(i as int).drop_first() =~= kv.skip(i as int + 1));
        }
        if ks[i].kind == k {
            ks[i].settings.clone()
        } else {
            kind_layer_from(ks, i + 1, k)
        }
    }
}

/// Resolves the field's own operation flags, from position `i` on.
fn explicit_specs_from(
    flags: &Vec<Flag>,
    i: usize,
    field_default: &PartialMethodSettings,
    ctx: &StructContext,
    field: &String,
    acc: Vec<ResolvedMethodSpec>,
) -> (r: Result<Vec<ResolvedMethodSpec>, ExpandError>)
    requires
        i <= flags@.len(),
    ensures
        match r {
            Ok(v) => spec_explicit_specs(
                flags_seq_view(flags@).skip(i as int),
                field_default@,
                ctx@.kind_props,
                ctx@.default_props,
                field@,
                specs_seq_view(acc@),
            ) == Ok::<_, ExpandErrorView>(specs_seq_view(v@)),
            Err(e) => spec_explicit_specs(
                flags_seq_view(flags@).skip(i as int),
                field_default@,
                ctx@.kind_props,
                ctx@.default_props,
                field@,
                specs_seq_view(acc@),
            ) == Err::<Seq<ResolvedSpecView>, _>(e@),
        },
    decreases flags@.len() - i,
{
    let ghost fv = flags_seq_view(flags@);
    if i == flags.len() {
        proof {
            assert(fv.skip(i as int).len() == 0);
        }
        Ok(acc)
    } else {
        proof {
            assert(fv.skip(i as int)[0] == fv[i as int]);
            assert(fv.skip(i as int).drop_first() =~= fv.skip(i as int + 1));
        }
        let f = &flags[i];
        let w = flag_word(f);
        if word_is(w, "default") || word_is(w, "skip") {
            explicit_specs_from(flags, i + 1, field_default, ctx, field, acc)
        } else {
            match extract_opt_func_props(f) {
                Err(e) => Err(e),
                Ok(l1) => match flag_kind(f) {
                    Err(e) => Err(e),
                    Ok(k) => {
                        let ghost accv = specs_seq_view(acc@);
                        let l3 = kind_layer(&ctx.kind_props, k);
                        let spec = l1.or(field_default.clone()).or(l3).or(
                            ctx.default_props.clone(),
                        ).build(k, field);
                        if specs_have_kind(&acc, k) || specs_have_name(&acc, &spec.name) {
                            Err(ExpandError::MalformedFlag(w.clone()))
                        } else {
                            let ghost specv = spec@;
                            let mut acc2 = acc;
                            acc2.push(spec);
                            proof {
                                assert(specs_seq_view(acc2@) =~= accv.push(specv));
                            }
                            explicit_specs_from(flags, i + 1, field_default, ctx, field, acc2)
                        }
                    },
                },
            }
        }
    }
}

/// The settings layer the struct-wide flag of the given kind supplies, or the
/// empty layer when no struct-wide flag requests that kind.
pub fn kind_layer(ks: &Vec<KindedSettings>, k: OperationKind) -> (r: PartialMethodSettings)
    ensures
        r@ == spec_kind_layer(kinded_seq_view(ks@), k),
{
    proof {
        assert(kinded_seq_view(ks@).skip(0) =~= kinded_seq_view(ks@));
    }
    kind_layer_from(ks, 0, k)
}

/// Adds the specs the struct-wide flags derive, from position `i` on.
fn derived_specs_from(
    ks: &Vec<KindedSettings>,
    i: usize,
    field_default: &PartialMethodSettings,
    struct_default: &PartialMethodSettings,
    field: &String,
    acc: Vec<ResolvedMethodSpec>,
) -> (r: Vec<ResolvedMethodSpec>)
    requires
        i <= ks@.len(),
    ensures
        specs_seq_view(r@) == spec_derived_specs(
            kinded_seq_view(ks@).skip(i as int),
            field_default@,
            struct_default@,
            field@,
            specs_seq_view(acc@),
        ),
    decreases ks@.len() - i,
{
    let ghost kv = kinded_seq_view(ks@);
    if i == ks.len() {
        proof {
            assert(kv.skip(i as int).len() == 0);
        }
        acc
    } else {
        proof {
            assert(kv.skip(i as int)[0] == kv[i as int]);
            assert(kv.skip(i as int).drop_first() =~= kv.skip(i as int + 1));
        }
        let spec = PartialMethodSettings::new().or(field_default.clone()).or(
            ks[i].settings.clone(),
        ).or(struct_default.clone()).build(ks[i].kind, field);
        if specs_have_name(&acc, &spec.name) {
            derived_specs_from(ks, i + 1, field_default, struct_default, field, acc)
        } else {
            let ghost accv = specs_seq_view(acc@);
            let ghost specv = spec@;
            let mut acc2 = acc;
            acc2.push(spec);
            proof {
                assert(specs_seq_view(acc2@) =~= accv.push(specv));
            }
            derived_specs_from(ks, i + 1, field_default, struct_default, field, acc2)
        }
    }
}

/// Resolves one field into its registry entry: its explicit specs, then the
/// struct-wide derived specs, unless a `skip` flag suppresses them all.
pub fn resolve_field_entry(fd: &FieldDef, ctx: &StructContext) -> (r: Result<
    FieldEntry,
    ExpandError,
>)
    ensures
        entry_result_view(r) == spec_field_entry(fd@, ctx@),
{
    let flags = match collect_field_flags(&fd.attrs) {
        Err(e) => return Err(e),
        Ok(v) => v,
    };
    let field_default = match extract_default_func_props(&flags) {
        Err(e) => return Err(e),
        Ok(d) => d,
    };
    proof {
        assert(flags_seq_view(flags@).skip(0) =~= flags_seq_view(flags@));
        assert(specs_seq_view(Seq::<ResolvedMethodSpec>::empty()) =~= Seq::<
            ResolvedSpecView,
        >::empty());
    }
    let explicit = match explicit_specs_from(&flags, 0, &field_default, ctx, &fd.name, Vec::new()) {
        Err(e) => return Err(e),
        Ok(v) => v,
    };
    if has_skip(&flags) {
        let entry = FieldEntry {
            field: fd.name.clone(),
            ty: fd.ty.clone(),
            all_skip: true,
            specs: Vec::new(),
        };
        proof {
            assert(specs_seq_view(entry.specs@) =~= Seq::<ResolvedSpecView>::empty());
        }
        Ok(entry)
    } else {
        proof {
            assert(kinded_seq_view(ctx.kind_props@).skip(0) =~= kinded_seq_view(ctx.kind_props@));
        }
        let specs = derived_specs_from(
            &ctx.kind_props,
            0,
            &field_default,
            &ctx.default_props,
            &fd.name,
            explicit,
        );
        Ok(FieldEntry { field: fd.name.clone(), ty: fd.ty.clone(), all_skip: false, specs })
    }
}

/// Resolves the fields into registry entries, from position `i` on.
fn entries_from(fields: &Vec<FieldDef>, i: usize, ctx: &StructContext, acc: Vec<FieldEntry>) -> (r:
    Result<Vec<FieldEntry>, ExpandError>)
    requires
        i <= fields@.len(),
    ensures
        match r {
            Ok(v) => spec_entries(
                fields_seq_view(fields@).skip(i as int),
                ctx@,
                entries_seq_view(acc@),
            ) == Ok::<_, ExpandErrorView>(entries_seq_view(v@)),
            Err(e) => spec_entries(
                fields_seq_view(fields@).skip(i as int),
                ctx@,
                entries_seq_view(acc@),
            ) == Err::<Seq<FieldEntryView>, _>(e@),
        },
    decreases fields@.len() - i,
{
    let ghost fv = fields_seq_view(fields@);
    if i == fields.len() {
        proof {
            assert(fv.skip(i as int).len() == 0);
        }
        Ok(acc)
    } else {
        proof {
            assert(fv.skip(i as int)[0] == fv[i as int]);
            assert(fv.skip(i as int).drop_first() =~= fv.skip(i as int + 1));
        }
        match resolve_field_entry(&fields[i], ctx) {
            Err(e) => Err(e),
            Ok(entry) => {
                let ghost accv = entries_seq_view(acc@);
                let ghost entryv = entry@;
                let mut acc2 = acc;
                acc2.push(entry);
                proof {
                    assert(entries_seq_view(acc2@) =~= accv.push(entryv));
                }
                entries_from(fields, i + 1, ctx, acc2)
            },
        }
    }
}

/// Builds the whole field registry, in declaration order.
pub fn build_registry(fields: &Vec<FieldDef>, ctx: &StructContext) -> (r: Result<
    FieldRegistry,
    ExpandError,
>)
    ensures
        registry_result_view(r) == spec_entries(fields_seq_view(fields@), ctx@, Seq::empty()),
{
    proof {
        assert(fields_seq_view(fields@).skip(0) =~= fields_seq_view(fields@));
        assert(entries_seq_view(Seq::<FieldEntry>::empty()) =~= Seq::<FieldEntryView>::empty());
    }
    match entries_from(fields, 0, ctx, Vec::new()) {
        Err(e) => Err(e),
        Ok(entries) => Ok(FieldRegistry { entries }),
    }
}

} // verus!
