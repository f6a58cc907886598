use get_set_gen::errors::ExpandError;
use get_set_gen::expand::expand_get_set;
use get_set_gen::parser::{Flag, Setting};
use get_set_gen::registry::{
    collect_struct_context, resolve_field_entry, StructContext,
};
use get_set_gen::semantics::{
    invoke_getter, invoke_setter, FieldBinding, StructValue, Value,
};
use get_set_gen::settings::{InlineHint, OperationKind, PartialMethodSettings};
use get_set_gen::structure::{
    FieldAttr, FieldDef, StructDef, StructFields, TypeRef,
};
use get_set_gen::synth::{synthesize_method, MethodBody, MethodDef};

fn t(x: &str) -> String {
    x.to_string()
}

fn ty(base: &str) -> TypeRef {
    TypeRef {
        is_reference: false,
        base: t(base),
    }
}

fn field(name: &str, base: &str, attrs: Vec<FieldAttr>) -> FieldDef {
    FieldDef {
        name: t(name),
        ty: ty(base),
        attrs,
    }
}

fn empty_context() -> StructContext {
    StructContext {
        default_props: PartialMethodSettings {
            name: None,
            inline: None,
            vis: None,
        },
        kind_props: Vec::new(),
    }
}

#[test]
fn skip_suppresses_everything() {
    // Property: a field marked skip resolves to no specs, whatever the
    // struct-wide flags and defaults say.
    let ctx = collect_struct_context(&vec![
        Flag::Bare(t("get")),
        Flag::Bare(t("set")),
        Flag::WithSettings(t("default"), vec![Setting::Word(t("inline_always"))]),
    ])
    .unwrap();
    let fd = field(
        "secret",
        "u64",
        vec![FieldAttr::GsFlags(vec![
            Flag::Bare(t("get")),
            Flag::Bare(t("skip")),
        ])],
    );
    let entry = resolve_field_entry(&fd, &ctx).unwrap();
    assert!(entry.all_skip);
    assert!(entry.specs.is_empty());
}

#[test]
fn most_specific_layer_wins() {
    // Property: explicit field-kind setting > field-wide default >
    // struct-wide kind setting > struct-wide default > hard-coded fallback.
    let ctx = collect_struct_context(&vec![
        Flag::WithSettings(
            t("get"),
            vec![
                Setting::Word(t("inline_always")),
                Setting::KeyValue(t("vis"), t("pub(in a)")),
            ],
        ),
        Flag::WithSettings(t("default"), vec![Setting::KeyValue(t("vis"), t("pub(in b)"))]),
    ])
    .unwrap();
    // Field flag defines nothing; field default defines inline; the struct
    // get-flag defines inline and vis; the struct default defines vis.
    let fd = field(
        "x",
        "u64",
        vec![FieldAttr::GsFlags(vec![
            Flag::Bare(t("get")),
            Flag::WithSettings(t("default"), vec![Setting::Word(t("inline_never"))]),
        ])],
    );
    let entry = resolve_field_entry(&fd, &ctx).unwrap();
    assert_eq!(entry.specs.len(), 1);
    let spec = &entry.specs[0];
    // inline: the field-wide default (inline_never) beats the struct-wide
    // get-flag (inline_always); vis: the struct-wide get-flag beats the
    // struct-wide default; name: no layer may name it, so the fallback.
    assert_eq!(spec.name, "get_x");
    assert!(matches!(spec.inline, Some(InlineHint::Never)));
    assert_eq!(spec.vis, "pub(in a)");
}

#[test]
fn resolution_is_idempotent() {
    // Property: re-resolving the same four layers yields an identical spec.
    let fd = field(
        "x",
        "u64",
        vec![FieldAttr::GsFlags(vec![Flag::WithSettings(
            t("get"),
            vec![Setting::KeyValue(t("rename"), t("peek"))],
        )])],
    );
    let ctx = empty_context();
    let once = resolve_field_entry(&fd, &ctx).unwrap();
    let fd2 = field(
        "x",
        "u64",
        vec![FieldAttr::GsFlags(vec![Flag::WithSettings(
            t("get"),
            vec![Setting::KeyValue(t("rename"), t("peek"))],
        )])],
    );
    let again = resolve_field_entry(&fd2, &ctx).unwrap();
    assert_eq!(once.specs.len(), 1);
    assert_eq!(again.specs.len(), 1);
    assert_eq!(once.specs[0].name, again.specs[0].name);
    assert_eq!(once.specs[0].kind, again.specs[0].kind);
    assert_eq!(once.specs[0].inline, again.specs[0].inline);
    assert_eq!(once.specs[0].vis, again.specs[0].vis);
}

#[test]
fn rename_overrides_default_pattern() {
    // Property: a rename at the field-flag layer names the method exactly.
    let fd = field(
        "x",
        "u64",
        vec![FieldAttr::GsFlags(vec![Flag::WithSettings(
            t("set"),
            vec![Setting::KeyValue(t("rename"), t("assign_x"))],
        )])],
    );
    let entry = resolve_field_entry(&fd, &empty_context()).unwrap();
    assert_eq!(entry.specs.len(), 1);
    assert_eq!(entry.specs[0].name, "assign_x");
}

#[test]
fn set_then_get_round_trip() {
    // Property: invoking the synthesized setter with value V then the
    // corresponding getter returns V.
    let fd = field(
        "x",
        "i64",
        vec![FieldAttr::GsFlags(vec![
            Flag::Bare(t("set")),
            Flag::Bare(t("get")),
        ])],
    );
    let entry = resolve_field_entry(&fd, &empty_context()).unwrap();
    assert_eq!(entry.specs.len(), 2);
    let setter = synthesize_method(&entry.specs[0], &entry.field, &entry.ty);
    let getter = synthesize_method(&entry.specs[1], &entry.field, &entry.ty);
    assert_eq!(setter.name, "set_x");
    assert_eq!(getter.name, "get_x");
    let mut st = StructValue {
        fields: vec![FieldBinding {
            name: t("x"),
            value: Value::Int(1),
        }],
    };
    invoke_setter(&setter, &mut st, Value::Int(42));
    assert_eq!(invoke_getter(&getter, &st), Some(Value::Int(42)));
}

#[test]
fn duplicate_kind_on_field_is_rejected() {
    let fd = field(
        "x",
        "u64",
        vec![FieldAttr::GsFlags(vec![
            Flag::Bare(t("get")),
            Flag::WithSettings(t("get"), vec![Setting::KeyValue(t("rename"), t("other"))]),
        ])],
    );
    let e = resolve_field_entry(&fd, &empty_context()).unwrap_err();
    assert_eq!(e, ExpandError::MalformedFlag(t("get")));
}

#[test]
fn colliding_method_names_on_field_are_rejected() {
    // `get` and `get_copy` both fall back to `get_<field>`: one impl block
    // cannot hold two methods of one name, so the second flag is rejected.
    let fd = field(
        "x",
        "u64",
        vec![FieldAttr::GsFlags(vec![
            Flag::Bare(t("get")),
            Flag::Bare(t("get_copy")),
        ])],
    );
    let e = resolve_field_entry(&fd, &empty_context()).unwrap_err();
    assert_eq!(e, ExpandError::MalformedFlag(t("get_copy")));

    // With distinct renames the two getter kinds coexist.
    let fd2 = field(
        "x",
        "u64",
        vec![FieldAttr::GsFlags(vec![
            Flag::Bare(t("get")),
            Flag::WithSettings(
                t("get_copy"),
                vec![Setting::KeyValue(t("rename"), t("copy_x"))],
            ),
        ])],
    );
    let entry = resolve_field_entry(&fd2, &empty_context()).unwrap();
    assert_eq!(entry.specs.len(), 2);
    assert_eq!(entry.specs[0].name, "get_x");
    assert_eq!(entry.specs[1].name, "copy_x");
}

#[test]
fn assigned_kind_flag_counts_by_keyword() {
    // A `get = "x"` shaped flag has no settings list; it still requests its
    // keyword's kind, with nothing specified.
    let fd = field(
        "x",
        "u64",
        vec![FieldAttr::GsFlags(vec![Flag::Assigned(t("get"))])],
    );
    let entry = resolve_field_entry(&fd, &empty_context()).unwrap();
    assert_eq!(entry.specs.len(), 1);
    assert_eq!(entry.specs[0].name, "get_x");
    assert!(entry.specs[0].inline.is_none());
}

#[test]
fn malformed_default_anywhere_aborts_expansion() {
    // A struct-level list whose earlier `default` flag holds an unknown key
    // errors even though a later well-formed `default` flag supersedes it.
    let input = StructDef {
        name: t("S"),
        fields: StructFields::Named(vec![field("x", "u64", vec![])]),
    };
    let e = expand_get_set(
        Some(vec![
            Flag::WithSettings(t("default"), vec![Setting::KeyValue(t("color"), t("red"))]),
            Flag::WithSettings(t("default"), vec![Setting::Word(t("inline_never"))]),
            Flag::Bare(t("get")),
        ]),
        input,
    )
    .unwrap_err();
    assert_eq!(e, ExpandError::MalformedFlag(t("color")));
}

#[test]
fn duplicate_kind_at_struct_level_is_rejected() {
    let e = collect_struct_context(&vec![Flag::Bare(t("get")), Flag::Bare(t("get"))])
        .unwrap_err();
    assert_eq!(e, ExpandError::MalformedFlag(t("get")));
}

#[test]
fn skip_at_struct_level_is_rejected() {
    let e = collect_struct_context(&vec![Flag::Bare(t("skip"))]).unwrap_err();
    assert_eq!(e, ExpandError::MalformedFlag(t("skip")));
}

#[test]
fn misused_attribute_is_rejected() {
    let fd = field("x", "u64", vec![FieldAttr::GsFlagsMisused]);
    let e = resolve_field_entry(&fd, &empty_context()).unwrap_err();
    assert_eq!(e, ExpandError::MalformedAttributeUsage);
    assert!(e.message().contains("gsflags"));
}

#[test]
fn unnamed_fields_are_rejected() {
    let input = StructDef {
        name: t("Tup"),
        fields: StructFields::Unnamed,
    };
    let e = expand_get_set(None, input).unwrap_err();
    assert_eq!(e, ExpandError::UnsupportedShape);
    assert_eq!(e.message(), "Only named fields are supported");

    let unit = StructDef {
        name: t("U"),
        fields: StructFields::Unit,
    };
    let e2 = expand_get_set(None, unit).unwrap_err();
    assert_eq!(e2, ExpandError::UnsupportedShape);
}

#[test]
fn malformed_struct_flag_aborts_expansion() {
    let input = StructDef {
        name: t("S"),
        fields: StructFields::Named(vec![field("x", "u64", vec![])]),
    };
    let e = expand_get_set(
        Some(vec![Flag::WithSettings(
            t("get"),
            vec![Setting::KeyValue(t("color"), t("red"))],
        )]),
        input,
    )
    .unwrap_err();
    assert_eq!(e, ExpandError::MalformedFlag(t("color")));
}

fn synthesized_for(attr_flags: Vec<Flag>, base: &str, is_reference: bool) -> MethodDef {
    let fd = FieldDef {
        name: t("x"),
        ty: TypeRef {
            is_reference,
            base: t(base),
        },
        attrs: vec![FieldAttr::GsFlags(attr_flags)],
    };
    let entry = resolve_field_entry(&fd, &empty_context()).unwrap();
    assert_eq!(entry.specs.len(), 1);
    synthesize_method(&entry.specs[0], &entry.field, &entry.ty)
}

#[test]
fn setter_shape() {
    let m = synthesized_for(vec![Flag::Bare(t("set"))], "u64", false);
    assert_eq!(m.name, "set_x");
    assert!(m.mutates);
    let p = m.param.as_ref().unwrap();
    assert_eq!(p.name, "new_x");
    assert_eq!(p.ty.base, "u64");
    assert!(!p.ty.is_reference);
    assert!(m.ret.is_none());
    assert!(matches!(&m.body, MethodBody::AssignParamToField(f) if f == "x"));
}

#[test]
fn copy_getter_shape() {
    let m = synthesized_for(vec![Flag::Bare(t("get_copy"))], "u64", false);
    assert_eq!(m.name, "get_x");
    assert!(!m.mutates);
    assert!(m.param.is_none());
    let r = m.ret.as_ref().unwrap();
    assert!(!r.is_reference);
    assert_eq!(r.base, "u64");
    assert!(matches!(&m.body, MethodBody::ReadField(f) if f == "x"));
}

#[test]
fn reference_getter_adds_indirection() {
    let m = synthesized_for(vec![Flag::Bare(t("get"))], "String", false);
    let r = m.ret.as_ref().unwrap();
    assert!(r.is_reference);
    assert_eq!(r.base, "String");
    assert!(matches!(&m.body, MethodBody::ReadFieldRef(f) if f == "x"));
}

#[test]
fn reference_getter_keeps_reference_type_unchanged() {
    // A field whose type is already a reference gets no added indirection.
    let m = synthesized_for(vec![Flag::Bare(t("get"))], "str", true);
    let r = m.ret.as_ref().unwrap();
    assert!(r.is_reference);
    assert_eq!(r.base, "str");
    assert!(matches!(&m.body, MethodBody::ReadField(f) if f == "x"));
}

#[test]
fn other_attributes_pass_through() {
    let input = StructDef {
        name: t("S"),
        fields: StructFields::Named(vec![FieldDef {
            name: t("x"),
            ty: ty("u64"),
            attrs: vec![
                FieldAttr::Other(t("serde(skip)")),
                FieldAttr::GsFlags(vec![Flag::Bare(t("get"))]),
                FieldAttr::Other(t("doc")),
            ],
        }]),
    };
    let out = expand_get_set(None, input).unwrap();
    assert_eq!(out.methods.len(), 1);
    match &out.item.fields {
        StructFields::Named(fds) => {
            assert_eq!(fds.len(), 1);
            assert_eq!(fds[0].attrs.len(), 2);
            assert!(matches!(&fds[0].attrs[0], FieldAttr::Other(a) if a == "serde(skip)"));
            assert!(matches!(&fds[0].attrs[1], FieldAttr::Other(a) if a == "doc"));
        }
        _ => unreachable!(),
    }
}

#[test]
fn field_default_reaches_derived_specs() {
    // A field-wide default fills gaps in the specs the struct-wide flags
    // derive for that field, and beats the struct-wide flag's own settings.
    let ctx = collect_struct_context(&vec![Flag::WithSettings(
        t("get"),
        vec![Setting::Word(t("inline_always"))],
    )])
    .unwrap();
    let fd = field(
        "x",
        "u64",
        vec![FieldAttr::GsFlags(vec![Flag::WithSettings(
            t("default"),
            vec![Setting::Word(t("inline_never"))],
        )])],
    );
    let entry = resolve_field_entry(&fd, &ctx).unwrap();
    assert_eq!(entry.specs.len(), 1);
    assert_eq!(entry.specs[0].name, "get_x");
    assert!(matches!(entry.specs[0].inline, Some(InlineHint::Never)));
}

#[test]
fn struct_default_supplies_fallbacks_without_emitting() {
    // A struct-wide `default` flag alone produces no method; it only fills
    // gaps once some operation flag asks for one.
    let ctx_only_default = collect_struct_context(&vec![Flag::WithSettings(
        t("default"),
        vec![Setting::Word(t("inline_always"))],
    )])
    .unwrap();
    let fd = field("x", "u64", vec![]);
    let entry = resolve_field_entry(&fd, &ctx_only_default).unwrap();
    assert!(entry.specs.is_empty());

    let ctx_with_get = collect_struct_context(&vec![
        Flag::WithSettings(t("default"), vec![Setting::Word(t("inline_always"))]),
        Flag::Bare(t("get")),
    ])
    .unwrap();
    let fd2 = field("x", "u64", vec![]);
    let entry2 = resolve_field_entry(&fd2, &ctx_with_get).unwrap();
    assert_eq!(entry2.specs.len(), 1);
    assert!(matches!(entry2.specs[0].inline, Some(InlineHint::Always)));
}

#[test]
fn vis_setting_is_taken_verbatim() {
    let m = synthesized_for(
        vec![Flag::WithSettings(
            t("get"),
            vec![Setting::KeyValue(t("vis"), t("pub(crate)"))],
        )],
        "u64",
        false,
    );
    assert_eq!(m.vis, "pub(crate)");
}
