use get_set_gen::expand::{expand_get_set, Expansion};
use get_set_gen::parser::{Flag, Setting};
use get_set_gen::semantics::{invoke_getter, invoke_setter, FieldBinding, StructValue, Value};
use get_set_gen::settings::InlineHint;
use get_set_gen::structure::{FieldAttr, FieldDef, StructDef, StructFields, TypeRef};
use get_set_gen::synth::MethodDef;

fn t(x: &str) -> String {
    x.to_string()
}

fn named_field(name: &str, base: &str, attrs: Vec<FieldAttr>) -> FieldDef {
    FieldDef {
        name: t(name),
        ty: TypeRef {
            is_reference: false,
            base: t(base),
        },
        attrs,
    }
}

fn find<'a>(out: &'a Expansion, name: &str) -> Option<&'a MethodDef> {
    out.methods.iter().find(|m| m.name == name)
}

fn example_expansion() -> Expansion {
    let input = StructDef {
        name: t("Example"),
        fields: StructFields::Named(vec![
            named_field(
                "name",
                "String",
                vec![FieldAttr::GsFlags(vec![Flag::WithSettings(
                    t("get"),
                    vec![Setting::KeyValue(t("rename"), t("renamed_get_name"))],
                )])],
            ),
            // Has no inline setting of its own; explicit `get` overrides the
            // struct-wide derived getter.
            named_field(
                "age",
                "u32",
                vec![FieldAttr::GsFlags(vec![Flag::Bare(t("get"))])],
            ),
            // Still receives the struct-wide flags.
            named_field("unflagged", "i64", vec![]),
            // Gets no accessor at all.
            named_field(
                "skipped",
                "f32",
                vec![FieldAttr::GsFlags(vec![Flag::Bare(t("skip"))])],
            ),
            named_field(
                "city",
                "String",
                vec![FieldAttr::GsFlags(vec![
                    Flag::WithSettings(
                        t("get"),
                        vec![
                            Setting::Word(t("inline_always")),
                            Setting::KeyValue(t("rename"), t("city_ref")),
                        ],
                    ),
                    Flag::WithSettings(t("set"), vec![Setting::KeyValue(t("rename"), t("set_city"))]),
                ])],
            ),
        ]),
    };
    let gs_attrs = Some(vec![Flag::WithSettings(
        t("get"),
        vec![
            Setting::Word(t("inline_always")),
            Setting::KeyValue(t("rename"), t("IGNORED_RENAME")),
        ],
    )]);
    expand_get_set(gs_attrs, input).unwrap()
}

fn example_value() -> StructValue {
    StructValue {
        fields: vec![
            FieldBinding {
                name: t("name"),
                value: Value::Text(t("ExampleName")),
            },
            FieldBinding {
                name: t("age"),
                value: Value::Int(55),
            },
            FieldBinding {
                name: t("unflagged"),
                value: Value::Int(-128),
            },
            FieldBinding {
                name: t("skipped"),
                value: Value::Text(t("unread")),
            },
            FieldBinding {
                name: t("city"),
                value: Value::Text(t("ExampleCity")),
            },
        ],
    }
}

#[test]
fn example_struct_end_to_end() {
    let out = example_expansion();
    let st = example_value();

    // `name`: both the renamed getter and the struct-wide derived one exist,
    // and both return the same stored value.
    let renamed = find(&out, "renamed_get_name").unwrap();
    let derived = find(&out, "get_name").unwrap();
    assert_eq!(
        invoke_getter(renamed, &st),
        Some(Value::Text(t("ExampleName")))
    );
    assert_eq!(invoke_getter(derived, &st), invoke_getter(renamed, &st));

    // `age`: a getter, no setter.
    let get_age = find(&out, "get_age").unwrap();
    assert_eq!(invoke_getter(get_age, &st), Some(Value::Int(55)));
    assert!(find(&out, "set_age").is_none());

    // `unflagged`: inherits the struct-wide getter; no setter, since the
    // struct level only requested `get`.
    let get_unflagged = find(&out, "get_unflagged").unwrap();
    assert_eq!(invoke_getter(get_unflagged, &st), Some(Value::Int(-128)));
    assert!(find(&out, "set_unflagged").is_none());

    // `skipped`: no accessor at all.
    assert!(find(&out, "get_skipped").is_none());
    assert!(find(&out, "set_skipped").is_none());
    assert!(!out.methods.iter().any(|m| match &m.body {
        get_set_gen::synth::MethodBody::AssignParamToField(f) => f == "skipped",
        get_set_gen::synth::MethodBody::ReadField(f) => f == "skipped",
        get_set_gen::synth::MethodBody::ReadFieldRef(f) => f == "skipped",
    }));

    // `city`: the renamed getter reads the current value; the renamed setter
    // mutates it, confirmed by reading back the new value.
    let city_ref = find(&out, "city_ref").unwrap();
    assert_eq!(
        invoke_getter(city_ref, &st),
        Some(Value::Text(t("ExampleCity")))
    );
    let set_city = find(&out, "set_city").unwrap();
    let mut st2 = st;
    invoke_setter(set_city, &mut st2, Value::Text(t("NewCity")));
    assert_eq!(invoke_getter(city_ref, &st2), Some(Value::Text(t("NewCity"))));
}

#[test]
fn example_struct_shape_of_output() {
    let out = example_expansion();

    // The struct-wide rename never names a method.
    assert!(find(&out, "IGNORED_RENAME").is_none());

    // The struct-wide `inline_always` reaches the derived getters.
    assert!(matches!(
        find(&out, "get_unflagged").unwrap().inline,
        Some(InlineHint::Always)
    ));
    assert!(matches!(
        find(&out, "get_name").unwrap().inline,
        Some(InlineHint::Always)
    ));

    // The emitted structure keeps its name and all five fields, with the
    // accessor attributes consumed.
    assert_eq!(out.item.name, "Example");
    match &out.item.fields {
        StructFields::Named(fds) => {
            assert_eq!(fds.len(), 5);
            assert!(fds.iter().all(|fd| fd.attrs.is_empty()));
            assert_eq!(fds[0].name, "name");
            assert_eq!(fds[3].name, "skipped");
        }
        _ => unreachable!(),
    }

    // Every method of the example is a getter except the one explicit setter.
    let setters: Vec<&MethodDef> = out.methods.iter().filter(|m| m.mutates).collect();
    assert_eq!(setters.len(), 1);
    assert_eq!(setters[0].name, "set_city");
}
