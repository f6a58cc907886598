use get_set_gen::errors::ExpandError;
use get_set_gen::parser::{
    extract_default_func_props, extract_opt_func_props, flag_kind, Flag, Setting,
};
use get_set_gen::settings::{InlineHint, OperationKind, PartialMethodSettings};

fn s(t: &str) -> String {
    t.to_string()
}

#[test]
fn bare_flag_has_empty_settings() {
    let p = extract_opt_func_props(&Flag::Bare(s("get"))).unwrap();
    assert!(p.name.is_none());
    assert!(p.inline.is_none());
    assert!(p.vis.is_none());
}

#[test]
fn settings_list_is_parsed() {
    let f = Flag::WithSettings(
        s("get_copy"),
        vec![
            Setting::KeyValue(s("rename"), s("draft")),
            Setting::Word(s("inline_never")),
            Setting::KeyValue(s("vis"), s("pub(crate)")),
        ],
    );
    let p = extract_opt_func_props(&f).unwrap();
    assert_eq!(p.name.as_deref(), Some("draft"));
    assert!(matches!(p.inline, Some(InlineHint::Never)));
    assert_eq!(p.vis.as_deref(), Some("pub(crate)"));
}

#[test]
fn latest_setting_overrides_earlier() {
    let f = Flag::WithSettings(
        s("get"),
        vec![
            Setting::KeyValue(s("rename"), s("first")),
            Setting::Word(s("inline_always")),
            Setting::KeyValue(s("rename"), s("second")),
            Setting::Word(s("inline_never")),
        ],
    );
    let p = extract_opt_func_props(&f).unwrap();
    assert_eq!(p.name.as_deref(), Some("second"));
    assert!(matches!(p.inline, Some(InlineHint::Never)));
}

#[test]
fn unknown_setting_key_is_malformed() {
    let f = Flag::WithSettings(s("get"), vec![Setting::KeyValue(s("frobnicate"), s("x"))]);
    let e = extract_opt_func_props(&f).unwrap_err();
    assert_eq!(e, ExpandError::MalformedFlag(s("frobnicate")));
    let msg = e.message();
    assert!(msg.contains("frobnicate"));
    assert!(msg.contains("rename"));
}

#[test]
fn unknown_setting_word_is_malformed() {
    let f = Flag::WithSettings(s("get"), vec![Setting::Word(s("inline_maybe"))]);
    let e = extract_opt_func_props(&f).unwrap_err();
    assert_eq!(e, ExpandError::MalformedFlag(s("inline_maybe")));
}

#[test]
fn nested_setting_is_malformed() {
    let f = Flag::WithSettings(s("get"), vec![Setting::Nested(s("inline_hint"))]);
    let e = extract_opt_func_props(&f).unwrap_err();
    assert_eq!(e, ExpandError::MalformedFlag(s("inline_hint")));
}

#[test]
fn assigned_flag_has_empty_settings() {
    // A `keyword = "value"` flag carries no settings list; only its keyword
    // counts, as for a bare keyword.
    let p = extract_opt_func_props(&Flag::Assigned(s("get"))).unwrap();
    assert!(p.name.is_none() && p.inline.is_none() && p.vis.is_none());
}

#[test]
fn earlier_malformed_default_is_an_error() {
    // Every `default` flag of a scope is held to the grammar, even one a later
    // `default` flag supersedes.
    let flags = vec![
        Flag::WithSettings(s("default"), vec![Setting::KeyValue(s("color"), s("red"))]),
        Flag::WithSettings(s("default"), vec![Setting::Word(s("inline_never"))]),
    ];
    let e = extract_default_func_props(&flags).unwrap_err();
    assert_eq!(e, ExpandError::MalformedFlag(s("color")));
}

#[test]
fn last_default_wins() {
    let flags = vec![
        Flag::Bare(s("get")),
        Flag::WithSettings(
            s("default"),
            vec![
                Setting::Word(s("inline_always")),
                Setting::KeyValue(s("vis"), s("pub(super)")),
            ],
        ),
        Flag::WithSettings(s("default"), vec![Setting::Word(s("inline_never"))]),
    ];
    let d = extract_default_func_props(&flags).unwrap();
    assert!(matches!(d.inline, Some(InlineHint::Never)));
    assert!(d.vis.is_none());
    assert!(d.name.is_none());
}

#[test]
fn default_rename_is_cleared() {
    let flags = vec![Flag::WithSettings(
        s("default"),
        vec![
            Setting::KeyValue(s("rename"), s("never_used")),
            Setting::Word(s("inline_always")),
        ],
    )];
    let d = extract_default_func_props(&flags).unwrap();
    assert!(d.name.is_none());
    assert!(matches!(d.inline, Some(InlineHint::Always)));
}

#[test]
fn no_default_yields_empty() {
    let flags = vec![Flag::Bare(s("get")), Flag::Bare(s("set"))];
    let d = extract_default_func_props(&flags).unwrap();
    assert!(d.name.is_none() && d.inline.is_none() && d.vis.is_none());
}

#[test]
fn flag_kinds_are_recognized() {
    assert!(matches!(
        flag_kind(&Flag::Bare(s("get"))),
        Ok(OperationKind::GetByReference)
    ));
    assert!(matches!(
        flag_kind(&Flag::Bare(s("set"))),
        Ok(OperationKind::SetValue)
    ));
    assert!(matches!(
        flag_kind(&Flag::Bare(s("get_copy"))),
        Ok(OperationKind::GetByCopy)
    ));
    let e = flag_kind(&Flag::Bare(s("delete"))).unwrap_err();
    assert_eq!(e, ExpandError::MalformedFlag(s("delete")));
}

#[test]
fn fallback_merge_prefers_left() {
    let a = PartialMethodSettings {
        name: Some(s("a")),
        inline: None,
        vis: Some(s("pub(crate)")),
    };
    let b = PartialMethodSettings {
        name: Some(s("b")),
        inline: Some(InlineHint::Always),
        vis: None,
    };
    let m = a.or(b);
    assert_eq!(m.name.as_deref(), Some("a"));
    assert!(matches!(m.inline, Some(InlineHint::Always)));
    assert_eq!(m.vis.as_deref(), Some("pub(crate)"));
}

#[test]
fn build_fills_hard_defaults() {
    let m = PartialMethodSettings {
        name: None,
        inline: None,
        vis: None,
    };
    let r = m.build(OperationKind::SetValue, &s("age"));
    assert_eq!(r.name, "set_age");
    assert!(r.inline.is_none());
    assert_eq!(r.vis, "pub");

    let m2 = PartialMethodSettings {
        name: Some(s("years")),
        inline: Some(InlineHint::Never),
        vis: Some(s("pub(crate)")),
    };
    let r2 = m2.build(OperationKind::GetByReference, &s("age"));
    assert_eq!(r2.name, "years");
    assert!(matches!(r2.inline, Some(InlineHint::Never)));
    assert_eq!(r2.vis, "pub(crate)");
}

#[test]
fn build_with_default_name_ignores_rename() {
    let m = PartialMethodSettings {
        name: Some(s("ignored")),
        inline: Some(InlineHint::Always),
        vis: None,
    };
    let r = m.build_with_default_name(OperationKind::GetByCopy, &s("city"));
    assert_eq!(r.name, "get_city");
    assert!(matches!(r.inline, Some(InlineHint::Always)));
}
