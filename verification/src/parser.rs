use vstd::prelude::*;
use crate::errors::{ExpandError, ExpandErrorView};
use crate::settings::{
    empty_settings,
    merged,
    cleared_name,
    OperationKind,
    InlineHint,
    PartialMethodSettings,
    PartialSettingsView,
};

verus! {

/// One entry of a flag's parenthesized settings list: a bare keyword
/// (`inline_always`, `inline_never`), a `key = "value"` pair (`rename`, `vis`),
/// or a nested parenthesized entry, which the grammar does not allow and which
/// therefore only carries its key for the diagnostic.
#[derive(Debug)]
pub enum Setting {
    Word(String),
    KeyValue(String, String),
    Nested(String),
}

/// Ghost mirror of `Setting`.
pub enum SettingView {
    Word(Seq<char>),
    KeyValue(Seq<char>, Seq<char>),
    Nested(Seq<char>),
}

impl View for Setting {
    type V = SettingView;

    open spec fn view(&self) -> SettingView {
        match self {
            Setting::Word(w) => SettingView::Word(w@),
            Setting::KeyValue(k, v) => SettingView::KeyValue(k@, v@),
            Setting::Nested(k) => SettingView::Nested(k@),
        }
    }
}

impl Clone for Setting {
    fn clone(&self) -> (r: Self)
        ensures
            r == *self,
    {
        match self {
            Setting::Word(w) => Setting::Word(w.clone()),
            Setting::KeyValue(k, v) => Setting::KeyValue(k.clone(), v.clone()),
            Setting::Nested(k) => Setting::Nested(k.clone()),
        }
    }
}

/// One annotation flag: a bare keyword (`get`, `set`, `get_copy`, `skip`,
/// `default`), a keyword with a parenthesized settings list, or a keyword
/// assigned a value, which the flag grammar does not allow.
#[derive(Debug)]
pub enum Flag {
    Bare(String),
    WithSettings(String, Vec<Setting>),
    Assigned(String),
}

/// Ghost mirror of `Flag`.
pub enum FlagView {
    Bare(Seq<char>),
    WithSettings(Seq<char>, Seq<SettingView>),
    Assigned(Seq<char>),
}

/// The view of a sequence of settings entries.
pub open spec fn settings_seq_view(s: Seq<Setting>) -> Seq<SettingView> {
    s.map_values(|x: Setting| x@)
}

/// The view of a sequence of flags.
pub open spec fn flags_seq_view(s: Seq<Flag>) -> Seq<FlagView> {
    s.map_values(|f: Flag| f@)
}

impl View for Flag {
    type V = FlagView;

    open spec fn view(&self) -> FlagView {
        match self {
            Flag::Bare(w) => FlagView::Bare(w@),
            Flag::WithSettings(w, items) => FlagView::WithSettings(w@, settings_seq_view(items@)),
            Flag::Assigned(w) => FlagView::Assigned(w@),
        }
    }
}

impl Clone for Flag {
    fn clone(&self) -> (r: Self)
        ensures
            r@ == self@,
    {
        match self {
            Flag::Bare(w) => Flag::Bare(w.clone()),
            Flag::WithSettings(w, items) => {
                let cloned_items = clone_settings(items);
                proof {
                    assert(settings_seq_view(cloned_items@) =~= settings_seq_view(items@));
                }
                Flag::WithSettings(w.clone(), cloned_items)
            },
            Flag::Assigned(w) => Flag::Assigned(w.clone()),
        }
    }
}

/// Clones a settings list element by element.
fn clone_settings(items: &Vec<Setting>) -> (r: Vec<Setting>)
    ensures
        r@ =~= items@,
{
    let mut out: Vec<Setting> = Vec::new();
    let mut i: usize = 0;
    while i < items.len()
        invariant
            i <= items.len(),
            out@ =~= items@.take(i as int),
        decreases items.len() - i,
    {
        out.push(items[i].clone());
        proof {
            assert(out@ =~= items@.take(i as int + 1));
        }
        i = i + 1;
    }
    proof {
        assert(items@.take(items@.len() as int) =~= items@);
    }
    out
}

/// The keyword that names a flag, whatever its shape.
pub open spec fn spec_flag_word(f: FlagView) -> Seq<char> {
    match f {
        FlagView::Bare(w) => w,
        FlagView::WithSettings(w, _) => w,
        FlagView::Assigned(w) => w,
    }
}

/// The partial settings one settings entry denotes, or the malformed-flag
/// error naming the unrecognized key.
pub open spec fn spec_setting_props(s: SettingView) -> Result<
    PartialSettingsView,
    ExpandErrorView,
> {
    match s {
        SettingView::Word(w) => if w == "inline_always"@ {
            Ok(
                PartialSettingsView {
                    name: None,
                    inline: Some(InlineHint::Always),
                    vis: None,
                },
            )
        } else if w == "inline_never"@ {
            Ok(PartialSettingsView { name: None, inline: Some(InlineHint::Never), vis: None })
        } else {
            Err(ExpandErrorView::MalformedFlag(w))
        },
        SettingView::KeyValue(k, v) => if k == "rename"@ {
            Ok(PartialSettingsView { name: Some(v), inline: None, vis: None })
        } else if k == "vis"@ {
            Ok(PartialSettingsView { name: None, inline: None, vis: Some(v) })
        } else {
            Err(ExpandErrorView::MalformedFlag(k))
        },
        SettingView::Nested(k) => Err(ExpandErrorView::MalformedFlag(k)),
    }
}

/// Folds a settings list left to right onto an accumulator. The latest
/// occurrence of a setting overrides earlier ones: each new entry is merged
/// with the accumulator at higher precedence.
pub open spec fn spec_settings_props(
    items: Seq<SettingView>,
    acc: PartialSettingsView,
) -> Result<PartialSettingsView, ExpandErrorView>
    decreases items.len(),
{
    if items.len() == 0 {
        Ok(acc)
    } else {
        match spec_setting_props(items[0]) {
            Err(e) => Err(e),
            Ok(d) => spec_settings_props(items.drop_first(), merged(d, acc)),
        }
    }
}

/// The partial settings a whole flag carries: empty for a bare keyword, the
/// folded settings list otherwise. A flag of the assigned shape
/// (`keyword = "value"`) carries no settings list, so it contributes the empty
/// record; only its keyword counts.
pub open spec fn spec_flag_props(f: FlagView) -> Result<PartialSettingsView, ExpandErrorView> {
    match f {
        FlagView::Bare(_) => Ok(empty_settings()),
        FlagView::WithSettings(_, items) => spec_settings_props(items, empty_settings()),
        FlagView::Assigned(_) => Ok(empty_settings()),
    }
}

/// Folds one scope's `default` flags left to right: every `default` flag is
/// parsed — a malformed one surfaces its error even when a later `default`
/// flag supersedes it — and the last occurrence wins wholesale, with its name
/// attribute cleared.
pub open spec fn spec_default_props_acc(flags: Seq<FlagView>, acc: PartialSettingsView) -> Result<
    PartialSettingsView,
    ExpandErrorView,
>
    decreases flags.len(),
{
    if flags.len() == 0 {
        Ok(acc)
    } else if spec_flag_word(flags[0]) == "default"@ {
        match spec_flag_props(flags[0]) {
            Err(e) => Err(e),
            Ok(p) => spec_default_props_acc(flags.drop_first(), cleared_name(p)),
        }
    } else {
        spec_default_props_acc(flags.drop_first(), acc)
    }
}

/// The settings the `default` pseudo-flag supplies at one scope: the settings
/// of the scope's last `default` flag, with the name attribute cleared, or the
/// empty record when the scope has no `default` flag. Every `default` flag of
/// the scope is held to the grammar, not only the winning one.
pub open spec fn spec_default_props(flags: Seq<FlagView>) -> Result<
    PartialSettingsView,
    ExpandErrorView,
> {
    spec_default_props_acc(flags, empty_settings())
}

/// The operation kind a flag requests, or the malformed-flag error naming the
/// unrecognized keyword.
pub open spec fn spec_flag_kind(f: FlagView) -> Result<OperationKind, ExpandErrorView> {
    let w = spec_flag_word(f);
    if w == "get"@ {
        Ok(OperationKind::GetByReference)
    } else if w == "set"@ {
        Ok(OperationKind::SetValue)
    } else if w == "get_copy"@ {
        Ok(OperationKind::GetByCopy)
    } else {
        Err(ExpandErrorView::MalformedFlag(w))
    }
}

/// The view of a settings result, for relating executable results to the
/// specification functions.
pub open spec fn props_result_view(r: Result<PartialMethodSettings, ExpandError>) -> Result<
    PartialSettingsView,
    ExpandErrorView,
> {
    match r {
        Ok(p) => Ok(p@),
        Err(e) => Err(e@),
    }
}

/// The view of an operation-kind result.
pub open spec fn kind_result_view(r: Result<OperationKind, ExpandError>) -> Result<
    OperationKind,
    ExpandErrorView,
> {
    match r {
        Ok(k) => Ok(k),
        Err(e) => Err(e@),
    }
}

/// True when the string equals the literal.
pub fn word_is(s: &String, w: &str) -> (b: bool)
    ensures
        b == (s@ == w@),
{
    let other = String::from_str(w);
    *s == other
}

/// The keyword that names a flag.
pub fn flag_word<'a>(f: &'a Flag) -> (r: &'a String)
    ensures
        r@ == spec_flag_word(f@),
{
    match f {
        Flag::Bare(w) => w,
        Flag::WithSettings(w, _) => w,
        Flag::Assigned(w) => w,
    }
}

/// Parses one settings entry into a partial settings record.
fn setting_props(s: &Setting) -> (r: Result<PartialMethodSettings, ExpandError>)
    ensures
        props_result_view(r) == spec_setting_props(s@),
{
    match s {
        Setting::Word(w) => if word_is(w, "inline_always") {
            Ok(
                PartialMethodSettings {
                    name: None,
                    inline: Some(InlineHint::Always),
                    vis: None,
                },
            )
        } else if word_is(w, "inline_never") {
            Ok(PartialMethodSettings { name: None, inline: Some(InlineHint::Never), vis: None })
        } else {
            Err(ExpandError::MalformedFlag(w.clone()))
        },
        Setting::KeyValue(k, v) => if word_is(k, "rename") {
            Ok(PartialMethodSettings { name: Some(v.clone()), inline: None, vis: None })
        } else if word_is(k, "vis") {
            Ok(PartialMethodSettings { name: None, inline: None, vis: Some(v.clone()) })
        } else {
            Err(ExpandError::MalformedFlag(k.clone()))
        },
        Setting::Nested(k) => Err(ExpandError::MalformedFlag(k.clone())),
    }
}

/// Folds the settings list from position `i` on, latest entry overriding.
fn settings_props_from(items: &Vec<Setting>, i: usize, acc: PartialMethodSettings) -> (r: Result<
    PartialMethodSettings,
    ExpandError,
>)
    requires
        i <= items@.len(),
    ensures
        props_result_view(r) == spec_settings_props(
            settings_seq_view(items@).skip(i as int),
            acc@,
        ),
    decreases items@.len() - i,
{
    let ghost sv = settings_seq_view(items@);
    if i == items.len() {
        proof {
            assert(sv.skip(i as int).len() == 0);
        }
        Ok(acc)
    } else {
        proof {
            assert(sv.skip(i as int)[0] == sv[i as int]);
            assert(sv.skip(i as int).drop_first() =~= sv.skip(i as int + 1));
        }
        match setting_props(&items[i]) {
            Err(e) => Err(e),
            Ok(d) => settings_props_from(items, i + 1, d.or(acc)),
        }
    }
}

/// Converts one annotation flag into the partially-specified settings record
/// its settings list denotes: empty for a bare keyword or an assigned keyword,
/// an error when the list holds an unrecognized key or does not fit the
/// grammar.
pub fn extract_opt_func_props(gs_flag: &Flag) -> (r: Result<PartialMethodSettings, ExpandError>)
    ensures
        props_result_view(r) == spec_flag_props(gs_flag@),
{
    match gs_flag {
        Flag::Bare(_) => Ok(PartialMethodSettings::new()),
        Flag::WithSettings(_, items) => {
            proof {
                assert(settings_seq_view(items@).skip(0) =~= settings_seq_view(items@));
            }
            settings_props_from(items, 0, PartialMethodSettings::new())
        },
        Flag::Assigned(_) => Ok(PartialMethodSettings::new()),
    }
}

/// Folds the `default` flags from position `i` on: every one is parsed, the
/// last one wins wholesale with its name cleared.
fn default_props_from(gs_flags: &Vec<Flag>, i: usize, acc: PartialMethodSettings) -> (r: Result<
    PartialMethodSettings,
    ExpandError,
>)
    requires
        i <= gs_flags@.len(),
    ensures
        props_result_view(r) == spec_default_props_acc(
            flags_seq_view(gs_flags@).skip(i as int),
            acc@,
        ),
    decreases gs_flags@.len() - i,
{
    let ghost fv = flags_seq_view(gs_flags@);
    if i == gs_flags.len() {
        proof {
            assert(fv.skip(i as int).len() == 0);
        }
        Ok(acc)
    } else {
        proof {
            assert(fv.skip(i as int)[0] == fv[i as int]);
            assert(fv.skip(i as int).drop_first() =~= fv.skip(i as int + 1));
        }
        let f = &gs_flags[i];
        if word_is(flag_word(f), "default") {
            match extract_opt_func_props(f) {
                Err(e) => Err(e),
                Ok(p) => default_props_from(gs_flags, i + 1, p.remove_name()),
            }
        } else {
            default_props_from(gs_flags, i + 1, acc)
        }
    }
}

/// Reduces one scope's `default` flags to the settings they supply as
/// fallbacks: the settings list of the scope's last `default` flag, with its
/// name cleared, since a default must never dictate a method's identifier.
/// Every `default` flag of the scope is parsed, so a malformed one surfaces
/// its error even when a later one supersedes it.
pub fn extract_default_func_props(gs_flags: &Vec<Flag>) -> (r: Result<
    PartialMethodSettings,
    ExpandError,
>)
    ensures
        props_result_view(r) == spec_default_props(flags_seq_view(gs_flags@)),
{
    proof {
        assert(flags_seq_view(gs_flags@).skip(0) =~= flags_seq_view(gs_flags@));
    }
    default_props_from(gs_flags, 0, PartialMethodSettings::new())
}

/// The operation kind a flag requests.
pub fn flag_kind(f: &Flag) -> (r: Result<OperationKind, ExpandError>)
    ensures
        kind_result_view(r) == spec_flag_kind(f@),
{
    let w = flag_word(f);
    if word_is(w, "get") {
        Ok(OperationKind::GetByReference)
    } else if word_is(w, "set") {
        Ok(OperationKind::SetValue)
    } else if word_is(w, "get_copy") {
        Ok(OperationKind::GetByCopy)
    } else {
        Err(ExpandError::MalformedFlag(w.clone()))
    }
}

} // verus!
