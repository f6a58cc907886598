use vstd::prelude::*;

verus! {

/// A diagnostic raised while parsing annotation flags or resolving settings.
/// Every error is fatal: a single malformed flag invalidates the whole
/// expansion for the structure.
#[derive(Debug, PartialEq, Eq)]
pub enum ExpandError {
    /// The structure lacks named fields.
    UnsupportedShape,
    /// A flag or its settings list does not fit the flag grammar; carries the
    /// offending keyword or setting key.
    MalformedFlag(String),
    /// The field annotation is present but is not a parenthesized flag list.
    MalformedAttributeUsage,
}

/// Ghost mirror of `ExpandError`.
pub enum ExpandErrorView {
    UnsupportedShape,
    MalformedFlag(Seq<char>),
    MalformedAttributeUsage,
}

impl View for ExpandError {
    type V = ExpandErrorView;

    open spec fn view(&self) -> ExpandErrorView {
        match self {
            ExpandError::UnsupportedShape => ExpandErrorView::UnsupportedShape,
            ExpandError::MalformedFlag(k) => ExpandErrorView::MalformedFlag(k@),
            ExpandError::MalformedAttributeUsage => ExpandErrorView::MalformedAttributeUsage,
        }
    }
}

impl ExpandError {
    /// A human-readable diagnostic naming the expected grammar.
    pub fn message(&self) -> (m: String)
        ensures
            (self is UnsupportedShape) ==> m@ == "Only named fields are supported"@,
            self matches ExpandError::MalformedFlag(k) ==> m@ == "malformed flag `"@ + k@
                + "`: expected `get`, `set`, `get_copy`, `skip` or `default`, optionally with a list of `rename = \"..\"`, `vis = \"..\"`, `inline_always`, `inline_never`"@,
            (self is MalformedAttributeUsage) ==> m@
                == "gsflags usage: `#[gsflags(get(rename = \"name\"), set, ...)]`"@,
    {
        match self {
            ExpandError::UnsupportedShape => String::from_str("Only named fields are supported"),
            ExpandError::MalformedFlag(k) => String::from_str("malformed flag `").concat(
                k.as_str(),
            ).concat(
                "`: expected `get`, `set`, `get_copy`, `skip` or `default`, optionally with a list of `rename = \"..\"`, `vis = \"..\"`, `inline_always`, `inline_never`",
            ),
            ExpandError::MalformedAttributeUsage => String::from_str(
                "gsflags usage: `#[gsflags(get(rename = \"name\"), set, ...)]`",
            ),
        }
    }
}

} // verus!
