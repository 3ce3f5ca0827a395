//! The fixed text that stands for a secret in diagnostics.
//!
//! The text is built from a marker and, under one of the two policies, a label
//! for the carried type (its name). The carried value never takes part in it:
//! the text is a function of the label alone.
use crate::Secret;
use vstd::prelude::*;

verus! {

/// The text that stands for a secret: `[REDACTED]` when the type name is
/// hidden, `[REDACTED <name>]` when it is shown.
pub open spec fn redaction_text(type_label: Option<Seq<char>>) -> Seq<char> {
    match type_label {
        Some(n) => "[REDACTED "@ + n + "]"@,
        None => "[REDACTED]"@,
    }
}

/// The view of an optional type name.
pub open spec fn name_view(type_label: Option<&str>) -> Option<Seq<char>> {
    match type_label {
        Some(n) => Some(n@),
        None => None,
    }
}

/// Builds the text that stands for a secret, showing `type_label` when one is given.
///
/// No secret value reaches this function, so none can reach its text.
pub fn redaction_marker(type_label: Option<&str>) -> (r: String)
    ensures
        r@ == redaction_text(name_view(type_label)),
{
    match type_label {
        Some(n) => String::from_str("[REDACTED ").concat(n).concat("]"),
        None => String::from_str("[REDACTED]"),
    }
}

impl<T> Secret<T> {
    /// The diagnostic text of this secret: the marker, with `type_label` (the
    /// name of the carried type) when one is given.
    ///
    /// The text is fixed by the label alone and never by the carried value.
    /// The label is whatever the caller passes: secrets of one type are shown
    /// alike only where callers pass the same label for that type, as a
    /// caller that passes the type's name does.
    pub fn redacted(&self, type_label: Option<&str>) -> (r: String)
        ensures
            r@ == redaction_text(name_view(type_label)),
    {
        redaction_marker(type_label)
    }
}

} // verus!
