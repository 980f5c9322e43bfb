//! Debug text, as `{:?}` writes it.

use vstd::prelude::*;
use std::time::Duration;

verus! {

/// What `{:?}` writes for a string: the text in double quotes, with quotes,
/// backslashes and control characters escaped.
pub uninterp spec fn quoted(s: Seq<char>) -> Seq<char>;

/// Calls `format!("{:?}", s)`, which writes a `str` through its `Debug`
/// impl; the result is named `quoted` of the same text.
#[verifier::external_body]
pub(crate) fn debug_str(s: &str) -> (text: String)
    ensures
        text@ == quoted(s@),
{
    format!("{:?}", s)
}

/// What `{:?}` writes for a `Duration` (such as `20s` or `1.5s`).
pub uninterp spec fn duration_text(d: Duration) -> Seq<char>;

/// Calls `format!("{:?}", d)`, which writes a `Duration` through its `Debug`
/// impl; the result is named `duration_text` of the same duration.
#[verifier::external_body]
pub(crate) fn debug_duration(d: &Duration) -> (text: String)
    ensures
        text@ == duration_text(*d),
{
    format!("{:?}", d)
}

/// Calls `format!("{:?}", value)`, which writes `value` through its `Debug`
/// impl. What that impl writes depends on the type and is not stated.
#[verifier::external_body]
pub(crate) fn debug_value<T: std::fmt::Debug>(value: &T) -> (text: String) {
    format!("{:?}", value)
}

} // verus!
