//! What the panel reads from a failed load: the error's description.

use std::fmt::Write;
use vstd::prelude::*;

verus! {

/// `anyhow::Error`, carried through as an opaque value.
#[verifier::external_type_specification]
#[verifier::external_body]
pub struct ExError(anyhow::Error);

/// The text that the `Display` implementation of `anyhow::Error` writes for
/// `error` when formatted with `{}`: the description of the outermost error,
/// without its chain of causes.
pub uninterp spec fn error_text(error: anyhow::Error) -> Seq<char>;

/// Formats `error` with `{}` through `anyhow`'s `Display` implementation.
///
/// Believed without proof: the result is the text named by [`error_text`].
/// Nothing is claimed about what that text holds; it may be empty.
#[verifier::external_body]
pub(crate) fn describe(error: &anyhow::Error) -> (text: String)
    ensures
        text@ == error_text(*error),
{
    let mut text = String::new();
    let _ = write!(text, "{}", error);
    text
}

} // verus!
