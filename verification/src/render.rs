//! Rendering of attribute values for mismatch reports.
//!
//! A report shows the expected and the seen value of an attribute in the form
//! that the standard `Debug` formatting gives them. That formatting is done by
//! the standard library and is not verified here: the two functions below are
//! trusted to return what the two names stand for, and nothing else is claimed
//! of the rendered text.
use vstd::prelude::*;

verus! {

/// The `Debug` rendering of a string: the text between double quotes, with the
/// characters that the standard library escapes written as escapes.
pub uninterp spec fn debug_text(text: Seq<char>) -> Seq<char>;

/// The `Debug` rendering of a list of strings: the renderings of its items,
/// separated by commas, between square brackets.
pub uninterp spec fn debug_texts(texts: Seq<Seq<char>>) -> Seq<char>;

/// Renders a string with `<str as Debug>::fmt`, by way of `format!("{:?}", ..)`.
///
/// Trusted: the result is the rendering named `debug_text` of the argument's
/// characters. The rendering depends on those characters alone.
#[verifier::external_body]
pub(crate) fn render_text(text: &str) -> (rendered: String)
    ensures
        rendered@ == debug_text(text@),
{
    format!("{:?}", text)
}

/// Renders a list of strings with `<Vec<String> as Debug>::fmt`, by way of
/// `format!("{:?}", ..)`.
///
/// Trusted: the result is the rendering named `debug_texts` of the items'
/// characters, in order. The rendering depends on those characters alone.
#[verifier::external_body]
pub(crate) fn render_texts(texts: &Vec<String>) -> (rendered: String)
    ensures
        rendered@ == debug_texts(texts.deep_view()),
{
    format!("{:?}", texts)
}

} // verus!
