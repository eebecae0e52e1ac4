//! Parsing the text of a configuration file into a document tree.
//!
//! The tree is `toml::Value`, handed on as the parser built it: nothing here
//! looks inside it, and no schema is imposed on it.

use crate::error::{result_view, text_failure_view, BridgeError, BridgeErrorView};
use vstd::prelude::*;

verus! {

/// `toml::Value`, the untyped document tree. The verifier sees it as an opaque
/// value that is carried from the parser to the caller.
#[verifier::external_type_specification]
#[verifier::external_body]
pub struct ExTomlValue(toml::Value);

/// What `toml::from_str::<toml::Value>` makes of a text: the document, or the
/// rendered diagnostic of the error that stopped it. The parser reads nothing
/// but the text, so this is a function of the text alone.
pub uninterp spec fn toml_parse(text: Seq<char>) -> Result<toml::Value, Seq<char>>;

/// Calls `toml::from_str::<toml::Value>` on `text`. On failure the error of the
/// `toml` crate is rendered through its `Display` impl (the message with the
/// line, the column and the offending line of input).
///
/// Trusted: that the outcome is `toml_parse` of the text, that is, that the same
/// text always gives the same document or the same diagnostic.
#[verifier::external_body]
fn toml_from_str(text: &str) -> (out: Result<toml::Value, String>)
    ensures
        text_failure_view(out) == toml_parse(text@),
{
    match toml::from_str::<toml::Value>(text) {
        Ok(document) => Ok(document),
        Err(error) => Err(error.to_string()),
    }
}

/// The result of the parsing stage for a given outcome of the parser: the
/// document untouched, or a `Parse` failure that carries the diagnostic.
pub open spec fn parse_stage(outcome: Result<toml::Value, Seq<char>>) -> Result<
    toml::Value,
    BridgeErrorView,
> {
    match outcome {
        Ok(document) => Ok(document),
        Err(diagnostic) => Err(BridgeErrorView::Parse { reason: diagnostic }),
    }
}

/// Classifies what the parser returned: a document passes through unchanged, a
/// diagnostic becomes the reason of a `Parse` failure. A failure never comes
/// with a document, partial or otherwise.
pub fn classify_parse(outcome: Result<toml::Value, String>) -> (out: Result<
    toml::Value,
    BridgeError,
>)
    ensures
        result_view(out) == parse_stage(text_failure_view(outcome)),
{
    match outcome {
        Ok(document) => Ok(document),
        Err(diagnostic) => Err(BridgeError::Parse { reason: diagnostic }),
    }
}

/// Parses the whole of `text` as a structured document. Succeeds exactly when
/// the parser accepts the text; otherwise fails with `Parse` and the parser's
/// diagnostic. The result depends on the text alone.
pub fn parse(text: &str) -> (out: Result<toml::Value, BridgeError>)
    ensures
        result_view(out) == parse_stage(toml_parse(text@)),
{
    classify_parse(toml_from_str(text))
}

/// Parsing is deterministic: whatever two calls of `parse` return on one text is
/// the same, document for document and failure for failure.
pub proof fn lemma_parse_deterministic(
    text: Seq<char>,
    first: Result<toml::Value, BridgeError>,
    second: Result<toml::Value, BridgeError>,
)
    requires
        result_view(first) == parse_stage(toml_parse(text)),
        result_view(second) == parse_stage(toml_parse(text)),
    ensures
        result_view(first) == result_view(second),
        first is Ok <==> second is Ok,
        first is Ok ==> first->Ok_0 == second->Ok_0,
        first is Err ==> first->Err_0@ == second->Err_0@,
{
}

/// A failed parse hands out no document: its result is a `Parse` failure with
/// the parser's diagnostic, and nothing else.
pub proof fn lemma_parse_failure_has_no_document(
    text: Seq<char>,
    out: Result<toml::Value, BridgeError>,
)
    requires
        result_view(out) == parse_stage(toml_parse(text)),
        toml_parse(text) is Err,
    ensures
        out is Err,
        out->Err_0@ == (BridgeErrorView::Parse { reason: toml_parse(text)->Err_0 }),
{
}

} // verus!
