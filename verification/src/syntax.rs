//! What the parser and the token printer make of source text. Lowering
//! takes patterns, types and bodies as text and never looks inside them, so
//! what it writes out is an item only if those texts fit their places: the
//! parser decides that. How a string is written as a literal and how a path
//! prints as tokens is the printer's to say.

use vstd::prelude::*;

verus! {

/// Generated source that the parser does not take as the item it should be.
#[derive(Clone, Debug, PartialEq, Eq)]
pub struct MalformedItem {
    /// The source that was refused.
    pub source: String,
    /// What the parser says against it.
    pub message: String,
}

/// Asks `syn::parse_str::<syn::ItemFn>` whether `source` is one function
/// item: `None` if it is, else the message of the parser's error. Nothing
/// is claimed of the answer.
#[verifier::external_body]
pub(crate) fn fn_item_fault(source: &str) -> Option<String> {
    match syn::parse_str::<syn::ItemFn>(source) {
        Ok(_) => None,
        Err(e) => Some(e.to_string()),
    }
}

/// Asks `syn::parse_str::<syn::ItemStruct>` whether `source` is one struct
/// item: `None` if it is, else the message of the parser's error. Nothing
/// is claimed of the answer.
#[verifier::external_body]
pub(crate) fn struct_item_fault(source: &str) -> Option<String> {
    match syn::parse_str::<syn::ItemStruct>(source) {
        Ok(_) => None,
        Err(e) => Some(e.to_string()),
    }
}

/// Asks `proc_macro2::Literal::string` for `text` as a string literal, and
/// hands back what the literal prints as. Nothing is claimed of the answer.
#[verifier::external_body]
pub(crate) fn string_literal(text: &str) -> String {
    proc_macro2::Literal::string(text).to_string()
}

/// Asks `syn::parse_str::<syn::Path>` to read `source` as a path, and hands
/// back what the path's tokens (`quote::ToTokens::to_token_stream`) print
/// as: `None` if the parser does not take `source` as a path. Nothing is
/// claimed of the answer.
#[verifier::external_body]
pub(crate) fn printed_path(source: &str) -> Option<String> {
    match syn::parse_str::<syn::Path>(source) {
        Ok(path) => Some(quote::ToTokens::to_token_stream(&path).to_string()),
        Err(_) => None,
    }
}

/// What becomes of generated source once the parser has spoken: it is
/// handed out if the parser found no fault, and refused with the parser's
/// message if it did.
pub fn checked(source: String, fault: Option<String>) -> (r: Result<String, MalformedItem>)
    ensures
        fault is None ==> r == Ok::<String, MalformedItem>(source),
        fault matches Some(message) ==> r == Err::<String, MalformedItem>(
            MalformedItem { source, message },
        ),
{
    match fault {
        None => Ok(source),
        Some(message) => Err(MalformedItem { source, message }),
    }
}

/// What a path is shown as once the printer has been asked: as the printer
/// printed it, or as it is written where the printer did not take it.
pub fn printed_or_written(written: String, printed: Option<String>) -> (r: String)
    ensures
        printed is None ==> r == written,
        printed matches Some(text) ==> r == text,
{
    match printed {
        Some(text) => text,
        None => written,
    }
}

} // verus!
