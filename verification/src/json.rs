//! JSON documents: the payload of an operation that promises no shape.

use crate::call::{Event, EventView};
use vstd::prelude::*;

verus! {

/// A JSON document, as `serde_json` holds it. The gateway carries such a
/// value from the body of a response to its caller and never looks inside.
#[verifier::external_type_specification]
#[verifier::external_body]
pub struct ExJsonValue(serde_json::Value);

/// The failure of `serde_json` to decode a text.
#[verifier::external_type_specification]
#[verifier::external_body]
pub struct ExJsonError(serde_json::Error);

/// The document that `serde_json::from_slice` reads from `body`, where it
/// reads one.
pub uninterp spec fn json_document(body: Seq<u8>) -> Option<serde_json::Value>;

/// Calls `serde_json::from_slice` for a `serde_json::Value`. Trusted: the
/// outcome depends on the bytes alone, so it is the document that the bytes
/// have, or a failure where they have none.
#[verifier::external_body]
fn json_from_slice(body: &[u8]) -> (parsed: Result<serde_json::Value, serde_json::Error>)
    ensures
        match parsed {
            Ok(document) => json_document(body@) == Some(document),
            Err(_) => json_document(body@) is None,
        },
{
    serde_json::from_slice(body)
}

/// Calls the `Display` of a `serde_json::Error`. Trusted, and nothing is
/// claimed of the text.
#[verifier::external_body]
fn json_error_text(error: &serde_json::Error) -> (text: String) {
    error.to_string()
}

/// Decodes the body of a response as a JSON document, for the driver of a
/// call whose payload is one: the event is the document where the body has
/// one, and a failure otherwise.
pub fn read_document(body: &[u8]) -> (event: Event<serde_json::Value>)
    ensures
        match json_document(body@) {
            Some(document) => event@ == EventView::Payload(document),
            None => event is Failure,
        },
{
    match json_from_slice(body) {
        Ok(document) => Event::Payload(document),
        Err(error) => Event::Failure(json_error_text(&error)),
    }
}

} // verus!
