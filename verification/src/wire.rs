//! The wire form: one JSON document in UTF-8 for each message, with no
//! framing around it.

use vstd::prelude::*;
use vstd::slice::slice_to_vec;
use vstd::utf8::{valid_utf8, decode_utf8, encode_utf8};
use crate::json::{
    rendered, parsed, to_text, from_text, error_text, text_from_bytes, utf8_error_text,
};
use crate::request::{Request, RequestView, describes};
use crate::service_client::ServiceClientError;

verus! {

/// The size of the buffer into which the one read of an exchange goes, and
/// so the most bytes that a reply can have.
pub const REPLY_CAPACITY: usize = 4096;

/// The bytes of a reply: the front of the read buffer, as far as the one
/// read filled it.
pub fn filled(buffer: Vec<u8>, bytes_read: usize) -> (r: Vec<u8>)
    ensures
        bytes_read <= buffer@.len() ==> r@ == buffer@.subrange(0, bytes_read as int),
        bytes_read > buffer@.len() ==> r@ == buffer@,
{
    let mut bytes = buffer;
    bytes.truncate(bytes_read);
    bytes
}

/// What rendering a document gives: the UTF-8 bytes of its JSON text, or a
/// serialization error where it has no such text.
pub open spec fn is_rendering(
    doc: serde_json::Value,
    r: Result<Vec<u8>, ServiceClientError>,
) -> bool {
    match rendered(doc) {
        Some(text) => r matches Ok(bytes) && bytes@ == encode_utf8(text),
        None => r matches Err(ServiceClientError::SerializationError(_)),
    }
}

/// What encoding a request gives: the rendering of a document of that
/// request.
pub open spec fn is_encoding(request: RequestView, r: Result<Vec<u8>, ServiceClientError>) -> bool {
    exists|doc: serde_json::Value| #[trigger] describes(doc, request) && is_rendering(doc, r)
}

/// The document that the outcome of an exchange holds: the bytes that were
/// read, taken as UTF-8 and parsed as JSON. There is none where the
/// exchange failed, or the bytes are no UTF-8, or the text is no JSON.
pub open spec fn reply_document(reply: Result<Vec<u8>, String>) -> Option<serde_json::Value> {
    match reply {
        Ok(bytes) => if valid_utf8(bytes@) {
            parsed(decode_utf8(bytes@))
        } else {
            None
        },
        Err(_) => None,
    }
}

/// The error that stands for an outcome without a document: a
/// communication error with the transport's own message where the exchange
/// failed, a communication error where the bytes are no UTF-8, and a
/// serialization error where the text is no JSON.
pub open spec fn is_reply_failure(reply: Result<Vec<u8>, String>, e: ServiceClientError) -> bool {
    match reply {
        Ok(bytes) => if valid_utf8(bytes@) {
            e is SerializationError
        } else {
            e is CommunicationError
        },
        Err(message) => e == ServiceClientError::CommunicationError(message),
    }
}

/// Renders a document as the bytes of one message.
pub fn render(doc: &serde_json::Value) -> (r: Result<Vec<u8>, ServiceClientError>)
    ensures
        is_rendering(*doc, r),
{
    match to_text(doc) {
        Ok(text) => Ok(slice_to_vec(text.as_str().as_bytes())),
        Err(e) => Err(ServiceClientError::SerializationError(error_text(&e))),
    }
}

/// Encodes a request as the bytes of one message.
pub fn encode(request: &Request) -> (r: Result<Vec<u8>, ServiceClientError>)
    ensures
        is_encoding(request@, r),
{
    let doc = request.document();
    render(&doc)
}

/// What receiving the outcome of an exchange gives: its document, or the
/// error that stands for an outcome without one.
pub open spec fn is_received(
    reply: Result<Vec<u8>, String>,
    r: Result<serde_json::Value, ServiceClientError>,
) -> bool {
    match reply_document(reply) {
        Some(doc) => r == Ok::<serde_json::Value, ServiceClientError>(doc),
        None => r matches Err(e) && is_reply_failure(reply, e),
    }
}

/// Takes the outcome of one exchange, the bytes read or the transport's
/// error message, and gives the reply's document.
pub fn receive(reply: Result<Vec<u8>, String>) -> (r: Result<serde_json::Value, ServiceClientError>)
    ensures
        is_received(reply, r),
{
    match reply {
        Ok(bytes) => match text_from_bytes(bytes) {
            Ok(text) => match from_text(text.as_str()) {
                Ok(doc) => Ok(doc),
                Err(e) => Err(ServiceClientError::SerializationError(error_text(&e))),
            },
            Err(e) => Err(ServiceClientError::CommunicationError(utf8_error_text(&e))),
        },
        Err(message) => Err(ServiceClientError::CommunicationError(message)),
    }
}

} // verus!
