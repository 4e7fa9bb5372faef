//! Successful resolutions as they are cached and sent, and the replies that
//! leave the gateway.

use vstd::prelude::*;
use crate::error::{DidSovDriverError, ErrorResponse, EncodingFailed, reports, law_one_status_per_kind};

verus! {

/// What the resolver hands back for an identifier: the DID document and the
/// two metadata objects, each as JSON text.
#[derive(Debug, Clone)]
pub struct ResolutionOutput {
    pub did_document: String,
    pub did_resolution_metadata: String,
    pub did_document_metadata: String,
}

/// The body of a successful resolution: JSON text with the three top-level
/// members `didDocument`, `didResolutionMetadata` and `didDocumentMetadata`.
#[derive(Debug, Clone)]
pub struct DIDJsonResponse(pub String);

/// A reply as it goes out: status, content type and body.
#[derive(Debug, Clone)]
pub struct HttpReply {
    pub status: u16,
    pub content_type: String,
    pub body: String,
}

/// The body text with the given JSON texts as its three members.
pub open spec fn did_json_text(
    did_document: Seq<char>,
    did_resolution_metadata: Seq<char>,
    did_document_metadata: Seq<char>,
) -> Seq<char> {
    "{\"didDocument\":"@ + did_document + ",\"didResolutionMetadata\":"@ + did_resolution_metadata
        + ",\"didDocumentMetadata\":"@ + did_document_metadata + "}"@
}

/// The body text for what the resolver handed back.
pub open spec fn response_text(output: ResolutionOutput) -> Seq<char> {
    did_json_text(output.did_document@, output.did_resolution_metadata@, output.did_document_metadata@)
}

/// The reply that carries `body` as a successful resolution.
pub open spec fn is_success_reply(reply: HttpReply, body: Seq<char>) -> bool {
    &&& reply.status == 200
    &&& reply.content_type@ == "application/did+json"@
    &&& reply.body@ == body
}

/// The reply that carries the report `response` of a failure.
pub open spec fn is_error_reply(reply: HttpReply, response: ErrorResponse) -> bool {
    &&& reply.status == response.status
    &&& reply.content_type@ == "application/json"@
    &&& response.spec_body() == Some(reply.body@)
}

/// Builds the response body from what the resolver handed back: one JSON
/// object with exactly the three members, in the order document, resolution
/// metadata, document metadata.
pub fn build_did_json_response(resolution_output: &ResolutionOutput) -> (response: DIDJsonResponse)
    ensures
        response.0@ == response_text(*resolution_output),
{
    let mut body = "{\"didDocument\":".to_owned();
    body.append(resolution_output.did_document.as_str());
    body.append(",\"didResolutionMetadata\":");
    body.append(resolution_output.did_resolution_metadata.as_str());
    body.append(",\"didDocumentMetadata\":");
    body.append(resolution_output.did_document_metadata.as_str());
    body.append("}");
    DIDJsonResponse(body)
}

impl DIDJsonResponse {
    /// The media type of a successful response.
    pub fn content_type() -> (media_type: String)
        ensures
            media_type@ == "application/did+json"@,
    {
        "application/did+json".to_owned()
    }

    /// The reply for this response: status 200, the DID document media type,
    /// and the body unchanged.
    pub fn into_response(self) -> (reply: HttpReply)
        ensures
            is_success_reply(reply, self.0@),
    {
        HttpReply { status: 200, content_type: DIDJsonResponse::content_type(), body: self.0 }
    }
}

impl ErrorResponse {
    /// The reply for this report: its status, the JSON media type, and its
    /// JSON body. It fails exactly where the body cannot be written.
    pub fn into_reply(self) -> (reply: Result<HttpReply, EncodingFailed>)
        ensures
            match reply {
                Ok(r) => is_error_reply(r, self),
                Err(_) => self.spec_body() is None,
            },
    {
        match self.body() {
            Ok(body) => Ok(HttpReply { status: self.status, content_type: "application/json".to_owned(), body }),
            Err(e) => Err(e),
        }
    }
}

/// Whether `reply` is the reply to a request that ended with `answer`.
pub open spec fn is_reply_to(reply: HttpReply, answer: Result<DIDJsonResponse, DidSovDriverError>) -> bool {
    match answer {
        Ok(response) => is_success_reply(reply, response.0@),
        Err(e) => exists|report: ErrorResponse| #[trigger] reports(report, e) && is_error_reply(reply, report),
    }
}

/// A reply has status 200 exactly when the request succeeded, and every
/// reply with status 200 carries the DID document media type, whether the
/// response in it was just built or comes from the store.
pub proof fn law_ok_reply_is_did_json(reply: HttpReply, answer: Result<DIDJsonResponse, DidSovDriverError>)
    requires
        is_reply_to(reply, answer),
    ensures
        reply.status == 200 <==> answer is Ok,
        reply.status == 200 ==> reply.content_type@ == "application/did+json"@,
{
    if let Err(e) = answer {
        law_one_status_per_kind(e.spec_kind(), e.spec_kind());
    }
}

} // verus!
