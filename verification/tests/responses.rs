use did_sov_driver::error::{DidSovDriverError, ResolverError, ResolverFault};
use did_sov_driver::response::{build_did_json_response, DIDJsonResponse, ResolutionOutput};

fn output(doc: &str, resolution: &str, document: &str) -> ResolutionOutput {
    ResolutionOutput {
        did_document: doc.to_string(),
        did_resolution_metadata: resolution.to_string(),
        did_document_metadata: document.to_string(),
    }
}

#[test]
fn response_body_is_framed_exactly() {
    let response = build_did_json_response(&output("{\"id\":\"did:sov:x\"}", "{\"contentType\":\"application/did+json\"}", "{}"));
    assert_eq!(
        response.0,
        "{\"didDocument\":{\"id\":\"did:sov:x\"},\"didResolutionMetadata\":{\"contentType\":\"application/did+json\"},\"didDocumentMetadata\":{}}"
    );
}

#[test]
fn response_body_has_exactly_three_members() {
    let response = build_did_json_response(&output("{\"id\":\"did:sov:x\"}", "{\"a\":1}", "{\"b\":[2]}"));
    let value: serde_json::Value = serde_json::from_str(&response.0).unwrap();
    let object = value.as_object().unwrap();
    assert_eq!(object.len(), 3);
    assert_eq!(object.get("didDocument").unwrap().get("id").unwrap().as_str().unwrap(), "did:sov:x");
    assert_eq!(object.get("didResolutionMetadata").unwrap().get("a").unwrap().as_u64().unwrap(), 1);
    assert_eq!(object.get("didDocumentMetadata").unwrap().get("b").unwrap().as_array().unwrap().len(), 1);
}

#[test]
fn response_body_of_empty_parts() {
    let response = build_did_json_response(&output("", "", ""));
    assert_eq!(response.0, "{\"didDocument\":,\"didResolutionMetadata\":,\"didDocumentMetadata\":}");
}

#[test]
fn success_content_type_is_did_json() {
    assert_eq!(DIDJsonResponse::content_type(), "application/did+json");
}

#[test]
fn success_reply_is_200_with_did_json_and_same_body() {
    let reply = DIDJsonResponse("{\"didDocument\":{}}".to_string()).into_response();
    assert_eq!(reply.status, 200);
    assert_eq!(reply.content_type, "application/did+json");
    assert_eq!(reply.body, "{\"didDocument\":{}}");
}

#[test]
fn error_reply_is_plain_json_with_the_status_of_its_kind() {
    let report = DidSovDriverError::ResolveError(ResolverError {
        fault: ResolverFault::RepresentationNotSupported,
        message: "no such representation".to_string(),
    })
    .into_response();
    let reply = report.into_reply().unwrap();
    assert_eq!(reply.status, 406);
    assert_eq!(reply.content_type, "application/json");
    assert_eq!(reply.body, "{\"error\":\"representationNotSupported\",\"details\":\"no such representation\"}");
}
