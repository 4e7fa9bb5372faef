use did_sov_driver::cache::{CacheStore, CACHE_CAPACITY, CACHE_TTL_NANOS};
use did_sov_driver::error::{OpaqueCause, ResolverError, ResolverFault};
use did_sov_driver::resolve::{resolve_did, DispatchAction, DispatchEvent, DispatchState};
use did_sov_driver::response::{HttpReply, ResolutionOutput};

/// A stand-in for the ledger and its resolver: the records it knows, and how
/// often it was asked.
struct Ledger {
    records: Vec<(String, String)>,
    asked: usize,
}

fn parse(did: &str) -> Result<(), String> {
    let parts: Vec<&str> = did.split(':').collect();
    let well_formed = parts.len() == 3
        && parts[0] == "did"
        && !parts[1].is_empty()
        && !parts[2].is_empty()
        && parts[2].chars().all(|c| c.is_ascii_alphanumeric());
    if well_formed {
        Ok(())
    } else {
        Err(format!("Invalid DID: {}", did))
    }
}

fn resolve(ledger: &mut Ledger, did: &str) -> Result<ResolutionOutput, OpaqueCause> {
    ledger.asked += 1;
    let method = did.split(':').nth(1).unwrap();
    if method != "sov" {
        return Err(OpaqueCause::Resolver(ResolverError {
            fault: ResolverFault::MethodNotSupported,
            message: format!("DID method not supported: {}", method),
        }));
    }
    match ledger.records.iter().find(|(known, _)| known == did) {
        Some((_, document)) => Ok(ResolutionOutput {
            did_document: document.clone(),
            did_resolution_metadata: "{\"contentType\":\"application/did+json\"}".to_string(),
            did_document_metadata: "{}".to_string(),
        }),
        None => Err(OpaqueCause::Resolver(ResolverError {
            fault: ResolverFault::NotFound,
            message: format!("Not found: {}", did),
        })),
    }
}

/// Runs one request to its reply, doing what the dispatcher asks for.
fn send_request(cache: &mut CacheStore, ledger: &mut Ledger, did: &str) -> HttpReply {
    let mut state = DispatchState::Received;
    let mut event = DispatchEvent::Start;
    loop {
        let (next, action) = resolve_did(cache, did, state, event);
        state = next;
        event = match action {
            DispatchAction::Parse => DispatchEvent::Parsed(parse(did)),
            DispatchAction::Resolve => DispatchEvent::Resolved(resolve(ledger, did)),
            DispatchAction::Reply(Ok(response)) => {
                assert_eq!(state, DispatchState::Done);
                return response.into_response();
            }
            DispatchAction::Reply(Err(e)) => {
                assert_eq!(state, DispatchState::Done);
                return e.into_response().into_reply().unwrap();
            }
            DispatchAction::Ignore => panic!("the dispatcher ignored an event it had asked for"),
        };
    }
}

fn document(did: &str) -> String {
    format!(
        "{{\"id\":\"{}\",\"service\":[{{\"id\":\"did:sov:service-0\",\"type\":[\"endpoint\"],\"serviceEndpoint\":\"http://localhost:8080/\",\"routingKeys\":[\"key1\",\"key2\"]}}]}}",
        did
    )
}

#[test]
fn test_resolve_did() {
    let did = format!("did:sov:{}", "2wJPyULfLLnYTEFYzByfUR");
    let mut cache = CacheStore::new(CACHE_CAPACITY, CACHE_TTL_NANOS);
    let mut ledger = Ledger { records: vec![(did.clone(), document(&did))], asked: 0 };

    let response = send_request(&mut cache, &mut ledger, &did);
    assert_eq!(response.status, 200);
    let content_type = response.content_type.as_str();
    assert_eq!(content_type, "application/did+json");

    let body_str = response.body;
    let body_json: serde_json::Value = serde_json::from_str(&body_str).unwrap();

    assert!(body_json.is_object());
    let did_document = body_json.get("didDocument").unwrap().as_object().unwrap();
    let id = did_document.get("id").unwrap().as_str().unwrap();
    assert_eq!(id, did);

    let service = did_document.get("service").unwrap().as_array().unwrap();
    assert_eq!(service.len(), 1);
    let service = service.get(0).unwrap().as_object().unwrap();
    let service_endpoint = service.get("serviceEndpoint").unwrap().as_str().unwrap();
    assert_eq!(service_endpoint, "http://localhost:8080/");

    let types = service.get("type").unwrap().as_array().unwrap();
    assert_eq!(types.len(), 1);
    let service_type = types.get(0).unwrap().as_str().unwrap();
    assert_eq!(service_type, "endpoint");
}

#[test]
fn second_request_is_served_from_the_store() {
    let did = "did:sov:2wJPyULfLLnYTEFYzByfUR";
    let mut cache = CacheStore::new(CACHE_CAPACITY, CACHE_TTL_NANOS);
    let mut ledger = Ledger { records: vec![(did.to_string(), document(did))], asked: 0 };

    let first = send_request(&mut cache, &mut ledger, did);
    assert_eq!(ledger.asked, 1);
    let second = send_request(&mut cache, &mut ledger, did);
    assert_eq!(ledger.asked, 1);

    assert_eq!(first.status, 200);
    assert_eq!(second.status, 200);
    assert_eq!(second.content_type, "application/did+json");
    assert_eq!(first.body.as_bytes(), second.body.as_bytes());
    assert_eq!(cache.len(), 1);
}

#[test]
fn cached_reply_survives_a_change_on_the_ledger() {
    let did = "did:sov:2wJPyULfLLnYTEFYzByfUR";
    let mut cache = CacheStore::new(CACHE_CAPACITY, CACHE_TTL_NANOS);
    let mut ledger = Ledger { records: vec![(did.to_string(), document(did))], asked: 0 };
    let first = send_request(&mut cache, &mut ledger, did);
    ledger.records.clear();
    let second = send_request(&mut cache, &mut ledger, did);
    assert_eq!(second.status, 200);
    assert_eq!(first.body, second.body);
}

#[test]
fn the_hundred_and_first_did_evicts_the_first() {
    let mut cache = CacheStore::new(100, CACHE_TTL_NANOS);
    let dids: Vec<String> = (0..101).map(|i| format!("did:sov:node{}", i)).collect();
    let mut ledger = Ledger { records: dids.iter().map(|d| (d.clone(), document(d))).collect(), asked: 0 };
    for did in &dids {
        assert_eq!(send_request(&mut cache, &mut ledger, did).status, 200);
    }
    assert_eq!(ledger.asked, 101);
    assert_eq!(cache.len(), 100);

    // the last hundred are still served from the store
    assert_eq!(send_request(&mut cache, &mut ledger, &dids[100]).status, 200);
    assert_eq!(send_request(&mut cache, &mut ledger, &dids[1]).status, 200);
    assert_eq!(ledger.asked, 101);

    // the first was evicted: the resolver is asked again
    assert_eq!(send_request(&mut cache, &mut ledger, &dids[0]).status, 200);
    assert_eq!(ledger.asked, 102);
    assert_eq!(cache.len(), 100);
}
