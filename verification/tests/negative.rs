use did_sov_driver::cache::{CacheStore, CACHE_CAPACITY, CACHE_TTL_NANOS};
use did_sov_driver::error::{OpaqueCause, ResolverError, ResolverFault};
use did_sov_driver::resolve::{resolve_did, DispatchAction, DispatchEvent, DispatchState};
use did_sov_driver::response::{HttpReply, ResolutionOutput};

/// A stand-in for the ledger and its resolver: the records it knows, and how
/// often it was asked.
struct Ledger {
    records: Vec<(String, String)>,
    asked: usize,
}

fn parse(did: &str) -> Result<(), String> {
    let parts: Vec<&str> = did.split(':').collect();
    let well_formed = parts.len() == 3
        && parts[0] == "did"
        && !parts[1].is_empty()
        && !parts[2].is_empty()
        && parts[2].chars().all(|c| c.is_ascii_alphanumeric());
    if well_formed {
        Ok(())
    } else {
        Err(format!("Invalid DID: {}", did))
    }
}

fn resolve(ledger: &mut Ledger, did: &str) -> Result<ResolutionOutput, OpaqueCause> {
    ledger.asked += 1;
    let method = did.split(':').nth(1).unwrap();
    if method != "sov" {
        return Err(OpaqueCause::Resolver(ResolverError {
            fault: ResolverFault::MethodNotSupported,
            message: format!("DID method not supported: {}", method),
        }));
    }
    match ledger.records.iter().find(|(known, _)| known == did) {
        Some((_, document)) => Ok(ResolutionOutput {
            did_document: document.clone(),
            did_resolution_metadata: "{\"contentType\":\"application/did+json\"}".to_string(),
            did_document_metadata: "{}".to_string(),
        }),
        None => Err(OpaqueCause::Resolver(ResolverError {
            fault: ResolverFault::NotFound,
            message: format!("Not found: {}", did),
        })),
    }
}

/// Runs one request to its reply, doing what the dispatcher asks for.
fn send_request(cache: &mut CacheStore, ledger: &mut Ledger, did: &str) -> HttpReply {
    let mut state = DispatchState::Received;
    let mut event = DispatchEvent::Start;
    loop {
        let (next, action) = resolve_did(cache, did, state, event);
        state = next;
        event = match action {
            DispatchAction::Parse => DispatchEvent::Parsed(parse(did)),
            DispatchAction::Resolve => DispatchEvent::Resolved(resolve(ledger, did)),
            DispatchAction::Reply(Ok(response)) => {
                assert_eq!(state, DispatchState::Done);
                return response.into_response();
            }
            DispatchAction::Reply(Err(e)) => {
                assert_eq!(state, DispatchState::Done);
                return e.into_response().into_reply().unwrap();
            }
            DispatchAction::Ignore => panic!("the dispatcher ignored an event it had asked for"),
        };
    }
}

fn setup() -> (CacheStore, Ledger) {
    (CacheStore::new(CACHE_CAPACITY, CACHE_TTL_NANOS), Ledger { records: Vec::new(), asked: 0 })
}

#[test]
fn test_resolve_non_existent_did() {
    let (mut cache, mut ledger) = setup();
    let non_existent_did = "did:sov:KxDPhdCQ2YhKuVzKnAJiSU";

    let response = send_request(&mut cache, &mut ledger, non_existent_did);

    assert_eq!(response.status, 404);
}

#[test]
fn test_resolve_malformed_did_uri() {
    let (mut cache, mut ledger) = setup();
    let malformed_did_uri = "did:sov:malformedDID!";

    let response = send_request(&mut cache, &mut ledger, malformed_did_uri);

    assert_eq!(response.status, 400);
}

#[test]
fn test_resolve_unsupported_did_method() {
    let (mut cache, mut ledger) = setup();
    let unsupported_did_method = "did:unsupported:KxDPhdCQ2YhKuVzKnAJiSU";

    let response = send_request(&mut cache, &mut ledger, unsupported_did_method);

    assert_eq!(response.status, 501);
}

#[test]
fn non_existent_did_body_names_not_found() {
    let (mut cache, mut ledger) = setup();
    let response = send_request(&mut cache, &mut ledger, "did:sov:KxDPhdCQ2YhKuVzKnAJiSU");
    assert_eq!(response.content_type, "application/json");
    assert_eq!(
        response.body,
        "{\"error\":\"notFound\",\"details\":\"Not found: did:sov:KxDPhdCQ2YhKuVzKnAJiSU\"}"
    );
    assert_eq!(cache.len(), 0);
}

#[test]
fn malformed_did_body_names_invalid_did_and_resolver_is_not_asked() {
    let (mut cache, mut ledger) = setup();
    let response = send_request(&mut cache, &mut ledger, "did:sov:malformedDID!");
    assert_eq!(response.content_type, "application/json");
    assert_eq!(
        response.body,
        "{\"error\":\"invalidDid\",\"details\":\"Invalid DID: did:sov:malformedDID!\"}"
    );
    assert_eq!(ledger.asked, 0);
    assert_eq!(cache.len(), 0);
}

#[test]
fn unsupported_method_body_names_method_not_supported() {
    let (mut cache, mut ledger) = setup();
    let response = send_request(&mut cache, &mut ledger, "did:unsupported:KxDPhdCQ2YhKuVzKnAJiSU");
    assert_eq!(
        response.body,
        "{\"error\":\"methodNotSupported\",\"details\":\"DID method not supported: unsupported\"}"
    );
    assert_eq!(ledger.asked, 1);
    assert_eq!(cache.len(), 0);
}

#[test]
fn failures_are_asked_again_each_time() {
    let (mut cache, mut ledger) = setup();
    for round in 1..4 {
        let response = send_request(&mut cache, &mut ledger, "did:sov:KxDPhdCQ2YhKuVzKnAJiSU");
        assert_eq!(response.status, 404);
        assert_eq!(ledger.asked, round);
    }
}
