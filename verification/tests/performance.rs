use did_sov_driver::cache::{CacheStore, CACHE_CAPACITY, CACHE_TTL_NANOS};
use did_sov_driver::error::{OpaqueCause, ResolverError, ResolverFault};
use did_sov_driver::resolve::{resolve_did, DispatchAction, DispatchEvent, DispatchState};
use did_sov_driver::response::{HttpReply, ResolutionOutput};

/// A stand-in for the ledger and its resolver: the records it knows, and how
/// often it was asked.
struct Ledger {
    records: Vec<(String, String)>,
    asked: usize,
}

fn parse(did: &str) -> Result<(), String> {
    let parts: Vec<&str> = did.split(':').collect();
    let well_formed = parts.len() == 3
        && parts[0] == "did"
        && !parts[1].is_empty()
        && !parts[2].is_empty()
        && parts[2].chars().all(|c| c.is_ascii_alphanumeric());
    if well_formed {
        Ok(())
    } else {
        Err(format!("Invalid DID: {}", did))
    }
}

fn resolve(ledger: &mut Ledger, did: &str) -> Result<ResolutionOutput, OpaqueCause> {
    ledger.asked += 1;
    let method = did.split(':').nth(1).unwrap();
    if method != "sov" {
        return Err(OpaqueCause::Resolver(ResolverError {
            fault: ResolverFault::MethodNotSupported,
            message: format!("DID method not supported: {}", method),
        }));
    }
    match ledger.records.iter().find(|(known, _)| known == did) {
        Some((_, document)) => Ok(ResolutionOutput {
            did_document: document.clone(),
            did_resolution_metadata: "{\"contentType\":\"application/did+json\"}".to_string(),
            did_document_metadata: "{}".to_string(),
        }),
        None => Err(OpaqueCause::Resolver(ResolverError {
            fault: ResolverFault::NotFound,
            message: format!("Not found: {}", did),
        })),
    }
}

/// Runs one request to its reply, doing what the dispatcher asks for.
fn send_request(cache: &mut CacheStore, ledger: &mut Ledger, did: &str) -> HttpReply {
    let mut state = DispatchState::Received;
    let mut event = DispatchEvent::Start;
    loop {
        let (next, action) = resolve_did(cache, did, state, event);
        state = next;
        event = match action {
            DispatchAction::Parse => DispatchEvent::Parsed(parse(did)),
            DispatchAction::Resolve => DispatchEvent::Resolved(resolve(ledger, did)),
            DispatchAction::Reply(Ok(response)) => {
                assert_eq!(state, DispatchState::Done);
                return response.into_response();
            }
            DispatchAction::Reply(Err(e)) => {
                assert_eq!(state, DispatchState::Done);
                return e.into_response().into_reply().unwrap();
            }
            DispatchAction::Ignore => panic!("the dispatcher ignored an event it had asked for"),
        };
    }
}

#[test]
fn test_resolver_performance() {
    let did = format!("did:sov:{}", "2wJPyULfLLnYTEFYzByfUR");
    let document = format!(
        "{{\"id\":\"{}\",\"service\":[{{\"type\":[\"endpoint\"],\"serviceEndpoint\":\"http://localhost:8080/\",\"routingKeys\":[\"key1\",\"key2\"]}}]}}",
        did
    );
    let mut cache = CacheStore::new(CACHE_CAPACITY, CACHE_TTL_NANOS);
    let mut ledger = Ledger { records: vec![(did.clone(), document)], asked: 0 };

    let start = std::time::Instant::now();
    let num_requests = 100;
    for _ in 0..num_requests {
        let response = send_request(&mut cache, &mut ledger, &did);
        assert_eq!(response.status, 200);
    }
    let elapsed = start.elapsed();
    println!("{num_requests} requests took: {elapsed:?}");
    assert!(elapsed < std::time::Duration::from_secs(10));
    assert_eq!(ledger.asked, 1);
}
