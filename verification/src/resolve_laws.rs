//! What holds of every request: when the resolver is asked, what is stored,
//! and what a second request gets.

use vstd::prelude::*;
use crate::cache::{age, StoreModel};
use crate::cache_laws::{law_full_put_evicts_lru, law_put_is_most_recent, law_put_then_get_hits,
    law_stale_is_absent};
use crate::error::{DidSovDriverError, OpaqueCause};
use crate::resolve::{DispatchEvent, DispatchState, Outcome, step};
use crate::response::{ResolutionOutput, response_text};

verus! {

/// A request for an identifier that was resolved and stored no longer ago
/// than the time to live is served from the store: it ends at once, with the
/// very body that the first request was served, and neither parsing nor
/// resolving is asked for. The store stays as it was.
pub proof fn law_second_request_hits(
    m: StoreModel,
    did: Seq<char>,
    output: ResolutionOutput,
    resolved_at: u128,
    asked_at: u128,
)
    requires
        m.wf(),
        age(asked_at, resolved_at) <= m.ttl,
    ensures
        ({
            let first = step(m, did, DispatchState::Resolving, DispatchEvent::Resolved(Ok(output)), resolved_at);
            let second = step(first.0, did, DispatchState::Received, DispatchEvent::Start, asked_at);
            &&& first.1 == DispatchState::Done
            &&& first.2 == Outcome::Serve(response_text(output))
            &&& second.1 == DispatchState::Done
            &&& second.2 == first.2
            &&& second.0 == first.0
        }),
{
    law_put_then_get_hits(m, did, response_text(output), resolved_at, asked_at);
}

/// A request for an identifier whose entry is older than the time to live is
/// a miss: the entry is removed and parsing is asked for. When the resolver
/// then succeeds, its output is stored under the identifier with the new
/// stamp, as the most recently used entry.
pub proof fn law_expired_entry_is_resolved_again(
    m: StoreModel,
    did: Seq<char>,
    output: ResolutionOutput,
    asked_at: u128,
    resolved_at: u128,
)
    requires
        m.wf(),
        m.holds(did),
        age(asked_at, m.slots[m.position(did)].1.0) > m.ttl,
    ensures
        ({
            let miss = step(m, did, DispatchState::Received, DispatchEvent::Start, asked_at);
            let parsed = step(miss.0, did, miss.1, DispatchEvent::Parsed(Ok(())), asked_at);
            let stored = step(parsed.0, did, parsed.1, DispatchEvent::Resolved(Ok(output)), resolved_at);
            &&& miss.1 == DispatchState::Parsing
            &&& miss.2 == Outcome::Parse
            &&& !miss.0.holds(did)
            &&& parsed.1 == DispatchState::Resolving
            &&& parsed.2 == Outcome::Resolve
            &&& stored.1 == DispatchState::Done
            &&& stored.2 == Outcome::Serve(response_text(output))
            &&& stored.0.slots[0] == (did, (resolved_at, response_text(output)))
        }),
{
    law_stale_is_absent(m, did, asked_at);
    m.lemma_after_get_wf(did, asked_at);
    law_put_is_most_recent(m.after_get(did, asked_at), did, response_text(output), resolved_at);
}

/// When a resolution is stored in a full store under an identifier that was
/// not held, the least recently used identifier is evicted: the next request
/// for it is a miss, whenever it comes, and parsing is asked for again.
pub proof fn law_evicted_did_is_a_miss(
    m: StoreModel,
    did: Seq<char>,
    output: ResolutionOutput,
    resolved_at: u128,
    asked_at: u128,
)
    requires
        m.wf(),
        m.slots.len() == m.capacity,
        !m.holds(did),
    ensures
        ({
            let stored = step(m, did, DispatchState::Resolving, DispatchEvent::Resolved(Ok(output)), resolved_at);
            let again = step(stored.0, m.slots.last().0, DispatchState::Received, DispatchEvent::Start, asked_at);
            &&& stored.0.slots.len() == m.capacity
            &&& again.0 == stored.0
            &&& again.1 == DispatchState::Parsing
            &&& again.2 == Outcome::Parse
        }),
{
    law_full_put_evicts_lru(m, did, response_text(output), resolved_at);
}

/// The resolver is asked only after a miss and a successful parse: a step
/// asks for it exactly when the request is being parsed and the parse
/// succeeded.
pub proof fn law_resolver_asked_only_after_parse(
    m: StoreModel,
    did: Seq<char>,
    state: DispatchState,
    event: DispatchEvent,
    now: u128,
)
    ensures
        step(m, did, state, event, now).2 is Resolve <==> (state == DispatchState::Parsing
            && event matches DispatchEvent::Parsed(Ok(_))),
        step(m, did, state, event, now).2 is Parse <==> (state == DispatchState::Received
            && event is Start && m.lookup(did, now) is None),
{
}

/// An identifier that fails to parse ends the request as a parse failure
/// with the parser's message, and the store is not touched.
pub proof fn law_parse_failure_ends_request(m: StoreModel, did: Seq<char>, message: String, now: u128)
    ensures
        step(m, did, DispatchState::Parsing, DispatchEvent::Parsed(Err(message)), now) == (
            m,
            DispatchState::Done,
            Outcome::Fail(DidSovDriverError::ParseError(message)),
        ),
{
}

/// A failure of the resolver ends the request as that failure and stores
/// nothing.
pub proof fn law_failure_is_not_cached(m: StoreModel, did: Seq<char>, cause: OpaqueCause, now: u128)
    ensures
        step(m, did, DispatchState::Resolving, DispatchEvent::Resolved(Err(cause)), now) == (
            m,
            DispatchState::Done,
            Outcome::Fail(DidSovDriverError::Other(cause)),
        ),
{
}

/// Only two steps change the store: taking up a request, which is a lookup,
/// and a success of the resolver, which is a write under the identifier.
/// Every step leaves a well-formed store well-formed.
pub proof fn law_step_keeps_store(m: StoreModel, did: Seq<char>, state: DispatchState, event: DispatchEvent, now: u128)
    requires
        m.wf(),
    ensures
        step(m, did, state, event, now).0.wf(),
        step(m, did, state, event, now).0 != m ==> (state == DispatchState::Received && event is Start) || (state
            == DispatchState::Resolving && event matches DispatchEvent::Resolved(Ok(_))),
{
    m.lemma_after_get_wf(did, now);
    if let DispatchEvent::Resolved(Ok(output)) = event {
        m.lemma_after_put_wf(did, response_text(output), now);
    }
}

} // verus!
