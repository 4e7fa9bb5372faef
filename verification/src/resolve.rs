//! The dispatcher: serves a request from the store where it can, and
//! otherwise asks for the identifier to be parsed and resolved, and stores
//! what comes back.
//!
//! Parsing and resolving are done by the caller. The dispatcher is a step
//! function: from where a request stands and what has just happened, it
//! gives where the request stands next and what is to be done.

use vstd::prelude::*;
use crate::cache::{CacheStore, StoreModel, body_of};
use crate::error::{DidSovDriverError, OpaqueCause};
use crate::response::{DIDJsonResponse, ResolutionOutput, build_did_json_response, response_text};

verus! {

/// Where a request stands.
#[derive(Debug, Clone, Copy, PartialEq, Eq, Structural)]
pub enum DispatchState {
    /// The request has come in; nothing has been done yet.
    Received,
    /// The store had nothing fresh; the identifier is being parsed.
    Parsing,
    /// The identifier parsed; the resolver is at work.
    Resolving,
    /// The reply has been given.
    Done,
}

/// What has just happened.
#[derive(Debug)]
pub enum DispatchEvent {
    /// The request is to be taken up.
    Start,
    /// The identifier was parsed, or failed to parse with the given message.
    Parsed(Result<(), String>),
    /// The resolver has finished, with its output or with a failure.
    Resolved(Result<ResolutionOutput, OpaqueCause>),
}

/// What is to be done next.
#[derive(Debug)]
pub enum DispatchAction {
    /// Parse the identifier and report with [`DispatchEvent::Parsed`].
    Parse,
    /// Resolve the parsed identifier with default options and report with
    /// [`DispatchEvent::Resolved`].
    Resolve,
    /// Send this reply; the request is finished.
    Reply(Result<DIDJsonResponse, DidSovDriverError>),
    /// The event does not belong to where the request stands; nothing is to
    /// be done.
    Ignore,
}

/// An action as a mathematical value.
pub enum Outcome {
    Parse,
    Resolve,
    Serve(Seq<char>),
    Fail(DidSovDriverError),
    Ignore,
}

/// The mathematical value of an action: a served response counts by the
/// characters of its body.
pub open spec fn outcome_of(action: DispatchAction) -> Outcome {
    match action {
        DispatchAction::Parse => Outcome::Parse,
        DispatchAction::Resolve => Outcome::Resolve,
        DispatchAction::Reply(Ok(response)) => Outcome::Serve(response.0@),
        DispatchAction::Reply(Err(e)) => Outcome::Fail(e),
        DispatchAction::Ignore => Outcome::Ignore,
    }
}

/// One step of a request that bypasses the store. A parse failure ends the
/// request as an invalid identifier before the resolver is asked; a resolver
/// failure ends it as that failure; a resolver success ends it with the
/// response built from the output.
pub open spec fn step_without_cache(state: DispatchState, event: DispatchEvent) -> (DispatchState, Outcome) {
    match (state, event) {
        (DispatchState::Parsing, DispatchEvent::Parsed(Ok(_))) => (DispatchState::Resolving, Outcome::Resolve),
        (DispatchState::Parsing, DispatchEvent::Parsed(Err(message))) => (
            DispatchState::Done,
            Outcome::Fail(DidSovDriverError::ParseError(message)),
        ),
        (DispatchState::Resolving, DispatchEvent::Resolved(Ok(output))) => (
            DispatchState::Done,
            Outcome::Serve(response_text(output)),
        ),
        (DispatchState::Resolving, DispatchEvent::Resolved(Err(cause))) => (
            DispatchState::Done,
            Outcome::Fail(DidSovDriverError::Other(cause)),
        ),
        _ => (state, Outcome::Ignore),
    }
}

/// One step of a request for `did` at time `now`, with the store `m`: the
/// store afterwards, where the request stands, and what is to be done.
///
/// A request that has just come in is served from the store if a fresh entry
/// is there; otherwise parsing is asked for. From there the request goes as
/// it would without the store, except that a response built from the
/// resolver's output is stored under `did` before it is served. Failures
/// store nothing.
pub open spec fn step(m: StoreModel, did: Seq<char>, state: DispatchState, event: DispatchEvent, now: u128) -> (
    StoreModel,
    DispatchState,
    Outcome,
) {
    match state {
        DispatchState::Received => match event {
            DispatchEvent::Start => match m.lookup(did, now) {
                Some(body) => (m.after_get(did, now), DispatchState::Done, Outcome::Serve(body)),
                None => (m.after_get(did, now), DispatchState::Parsing, Outcome::Parse),
            },
            _ => (m, state, Outcome::Ignore),
        },
        DispatchState::Done => (m, state, Outcome::Ignore),
        _ => match step_without_cache(state, event) {
            (next, Outcome::Serve(body)) => (m.after_put(did, body, now), next, Outcome::Serve(body)),
            (next, outcome) => (m, next, outcome),
        },
    }
}

/// Looks `did` up in the store at time `now`: the cached response if one is
/// there and fresh. A stale entry is removed on the way.
pub fn is_cached(cache: &mut CacheStore, did: &str, now: u128) -> (cached: Option<DIDJsonResponse>)
    requires
        old(cache).wf(),
    ensures
        final(cache).wf(),
        final(cache).model() == old(cache).model().after_get(did@, now),
        body_of(cached) == old(cache).model().lookup(did@, now),
{
    cache.get_at(did, now)
}

/// Stores `response` under `did`, stamped with the time `now`.
pub fn handle_cache(cache: &mut CacheStore, did: String, response: DIDJsonResponse, now: u128)
    requires
        old(cache).wf(),
    ensures
        final(cache).wf(),
        final(cache).model() == old(cache).model().after_put(did@, response.0@, now),
{
    cache.put_at(did, response, now)
}

/// One step of a request that bypasses the store; see [`step_without_cache`].
pub fn resolve_did_without_cache(state: DispatchState, event: DispatchEvent) -> (next: (DispatchState, DispatchAction))
    ensures
        (next.0, outcome_of(next.1)) == step_without_cache(state, event),
{
    match state {
        DispatchState::Parsing => match event {
            DispatchEvent::Parsed(parsed) => match parsed {
                Ok(_) => (DispatchState::Resolving, DispatchAction::Resolve),
                Err(message) => (
                    DispatchState::Done,
                    DispatchAction::Reply(Err(DidSovDriverError::ParseError(message))),
                ),
            },
            _ => (state, DispatchAction::Ignore),
        },
        DispatchState::Resolving => match event {
            DispatchEvent::Resolved(resolved) => match resolved {
                Ok(output) => (
                    DispatchState::Done,
                    DispatchAction::Reply(Ok(build_did_json_response(&output))),
                ),
                Err(cause) => (DispatchState::Done, DispatchAction::Reply(Err(DidSovDriverError::Other(cause)))),
            },
            _ => (state, DispatchAction::Ignore),
        },
        _ => (state, DispatchAction::Ignore),
    }
}

/// One step of a request for `did` at time `now`, in nanoseconds on the
/// store's clock; see [`step`].
pub fn resolve_did_at(
    cache: &mut CacheStore,
    did: &str,
    state: DispatchState,
    event: DispatchEvent,
    now: u128,
) -> (next: (DispatchState, DispatchAction))
    requires
        old(cache).wf(),
    ensures
        final(cache).wf(),
        (final(cache).model(), next.0, outcome_of(next.1)) == step(old(cache).model(), did@, state, event, now),
{
    match state {
        DispatchState::Received => match event {
            DispatchEvent::Start => match is_cached(cache, did, now) {
                Some(response) => (DispatchState::Done, DispatchAction::Reply(Ok(response))),
                None => (DispatchState::Parsing, DispatchAction::Parse),
            },
            _ => (state, DispatchAction::Ignore),
        },
        DispatchState::Done => (state, DispatchAction::Ignore),
        _ => {
            let (next, action) = resolve_did_without_cache(state, event);
            match action {
                DispatchAction::Reply(Ok(response)) => {
                    handle_cache(cache, did.to_owned(), DIDJsonResponse(response.0.clone()), now);
                    (next, DispatchAction::Reply(Ok(response)))
                },
                other => (next, other),
            }
        },
    }
}

/// One step of a request for `did` at the present time; see
/// [`resolve_did_at`]. What the clock shows is not known beforehand, so the
/// step is that of some time.
pub fn resolve_did(cache: &mut CacheStore, did: &str, state: DispatchState, event: DispatchEvent) -> (next: (
    DispatchState,
    DispatchAction,
))
    requires
        old(cache).wf(),
    ensures
        final(cache).wf(),
        exists|now: u128|
            (final(cache).model(), next.0, outcome_of(next.1)) == #[trigger] step(
                old(cache).model(),
                did@,
                state,
                event,
                now,
            ),
{
    let now: u128 = cache.now();
    resolve_did_at(cache, did, state, event, now)
}

} // verus!
