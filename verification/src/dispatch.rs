//! The challenge dispatcher: maps one inbound request to exactly one response,
//! consulting and updating the challenge cache and deciding which DNS-provider
//! operation to perform.
//!
//! The provider's two operations are remote calls made by the embedding
//! process, so a dispatch is split at that boundary: `begin_dispatch` reads
//! the action and the cache and either finishes with a response or names the
//! provider call to make; `finish_present` and `finish_cleanup` turn the
//! provider's outcome into the response. The caller holds the cache's lock
//! across the whole sequence, so no other dispatch interleaves.

use vstd::prelude::*;
use crate::cache::ChallengeCache;
use crate::model::{
    failure_view, success_view, failure_response, success_response, ChallengeRequest,
    ChallengeResponse, ResponseView,
};

verus! {

/// The wire value naming the action that creates the challenge record.
pub open spec fn present_action() -> Seq<char> {
    "Present"@
}

/// The wire value naming the action that removes the challenge record.
pub open spec fn cleanup_action() -> Seq<char> {
    "CleanUp"@
}

/// The message of a `CleanUp` that found nothing cached: a protocol violation
/// by the caller, not a provider fault.
pub open spec fn not_cached_message() -> Seq<char> {
    "Record ID not found in cache"@
}

/// The message of a request whose action is neither `Present` nor `CleanUp`.
pub open spec fn invalid_action_message() -> Seq<char> {
    "Invalid action"@
}

/// Every failure a well-formed request can reach is reported with this code.
pub open spec fn failure_code() -> int {
    404
}

/// What `begin_dispatch` decides: either the response is already known, or
/// the named provider operation must run and its outcome be handed to
/// `finish_present` or `finish_cleanup`.
pub enum DispatchStep {
    Respond(ChallengeResponse),
    CallAddChallenge(String),
    CallRemoveChallenge(String),
}

/// Spec-level image of `DispatchStep`.
pub enum StepView {
    Respond(ResponseView),
    CallAddChallenge(Seq<char>),
    CallRemoveChallenge(Seq<char>),
}

impl View for DispatchStep {
    type V = StepView;

    open spec fn view(&self) -> StepView {
        match self {
            DispatchStep::Respond(r) => StepView::Respond(r@),
            DispatchStep::CallAddChallenge(token) => StepView::CallAddChallenge(token@),
            DispatchStep::CallRemoveChallenge(id) => StepView::CallRemoveChallenge(id@),
        }
    }
}

/// The first half of a dispatch, as a function of the cache state, the
/// request's action, and the request's challenge key.
///
/// - `Present` with a cached record: already satisfied, succeed at once and
///   keep the cache (no provider call).
/// - `Present` with an empty cache: ask for `addChallenge` with the key.
/// - `CleanUp` with a cached record: clear the cache and ask for
///   `removeChallenge` with that record's identifier.
/// - `CleanUp` with an empty cache: fail with the fixed not-cached message.
/// - any other action: fail with the invalid-action message, cache untouched.
pub open spec fn spec_begin(cache: Option<Seq<char>>, action: Seq<char>, key: Seq<char>) -> (
    Option<Seq<char>>,
    StepView,
) {
    if action == present_action() {
        match cache {
            Some(id) => (Some(id), StepView::Respond(success_view())),
            None => (None, StepView::CallAddChallenge(key)),
        }
    } else if action == cleanup_action() {
        match cache {
            Some(id) => (None, StepView::CallRemoveChallenge(id)),
            None => (
                None,
                StepView::Respond(failure_view(not_cached_message(), failure_code())),
            ),
        }
    } else {
        (cache, StepView::Respond(failure_view(invalid_action_message(), failure_code())))
    }
}

/// The second half of a `Present` that called the provider: a returned record
/// identifier is cached and the request succeeds; a provider error leaves the
/// cache as it was (empty, in the protocol) and fails with the provider's
/// message.
pub open spec fn spec_finish_present(
    cache: Option<Seq<char>>,
    result: Result<Seq<char>, Seq<char>>,
) -> (Option<Seq<char>>, ResponseView) {
    match result {
        Ok(id) => (Some(id), success_view()),
        Err(msg) => (cache, failure_view(msg, failure_code())),
    }
}

/// The second half of a `CleanUp` that called the provider. The cache was
/// already cleared by `spec_begin`, and stays cleared even on provider
/// failure, so the state can never get stuck (at the cost of possibly
/// orphaning the provider-side record).
pub open spec fn spec_finish_cleanup(result: Result<(), Seq<char>>) -> ResponseView {
    match result {
        Ok(()) => success_view(),
        Err(msg) => failure_view(msg, failure_code()),
    }
}

/// True character-for-character string equality.
fn str_eq(a: &str, b: &str) -> (r: bool)
    ensures
        r == (a@ == b@),
{
    let owned_a: String = a.to_owned();
    let owned_b: String = b.to_owned();
    owned_a == owned_b
}

/// Begin one dispatch: decide from the action and the cache whether the
/// response is already known or a provider call must be made. The caller must
/// keep holding the cache's lock until the matching finish step has run.
pub fn begin_dispatch(cache: &mut ChallengeCache, action: &str, key: String) -> (step:
    DispatchStep)
    ensures
        (final(cache)@, step@) == spec_begin(old(cache)@, action@, key@),
{
    if str_eq(action, "Present") {
        match cache.get() {
            Some(_) => DispatchStep::Respond(success_response()),
            None => DispatchStep::CallAddChallenge(key),
        }
    } else if str_eq(action, "CleanUp") {
        match cache.take() {
            Some(id) => DispatchStep::CallRemoveChallenge(id),
            None => DispatchStep::Respond(
                failure_response("Record ID not found in cache", 404),
            ),
        }
    } else {
        DispatchStep::Respond(failure_response("Invalid action", 404))
    }
}

/// Begin one dispatch for a decoded request. Only the request's action and
/// challenge key matter to the decision; the request's own `uid` is never
/// echoed back (every response carries the fixed empty `uid`).
pub fn dispatch_request(cache: &mut ChallengeCache, request: &ChallengeRequest) -> (step:
    DispatchStep)
    ensures
        (final(cache)@, step@) == spec_begin(old(cache)@, request.action@, request.key@),
{
    begin_dispatch(cache, request.action.as_str(), request.key.clone())
}

/// Finish a `Present` whose provider call came back with `result`: cache the
/// new record identifier on success, or report the provider's message.
pub fn finish_present(cache: &mut ChallengeCache, result: Result<String, String>) -> (resp:
    ChallengeResponse)
    ensures
        ({
            let (spec_cache, spec_resp) = spec_finish_present(
                old(cache)@,
                match result {
                    Ok(id) => Ok(id@),
                    Err(msg) => Err(msg@),
                },
            );
            final(cache)@ == spec_cache && resp@ == spec_resp
        }),
{
    match result {
        Ok(id) => {
            cache.set(id);
            success_response()
        },
        Err(msg) => failure_response(msg.as_str(), 404),
    }
}

/// Finish a `CleanUp` whose provider call came back with `result`. The cache
/// was cleared when the dispatch began and is not restored on failure.
pub fn finish_cleanup(result: Result<(), String>) -> (resp: ChallengeResponse)
    ensures
        resp@ == spec_finish_cleanup(
            match result {
                Ok(u) => Ok(u),
                Err(msg) => Err(msg@),
            },
        ),
{
    match result {
        Ok(()) => success_response(),
        Err(msg) => failure_response(msg.as_str(), 404),
    }
}

/// One `Present` followed by one `CleanUp` with no intervening `Present`,
/// starting from an empty cache: `Present` asks the provider to add the
/// challenge under the request's key; once the provider returns record
/// identifier `id`, the later `CleanUp` asks the provider to remove exactly
/// `id`, and the cache ends empty — whatever the removal's outcome, since
/// `spec_finish_cleanup` never touches the cache.
pub proof fn lemma_present_then_cleanup(
    present_key: Seq<char>,
    id: Seq<char>,
    cleanup_key: Seq<char>,
)
    ensures
        ({
            let (cache_after_begin, present_step) = spec_begin(
                None,
                present_action(),
                present_key,
            );
            &&& present_step == StepView::CallAddChallenge(present_key)
            &&& {
                let (cache_after_present, present_resp) = spec_finish_present(
                    cache_after_begin,
                    Ok(id),
                );
                &&& present_resp == success_view()
                &&& cache_after_present == Some(id)
                &&& {
                    let (cache_after_cleanup, cleanup_step) = spec_begin(
                        cache_after_present,
                        cleanup_action(),
                        cleanup_key,
                    );
                    &&& cleanup_step == StepView::CallRemoveChallenge(id)
                    &&& cache_after_cleanup is None
                }
            }
        }),
{
    reveal_strlit("Present");
    reveal_strlit("CleanUp");
    assert("Present"@[0] == 'P' && "CleanUp"@[0] == 'C');
    assert(present_action() != cleanup_action());
}

/// Two `Present` requests in a row, starting from an empty cache: the first
/// asks the provider to add the challenge; after its record identifier is
/// cached, the second finishes at once with success, makes no provider call,
/// and leaves the cache unchanged.
pub proof fn lemma_present_idempotent(first_key: Seq<char>, id: Seq<char>, second_key: Seq<char>)
    ensures
        ({
            let (cache_after_begin, first_step) = spec_begin(None, present_action(), first_key);
            &&& first_step == StepView::CallAddChallenge(first_key)
            &&& {
                let (cache_after_present, first_resp) = spec_finish_present(
                    cache_after_begin,
                    Ok(id),
                );
                &&& cache_after_present == Some(id)
                &&& spec_begin(cache_after_present, present_action(), second_key) == (
                    Some(id),
                    StepView::Respond(success_view()),
                )
            }
        }),
{
}

} // verus!

