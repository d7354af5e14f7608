//! The handlers: what each request is checked for, which engine call it becomes, and what the
//! reply says.
//!
//! A handler that needs the engine comes in two halves. The first looks the workspace up, checks
//! the request and says what the engine is to do; the second turns the engine's answer into the
//! reply.

use crate::clock::Duration;
use crate::error::{failure_text, reported, ApiError, ApiResult, EngineError};
use crate::state::AppState;
use crate::text::{debug_text, quoted};
use crate::workspace::Workspace;
use vstd::prelude::*;

pub mod grep;
pub mod lifecycle;
pub mod meta;
pub mod search;
pub mod workspaces;

verus! {

/// What the engine answered.
#[derive(Debug)]
pub enum Answer<T> {
    /// It refused.
    Failed(EngineError),
    /// What was asked for is not there yet: no index, or no database.
    Missing,
    /// It did the work.
    Done(T),
}

/// The error of a request for a workspace that is not there.
pub open spec fn is_unknown_workspace(e: ApiError, id: Seq<char>) -> bool {
    e is NotFound && e.message() == "no workspace with id "@ + debug_text(id)
}

/// What a request is answered where the engine did not do the work; `missing` is said where what
/// was asked for is not there yet.
pub open spec fn refusal<T>(answer: Answer<T>, missing: Seq<char>, e: ApiError) -> bool {
    match answer {
        Answer::Failed(err) => e == reported(err),
        Answer::Missing => e is NotReady && e.message() == missing,
        Answer::Done(_) => false,
    }
}

/// What is said while an index is not there yet.
pub const STILL_BUILDING: &'static str = "index is still building";

/// Takes the result out of an answer.
pub fn result_of<T>(answer: Answer<T>, missing: &str) -> (r: ApiResult<T>)
    ensures
        match r {
            Ok(t) => answer == Answer::Done(t),
            Err(e) => refusal(answer, missing@, e),
        },
        answer is Done ==> r is Ok,
{
    match answer {
        Answer::Failed(err) => Err(ApiError::from(err)),
        Answer::Missing => Err(ApiError::NotReady(missing.to_owned())),
        Answer::Done(t) => Ok(t),
    }
}

/// The error of a request for a workspace that is not there.
pub fn unknown_workspace(id: &str) -> (r: ApiError)
    ensures
        is_unknown_workspace(r, id@),
{
    let mut text = "no workspace with id ".to_owned();
    text.append(quoted(id).as_str());
    ApiError::NotFound(text)
}

/// What looking a workspace up does to the pool: it marks the workspace as in use.
pub open spec fn looked_up(
    pool: Map<Seq<char>, Workspace>,
    id: Seq<char>,
    now: nat,
) -> Map<Seq<char>, Workspace> {
    if pool.dom().contains(id) {
        pool.insert(id, pool[id].touched(now))
    } else {
        pool
    }
}

/// The workspace a request names, marked as in use.
pub fn workspace<'a>(state: &'a mut AppState, id: &str, now: Duration) -> (r: ApiResult<
    &'a Workspace,
>)
    requires
        old(state).wf(),
    ensures
        final(state).wf(),
        final(state).pool.settings() == old(state).pool.settings(),
        final(state).pool@ == looked_up(old(state).pool@, id@, now@),
        match r {
            Ok(ws) => old(state).pool@.dom().contains(id@) && *ws == old(state).pool@[id@].touched(
                now@,
            ),
            Err(e) => !old(state).pool@.dom().contains(id@) && is_unknown_workspace(e, id@),
        },
{
    match state.pool.get(id, now) {
        Some(ws) => Ok(ws),
        None => Err(unknown_workspace(id)),
    }
}

/// A workspace that is not there is answered 404, with its id.
pub proof fn unknown_workspaces_are_not_found(e: ApiError, id: Seq<char>)
    requires
        is_unknown_workspace(e, id),
    ensures
        e.status_code() == 404,
        e.code() == "not-found"@,
        e.message() == "no workspace with id "@ + debug_text(id),
{
}

/// A request that the engine refuses is answered with the engine's reason, one for something that
/// is not there yet with a request to come back, and one that it did with no refusal.
pub proof fn refusals_give_their_reason<T>(answer: Answer<T>, missing: Seq<char>, e: ApiError)
    requires
        refusal(answer, missing, e),
    ensures
        answer !is Done,
        answer is Missing ==> e.status_code() == 503 && e.code() == "index-not-ready"@
            && e.message() == missing,
        answer matches Answer::Failed(err) ==> e == reported(err) && e.message() == failure_text(
            err,
        ),
{
}

/// Looking a workspace up changes when that workspace was last used and nothing else: no other
/// workspace, none of its other fields, and not which workspaces there are.
pub proof fn looking_up_only_marks_as_used(
    pool: Map<Seq<char>, Workspace>,
    id: Seq<char>,
    other: Seq<char>,
    now: nat,
)
    ensures
        ({
            let after = looked_up(pool, id, now);
            &&& after.dom() == pool.dom()
            &&& other != id && pool.dom().contains(other) ==> after[other] == pool[other]
            &&& pool.dom().contains(id) ==> {
                &&& after[id].is_still(pool[id])
                &&& after[id].time_to_ready_ms == pool[id].time_to_ready_ms
                &&& after[id].ready_since == pool[id].ready_since
                &&& after[id].last_scan_at_unix == pool[id].last_scan_at_unix
                &&& pool[id].origin@ <= now < Duration::limit() ==> after[id].last_touched
                    * 1_000_000_000 <= now - pool[id].origin@ < (after[id].last_touched + 1)
                    * 1_000_000_000
            }
        }),
{
    assert(looked_up(pool, id, now).dom() =~= pool.dom());
}

/// What a client is told where an index, a frecency database or a query history is not there yet.
pub proof fn what_is_said_of_what_is_missing()
    ensures
        STILL_BUILDING@ == "index is still building"@,
        lifecycle::NO_FRECENCY@ == "frecency database is not available for this workspace"@,
        lifecycle::NO_HISTORY@ == "query history database is not available for this workspace"@,
{
}

} // verus!
