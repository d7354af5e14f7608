//! Rescans, git refreshes, ranking feedback, and taking queries apart.

use crate::clock::Duration;
use crate::dto::lifecycle::{
    GitRefreshResponse, HistoryQuery, HistoryResponse, ParseQueryRequest, ParseQueryResponse,
    TrackAccessResponse, TrackQueryRequest,
};
use crate::dto::workspace::WorkspaceResource;
use crate::engine::{parse, parsed_query};
use crate::error::{reported, ApiError, ApiResult, EngineError};
use crate::paths::{
    beneath, containment_is_by_component, containment_is_transitive, is_beneath, path_failure,
    relative_to, rest_beneath, the_rest_completes_the_path, the_rest_is_what_was_put_there,
    CanonicalRoot,
};
use crate::query::{warnings_for, warnings_of};
use crate::routes::{
    is_unknown_workspace, looked_up, refusal, result_of, unknown_workspace, workspace, Answer,
};
use crate::state::AppState;
use crate::text::{
    debug_text, fold, folded, folding_removes_backslashes, quoted, texts, trim, trimmed,
    without_trailing, words,
};
use crate::workspace::pool::{
    current, describes, keeps, one_workspace_for_one_identity, put_back,
};
use crate::workspace::{is_settled, IndexState, Workspace};
use vstd::prelude::*;

verus! {

/// HTTP 202.
pub const ACCEPTED: u16 = 202;

/// HTTP 204.
pub const NO_CONTENT: u16 = 204;

// ---------------------------------------------------------------------------------------------
// Paths inside a workspace.
// ---------------------------------------------------------------------------------------------

/// The path a client names, without the white space around it, or the error where nothing is left.
pub fn path_input(input: &str) -> (r: ApiResult<String>)
    ensures
        match r {
            Ok(path) => path@ == trimmed(input@) && path@.len() > 0,
            Err(e) => trimmed(input@).len() == 0 && e is InvalidBody && e.message()
                == "path must not be empty"@,
        },
{
    let path = trim(input);
    if path.as_str().is_empty() {
        return Err(ApiError::InvalidBody("path must not be empty".to_owned()));
    }
    Ok(path)
}

/// How a path is looked for: an absolute one as it is, one relative to the root with either
/// separator.
pub fn spelling(path: &str, is_absolute: bool) -> (r: String)
    ensures
        r@ == if is_absolute {
            path@
        } else {
            folded(path@)
        },
{
    if is_absolute {
        path.to_owned()
    } else {
        fold(path)
    }
}

/// Whether a path that a client names is accepted: it resolves, to the root or to something in it.
pub open spec fn is_inside(root: CanonicalRoot, found: Result<String, String>, sep: char) -> bool {
    found matches Ok(canonical) && beneath(canonical@, root.canonical@, sep)
}

/// The refusal of a path.
pub open spec fn path_refused(
    root: CanonicalRoot,
    path: Seq<char>,
    found: Result<String, String>,
    e: ApiError,
) -> bool {
    &&& e is InvalidPath
    &&& match found {
        Ok(_) => e.message() == debug_text(path) + " resolves outside the workspace root "@
            + root.display@,
        Err(why) => e.message() == "cannot resolve "@ + debug_text(path) + ": "@ + why@,
    }
}

/// Resolves a path a client names to a canonical path inside the workspace and the path relative
/// to its root, with forward slashes. `found` is the canonical path, or why there is none.
///
/// Rejects anything that escapes the root: an entry for a file outside the workspace would be
/// recorded against a database this workspace owns.
pub fn resolve_in_workspace(
    root: &CanonicalRoot,
    input: &str,
    found: Result<String, String>,
    sep: char,
) -> (r: ApiResult<(String, String)>)
    ensures
        match r {
            Ok((canonical, relative)) => trimmed(input@).len() > 0 && is_inside(*root, found, sep)
                && found == Ok::<String, String>(canonical) && relative@ == folded(
                rest_beneath(canonical@, root.canonical@, sep),
            ),
            Err(e) => if trimmed(input@).len() == 0 {
                e is InvalidBody && e.message() == "path must not be empty"@
            } else {
                !is_inside(*root, found, sep) && path_refused(*root, trimmed(input@), found, e)
            },
        },
{
    let path = match path_input(input) {
        Ok(path) => path,
        Err(e) => return Err(e),
    };
    let canonical = match found {
        Ok(canonical) => canonical,
        Err(why) => return Err(
            ApiError::InvalidPath(path_failure("cannot resolve ", path.as_str(), why.as_str())),
        ),
    };
    if !is_beneath(canonical.as_str(), root.canonical.as_str(), sep) {
        let mut text = quoted(path.as_str());
        text.append(" resolves outside the workspace root ");
        text.append(root.display.as_str());
        return Err(ApiError::InvalidPath(text));
    }
    let rest = relative_to(canonical.as_str(), root.canonical.as_str(), sep);
    let relative = fold(rest.as_str());
    Ok((canonical, relative))
}

/// What is recorded lies in the workspace: an accepted path is the root, or the root, a separator
/// and the rest that is recorded with forward slashes. It lies in every directory that holds the
/// root, the allowed ones among them.
pub proof fn only_paths_inside_are_recorded(
    root: CanonicalRoot,
    canonical: String,
    allowed: Seq<char>,
    sep: char,
)
    requires
        is_inside(root, Ok(canonical), sep),
    ensures
        ({
            let rest = rest_beneath(canonical@, root.canonical@, sep);
            &&& canonical@ == root.canonical@ || canonical@ == without_trailing(
                root.canonical@,
                sep,
            ) + seq![sep] + rest
            &&& !folded(rest).contains('\\')
        }),
        beneath(root.canonical@, allowed, sep) ==> beneath(canonical@, allowed, sep),
{
    the_rest_completes_the_path(canonical@, root.canonical@, sep);
    folding_removes_backslashes(rest_beneath(canonical@, root.canonical@, sep));
    if beneath(root.canonical@, allowed, sep) {
        containment_is_transitive(canonical@, root.canonical@, allowed, sep);
    }
}

/// A sibling whose name merely begins like the root's is refused, and so is every path that does
/// not begin with the root.
pub proof fn paths_outside_are_refused(
    root: CanonicalRoot,
    beside: String,
    next: char,
    rest: Seq<char>,
    sep: char,
)
    requires
        root.canonical@.len() > 0,
        root.canonical@.last() != sep,
    ensures
        next != sep && beside@ == root.canonical@ + seq![next] + rest ==> !is_inside(
            root,
            Ok(beside),
            sep,
        ),
        !root.canonical@.is_prefix_of(beside@) ==> !is_inside(root, Ok(beside), sep),
{
    let base = root.canonical@;
    containment_is_by_component(base, next, rest, sep);
    if beneath(beside@, base, sep) && !base.is_prefix_of(beside@) {
        let front = without_trailing(base, sep) + seq![sep];
        assert(beside@ == base || front.is_prefix_of(beside@));
        if beside@ == base {
            assert(base.subrange(0, base.len() as int) =~= base);
        } else {
            assert(beside@.subrange(0, front.len() as int) == front);
            assert(beside@.subrange(0, base.len() as int) =~= front.subrange(
                0,
                base.len() as int,
            ));
            assert(front.subrange(0, base.len() as int) =~= base);
        }
    }
}

// ---------------------------------------------------------------------------------------------
// Rescans and git status.
// ---------------------------------------------------------------------------------------------

/// The error of a rescan asked for at the wrong time.
pub open spec fn is_busy(e: ApiError) -> bool {
    e is NotReady && e.message() == "cannot rescan while scanning or content indexing is active"@
}

/// Looks the workspace up and decides whether a rescan may be triggered now; if so, hands out the
/// workspace.
pub fn plan_rescan(state: &mut AppState, id: &str, index: &Option<IndexState>, now: Duration) -> (r:
    ApiResult<Workspace>)
    requires
        old(state).wf(),
    ensures
        final(state).wf(),
        final(state).pool.settings() == old(state).pool.settings(),
        if old(state).pool@.dom().contains(id@) {
            let ws = old(state).pool@[id@].touched(now@).observed(is_settled(*index), now@);
            &&& final(state).pool@ == old(state).pool@.insert(id@, ws)
            &&& match r {
                Ok(w) => is_settled(*index) && w == ws,
                Err(e) => !is_settled(*index) && is_busy(e),
            }
        } else {
            &&& final(state).pool@ == old(state).pool@
            &&& r matches Err(e) && is_unknown_workspace(e, id@)
        },
{
    let mut ws = match workspace(state, id, now) {
        Ok(ws) => ws.copy(),
        Err(e) => return Err(e),
    };
    match state.pool.may_rescan(id, index, now) {
        Some(r) => {
            let _ = ws.progress(index, now);
            assert(state.pool@ =~= old(state).pool@.insert(id@, ws));
            match r {
                Ok(_) => Ok(ws),
                Err(e) => Err(e),
            }
        },
        None => Err(unknown_workspace(id)),
    }
}

/// Notes what came of triggering a rescan of a workspace and describes the workspace, whose index
/// has been looked at again. The rescan runs in the background, so the answer is 202.
pub fn rescan(
    state: &mut AppState,
    ws: Workspace,
    triggered: Result<(), EngineError>,
    unix_now: u64,
    index: &Option<IndexState>,
    now: Duration,
) -> (r: ApiResult<(u16, WorkspaceResource)>)
    requires
        old(state).wf(),
    ensures
        final(state).wf(),
        final(state).pool.settings() == old(state).pool.settings(),
        match triggered {
            Ok(_) => {
                let seen = current(old(state).pool@, ws).scanning(unix_now).observed(
                    is_settled(*index),
                    now@,
                );
                &&& final(state).pool@ == put_back(old(state).pool@, ws, seen)
                &&& r matches Ok((status, res)) && status == ACCEPTED && status == 202 && describes(
                    res,
                    seen,
                    *index,
                    old(state).pool.settings(),
                    now@,
                )
            },
            Err(err) => {
                &&& final(state).pool@ == old(state).pool@
                &&& r matches Err(e) && e == reported(err)
            },
        },
{
    let ghost held = ws;
    let scanning = match state.pool.note_rescan(ws, triggered, unix_now) {
        Ok(scanning) => scanning,
        Err(e) => return Err(e),
    };
    proof {
        if keeps(old(state).pool@, held) {
            one_workspace_for_one_identity(old(state).pool, held.id@);
        }
    }
    let res = state.pool.describe(scanning, index, now);
    assert(state.pool@ =~= put_back(
        old(state).pool@,
        held,
        current(old(state).pool@, held).scanning(unix_now).observed(is_settled(*index), now@),
    ));
    Ok((ACCEPTED, res))
}

/// Answers a git refresh.
pub fn git_refresh(outcome: Result<usize, EngineError>) -> (r: ApiResult<GitRefreshResponse>)
    ensures
        match outcome {
            Ok(n) => r matches Ok(res) && res.updated == n,
            Err(err) => r matches Err(e) && e == reported(err),
        },
{
    match Workspace::refresh_git_status(outcome) {
        Ok(updated) => Ok(GitRefreshResponse { updated }),
        Err(e) => Err(e),
    }
}

// ---------------------------------------------------------------------------------------------
// Ranking feedback.
// ---------------------------------------------------------------------------------------------

/// What is said where a workspace has no frecency database.
pub const NO_FRECENCY: &'static str = "frecency database is not available for this workspace";

/// What is said where a workspace has no query history.
pub const NO_HISTORY: &'static str = "query history database is not available for this workspace";

/// Answers the report of an opened file: the path as recorded, and how often it has been reported.
pub fn track_access(relative: String, answer: Answer<usize>) -> (r: ApiResult<TrackAccessResponse>)
    ensures
        match r {
            Ok(res) => answer == Answer::Done(res.access_count) && res.relative_path == relative,
            Err(e) => refusal(answer, NO_FRECENCY@, e),
        },
        answer is Done ==> r is Ok,
{
    match result_of(answer, NO_FRECENCY) {
        Ok(access_count) => Ok(TrackAccessResponse { relative_path: relative, access_count }),
        Err(e) => Err(e),
    }
}

/// Looks the workspace up and checks that a report names a query.
pub fn plan_track_query<'a>(
    state: &'a mut AppState,
    id: &str,
    req: &TrackQueryRequest,
    now: Duration,
) -> (r: ApiResult<&'a Workspace>)
    requires
        old(state).wf(),
    ensures
        final(state).wf(),
        final(state).pool.settings() == old(state).pool.settings(),
        final(state).pool@ == looked_up(old(state).pool@, id@, now@),
        match r {
            Ok(ws) => old(state).pool@.dom().contains(id@) && trimmed(req.query@).len() > 0 && *ws
                == old(state).pool@[id@].touched(now@),
            Err(e) => if !old(state).pool@.dom().contains(id@) {
                is_unknown_workspace(e, id@)
            } else {
                trimmed(req.query@).len() == 0 && e is InvalidBody && e.message()
                    == "query must not be empty"@
            },
        },
{
    let ws = match workspace(state, id, now) {
        Ok(ws) => ws,
        Err(e) => return Err(e),
    };
    if trim(req.query.as_str()).as_str().is_empty() {
        return Err(ApiError::InvalidBody("query must not be empty".to_owned()));
    }
    Ok(ws)
}

/// Answers the report of which result a query led to.
pub fn track_query(answer: Answer<()>) -> (r: ApiResult<u16>)
    ensures
        match r {
            Ok(status) => answer is Done && status == NO_CONTENT && status == 204,
            Err(e) => refusal(answer, NO_HISTORY@, e),
        },
        answer is Done ==> r is Ok,
{
    match result_of(answer, NO_HISTORY) {
        Ok(_) => Ok(NO_CONTENT),
        Err(e) => Err(e),
    }
}

/// Answers a look into the query history: the query at the offset asked for, or none where the
/// history is shorter.
pub fn history(params: &HistoryQuery, answer: Answer<Option<String>>) -> (r: ApiResult<
    HistoryResponse,
>)
    ensures
        match r {
            Ok(res) => answer == Answer::Done(res.query) && res.offset == params.offset,
            Err(e) => refusal(answer, NO_HISTORY@, e),
        },
        answer is Done ==> r is Ok,
{
    match result_of(answer, NO_HISTORY) {
        Ok(query) => Ok(HistoryResponse { query, offset: params.offset }),
        Err(e) => Err(e),
    }
}

/// Shows how the parser decomposes a query, without searching anything. Needs no workspace:
/// parsing depends only on the preset.
pub fn parse_query(req: &ParseQueryRequest) -> (r: ParseQueryResponse)
    ensures
        r.query@ == req.query@,
        r.shows(parsed_query(req.preset, req.query@)),
        texts(r.warnings@) == warnings_of(words(req.query@)),
{
    let warnings = warnings_for(req.query.as_str());
    let parsed = parse(req.query.as_str(), req.preset);
    ParseQueryResponse::build(req.query.as_str(), &parsed, warnings)
}

/// A path in the workspace is recorded relative to the root, with a forward slash for each
/// backslash and everything else as it is; the root itself is the empty path.
pub proof fn recorded_paths_are_relative(root: CanonicalRoot, rest: Seq<char>, sep: char, i: int)
    requires
        root.canonical@.len() > 0,
        root.canonical@.last() != sep,
        0 <= i < rest.len(),
    ensures
        ({
            let relative = folded(
                rest_beneath(root.canonical@ + seq![sep] + rest, root.canonical@, sep),
            );
            &&& relative.len() == rest.len()
            &&& rest[i] == '\\' ==> relative[i] == '/'
            &&& rest[i] != '\\' ==> relative[i] == rest[i]
        }),
        folded(rest_beneath(root.canonical@, root.canonical@, sep)).len() == 0,
{
    the_rest_is_what_was_put_there(root.canonical@, rest, sep);
}

/// How a path is refused: as a bad path, with why it does not resolve, or with the root that it
/// lies outside of.
pub proof fn refused_paths_say_why(
    root: CanonicalRoot,
    path: Seq<char>,
    found: Result<String, String>,
    e: ApiError,
)
    requires
        path_refused(root, path, found, e),
    ensures
        e.status_code() == 400,
        e.code() == "invalid-path"@,
        found matches Err(why) ==> e.message() == "cannot resolve "@ + debug_text(path) + ": "@
            + why@,
        found is Ok ==> e.message() == debug_text(path) + " resolves outside the workspace root "@
            + root.display@,
{
}

/// A rescan at the wrong time is answered with a request to come back.
pub proof fn busy_workspaces_are_to_be_tried_again(e: ApiError)
    requires
        is_busy(e),
    ensures
        e.status_code() == 503,
        e.code() == "index-not-ready"@,
        e.message() == "cannot rescan while scanning or content indexing is active"@,
{
}

/// A path is looked for as it is spelled where it is absolute; one relative to the root is looked
/// for with forward slashes, so both spellings of it lead to the same place.
pub proof fn both_spellings_lead_to_one_place(path: &str, other: &str, a: String, b: String)
    requires
        call_ensures(spelling, (path, false), a),
        call_ensures(spelling, (other, true), b),
    ensures
        b@ == other@,
        a@.len() == path@.len(),
        forall|i: int|
            0 <= i < path@.len() ==> (path@[i] == '\\' ==> #[trigger] a@[i] == '/') && (path@[i]
                != '\\' ==> a@[i] == path@[i]),
{
}

/// Feedback is answered with what was recorded: the path and how often it was reported, 204 for a
/// query, the number of files that changed for a git refresh.
pub proof fn feedback_is_answered_with_what_was_recorded(
    relative: String,
    count: usize,
    updated: usize,
    access: ApiResult<TrackAccessResponse>,
    query: ApiResult<u16>,
    refresh: ApiResult<GitRefreshResponse>,
)
    requires
        call_ensures(track_access, (relative, Answer::Done(count)), access),
        call_ensures(track_query, (Answer::Done(()),), query),
        call_ensures(git_refresh, (Ok(updated),), refresh),
    ensures
        access matches Ok(res) && res.relative_path@ == relative@ && res.access_count == count,
        query == Ok::<u16, ApiError>(204),
        refresh matches Ok(res) && res.updated == updated,
{
}

/// A look into the history is answered with the query that is there, and with the offset that was
/// asked for, whether or not there is a query at it.
pub proof fn history_is_answered_at_its_offset(
    params: HistoryQuery,
    found: Option<String>,
    r: ApiResult<HistoryResponse>,
)
    requires
        call_ensures(history, (&params, Answer::Done(found)), r),
    ensures
        r matches Ok(res) && res.query == found && res.offset == params.offset,
{
}

/// A query is taken apart by the preset that was asked for, echoed as it was, and warned about as
/// its own tokens ask for.
pub proof fn queries_are_taken_apart_as_asked(req: ParseQueryRequest, r: ParseQueryResponse)
    requires
        call_ensures(parse_query, (&req,), r),
    ensures
        r.query@ == req.query@,
        r.constraints@.len() == parsed_query(req.preset, req.query@).constraints.len(),
        r.location is Some <==> parsed_query(req.preset, req.query@).location is Some,
        texts(r.warnings@) == warnings_of(words(req.query@)),
{
}

/// Whatever the server holds, a rescan is planned exactly for a workspace that is there and whose
/// index is complete and at rest, and looking never takes a workspace away.
pub proof fn rescans_are_planned_for_settled_indexes(id: &str, s: IndexState, now: Duration)
    ensures
        forall|state: &mut AppState, r: ApiResult<Workspace>| #[trigger]
            call_ensures(plan_rescan, (state, id, &Some(s), now), r) ==> {
                &&& r is Ok <==> state.pool@.dom().contains(id@) && !s.is_scanning
                    && s.is_warmup_complete
                &&& r matches Ok(w) ==> w.is_still(state.pool@[id@])
                &&& r matches Err(e) ==> if state.pool@.dom().contains(id@) {
                    e.status_code() == 503
                } else {
                    e.status_code() == 404
                }
                &&& final(state).pool@.dom() == state.pool@.dom()
            },
{
    assert forall|state: &mut AppState, r: ApiResult<Workspace>| #[trigger]
        call_ensures(plan_rescan, (state, id, &Some(s), now), r) implies final(state).pool@.dom()
        == state.pool@.dom() by {
        assert(final(state).pool@.dom() =~= state.pool@.dom());
    }
}

/// A rescan that the engine started is answered 202 and takes the ready second away until the index
/// is seen settled again; one that it refused is answered with its reason and changes nothing.
pub proof fn started_rescans_are_accepted(
    ws: Workspace,
    err: EngineError,
    unix_now: u64,
    s: IndexState,
    now: Duration,
)
    ensures
        forall|state: &mut AppState, r: ApiResult<(u16, WorkspaceResource)>| #[trigger]
            call_ensures(
                rescan,
                (state, ws, Ok::<(), EngineError>(()), unix_now, &Some(s), now),
                r,
            ) ==> {
                &&& r matches Ok((status, res)) && status == 202
                &&& state.pool@.dom().contains(ws.id@) && state.pool@[ws.id@].origin == ws.origin
                    ==> {
                    &&& final(state).pool@[ws.id@].last_scan_at_unix == unix_now
                    &&& s.is_scanning ==> final(state).pool@[ws.id@].ready_since == u64::MAX
                }
                &&& !state.pool@.dom().contains(ws.id@) ==> final(state).pool@ == state.pool@
            },
        forall|state: &mut AppState, r: ApiResult<(u16, WorkspaceResource)>| #[trigger]
            call_ensures(
                rescan,
                (state, ws, Err::<(), EngineError>(err), unix_now, &Some(s), now),
                r,
            ) ==> final(state).pool@ == state.pool@ && (r matches Err(e) && e == reported(err)),
{
}

/// A path is accepted exactly where it is not blank and resolves to the root or into it; what is
/// handed out is what it resolved to.
pub proof fn paths_are_accepted_inside_the_root(
    root: &CanonicalRoot,
    input: &str,
    canonical: String,
    sep: char,
    r: ApiResult<(String, String)>,
)
    requires
        call_ensures(
            resolve_in_workspace,
            (root, input, Ok::<String, String>(canonical), sep),
            r,
        ),
    ensures
        r is Ok <==> trimmed(input@).len() > 0 && beneath(canonical@, root.canonical@, sep),
        r matches Ok((path, relative)) ==> path@ == canonical@ && !relative@.contains('\\'),
        trimmed(input@).len() == 0 ==> (r matches Err(e) && e.message()
            == "path must not be empty"@ && e.status_code() == 400),
{
    folding_removes_backslashes(rest_beneath(canonical@, root.canonical@, sep));
}

/// Whatever the server holds, the report of a query is taken exactly for a workspace that is there
/// and a query that is not blank.
pub proof fn reported_queries_must_say_something(id: &str, req: &TrackQueryRequest, now: Duration)
    ensures
        forall|state: &mut AppState, r: ApiResult<&Workspace>| #[trigger]
            call_ensures(plan_track_query, (state, id, req, now), r) ==> {
                &&& r is Ok <==> state.pool@.dom().contains(id@) && trimmed(req.query@).len() > 0
                &&& r matches Ok(ws) ==> ws.is_still(state.pool@[id@])
                &&& r matches Err(e) ==> if state.pool@.dom().contains(id@) {
                    e.status_code() == 400 && e.message() == "query must not be empty"@
                } else {
                    e.status_code() == 404
                }
            },
{
}

/// Feedback for which there is no database yet is to be tried again, and is told which one is
/// missing.
pub proof fn feedback_without_a_database_is_to_be_tried_again(
    relative: String,
    params: &HistoryQuery,
    access: ApiResult<TrackAccessResponse>,
    query: ApiResult<u16>,
    look: ApiResult<HistoryResponse>,
)
    requires
        call_ensures(track_access, (relative, Answer::Missing), access),
        call_ensures(track_query, (Answer::Missing,), query),
        call_ensures(history, (params, Answer::Missing), look),
    ensures
        access matches Err(e) && e.status_code() == 503 && e.message()
            == "frecency database is not available for this workspace"@,
        query matches Err(e) && e.status_code() == 503 && e.message()
            == "query history database is not available for this workspace"@,
        look matches Err(e) && e.status_code() == 503 && e.message()
            == "query history database is not available for this workspace"@,
{
}

} // verus!
