//! Creating, listing, inspecting and evicting workspaces.

use crate::clock::Duration;
use crate::config::{Config, Machine};
use crate::dto::workspace::{WorkspaceList, WorkspaceResource, WorkspaceStatus};
use crate::error::{ApiError, ApiResult};
use crate::paths::{identity_text, is_root, stable_id_text, CanonicalRoot, FoundRoot, RootProbe};
use crate::routes::lifecycle::{ACCEPTED, NO_CONTENT};
use crate::routes::{is_unknown_workspace, unknown_workspace, workspace};
use crate::state::AppState;
use crate::text::{same, text_le, trimmed};
use crate::workspace::pool::{
    create_refused, current, describes, is_allowed, put_back, CreateStart, Created, IndexProbe,
};
use crate::workspace::{
    has_reached, is_settled, or_default, BuildPlan, CreateWorkspace, IndexState, WaitFor, Workspace,
};
use vstd::prelude::*;

verus! {

/// HTTP 200.
pub const OK: u16 = 200;

/// HTTP 201.
pub const CREATED: u16 = 201;

/// What a create request comes to once its root has been looked at.
#[derive(Debug)]
pub enum CreateStep {
    /// The root has a workspace. Skip the expensive path entirely.
    Existing(Workspace),
    /// An index is to be built.
    Build {
        /// The root it is built over.
        root: CanonicalRoot,
        /// What the engine is to build.
        plan: BuildPlan,
    },
}

/// Validates the root of a create request, and finds its workspace or says what to build.
///
/// `probe` is what the filesystem answered about the root; `allowed` holds the canonical paths of
/// the configured `allowed_roots`, and `None` for those that do not resolve.
pub fn plan_create(
    state: &mut AppState,
    req: &CreateWorkspace,
    probe: &RootProbe,
    allowed: &Vec<Option<String>>,
    now: Duration,
    machine: &Machine,
) -> (r: ApiResult<CreateStep>)
    requires
        old(state).wf(),
    ensures
        final(state).wf(),
        final(state).pool.settings() == old(state).pool.settings(),
        ({
            let config = old(state).pool.settings();
            match r {
                Ok(step) => trimmed(req.root@).len() > 0 && (*probe matches RootProbe::Found(found)
                    && is_root(found) && is_allowed(
                    config,
                    allowed@,
                    found.canonical@,
                    machine.separator,
                ) && {
                    let id = stable_id_text(identity_text(found.file_id, found.canonical@));
                    match step {
                        CreateStep::Existing(ws) => {
                            &&& old(state).pool@.dom().contains(id)
                            &&& ws == old(state).pool@[id].touched(now@)
                            &&& final(state).pool@ == old(state).pool@.insert(id, ws)
                        },
                        CreateStep::Build { root, plan } => {
                            &&& !old(state).pool@.dom().contains(id)
                            &&& final(state).pool@ == old(state).pool@
                            &&& root.describes(found)
                            &&& plan.carries_out(
                                *req,
                                config,
                                found.canonical@,
                                root.identity@,
                                *machine,
                            )
                            &&& plan.budget@ == or_default(
                                req.wait_for_index_ms,
                                config.workspaces.create_block_ms,
                            ) * 1_000_000
                        },
                    }
                }),
                Err(e) => {
                    &&& create_refused(
                        req.root@,
                        *probe,
                        config,
                        allowed@,
                        machine.separator,
                        e,
                    )
                    &&& final(state).pool@ == old(state).pool@
                },
            }
        }),
{
    let sep = machine.separator;
    let root = match state.pool.resolve_root(req.root.as_str(), probe, allowed, sep) {
        Ok(root) => root,
        Err(e) => return Err(e),
    };
    match state.pool.start_create(&root, req, now, machine) {
        CreateStart::Build(plan) => Ok(CreateStep::Build { root, plan }),
        CreateStart::Existing(ws) => Ok(CreateStep::Existing(ws)),
    }
}

/// The status of a create request. A new workspace is answered 201 where it reached the requested
/// stage inside the block budget, and 202 where it did not, which the client polls. One that was
/// there before is answered 200. One that another request created meanwhile is answered 201 where
/// it is ready, and 200 where it is not.
pub open spec fn created_status(created: Option<Created>, status: WorkspaceStatus) -> u16 {
    match created {
        None => OK,
        Some(Created::New { stage_reached }) => if stage_reached {
            CREATED
        } else {
            ACCEPTED
        },
        Some(Created::Existing) => if status is Ready {
            CREATED
        } else {
            OK
        },
    }
}

/// Answers a create request with the workspace: `created` is what building came to, and `None`
/// where the workspace was there before. Running out of the block budget is no error.
pub fn create(
    state: &mut AppState,
    ws: Workspace,
    created: Option<Created>,
    index: &Option<IndexState>,
    now: Duration,
) -> (r: (u16, WorkspaceResource))
    requires
        old(state).wf(),
    ensures
        final(state).wf(),
        final(state).pool.settings() == old(state).pool.settings(),
        r.0 == created_status(created, r.1.status),
        ({
            let seen = current(old(state).pool@, ws).observed(is_settled(*index), now@);
            &&& final(state).pool@ == put_back(old(state).pool@, ws, seen)
            &&& describes(r.1, seen, *index, old(state).pool.settings(), now@)
        }),
{
    let body = state.pool.describe(ws, index, now);
    let status: u16 = match (created, body.status) {
        (None, _) => OK,
        (Some(Created::New { stage_reached }), _) => if stage_reached {
            CREATED
        } else {
            // Still building: the client polls rather than holding a request open.
            ACCEPTED
        },
        (Some(Created::Existing), WorkspaceStatus::Ready) => CREATED,
        (Some(Created::Existing), _) => OK,
    };
    (status, body)
}

/// A request that builds is answered 201 exactly where the index it built had reached the stage it
/// asked for when its waiting ended, and 202 otherwise, however far the index is when the answer is
/// given. A request that finds a workspace is answered 200, however far that is.
pub proof fn the_requested_stage_decides(
    wait_for: WaitFor,
    index: Option<IndexState>,
    status: WorkspaceStatus,
)
    ensures
        ({
            let created = Some(Created::New { stage_reached: has_reached(wait_for, index) });
            &&& created_status(created, status) == CREATED <==> has_reached(wait_for, index)
            &&& created_status(created, status) == ACCEPTED <==> !has_reached(wait_for, index)
        }),
        created_status(None, status) == OK,
{
}

/// What was seen of the index of the workspace with this id: the first of the probes that names
/// it, or nothing.
pub open spec fn probed(probes: Seq<IndexProbe>, id: Seq<char>) -> Option<IndexState>
    decreases probes.len(),
{
    if probes.len() == 0 {
        None
    } else if probes[0].id@ == id {
        probes[0].index
    } else {
        probed(probes.skip(1), id)
    }
}

/// The first of the probes that names the workspace with this id.
fn find_probe(probes: &Vec<IndexProbe>, id: &str) -> (r: Option<usize>)
    ensures
        match r {
            Some(i) => i < probes@.len() && probes@[i as int].index == probed(probes@, id@),
            None => probed(probes@, id@) is None,
        },
{
    let mut i: usize = 0;
    assert(probes@.skip(0) =~= probes@);
    while i < probes.len()
        invariant
            i <= probes@.len(),
            probed(probes@.skip(i as int), id@) == probed(probes@, id@),
        decreases probes@.len() - i,
    {
        assert(probes@.skip(i as int).skip(1) =~= probes@.skip(i + 1));
        if same(probes[i].id.as_str(), id) {
            return Some(i);
        }
        i += 1;
    }
    None
}

/// A workspace of a list, as the probes show it.
pub open spec fn listed(
    res: WorkspaceResource,
    pool: Map<Seq<char>, Workspace>,
    probes: Seq<IndexProbe>,
    config: Config,
    now: nat,
) -> bool {
    let index = probed(probes, res.id@);
    &&& pool.dom().contains(res.id@)
    &&& describes(res, pool[res.id@].observed(is_settled(index), now), index, config, now)
}

/// Lists the live workspaces in the order of their roots, given what was seen of their indexes.
pub fn list(state: &mut AppState, probes: &Vec<IndexProbe>, now: Duration) -> (r: WorkspaceList)
    requires
        old(state).wf(),
    ensures
        final(state).wf(),
        final(state).pool.settings() == old(state).pool.settings(),
        final(state).pool@.dom() == old(state).pool@.dom(),
        forall|id: Seq<char>| #[trigger]
            old(state).pool@.dom().contains(id) ==> final(state).pool@[id] == old(
                state,
            ).pool@[id].observed(is_settled(probed(probes@, id)), now@),
        r.workspaces@.len() == old(state).pool@.len(),
        forall|i: int|
            0 <= i < r.workspaces@.len() ==> listed(
                #[trigger] r.workspaces@[i],
                old(state).pool@,
                probes@,
                old(state).pool.settings(),
                now@,
            ),
        forall|i: int, j: int|
            0 <= i < j < r.workspaces@.len() ==> (#[trigger] r.workspaces@[i]).id@ != (
            #[trigger] r.workspaces@[j]).id@ && text_le(
                r.workspaces@[i].root@,
                r.workspaces@[j].root@,
            ),
{
    let ghost start = state.pool@;
    let ghost config = state.pool.settings();
    let mut ids: Vec<String> = Vec::new();
    let ghost mut order: Seq<&Workspace> = seq![];
    {
        let all = state.pool.list();
        proof {
            order = all@;
        }
        let mut k: usize = 0;
        while k < all.len()
            invariant
                k <= all@.len(),
                ids@.len() == k,
                forall|m: int| 0 <= m < k ==> (#[trigger] ids@[m])@ == all@[m].id@,
            decreases all@.len() - k,
        {
            ids.push(all[k].id.clone());
            k += 1;
        }
    }
    let mut out: Vec<WorkspaceResource> = Vec::new();
    let mut n: usize = 0;
    while n < ids.len()
        invariant
            n <= ids@.len(),
            ids@.len() == order.len(),
            order.len() == start.len(),
            start.dom().finite(),
            state.wf(),
            state.pool.settings() == config,
            forall|m: int|
                0 <= m < ids@.len() ==> (#[trigger] ids@[m])@ == order[m].id@
                    && start.dom().contains(ids@[m]@) && start[ids@[m]@] == *order[m],
            forall|i: int, j: int|
                0 <= i < j < order.len() ==> (#[trigger] order[i]).id@ != (
                #[trigger] order[j]).id@ && text_le(
                    order[i].root.display@,
                    order[j].root.display@,
                ),
            state.pool@.dom() == start.dom(),
            forall|m: int|
                0 <= m < ids@.len() ==> state.pool@[(#[trigger] ids@[m])@] == if m < n {
                    start[ids@[m]@].observed(is_settled(probed(probes@, ids@[m]@)), now@)
                } else {
                    start[ids@[m]@]
                },
            out@.len() == n,
            forall|m: int|
                0 <= m < n ==> (#[trigger] out@[m]).id@ == order[m].id@ && out@[m].root@
                    == order[m].root.display@ && listed(out@[m], start, probes@, config, now@),
        decreases ids@.len() - n,
    {
        let id = ids[n].as_str();
        let ghost before = state.pool@;
        assert(start.dom().contains(ids@[n as int]@));
        assert(before[ids@[n as int]@] == start[ids@[n as int]@]);
        let none: Option<IndexState> = None;
        let res = match find_probe(probes, id) {
            Some(p) => state.pool.resource(id, &probes[p].index, now),
            None => state.pool.resource(id, &none, now),
        };
        proof {
            assert(state.pool@.dom() =~= start.dom());
            assert forall|m: int| 0 <= m < ids@.len() implies state.pool@[(#[trigger] ids@[m])@]
                == if m < n + 1 {
                start[ids@[m]@].observed(is_settled(probed(probes@, ids@[m]@)), now@)
            } else {
                start[ids@[m]@]
            } by {
                if m < n {
                    assert(order[m].id@ != order[n as int].id@);
                } else if m > n {
                    assert(order[n as int].id@ != order[m].id@);
                }
            }
        }
        if let Some(res) = res {
            out.push(res);
        }
        n += 1;
    }
    proof {
        lemma_all_listed(start, order);
        assert forall|id: Seq<char>| #[trigger]
            start.dom().contains(id) implies state.pool@[id] == start[id].observed(
            is_settled(probed(probes@, id)),
            now@,
        ) by {
            let m = choose|m: int| 0 <= m < order.len() && (#[trigger] order[m]).id@ == id;
            assert(ids@[m]@ == id);
        }
        assert forall|i: int, j: int| 0 <= i < j < out@.len() implies (#[trigger] out@[i]).id@ != (
        #[trigger] out@[j]).id@ && text_le(out@[i].root@, out@[j].root@) by {
            assert(order[i].id@ != order[j].id@);
        }
    }
    WorkspaceList { workspaces: out }
}

/// A list with as many different workspaces as the pool leaves none out.
proof fn lemma_all_listed(pool: Map<Seq<char>, Workspace>, order: Seq<&Workspace>)
    requires
        pool.dom().finite(),
        order.len() == pool.len(),
        forall|m: int| 0 <= m < order.len() ==> pool.dom().contains((#[trigger] order[m]).id@),
        forall|i: int, j: int|
            0 <= i < j < order.len() ==> (#[trigger] order[i]).id@ != (#[trigger] order[j]).id@,
    ensures
        forall|id: Seq<char>| #[trigger]
            pool.dom().contains(id) ==> exists|m: int|
                0 <= m < order.len() && (#[trigger] order[m]).id@ == id,
{
    let ids = order.map_values(|w: &Workspace| w.id@);
    assert(ids.no_duplicates()) by {
        assert forall|i: int, j: int| 0 <= i < ids.len() && 0 <= j < ids.len() && i != j implies
            ids[i] != ids[j] by {
            if i < j {
                assert(order[i].id@ != order[j].id@);
            } else {
                assert(order[j].id@ != order[i].id@);
            }
        }
    }
    ids.unique_seq_to_set();
    let set = ids.to_set();
    assert(set.subset_of(pool.dom())) by {
        assert forall|id: Seq<char>| set.contains(id) implies pool.dom().contains(id) by {
            let m = choose|m: int| 0 <= m < ids.len() && ids[m] == id;
            assert(order[m].id@ == id);
        }
    }
    vstd::set_lib::lemma_subset_equality(set, pool.dom());
    assert forall|id: Seq<char>| #[trigger] pool.dom().contains(id) implies exists|m: int|
        0 <= m < order.len() && (#[trigger] order[m]).id@ == id by {
        assert(set.contains(id));
        let m = choose|m: int| 0 <= m < ids.len() && ids[m] == id;
        assert(order[m].id@ == id);
    }
}

/// Fetches one workspace, with its current readiness. This is the poll target after a 202.
pub fn get(state: &mut AppState, id: &str, index: &Option<IndexState>, now: Duration) -> (r:
    ApiResult<WorkspaceResource>)
    requires
        old(state).wf(),
    ensures
        final(state).wf(),
        final(state).pool.settings() == old(state).pool.settings(),
        if old(state).pool@.dom().contains(id@) {
            let ws = old(state).pool@[id@].touched(now@).observed(is_settled(*index), now@);
            &&& final(state).pool@ == old(state).pool@.insert(id@, ws)
            &&& r matches Ok(res) && describes(
                res,
                ws,
                *index,
                old(state).pool.settings(),
                now@,
            )
        } else {
            &&& final(state).pool@ == old(state).pool@
            &&& r matches Err(e) && is_unknown_workspace(e, id@)
        },
{
    if let Err(e) = workspace(state, id, now) {
        return Err(e);
    }
    let ghost touched = state.pool@;
    match state.pool.resource(id, index, now) {
        Some(res) => {
            assert(state.pool@ =~= old(state).pool@.insert(
                id@,
                touched[id@].observed(is_settled(*index), now@),
            ));
            Ok(res)
        },
        None => Err(unknown_workspace(id)),
    }
}

/// Evicts a workspace now. Its index, watcher threads and database handles are the caller's to
/// release.
pub fn delete(state: &mut AppState, id: &str) -> (r: ApiResult<u16>)
    requires
        old(state).wf(),
    ensures
        final(state).wf(),
        final(state).pool.settings() == old(state).pool.settings(),
        final(state).pool@ == old(state).pool@.remove(id@),
        match r {
            Ok(status) => old(state).pool@.dom().contains(id@) && status == NO_CONTENT && status
                == 204,
            Err(e) => !old(state).pool@.dom().contains(id@) && e is NotFound && e.message()
                == "no such workspace"@,
        },
{
    match state.pool.remove(id) {
        Some(_) => Ok(NO_CONTENT),
        None => Err(ApiError::NotFound("no such workspace".to_owned())),
    }
}

/// What a create request is answered: 200 for a workspace that was there, 201 for a new one that
/// reached the stage asked for, 202 for a new one that did not, and for one that another request
/// created meanwhile 201 where it is ready and 200 where it is not.
pub proof fn what_a_create_request_is_answered(status: WorkspaceStatus)
    ensures
        created_status(None, status) == 200,
        created_status(Some(Created::New { stage_reached: true }), status) == 201,
        created_status(Some(Created::New { stage_reached: false }), status) == 202,
        status is Ready ==> created_status(Some(Created::Existing), status) == 201,
        status !is Ready ==> created_status(Some(Created::Existing), status) == 200,
{
}

/// What is seen of a workspace is what the first probe with its id says, and nothing where no probe
/// has its id.
pub proof fn probes_are_read_by_their_id(probes: Seq<IndexProbe>, id: Seq<char>, k: int)
    ensures
        0 <= k < probes.len() && probes[k].id@ == id && (forall|j: int|
            0 <= j < k ==> (#[trigger] probes[j]).id@ != id) ==> probed(probes, id)
            == probes[k].index,
        (forall|j: int| 0 <= j < probes.len() ==> (#[trigger] probes[j]).id@ != id) ==> probed(
            probes,
            id,
        ) is None,
    decreases probes.len(),
{
    if probes.len() > 0 && probes[0].id@ != id {
        let t = probes.skip(1);
        probes_are_read_by_their_id(t, id, k - 1);
        if 0 <= k < probes.len() && probes[k].id@ == id && (forall|j: int|
            0 <= j < k ==> (#[trigger] probes[j]).id@ != id) {
            assert(t[k - 1] == probes[k]);
            assert forall|j: int| 0 <= j < k - 1 implies (#[trigger] t[j]).id@ != id by {
                assert(t[j] == probes[j + 1]);
            }
        }
        if forall|j: int| 0 <= j < probes.len() ==> (#[trigger] probes[j]).id@ != id {
            assert forall|j: int| 0 <= j < t.len() implies (#[trigger] t[j]).id@ != id by {
                assert(t[j] == probes[j + 1]);
            }
        }
    }
}

/// A listed workspace is one of the pool's, described by its own probe and its own cost.
pub proof fn listed_workspaces_are_their_own(
    res: WorkspaceResource,
    pool: Map<Seq<char>, Workspace>,
    probes: Seq<IndexProbe>,
    config: Config,
    now: nat,
)
    requires
        listed(res, pool, probes, config, now),
    ensures
        pool.dom().contains(res.id@),
        res.id@ == pool[res.id@].id@,
        res.root@ == pool[res.id@].root.display@,
        res.options == pool[res.id@].options,
        res.created_at == pool[res.id@].created_at,
        res.progress().shows(probed(probes, res.id@)),
        ({
            let index = probed(probes, res.id@);
            let seen = pool[res.id@].observed(is_settled(index), now);
            describes(res, seen, index, config, now)
        }),
{
}

/// A workspace that is deleted is gone, is answered 204, and no other goes with it; one that is not
/// there is answered 404 and nothing changes.
pub proof fn deleted_workspaces_are_gone(id: &str, other: Seq<char>)
    ensures
        forall|state: &mut AppState, r: ApiResult<u16>| #[trigger]
            call_ensures(delete, (state, id), r) ==> {
                &&& state.pool@.dom().contains(id@) ==> r == Ok::<u16, ApiError>(204)
                &&& !state.pool@.dom().contains(id@) ==> (r matches Err(e) && e.status_code()
                    == 404)
                &&& !final(state).pool@.dom().contains(id@)
                &&& other != id@ ==> (final(state).pool@.dom().contains(other)
                    <==> state.pool@.dom().contains(other))
                &&& other != id@ && state.pool@.dom().contains(other) ==> final(state).pool@[other]
                    == state.pool@[other]
            },
{
}

/// A workspace that is fetched is described as it is and counts as used; one that is not there is
/// answered 404 and nothing changes.
pub proof fn fetched_workspaces_are_described(id: &str, index: &Option<IndexState>, now: Duration)
    ensures
        forall|state: &mut AppState, r: ApiResult<WorkspaceResource>| #[trigger]
            call_ensures(get, (state, id, index, now), r) ==> {
                &&& r is Ok <==> state.pool@.dom().contains(id@)
                &&& r matches Ok(res) ==> {
                    &&& res.id@ == state.pool@[id@].id@
                    &&& res.root@ == state.pool@[id@].root.display@
                    &&& res.options == state.pool@[id@].options
                    &&& res.status is Initialising <==> *index is None
                    &&& final(state).pool@[id@].is_still(state.pool@[id@])
                }
                &&& r matches Err(e) ==> e.status_code() == 404 && final(state).pool@
                    == state.pool@
            },
{
}

/// A create request is answered by what it came to and by the workspace it is about.
pub proof fn create_requests_are_answered_by_what_they_came_to(
    ws: Workspace,
    created: Option<Created>,
    index: &Option<IndexState>,
    now: Duration,
)
    ensures
        forall|state: &mut AppState, r: (u16, WorkspaceResource)| #[trigger]
            call_ensures(create, (state, ws, created, index, now), r) ==> {
                &&& created is None ==> r.0 == 200
                &&& created == Some(Created::New { stage_reached: true }) ==> r.0 == 201
                &&& created == Some(Created::New { stage_reached: false }) ==> r.0 == 202
                &&& created == Some(Created::Existing) ==> r.0 == (if r.1.status is Ready {
                    201u16
                } else {
                    200u16
                })
                &&& !state.pool@.dom().contains(ws.id@) ==> r.1.id@ == ws.id@ && r.1.root@
                    == ws.root.display@ && final(state).pool@ == state.pool@
            },
{
}

/// Whatever the server holds, a create request for a root that is found and allowed gets the
/// workspace of that root where there is one, and a plan to build one where there is none; any
/// other request is refused and changes nothing.
pub proof fn create_requests_find_or_build(
    req: &CreateWorkspace,
    found: FoundRoot,
    allowed: &Vec<Option<String>>,
    now: Duration,
    machine: &Machine,
)
    ensures
        forall|state: &mut AppState, r: ApiResult<CreateStep>| #[trigger]
            call_ensures(
                plan_create,
                (state, req, &RootProbe::Found(found), allowed, now, machine),
                r,
            ) ==> {
                let id = stable_id_text(identity_text(found.file_id, found.canonical@));
                &&& r is Ok <==> trimmed(req.root@).len() > 0 && found.is_dir && found.has_parent
                    && vstd::utf8::encode_utf8(found.canonical@).len() <= 3584 && is_allowed(
                    state.pool.settings(),
                    allowed@,
                    found.canonical@,
                    machine.separator,
                )
                &&& r matches Ok(CreateStep::Existing(ws)) ==> state.pool@.dom().contains(id)
                    && ws.is_still(state.pool@[id])
                &&& r matches Ok(CreateStep::Build { root, plan }) ==> !state.pool@.dom().contains(
                    id,
                ) && final(state).pool@ == state.pool@ && plan.id@ == id && plan.base_path@
                    == found.canonical@
                &&& r is Err ==> final(state).pool@ == state.pool@
            },
{
}

/// The listed workspaces come in the order of their roots, each once, as many as there are; listing
/// takes none away.
pub proof fn listings_are_complete_and_in_order(
    probes: &Vec<IndexProbe>,
    now: Duration,
    i: int,
    j: int,
)
    ensures
        forall|state: &mut AppState, r: WorkspaceList| #[trigger]
            call_ensures(list, (state, probes, now), r) ==> {
                &&& r.workspaces@.len() == state.pool@.len()
                &&& final(state).pool@.dom() == state.pool@.dom()
                &&& 0 <= i < j < r.workspaces@.len() ==> r.workspaces@[i].id@
                    != r.workspaces@[j].id@ && text_le(
                    r.workspaces@[i].root@,
                    r.workspaces@[j].root@,
                )
                &&& 0 <= i < r.workspaces@.len() ==> state.pool@.dom().contains(
                    r.workspaces@[i].id@,
                )
            },
{
    assert forall|state: &mut AppState, r: WorkspaceList| #[trigger]
        call_ensures(list, (state, probes, now), r) implies (0 <= i < r.workspaces@.len()
        ==> state.pool@.dom().contains(r.workspaces@[i].id@)) && (0 <= i < j < r.workspaces@.len()
        ==> r.workspaces@[i].id@ != r.workspaces@[j].id@ && text_le(
        r.workspaces@[i].root@,
        r.workspaces@[j].root@,
    )) by {
        if 0 <= i < r.workspaces@.len() {
            assert(listed(
                r.workspaces@[i],
                state.pool@,
                probes@,
                state.pool.settings(),
                now@,
            ));
        }
    }
}

} // verus!
