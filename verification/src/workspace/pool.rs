//! The live workspaces, one for each identity.

use crate::clock::Duration;
use crate::config::{Config, Machine};
use crate::dto::workspace::WorkspaceResource;
use crate::error::{reported, ApiError, ApiResult, EngineError};
use crate::paths::{
    beneath, canonicalize_root, containment_is_by_component, is_beneath, is_root, presented,
    root_refused, stable_id, stable_id_text, CanonicalRoot, FoundRoot, RootProbe,
};
use crate::text::{
    at_most, same, text_le, text_order_is_total, text_order_is_transitive, texts, trimmed,
};
use crate::workspace::{
    has_reached, is_due, is_settled, or_default, use_ends_idleness, Birth, BuildOutcome, BuildPlan,
    CreateWorkspace, IndexState, Workspace,
};
use vstd::prelude::*;

verus! {

/// Whether a create call built a new index or handed back an existing one.
#[derive(Debug, Clone, Copy, PartialEq, Eq, Structural)]
pub enum Created {
    New {
        /// Whether it reached the stage it was asked to, inside the block budget.
        stage_reached: bool,
    },
    Existing,
}

/// What a create call comes to once its root is known.
#[derive(Debug)]
pub enum CreateStart {
    /// The root has a workspace, which is marked as in use.
    Existing(Workspace),
    /// An index is to be built.
    Build(BuildPlan),
}

/// The live workspaces, keyed by the stable id derived from filesystem identity, so two spellings
/// of one directory resolve to one entry without a second lookup table. The view is the map from
/// id to workspace.
pub struct Pool {
    entries: Vec<Workspace>,
    config: Config,
}

/// The workspaces by id.
pub open spec fn by_id(entries: Seq<Workspace>) -> Map<Seq<char>, Workspace>
    decreases entries.len(),
{
    if entries.len() == 0 {
        Map::empty()
    } else {
        by_id(entries.drop_last()).insert(entries.last().id@, entries.last())
    }
}

/// Whether no two workspaces share an id.
pub open spec fn distinct_ids(entries: Seq<Workspace>) -> bool {
    forall|i: int, j: int|
        0 <= i < j < entries.len() ==> (#[trigger] entries[i]).id@ != (#[trigger] entries[j]).id@
}

/// With distinct ids the map holds every workspace under its id, and nothing else.
proof fn lemma_by_id(entries: Seq<Workspace>)
    requires
        distinct_ids(entries),
    ensures
        forall|i: int|
            0 <= i < entries.len() ==> by_id(entries).dom().contains((#[trigger] entries[i]).id@)
                && by_id(entries)[entries[i].id@] == entries[i],
        forall|id: Seq<char>| #[trigger]
            by_id(entries).dom().contains(id) ==> exists|i: int|
                0 <= i < entries.len() && (#[trigger] entries[i]).id@ == id,
        by_id(entries).dom().finite(),
        by_id(entries).len() == entries.len(),
    decreases entries.len(),
{
    if entries.len() > 0 {
        let t = entries.drop_last();
        let n = entries.len() - 1;
        lemma_by_id(t);
        assert forall|i: int| 0 <= i < entries.len() implies by_id(entries).dom().contains(
            (#[trigger] entries[i]).id@,
        ) && by_id(entries)[entries[i].id@] == entries[i] by {
            if i < n {
                assert(t[i] == entries[i]);
                assert(entries[i].id@ != entries[n].id@);
            }
        }
        assert forall|id: Seq<char>| #[trigger]
            by_id(entries).dom().contains(id) implies exists|i: int|
            0 <= i < entries.len() && (#[trigger] entries[i]).id@ == id by {
            if id == entries[n].id@ {
            } else {
                let i = choose|i: int| 0 <= i < t.len() && (#[trigger] t[i]).id@ == id;
                assert(entries[i].id@ == id);
            }
        }
        if by_id(t).dom().contains(entries[n].id@) {
            let i = choose|i: int| 0 <= i < t.len() && (#[trigger] t[i]).id@ == entries[n].id@;
            assert(entries[i].id@ != entries[n].id@);
        }
    }
}

/// Replacing a workspace by another of the same id replaces it in the map.
proof fn lemma_update(entries: Seq<Workspace>, i: int, w: Workspace)
    requires
        distinct_ids(entries),
        0 <= i < entries.len(),
        w.id@ == entries[i].id@,
    ensures
        distinct_ids(entries.update(i, w)),
        by_id(entries.update(i, w)) == by_id(entries).insert(w.id@, w),
{
    let u = entries.update(i, w);
    assert forall|a: int, b: int| 0 <= a < b < u.len() implies (#[trigger] u[a]).id@ != (
    #[trigger] u[b]).id@ by {
        assert(entries[a].id@ != entries[b].id@);
    }
    lemma_by_id(entries);
    lemma_by_id(u);
    let l = by_id(u);
    let r = by_id(entries).insert(w.id@, w);
    assert forall|id: Seq<char>| l.dom().contains(id) <==> r.dom().contains(id) by {
        if l.dom().contains(id) {
            let k = choose|k: int| 0 <= k < u.len() && (#[trigger] u[k]).id@ == id;
            assert(entries[k].id@ == id);
        }
        if r.dom().contains(id) && id != w.id@ {
            let k = choose|k: int| 0 <= k < entries.len() && (#[trigger] entries[k]).id@ == id;
            assert(u[k].id@ == id);
        }
        assert(u[i].id@ == w.id@);
    }
    assert forall|id: Seq<char>| l.dom().contains(id) implies l[id] == r[id] by {
        let k = choose|k: int| 0 <= k < u.len() && (#[trigger] u[k]).id@ == id;
        assert(entries[k].id@ == id);
    }
    assert(l =~= r);
}

/// Taking a workspace out takes it out of the map.
proof fn lemma_remove(entries: Seq<Workspace>, i: int)
    requires
        distinct_ids(entries),
        0 <= i < entries.len(),
    ensures
        distinct_ids(entries.remove(i)),
        by_id(entries.remove(i)) == by_id(entries).remove(entries[i].id@),
{
    let u = entries.remove(i);
    let gone = entries[i].id@;
    assert forall|a: int, b: int| 0 <= a < b < u.len() implies (#[trigger] u[a]).id@ != (
    #[trigger] u[b]).id@ by {
        let c = if a < i {
            a
        } else {
            a + 1
        };
        let d = if b < i {
            b
        } else {
            b + 1
        };
        assert(entries[c].id@ != entries[d].id@);
    }
    lemma_by_id(entries);
    lemma_by_id(u);
    let l = by_id(u);
    let r = by_id(entries).remove(gone);
    assert forall|id: Seq<char>| l.dom().contains(id) <==> r.dom().contains(id) by {
        if l.dom().contains(id) {
            let k = choose|k: int| 0 <= k < u.len() && (#[trigger] u[k]).id@ == id;
            let c = if k < i {
                k
            } else {
                k + 1
            };
            assert(entries[c].id@ == id);
            if c < i {
                assert(entries[c].id@ != entries[i].id@);
            } else {
                assert(entries[i].id@ != entries[c].id@);
            }
        }
        if r.dom().contains(id) {
            let c = choose|c: int| 0 <= c < entries.len() && (#[trigger] entries[c]).id@ == id;
            let k = if c < i {
                c
            } else {
                c - 1
            };
            assert(u[k].id@ == id);
        }
    }
    assert forall|id: Seq<char>| l.dom().contains(id) implies l[id] == r[id] by {
        let k = choose|k: int| 0 <= k < u.len() && (#[trigger] u[k]).id@ == id;
        let c = if k < i {
            k
        } else {
            k + 1
        };
        assert(entries[c].id@ == id);
        assert(r.dom().contains(id));
    }
    assert(l =~= r);
}

impl View for Pool {
    type V = Map<Seq<char>, Workspace>;

    closed spec fn view(&self) -> Map<Seq<char>, Workspace> {
        by_id(self.entries@)
    }
}

impl Pool {
    /// The configuration its workspaces are built with.
    pub closed spec fn settings(self) -> Config {
        self.config
    }

    /// No two entries share an id, and every id is the one that its root's identity gives.
    pub closed spec fn wf(self) -> bool {
        &&& distinct_ids(self.entries@)
        &&& forall|i: int| 0 <= i < self.entries@.len() ==> (#[trigger] self.entries@[i]).wf()
    }

    /// An empty pool.
    pub fn new(config: Config) -> (r: Self)
        ensures
            r.wf(),
            r@ == Map::<Seq<char>, Workspace>::empty(),
            r.settings() == config,
    {
        Pool { entries: Vec::new(), config }
    }

    /// The configuration its workspaces are built with.
    pub fn config(&self) -> (r: &Config)
        ensures
            *r == self.settings(),
    {
        &self.config
    }

    /// How many workspaces are live.
    pub fn len(&self) -> (r: usize)
        requires
            self.wf(),
        ensures
            r == self@.len(),
    {
        proof {
            lemma_by_id(self.entries@);
        }
        self.entries.len()
    }

    pub fn is_empty(&self) -> (r: bool)
        requires
            self.wf(),
        ensures
            r == (self@.len() == 0),
    {
        self.len() == 0
    }

    /// Where the workspace with this id stands.
    fn find(&self, id: &str) -> (r: Option<usize>)
        requires
            self.wf(),
        ensures
            match r {
                Some(i) => i < self.entries@.len() && self.entries@[i as int].id@ == id@
                    && self@.dom().contains(id@) && self@[id@] == self.entries@[i as int],
                None => !self@.dom().contains(id@),
            },
    {
        proof {
            lemma_by_id(self.entries@);
        }
        let mut i: usize = 0;
        while i < self.entries.len()
            invariant
                i <= self.entries@.len(),
                distinct_ids(self.entries@),
                forall|k: int| 0 <= k < i ==> (#[trigger] self.entries@[k]).id@ != id@,
                forall|k: int|
                    0 <= k < self.entries@.len() ==> self@.dom().contains(
                        (#[trigger] self.entries@[k]).id@,
                    ) && self@[self.entries@[k].id@] == self.entries@[k],
            decreases self.entries@.len() - i,
        {
            if same(self.entries[i].id.as_str(), id) {
                return Some(i);
            }
            i += 1;
        }
        None
    }

    /// The workspace with this id, marked as in use.
    pub fn get(&mut self, id: &str, now: Duration) -> (r: Option<&Workspace>)
        requires
            old(self).wf(),
        ensures
            final(self).wf(),
            final(self).settings() == old(self).settings(),
            if old(self)@.dom().contains(id@) {
                &&& r == Some(&old(self)@[id@].touched(now@))
                &&& final(self)@ == old(self)@.insert(id@, old(self)@[id@].touched(now@))
            } else {
                &&& r is None
                &&& final(self)@ == old(self)@
            },
    {
        match self.find(id) {
            Some(i) => {
                let ghost before = self.entries@;
                proof {
                    lemma_update(before, i as int, before[i as int].touched(now@));
                }
                self.entries[i].touch(now);
                assert(self.entries@ =~= before.update(i as int, before[i as int].touched(now@)));
                Some(&self.entries[i])
            },
            None => None,
        }
    }

    /// The live workspaces, in the order of their displayed roots.
    pub fn list(&self) -> (r: Vec<&Workspace>)
        requires
            self.wf(),
        ensures
            self@.dom().finite(),
            r@.len() == self@.len(),
            forall|i: int|
                0 <= i < r@.len() ==> self@.dom().contains((#[trigger] r@[i]).id@)
                    && self@[r@[i].id@] == *r@[i],
            forall|i: int, j: int|
                0 <= i < j < r@.len() ==> (#[trigger] r@[i]).id@ != (#[trigger] r@[j]).id@
                    && text_le(r@[i].root.display@, r@[j].root.display@),
    {
        let mut out: Vec<&Workspace> = Vec::new();
        let mut n: usize = 0;
        proof {
            lemma_by_id(self.entries@);
        }
        while n < self.entries.len()
            invariant
                n <= self.entries@.len(),
                self.wf(),
                out@.len() == n,
                in_order(out@),
                taken_from(out@, self.entries@.take(n as int)),
            decreases self.entries@.len() - n,
        {
            let ws = &self.entries[n];
            let mut at: usize = 0;
            while at < out.len() && at_most(out[at].root.display.as_str(), ws.root.display.as_str())
                invariant
                    at <= out@.len(),
                    forall|k: int|
                        0 <= k < at ==> text_le(
                            (#[trigger] out@[k]).root.display@,
                            ws.root.display@,
                        ),
                decreases out@.len() - at,
            {
                at += 1;
            }
            let ghost before = out@;
            proof {
                lemma_insert_in_order(before, at as int, ws);
                lemma_insert_taken(before, self.entries@.take(n as int), at as int, ws);
                assert(self.entries@.take(n + 1) =~= self.entries@.take(n as int).push(*ws));
            }
            out.insert(at, ws);
            assert(out@ =~= before.insert(at as int, ws));
            n += 1;
        }
        proof {
            assert(self.entries@.take(n as int) =~= self.entries@);
            lemma_taken_ids_differ(out@, self.entries@);
            assert forall|i: int| 0 <= i < out@.len() implies self@.dom().contains(
                (#[trigger] out@[i]).id@,
            ) && self@[out@[i].id@] == *out@[i] by {
                let k = choose|k: int|
                    0 <= k < self.entries@.len() && self.entries@[k] == *out@[i];
                assert(self.entries@[k].id@ == out@[i].id@);
            }
        }
        out
    }

    /// Takes a workspace out. Its index, watcher threads and database handles are the caller's to
    /// release.
    pub fn remove(&mut self, id: &str) -> (r: Option<Workspace>)
        requires
            old(self).wf(),
        ensures
            final(self).wf(),
            final(self).settings() == old(self).settings(),
            final(self)@ == old(self)@.remove(id@),
            if old(self)@.dom().contains(id@) {
                r == Some(old(self)@[id@])
            } else {
                r is None
            },
    {
        match self.find(id) {
            Some(i) => {
                proof {
                    lemma_remove(self.entries@, i as int);
                }
                Some(self.entries.remove(i))
            },
            None => {
                assert(self@.remove(id@) =~= self@);
                None
            },
        }
    }

    /// Validates a requested root and enforces the allowlist, without building anything.
    ///
    /// `probe` is what the filesystem answered about the root; `allowed` holds the canonical paths
    /// of the configured `allowed_roots`, and `None` for those that do not resolve, which allow
    /// nothing. An allowed root allows itself and what lies in it.
    pub fn resolve_root(
        &self,
        root: &str,
        probe: &RootProbe,
        allowed: &Vec<Option<String>>,
        sep: char,
    ) -> (r: ApiResult<CanonicalRoot>)
        ensures
            match r {
                Ok(resolved) => trimmed(root@).len() > 0 && (*probe matches RootProbe::Found(found)
                    && is_root(found) && resolved.describes(found) && is_allowed(
                    self.settings(),
                    allowed@,
                    found.canonical@,
                    sep,
                )),
                Err(e) => create_refused(root@, *probe, self.settings(), allowed@, sep, e),
            },
    {
        let resolved = match canonicalize_root(root, probe) {
            Ok(resolved) => resolved,
            Err(e) => return Err(e),
        };
        if self.config.workspaces.allowed_roots.len() == 0 {
            return Ok(resolved);
        }
        let mut i: usize = 0;
        while i < allowed.len()
            invariant
                i <= allowed@.len(),
                forall|k: int|
                    0 <= k < i ==> !allows(#[trigger] allowed@[k], resolved.canonical@, sep),
                *probe matches RootProbe::Found(found) && is_root(found) && resolved.describes(
                    found,
                ),
                trimmed(root@).len() > 0,
            decreases allowed@.len() - i,
        {
            if let Some(permitted) = &allowed[i] {
                if is_beneath(resolved.canonical.as_str(), permitted.as_str(), sep) {
                    assert(allows(allowed@[i as int], resolved.canonical@, sep));
                    return Ok(resolved);
                }
            }
            i += 1;
        }
        let mut text = "root ".to_owned();
        text.append(resolved.display.as_str());
        text.append(" is not under any configured allowed_roots entry");
        Err(ApiError::Forbidden(text))
    }

    /// Existing workspace for this root, if any, marked as in use. Lets a handler avoid the
    /// expensive path entirely when the index is already warm.
    pub fn existing(&mut self, root: &CanonicalRoot, now: Duration) -> (r: Option<&Workspace>)
        requires
            old(self).wf(),
        ensures
            final(self).wf(),
            final(self).settings() == old(self).settings(),
            ({
                let id = stable_id_text(root.identity@);
                if old(self)@.dom().contains(id) {
                    &&& r == Some(&old(self)@[id].touched(now@))
                    &&& final(self)@ == old(self)@.insert(id, old(self)@[id].touched(now@))
                } else {
                    &&& r is None
                    &&& final(self)@ == old(self)@
                }
            }),
    {
        let id = stable_id(root.identity.as_str());
        self.get(id.as_str(), now)
    }

    /// The workspace of a root, marked as in use, or what is to be built for a root that has none,
    /// blocking for at most the budget the request asks for or, failing that, the configured one.
    pub fn start_create(
        &mut self,
        root: &CanonicalRoot,
        req: &CreateWorkspace,
        now: Duration,
        machine: &Machine,
    ) -> (r: CreateStart)
        requires
            old(self).wf(),
        ensures
            final(self).wf(),
            final(self).settings() == old(self).settings(),
            ({
                let id = stable_id_text(root.identity@);
                if old(self)@.dom().contains(id) {
                    &&& r == CreateStart::Existing(old(self)@[id].touched(now@))
                    &&& final(self)@ == old(self)@.insert(id, old(self)@[id].touched(now@))
                } else {
                    &&& final(self)@ == old(self)@
                    &&& r matches CreateStart::Build(plan) && {
                        &&& plan.carries_out(
                            *req,
                            old(self).settings(),
                            root.canonical@,
                            root.identity@,
                            *machine,
                        )
                        &&& plan.budget@ == or_default(
                            req.wait_for_index_ms,
                            old(self).settings().workspaces.create_block_ms,
                        ) * 1_000_000
                    }
                }
            }),
    {
        if let Some(ws) = self.existing(root, now) {
            return CreateStart::Existing(ws.copy());
        }
        let budget = Duration::from_millis(
            match req.wait_for_index_ms {
                Some(ms) => ms,
                None => self.config.workspaces.create_block_ms,
            },
        );
        CreateStart::Build(Workspace::plan(root, req, &self.config, budget, machine))
    }

    /// Installs what was built for a root.
    ///
    /// A concurrent caller that won the race is honoured rather than overwritten, so two
    /// simultaneous creates for one root cannot leave two indexes behind: where the answer is
    /// `Existing`, the caller discards what it built.
    pub fn create_blocking(
        &mut self,
        root: CanonicalRoot,
        req: &CreateWorkspace,
        outcome: BuildOutcome,
        birth: Birth,
        now: Duration,
        machine: &Machine,
    ) -> (r: ApiResult<(Workspace, Created)>)
        requires
            old(self).wf(),
        ensures
            final(self).wf(),
            final(self).settings() == old(self).settings(),
            match outcome {
                BuildOutcome::NoDatabase(why) => final(self)@ == old(self)@ && (r matches Err(e)
                    && e is Internal && e.message()
                    == "cannot create database directory for workspace: "@ + why@),
                BuildOutcome::Failed(err) => final(self)@ == old(self)@ && (r matches Err(e) && e
                    == reported(err)),
                BuildOutcome::Built { index, elapsed } => {
                    let id = stable_id_text(root.identity@);
                    if old(self)@.dom().contains(id) {
                        &&& final(self)@ == old(self)@
                        &&& r matches Ok((ws, created)) && ws == old(self)@[id] && created
                            == Created::Existing
                    } else {
                        r matches Ok((ws, created)) && {
                            let built = Workspace { last_touched: 0, ..ws };
                            &&& built.is_built(
                                root,
                                *req,
                                old(self).settings(),
                                index,
                                elapsed@,
                                birth,
                                *machine,
                            )
                            &&& ws == built.touched(now@)
                            &&& final(self)@ == old(self)@.insert(id, ws)
                            &&& created == (Created::New {
                                stage_reached: has_reached(req.wait_for, index),
                            })
                        }
                    }
                },
            },
    {
        let stage_reached = match &outcome {
            BuildOutcome::Built { index, elapsed: _ } => Workspace::stage_reached(
                req.wait_for,
                index,
            ),
            _ => false,
        };
        let mut ws = match Workspace::create(root, req, &self.config, outcome, birth, machine) {
            Ok(ws) => ws,
            Err(e) => return Err(e),
        };
        if let Some(i) = self.find(ws.id.as_str()) {
            // Lost the race.
            return Ok((self.entries[i].copy(), Created::Existing));
        }
        let ghost before = self.entries@;
        let ghost built = ws;
        ws.touch(now);
        proof {
            lemma_by_id(before);
            assert(before.push(ws).drop_last() =~= before);
            assert forall|a: int, b: int| 0 <= a < b < before.push(ws).len() implies (
            #[trigger] before.push(ws)[a]).id@ != (#[trigger] before.push(ws)[b]).id@ by {
                if b == before.len() {
                    assert(before[a].id@ != ws.id@);
                }
            }
            assert(built == (Workspace { last_touched: 0, ..ws }));
        }
        let held = ws.copy();
        self.entries.push(ws);
        Ok((held, Created::New { stage_reached }))
    }

    /// Where the pool keeps a workspace that a handler holds a copy of: the entry with the same id
    /// and the same birth.
    fn find_held(&self, held: &Workspace) -> (r: Option<usize>)
        requires
            self.wf(),
        ensures
            match r {
                Some(i) => i < self.entries@.len() && self.entries@[i as int].id@ == held.id@
                    && keeps(self@, *held) && self@[held.id@] == self.entries@[i as int],
                None => !keeps(self@, *held),
            },
    {
        match self.find(held.id.as_str()) {
            Some(i) => if self.entries[i].origin == held.origin {
                Some(i)
            } else {
                None
            },
            None => None,
        }
    }

    /// Describes a workspace that a handler holds, looking at its index on the way. One that has
    /// left the pool meanwhile is described as the handler knew it.
    pub fn describe(&mut self, held: Workspace, index: &Option<IndexState>, now: Duration) -> (r:
        WorkspaceResource)
        requires
            old(self).wf(),
        ensures
            final(self).wf(),
            final(self).settings() == old(self).settings(),
            ({
                let ws = current(old(self)@, held).observed(is_settled(*index), now@);
                &&& final(self)@ == put_back(old(self)@, held, ws)
                &&& describes(r, ws, *index, old(self).settings(), now@)
            }),
    {
        match self.find_held(&held) {
            Some(i) => {
                let ghost before = self.entries@;
                let ghost w = before[i as int].observed(is_settled(*index), now@);
                proof {
                    lemma_update(before, i as int, w);
                }
                let res = resource_of(&self.config, &mut self.entries[i], index, now);
                assert(self.entries@ =~= before.update(i as int, w));
                res
            },
            None => {
                let mut gone = held;
                resource_of(&self.config, &mut gone, index, now)
            },
        }
    }

    /// Notes what came of triggering a rescan of a workspace that a handler holds, and hands the
    /// workspace back as it is then.
    pub fn note_rescan(
        &mut self,
        held: Workspace,
        triggered: Result<(), EngineError>,
        unix_now: u64,
    ) -> (r: ApiResult<Workspace>)
        requires
            old(self).wf(),
        ensures
            final(self).wf(),
            final(self).settings() == old(self).settings(),
            match triggered {
                Ok(_) => {
                    let ws = current(old(self)@, held).scanning(unix_now);
                    &&& final(self)@ == put_back(old(self)@, held, ws)
                    &&& r matches Ok(w) && w == ws
                },
                Err(err) => final(self)@ == old(self)@ && (r matches Err(e) && e == reported(err)),
            },
    {
        if let Err(err) = triggered {
            return Err(ApiError::from(err));
        }
        match self.find_held(&held) {
            Some(i) => {
                let ghost before = self.entries@;
                let ghost w = before[i as int].scanning(unix_now);
                proof {
                    lemma_update(before, i as int, w);
                }
                self.entries[i].mark_scan_started(unix_now);
                assert(self.entries@ =~= before.update(i as int, w));
                Ok(self.entries[i].copy())
            },
            None => {
                let mut gone = held;
                gone.mark_scan_started(unix_now);
                Ok(gone)
            },
        }
    }

    /// The automatic rescan interval of a workspace, derived from its measured cost.
    pub fn rescan_interval(
        config: &Config,
        ws: &mut Workspace,
        index: &Option<IndexState>,
        now: Duration,
    ) -> (r: Duration)
        ensures
            *final(ws) == old(ws).observed(is_settled(*index), now@),
            r@ == config.rescan_secs(final(ws).cost(now@)) * 1_000_000_000,
    {
        config.rescan_interval(ws.time_to_ready(index, now))
    }

    /// The idle timeout of a workspace, derived from its measured cost.
    pub fn idle_timeout(
        config: &Config,
        ws: &mut Workspace,
        index: &Option<IndexState>,
        now: Duration,
    ) -> (r: Duration)
        ensures
            *final(ws) == old(ws).observed(is_settled(*index), now@),
            r@ == config.idle_secs(final(ws).cost(now@)) * 1_000_000_000,
    {
        config.idle_timeout(ws.time_to_ready(index, now))
    }

    /// Describes the workspace with this id, looking at its index on the way.
    pub fn resource(&mut self, id: &str, index: &Option<IndexState>, now: Duration) -> (r: Option<
        WorkspaceResource,
    >)
        requires
            old(self).wf(),
        ensures
            final(self).wf(),
            final(self).settings() == old(self).settings(),
            if old(self)@.dom().contains(id@) {
                let ws = old(self)@[id@].observed(is_settled(*index), now@);
                &&& final(self)@ == old(self)@.insert(id@, ws)
                &&& r matches Some(res) && describes(res, ws, *index, old(self).settings(), now@)
            } else {
                &&& r is None
                &&& final(self)@ == old(self)@
            },
    {
        match self.find(id) {
            Some(i) => {
                let ghost before = self.entries@;
                let ghost w = before[i as int].observed(is_settled(*index), now@);
                proof {
                    lemma_update(before, i as int, w);
                }
                let res = resource_of(&self.config, &mut self.entries[i], index, now);
                assert(self.entries@ =~= before.update(i as int, w));
                Some(res)
            },
            None => None,
        }
    }

    /// Whether the workspace with this id may be rescanned; `None` where there is none.
    pub fn may_rescan(&mut self, id: &str, index: &Option<IndexState>, now: Duration) -> (r: Option<
        ApiResult<()>,
    >)
        requires
            old(self).wf(),
        ensures
            final(self).wf(),
            final(self).settings() == old(self).settings(),
            if old(self)@.dom().contains(id@) {
                &&& final(self)@ == old(self)@.insert(
                    id@,
                    old(self)@[id@].observed(is_settled(*index), now@),
                )
                &&& match r {
                    Some(Ok(_)) => is_settled(*index),
                    Some(Err(e)) => !is_settled(*index) && e is NotReady && e.message()
                        == "cannot rescan while scanning or content indexing is active"@,
                    None => false,
                }
            } else {
                &&& r is None
                &&& final(self)@ == old(self)@
            },
    {
        match self.find(id) {
            Some(i) => {
                let ghost before = self.entries@;
                let ghost w = before[i as int].observed(is_settled(*index), now@);
                proof {
                    lemma_update(before, i as int, w);
                }
                let r = self.entries[i].may_rescan(index, now);
                assert(self.entries@ =~= before.update(i as int, w));
                Some(r)
            },
            None => None,
        }
    }

    /// Notes what came of triggering a rescan of the workspace with this id; `None` where there is
    /// none.
    pub fn rescan(&mut self, id: &str, triggered: Result<(), EngineError>, unix_now: u64) -> (r:
        Option<ApiResult<()>>)
        requires
            old(self).wf(),
        ensures
            final(self).wf(),
            final(self).settings() == old(self).settings(),
            if old(self)@.dom().contains(id@) {
                match triggered {
                    Ok(_) => (r matches Some(Ok(_))) && final(self)@ == old(self)@.insert(
                        id@,
                        old(self)@[id@].scanning(unix_now),
                    ),
                    Err(err) => (r matches Some(Err(e)) && e == reported(err)) && final(self)@
                        == old(self)@,
                }
            } else {
                &&& r is None
                &&& final(self)@ == old(self)@
            },
    {
        match self.find(id) {
            Some(i) => {
                let ghost before = self.entries@;
                let ghost w = if triggered is Ok {
                    before[i as int].scanning(unix_now)
                } else {
                    before[i as int]
                };
                proof {
                    lemma_update(before, i as int, w);
                    lemma_by_id(before);
                    assert(by_id(before).insert(id@, before[i as int]) =~= by_id(before));
                }
                let r = self.entries[i].rescan(triggered, unix_now);
                assert(self.entries@ =~= before.update(i as int, w));
                Some(r)
            },
            None => None,
        }
    }

    /// One sweep of the maintenance loop over the workspaces whose indexes were looked at: those
    /// idle for too long are taken out, and those due for a rescan are named. Whatever is not
    /// settled is left alone.
    ///
    /// Both intervals derive from measured cost, so a trivial tree rescans briskly while a large
    /// share does not spend its life rescanning.
    pub fn sweep(&mut self, probes: &Vec<IndexProbe>, now: Duration) -> (r: SweepPlan)
        requires
            old(self).wf(),
        ensures
            final(self).wf(),
            final(self).settings() == old(self).settings(),
            final(self)@ == swept(old(self)@, probes@, now@, old(self).settings()),
            texts(r.evicted@) == evicted(
                old(self)@,
                probes@,
                now@,
                old(self).settings(),
            ),
            texts(r.due@) == due(old(self)@, probes@, now@, old(self).settings()),
    {
        let ghost start = self@;
        let ghost cfg = self.settings();
        let mut evicted_ids: Vec<String> = Vec::new();
        let mut due_ids: Vec<String> = Vec::new();
        let mut n: usize = 0;
        assert(texts(evicted_ids@) =~= seq![]);
        assert(texts(due_ids@) =~= seq![]);
        while n < probes.len()
            invariant
                n <= probes@.len(),
                self.wf(),
                self.settings() == cfg,
                self@ == swept(start, probes@.take(n as int), now@, cfg),
                texts(evicted_ids@) == evicted(
                    start,
                    probes@.take(n as int),
                    now@,
                    cfg,
                ),
                texts(due_ids@) == due(start, probes@.take(n as int), now@, cfg),
            decreases probes@.len() - n,
        {
            let probe = &probes[n];
            let ghost upto = probes@.take(n + 1);
            assert(upto.drop_last() =~= probes@.take(n as int));
            assert(upto.last() == *probe);
            let ghost gone = evicted_ids@;
            let ghost named = due_ids@;
            match self.sweep_one(probe, now) {
                Verdict::Keep => {},
                Verdict::Evict => {
                    evicted_ids.push(probe.id.clone());
                    assert(texts(evicted_ids@) =~= texts(gone).push(
                        probe.id@,
                    ));
                },
                Verdict::Rescan => {
                    due_ids.push(probe.id.clone());
                    assert(texts(due_ids@) =~= texts(named).push(
                        probe.id@,
                    ));
                },
            }
            n += 1;
        }
        assert(probes@.take(n as int) =~= probes@);
        SweepPlan { evicted: evicted_ids, due: due_ids }
    }

    /// Decides over one workspace.
    fn sweep_one(&mut self, probe: &IndexProbe, now: Duration) -> (r: Verdict)
        requires
            old(self).wf(),
        ensures
            final(self).wf(),
            final(self).settings() == old(self).settings(),
            final(self)@ == swept_one(old(self)@, *probe, now@, old(self).settings()),
            r == verdict_in(old(self)@, *probe, now@, old(self).settings()),
    {
        let i = match self.find(probe.id.as_str()) {
            Some(i) => i,
            None => return Verdict::Keep,
        };
        let ghost before = self.entries@;
        let ghost w = before[i as int].observed(is_settled(probe.index), now@);
        proof {
            lemma_update(before, i as int, w);
        }
        let ws = &mut self.entries[i];
        let settled = ws.ready_for_maintenance(&probe.index, now);
        if !settled {
            assert(self.entries@ =~= before.update(i as int, w));
            return Verdict::Keep;
        }
        let timeout = Pool::idle_timeout(&self.config, ws, &probe.index, now);
        if ws.idle_for(now).at_least(timeout) {
            assert(self.entries@ =~= before.update(i as int, w));
            proof {
                lemma_remove(self.entries@, i as int);
                assert(by_id(before).insert(probe.id@, w).remove(probe.id@) =~= by_id(
                    before,
                ).remove(probe.id@));
            }
            let _ = self.entries.remove(i);
            return Verdict::Evict;
        }
        let interval = Pool::rescan_interval(&self.config, ws, &probe.index, now);
        let is_due = ws.periodic_rescan_due(&probe.index, interval, now);
        assert(self.entries@ =~= before.update(i as int, w));
        if is_due {
            Verdict::Rescan
        } else {
            Verdict::Keep
        }
    }

    /// Empties the pool on shutdown, so watcher threads and databases can be closed before the
    /// process exits.
    pub fn shutdown_all(&mut self) -> (r: Vec<Workspace>)
        requires
            old(self).wf(),
        ensures
            final(self).wf(),
            final(self).settings() == old(self).settings(),
            final(self)@ == Map::<Seq<char>, Workspace>::empty(),
            distinct_ids(r@),
            by_id(r@) == old(self)@,
    {
        let mut out: Vec<Workspace> = Vec::new();
        out.append(&mut self.entries);
        out
    }
}

/// Describes a workspace and the intervals its cost gives it, looking at its index on the way.
fn resource_of(
    config: &Config,
    ws: &mut Workspace,
    index: &Option<IndexState>,
    now: Duration,
) -> (r: WorkspaceResource)
    ensures
        *final(ws) == old(ws).observed(is_settled(*index), now@),
        describes(r, *final(ws), *index, *config, now@),
{
    let rescan = Pool::rescan_interval(config, ws, index, now).as_secs();
    let idle = Pool::idle_timeout(config, ws, index, now).as_secs();
    WorkspaceResource::build(ws, index, rescan, idle, now)
}

/// Whether one of the allowed roots allows a canonical path: it resolves, and is the path or holds
/// it.
pub open spec fn allows(permitted: Option<String>, canonical: Seq<char>, sep: char) -> bool {
    permitted matches Some(p) && beneath(canonical, p@, sep)
}

/// Whether a canonical path may be indexed: none is configured, or one of those that are allows
/// it.
pub open spec fn is_allowed(
    config: Config,
    allowed: Seq<Option<String>>,
    canonical: Seq<char>,
    sep: char,
) -> bool {
    config.workspaces.allowed_roots@.len() == 0 || exists|i: int|
        0 <= i < allowed.len() && allows(#[trigger] allowed[i], canonical, sep)
}

/// The refusal of a requested root.
pub open spec fn create_refused(
    root: Seq<char>,
    probe: RootProbe,
    config: Config,
    allowed: Seq<Option<String>>,
    sep: char,
    e: ApiError,
) -> bool {
    if trimmed(root).len() == 0 {
        e is InvalidPath && e.message() == "root must not be empty"@
    } else if probe is Found && is_root(probe->Found_0) {
        &&& !is_allowed(config, allowed, probe->Found_0.canonical@, sep)
        &&& e is Forbidden
        &&& e.message() == "root "@ + presented(probe->Found_0.canonical@)
            + " is not under any configured allowed_roots entry"@
    } else {
        root_refused(trimmed(root), probe, e)
    }
}

/// Whether the pool still keeps the workspace that a handler holds a copy of.
pub open spec fn keeps(pool: Map<Seq<char>, Workspace>, held: Workspace) -> bool {
    pool.dom().contains(held.id@) && pool[held.id@].origin == held.origin
}

/// A workspace that a handler holds, as it is now: as the pool has it, or as the handler knew it
/// where it has left the pool.
pub open spec fn current(pool: Map<Seq<char>, Workspace>, held: Workspace) -> Workspace {
    if keeps(pool, held) {
        pool[held.id@]
    } else {
        held
    }
}

/// The pool once the workspace that a handler holds has become `ws`: nothing changes where it has
/// left the pool.
pub open spec fn put_back(
    pool: Map<Seq<char>, Workspace>,
    held: Workspace,
    ws: Workspace,
) -> Map<Seq<char>, Workspace> {
    if keeps(pool, held) {
        pool.insert(held.id@, ws)
    } else {
        pool
    }
}

/// Whether a resource says of a workspace what it is, and the intervals its cost gives it.
pub open spec fn describes(
    res: WorkspaceResource,
    ws: Workspace,
    index: Option<IndexState>,
    config: Config,
    now: nat,
) -> bool {
    &&& res.shows(ws, index, now)
    &&& res.rescan_interval_secs == config.rescan_secs(ws.cost(now))
    &&& res.idle_timeout_secs == config.idle_secs(ws.cost(now))
}

/// What the engine says of the index of one workspace.
#[derive(Debug, Clone)]
pub struct IndexProbe {
    pub id: String,
    pub index: Option<IndexState>,
}

/// What a sweep decides.
#[derive(Debug, Clone)]
pub struct SweepPlan {
    /// The ids of the workspaces that were taken out, to be torn down.
    pub evicted: Vec<String>,
    /// The ids of the workspaces to rescan.
    pub due: Vec<String>,
}

/// What a sweep decides over one workspace.
#[derive(Debug, Clone, Copy, PartialEq, Eq, Structural)]
pub enum Verdict {
    Keep,
    Evict,
    Rescan,
}

/// What is decided over a workspace whose index has just been looked at: nothing while the index
/// is not settled; then eviction where it has been idle for its timeout; then a rescan where its
/// interval is over.
pub open spec fn verdict(
    ws: Workspace,
    index: Option<IndexState>,
    now: nat,
    config: Config,
) -> Verdict {
    let w = ws.observed(is_settled(index), now);
    if !is_settled(index) {
        Verdict::Keep
    } else if w.idle(now) >= config.idle_secs(w.cost(now)) * 1_000_000_000 {
        Verdict::Evict
    } else if is_due(w.ready_since, w.age_secs(now), config.rescan_secs(w.cost(now)) as u64) {
        Verdict::Rescan
    } else {
        Verdict::Keep
    }
}

/// What is decided over the workspace a probe names, if it is there.
pub open spec fn verdict_in(
    pool: Map<Seq<char>, Workspace>,
    probe: IndexProbe,
    now: nat,
    config: Config,
) -> Verdict {
    if pool.dom().contains(probe.id@) {
        verdict(pool[probe.id@], probe.index, now, config)
    } else {
        Verdict::Keep
    }
}

/// The pool once one workspace has been swept.
pub open spec fn swept_one(
    pool: Map<Seq<char>, Workspace>,
    probe: IndexProbe,
    now: nat,
    config: Config,
) -> Map<Seq<char>, Workspace> {
    let id = probe.id@;
    if !pool.dom().contains(id) {
        pool
    } else if verdict(pool[id], probe.index, now, config) is Evict {
        pool.remove(id)
    } else {
        pool.insert(id, pool[id].observed(is_settled(probe.index), now))
    }
}

/// The pool once all the workspaces probed have been swept, in order.
pub open spec fn swept(
    pool: Map<Seq<char>, Workspace>,
    probes: Seq<IndexProbe>,
    now: nat,
    config: Config,
) -> Map<Seq<char>, Workspace>
    decreases probes.len(),
{
    if probes.len() == 0 {
        pool
    } else {
        swept_one(swept(pool, probes.drop_last(), now, config), probes.last(), now, config)
    }
}

/// The ids of those that are taken out, in the order of the probes.
pub open spec fn evicted(
    pool: Map<Seq<char>, Workspace>,
    probes: Seq<IndexProbe>,
    now: nat,
    config: Config,
) -> Seq<Seq<char>>
    decreases probes.len(),
{
    if probes.len() == 0 {
        seq![]
    } else {
        let before = evicted(pool, probes.drop_last(), now, config);
        let here = swept(pool, probes.drop_last(), now, config);
        if verdict_in(here, probes.last(), now, config) is Evict {
            before.push(probes.last().id@)
        } else {
            before
        }
    }
}

/// The ids of those that are due for a rescan, in the order of the probes.
pub open spec fn due(
    pool: Map<Seq<char>, Workspace>,
    probes: Seq<IndexProbe>,
    now: nat,
    config: Config,
) -> Seq<Seq<char>>
    decreases probes.len(),
{
    if probes.len() == 0 {
        seq![]
    } else {
        let before = due(pool, probes.drop_last(), now, config);
        let here = swept(pool, probes.drop_last(), now, config);
        if verdict_in(here, probes.last(), now, config) is Rescan {
            before.push(probes.last().id@)
        } else {
            before
        }
    }
}

/// Whether the list is in the order of the displayed roots.
spec fn in_order(v: Seq<&Workspace>) -> bool {
    forall|i: int, j: int|
        0 <= i < j < v.len() ==> text_le(
            (#[trigger] v[i]).root.display@,
            (#[trigger] v[j]).root.display@,
        )
}

/// Whether the list holds each of the entries once, in some order.
spec fn taken_from(v: Seq<&Workspace>, entries: Seq<Workspace>) -> bool {
    &&& forall|i: int| 0 <= i < v.len() ==> entries.contains(*#[trigger] v[i])
    &&& distinct_ids(entries) ==> forall|i: int, j: int|
        0 <= i < j < v.len() ==> (#[trigger] v[i]).id@ != (#[trigger] v[j]).id@
}

proof fn lemma_insert_in_order(v: Seq<&Workspace>, at: int, ws: &Workspace)
    requires
        in_order(v),
        0 <= at <= v.len(),
        forall|k: int|
            0 <= k < at ==> text_le((#[trigger] v[k]).root.display@, ws.root.display@),
        at < v.len() ==> !text_le(v[at].root.display@, ws.root.display@),
    ensures
        in_order(v.insert(at, ws)),
{
    let u = v.insert(at, ws);
    assert forall|i: int, j: int| 0 <= i < j < u.len() implies text_le(
        (#[trigger] u[i]).root.display@,
        (#[trigger] u[j]).root.display@,
    ) by {
        let x = if i < at {
            i
        } else {
            i - 1
        };
        let y = if j < at {
            j
        } else {
            j - 1
        };
        if i == at {
            text_order_is_total(v[at].root.display@, ws.root.display@);
            if y > at {
                assert(text_le(v[at].root.display@, v[y].root.display@));
                text_order_is_transitive(
                    ws.root.display@,
                    v[at].root.display@,
                    v[y].root.display@,
                );
            }
        } else if j != at {
            assert(u[i] == v[x] && u[j] == v[y]);
        } else {
            assert(u[i] == v[i]);
        }
    }
}

proof fn lemma_insert_taken(v: Seq<&Workspace>, entries: Seq<Workspace>, at: int, ws: &Workspace)
    requires
        taken_from(v, entries),
        0 <= at <= v.len(),
    ensures
        taken_from(v.insert(at, ws), entries.push(*ws)),
{
    let u = v.insert(at, ws);
    let e = entries.push(*ws);
    assert forall|i: int| 0 <= i < u.len() implies e.contains(*#[trigger] u[i]) by {
        if i == at {
            assert(*u[i] == e[entries.len() as int]);
        } else {
            let x = if i < at {
                i
            } else {
                i - 1
            };
            assert(u[i] == v[x]);
            let k = choose|k: int| 0 <= k < entries.len() && entries[k] == *v[x];
            assert(e[k] == *u[i]);
        }
    }
    if distinct_ids(e) {
        assert(distinct_ids(entries)) by {
            assert forall|i: int, j: int| 0 <= i < j < entries.len() implies (
            #[trigger] entries[i]).id@ != (#[trigger] entries[j]).id@ by {
                assert(e[i].id@ != e[j].id@);
            }
        }
        assert forall|i: int, j: int| 0 <= i < j < u.len() implies (#[trigger] u[i]).id@ != (
        #[trigger] u[j]).id@ by {
            let x = if i < at {
                i
            } else {
                i - 1
            };
            let y = if j < at {
                j
            } else {
                j - 1
            };
            if i == at || j == at {
                let o = if i == at {
                    y
                } else {
                    x
                };
                let k = choose|k: int| 0 <= k < entries.len() && entries[k] == *v[o];
                assert(e[k].id@ != e[entries.len() as int].id@);
            } else {
                assert(v[x].id@ != v[y].id@);
            }
        }
    }
}

proof fn lemma_taken_ids_differ(v: Seq<&Workspace>, entries: Seq<Workspace>)
    requires
        taken_from(v, entries),
        distinct_ids(entries),
    ensures
        forall|i: int, j: int|
            0 <= i < j < v.len() ==> (#[trigger] v[i]).id@ != (#[trigger] v[j]).id@,
{
}

// ---------------------------------------------------------------------------------------------
// What holds of every pool.
// ---------------------------------------------------------------------------------------------

/// Every workspace is kept under its own id, which is the one its root's identity gives; so there
/// is one workspace for one identity.
pub proof fn one_workspace_for_one_identity(pool: Pool, id: Seq<char>)
    requires
        pool.wf(),
        pool@.dom().contains(id),
    ensures
        pool@[id].id@ == id,
        pool@[id].wf(),
        id == stable_id_text(pool@[id].root.identity@),
        pool@[id].identity@ == pool@[id].root.identity@,
{
    lemma_by_id(pool.entries@);
    let i = choose|i: int| 0 <= i < pool.entries@.len() && (#[trigger] pool.entries@[i]).id@ == id;
    assert(pool.entries@[i].wf());
}

/// Two spellings of one directory lead to one entry: where the filesystem supplies a file ID, the
/// roots they resolve to have the same id, however their paths differ.
pub proof fn one_directory_has_one_entry(
    a: CanonicalRoot,
    b: CanonicalRoot,
    found_a: FoundRoot,
    found_b: FoundRoot,
)
    requires
        a.describes(found_a),
        b.describes(found_b),
        found_a.file_id is Some,
        found_a.file_id == found_b.file_id,
    ensures
        stable_id_text(a.identity@) == stable_id_text(b.identity@),
{
}

/// A workspace that was created is found again under every root with its identity, until it is
/// removed, and then under none.
pub proof fn a_created_workspace_is_found_again(
    pool: Map<Seq<char>, Workspace>,
    a: CanonicalRoot,
    b: CanonicalRoot,
    ws: Workspace,
)
    requires
        a.identity@ == b.identity@,
    ensures
        ({
            let created = pool.insert(stable_id_text(a.identity@), ws);
            let id = stable_id_text(b.identity@);
            &&& created.dom().contains(id)
            &&& created[id] == ws
            &&& !created.remove(id).dom().contains(stable_id_text(a.identity@))
        }),
{
}

/// An allowed root allows itself and every directory in it, and none beside it: `/a` does not
/// allow `/ab`.
pub proof fn the_allowlist_goes_by_component(
    config: Config,
    permitted: String,
    next: char,
    rest: Seq<char>,
    sep: char,
)
    requires
        config.workspaces.allowed_roots@.len() > 0,
        permitted@.len() > 0,
        permitted@.last() != sep,
    ensures
        ({
            let allowed = seq![Some(permitted)];
            &&& is_allowed(config, allowed, permitted@, sep)
            &&& is_allowed(config, allowed, permitted@ + seq![sep] + rest, sep)
            &&& next != sep ==> !is_allowed(config, allowed, permitted@ + seq![next] + rest, sep)
        }),
{
    let allowed = seq![Some(permitted)];
    containment_is_by_component(permitted@, next, rest, sep);
    assert(allows(allowed[0], permitted@, sep));
    assert(allows(allowed[0], permitted@ + seq![sep] + rest, sep));
}

/// Entries that do not resolve allow nothing: where none does, every root is refused.
pub proof fn unresolved_entries_allow_nothing(
    config: Config,
    allowed: Seq<Option<String>>,
    canonical: Seq<char>,
    sep: char,
)
    requires
        config.workspaces.allowed_roots@.len() > 0,
        forall|i: int| 0 <= i < allowed.len() ==> (#[trigger] allowed[i]) is None,
    ensures
        !is_allowed(config, allowed, canonical, sep),
{
}

/// Whether no two probes name the same workspace.
pub open spec fn distinct_probes(probes: Seq<IndexProbe>) -> bool {
    forall|i: int, j: int|
        0 <= i < j < probes.len() ==> (#[trigger] probes[i]).id@ != (#[trigger] probes[j]).id@
}

/// A sweep does not touch what was not looked at.
pub proof fn a_sweep_leaves_the_rest(
    pool: Map<Seq<char>, Workspace>,
    probes: Seq<IndexProbe>,
    now: nat,
    config: Config,
    id: Seq<char>,
)
    requires
        forall|k: int| 0 <= k < probes.len() ==> (#[trigger] probes[k]).id@ != id,
    ensures
        ({
            let after = swept(pool, probes, now, config);
            &&& after.dom().contains(id) == pool.dom().contains(id)
            &&& pool.dom().contains(id) ==> after[id] == pool[id]
        }),
        !evicted(pool, probes, now, config).contains(id),
        !due(pool, probes, now, config).contains(id),
    decreases probes.len(),
{
    if probes.len() > 0 {
        let t = probes.drop_last();
        assert(probes[probes.len() - 1].id@ != id);
        assert forall|k: int| 0 <= k < t.len() implies (#[trigger] t[k]).id@ != id by {
            assert(probes[k].id@ != id);
        }
        a_sweep_leaves_the_rest(pool, t, now, config, id);
        let e = evicted(pool, t, now, config);
        let d = due(pool, t, now, config);
        let last = probes.last().id@;
        if evicted(pool, probes, now, config).contains(id) {
            lemma_push_contains(e, last, id);
        }
        if due(pool, probes, now, config).contains(id) {
            lemma_push_contains(d, last, id);
        }
    }
}

proof fn lemma_push_contains(s: Seq<Seq<char>>, last: Seq<char>, x: Seq<char>)
    ensures
        s.push(last).contains(x) <==> s.contains(x) || x == last,
{
    if s.push(last).contains(x) {
        let i = choose|i: int| 0 <= i < s.push(last).len() && s.push(last)[i] == x;
        if i < s.len() {
            assert(s[i] == x);
        }
    }
    if s.contains(x) {
        let i = choose|i: int| 0 <= i < s.len() && s[i] == x;
        assert(s.push(last)[i] == x);
    }
    assert(s.push(last)[s.len() as int] == last);
}

/// A sweep decides over each workspace on its own: it is taken out, named for a rescan, or kept,
/// exactly as its own index, cost and use say.
pub proof fn a_sweep_decides_each_on_its_own(
    pool: Map<Seq<char>, Workspace>,
    probes: Seq<IndexProbe>,
    now: nat,
    config: Config,
    k: int,
)
    requires
        distinct_probes(probes),
        0 <= k < probes.len(),
        pool.dom().contains(probes[k].id@),
    ensures
        ({
            let id = probes[k].id@;
            let after = swept(pool, probes, now, config);
            let v = verdict(pool[id], probes[k].index, now, config);
            &&& after.dom().contains(id) <==> v !is Evict
            &&& v !is Evict ==> after[id] == pool[id].observed(is_settled(probes[k].index), now)
            &&& evicted(pool, probes, now, config).contains(id) <==> v is Evict
            &&& due(pool, probes, now, config).contains(id) <==> v is Rescan
        }),
    decreases probes.len(),
{
    let t = probes.drop_last();
    let n = probes.len() - 1;
    let id = probes[k].id@;
    let e = evicted(pool, t, now, config);
    let d = due(pool, t, now, config);
    let last = probes.last().id@;
    lemma_push_contains(e, last, id);
    lemma_push_contains(d, last, id);
    assert(distinct_probes(t)) by {
        assert forall|i: int, j: int| 0 <= i < j < t.len() implies (#[trigger] t[i]).id@ != (
        #[trigger] t[j]).id@ by {
            assert(probes[i].id@ != probes[j].id@);
        }
    }
    if k < n {
        assert(probes[k].id@ != probes[n].id@);
        assert(t[k] == probes[k]);
        a_sweep_decides_each_on_its_own(pool, t, now, config, k);
    } else {
        assert forall|j: int| 0 <= j < t.len() implies (#[trigger] t[j]).id@ != id by {
            assert(probes[j].id@ != probes[n].id@);
        }
        a_sweep_leaves_the_rest(pool, t, now, config, id);
    }
}

/// A sweep neither evicts nor rescans a workspace that is scanning or still building its content
/// index.
pub proof fn busy_workspaces_are_left_alone(
    w: Workspace,
    index: Option<IndexState>,
    now: nat,
    config: Config,
)
    requires
        !is_settled(index),
    ensures
        verdict(w, index, now, config) is Keep,
{
}

/// A workspace used less than the shortest idle timeout ago, less a second, is not evicted,
/// whatever it cost.
pub proof fn recent_use_prevents_eviction(
    w: Workspace,
    index: Option<IndexState>,
    used: nat,
    now: nat,
    config: Config,
)
    requires
        used <= now < Duration::limit(),
        now - used + 1_000_000_000 <= config.workspaces.idle_min_secs * 1_000_000_000,
    ensures
        verdict(w.touched(used), index, now, config) !is Evict,
{
    let t = w.touched(used);
    let seen = t.observed(is_settled(index), now);
    use_ends_idleness(w, used, now);
    assert(seen.idle(now) == t.idle(now));
    assert(w.age(now) - w.age(used) <= now - used);
    assert(config.idle_secs(seen.cost(now)) >= config.workspaces.idle_min_secs);
}

/// What a sweep decides over a settled workspace that was last used in the past: it is evicted
/// exactly where the time since its last use has reached its idle timeout, and otherwise rescanned
/// exactly where the time since it was seen ready has reached its rescan interval. Both come from
/// the cost it is seen with.
pub proof fn a_sweep_goes_by_use_and_cost(w: Workspace, s: IndexState, now: nat, config: Config)
    requires
        !s.is_scanning,
        s.is_warmup_complete,
        w.origin@ + w.last_touched * 1_000_000_000 <= now < Duration::limit(),
    ensures
        ({
            let v = verdict(w, Some(s), now, config);
            let seen = w.observed(true, now);
            let unused = now - w.origin@ - w.last_touched * 1_000_000_000;
            let timeout = config.idle_secs(seen.cost(now)) * 1_000_000_000;
            let interval = config.rescan_secs(seen.cost(now));
            &&& v is Evict <==> unused >= timeout
            &&& unused < timeout && seen.ready_since != u64::MAX && interval > 0 ==> (v is Rescan
                <==> (seen.ready_since + interval) * 1_000_000_000 <= now - w.origin@)
            &&& unused < timeout && seen.ready_since != u64::MAX && interval == 0 ==> v is Rescan
            &&& unused < timeout && seen.ready_since == u64::MAX ==> v is Keep
        }),
{
    let seen = w.observed(true, now);
    assert(seen.origin@ == w.origin@ && seen.last_touched == w.last_touched);
    let interval = config.rescan_secs(seen.cost(now));
    assert(interval <= u64::MAX && interval >= 0);
}

/// A longer cost never makes a sweep evict a workspace that a shorter one would have kept.
pub proof fn a_higher_cost_never_evicts_sooner(
    a: Workspace,
    b: Workspace,
    s: IndexState,
    now: nat,
    config: Config,
)
    requires
        a.is_still(b),
        a.last_touched == b.last_touched,
        0 < a.time_to_ready_ms <= b.time_to_ready_ms,
    ensures
        verdict(b, Some(s), now, config) is Evict ==> verdict(a, Some(s), now, config) is Evict,
{
    let x = a.observed(is_settled(Some(s)), now);
    let y = b.observed(is_settled(Some(s)), now);
    assert(x.cost(now) <= y.cost(now));
    crate::config::intervals_grow_with_cost(
        x.cost(now) as int,
        y.cost(now) as int,
        config.workspaces.idle_factor as int,
        config.workspaces.idle_min_secs as int,
        config.workspaces.idle_max_secs as int,
    );
    assert(x.idle(now) == y.idle(now));
}

/// One probe more adds its own workspace at the end of the list it belongs to, and changes nothing
/// that was decided before it.
pub proof fn one_probe_more_decides_one_more(
    pool: Map<Seq<char>, Workspace>,
    probes: Seq<IndexProbe>,
    p: IndexProbe,
    now: nat,
    config: Config,
)
    ensures
        ({
            let here = swept(pool, probes, now, config);
            let there = here.dom().contains(p.id@);
            let v = verdict(here[p.id@], p.index, now, config);
            let all = probes.push(p);
            &&& evicted(pool, all, now, config) == evicted(pool, probes, now, config) + (if there
                && v is Evict {
                seq![p.id@]
            } else {
                seq![]
            })
            &&& due(pool, all, now, config) == due(pool, probes, now, config) + (if there
                && v is Rescan {
                seq![p.id@]
            } else {
                seq![]
            })
        }),
        swept(pool, seq![], now, config) == pool,
        evicted(pool, seq![], now, config).len() == 0,
        due(pool, seq![], now, config).len() == 0,
{
    assert(probes.push(p).drop_last() =~= probes);
    assert(evicted(pool, probes, now, config) + Seq::<Seq<char>>::empty() =~= evicted(
        pool,
        probes,
        now,
        config,
    ));
    assert(due(pool, probes, now, config) + Seq::<Seq<char>>::empty() =~= due(
        pool,
        probes,
        now,
        config,
    ));
}

/// A described workspace has the two intervals of its own cost, each from its own settings: the
/// rescan interval in the rescan band, the idle timeout in the idle band.
pub proof fn descriptions_give_each_interval_its_own_band(
    res: WorkspaceResource,
    ws: Workspace,
    index: Option<IndexState>,
    config: Config,
    now: nat,
)
    requires
        describes(res, ws, index, config, now),
    ensures
        res.id@ == ws.id@,
        res.shows(ws, index, now),
        ({
            let c = config.workspaces;
            &&& c.rescan_min_secs <= c.rescan_max_secs ==> c.rescan_min_secs
                <= res.rescan_interval_secs <= c.rescan_max_secs
            &&& c.idle_min_secs <= c.idle_max_secs ==> c.idle_min_secs <= res.idle_timeout_secs
                <= c.idle_max_secs
            &&& c.rescan_min_secs * 1_000_000_000 <= ws.cost(now) * c.rescan_duty_factor
                <= c.rescan_max_secs * 1_000_000_000 ==> res.rescan_interval_secs * 1_000_000_000
                - 500_000_000 <= ws.cost(now) * c.rescan_duty_factor < res.rescan_interval_secs
                * 1_000_000_000 + 500_000_000
            &&& c.idle_min_secs * 1_000_000_000 <= ws.cost(now) * c.idle_factor <= c.idle_max_secs
                * 1_000_000_000 ==> res.idle_timeout_secs * 1_000_000_000 - 500_000_000 <= ws.cost(
                now,
            ) * c.idle_factor < res.idle_timeout_secs * 1_000_000_000 + 500_000_000
        }),
{
    crate::config::each_interval_has_its_own_settings(config, config, ws.cost(now));
}

/// A handler's copy stands for the pool's workspace with its id and its birth. Where the pool has
/// it, what happens to it happens there and to no other; where it has left the pool, or another has
/// taken its place, the pool stays as it is.
pub proof fn a_copy_stands_for_its_workspace(
    pool: Map<Seq<char>, Workspace>,
    held: Workspace,
    ws: Workspace,
    other: Seq<char>,
)
    ensures
        pool.dom().contains(held.id@) && pool[held.id@].origin == held.origin ==> {
            &&& current(pool, held) == pool[held.id@]
            &&& put_back(pool, held, ws)[held.id@] == ws
            &&& put_back(pool, held, ws).dom() == pool.dom()
            &&& other != held.id@ && pool.dom().contains(other) ==> put_back(pool, held, ws)[other]
                == pool[other]
        },
        pool.dom().contains(held.id@) && pool[held.id@].origin != held.origin ==> current(
            pool,
            held,
        ) == held && put_back(pool, held, ws) == pool,
        !pool.dom().contains(held.id@) ==> current(pool, held) == held && put_back(pool, held, ws)
            == pool,
{
    if keeps(pool, held) {
        assert(put_back(pool, held, ws).dom() =~= pool.dom());
    }
}

/// Without a configured list every root is allowed. With one, a root is allowed exactly where one
/// of its entries resolves to it or to a directory that holds it, so one entry more never takes a
/// permission away.
pub proof fn the_allowlist_only_restricts_where_there_is_one(
    config: Config,
    allowed: Seq<Option<String>>,
    more: Option<String>,
    canonical: Seq<char>,
    sep: char,
)
    ensures
        config.workspaces.allowed_roots@.len() == 0 ==> is_allowed(
            config,
            allowed,
            canonical,
            sep,
        ),
        is_allowed(config, allowed, canonical, sep) ==> is_allowed(
            config,
            allowed.push(more),
            canonical,
            sep,
        ),
        config.workspaces.allowed_roots@.len() > 0 && is_allowed(
            config,
            allowed,
            canonical,
            sep,
        ) ==> exists|i: int|
            0 <= i < allowed.len() && ((#[trigger] allowed[i]) matches Some(p) && beneath(
                canonical,
                p@,
                sep,
            )),
        more matches Some(p) ==> beneath(canonical, p@, sep) ==> is_allowed(
            config,
            allowed.push(more),
            canonical,
            sep,
        ),
{
    let all = allowed.push(more);
    if is_allowed(config, allowed, canonical, sep) && config.workspaces.allowed_roots@.len() > 0 {
        let i = choose|i: int|
            0 <= i < allowed.len() && allows(#[trigger] allowed[i], canonical, sep);
        assert(allows(all[i], canonical, sep));
        assert(allowed[i] matches Some(p) && beneath(canonical, p@, sep));
    }
    if more matches Some(p) && beneath(canonical, p@, sep) {
        assert(allows(all[allowed.len() as int], canonical, sep));
    }
}

/// How a requested root is refused: a blank one as a bad path, one that is no root for its own
/// reason, and one that the list does not allow as forbidden. One that is allowed is not refused.
pub proof fn requested_roots_are_refused_for_a_reason(
    root: Seq<char>,
    probe: RootProbe,
    config: Config,
    allowed: Seq<Option<String>>,
    sep: char,
    e: ApiError,
)
    requires
        create_refused(root, probe, config, allowed, sep, e),
    ensures
        trimmed(root).len() == 0 ==> e.status_code() == 400 && e.code() == "invalid-path"@
            && e.message() == "root must not be empty"@,
        trimmed(root).len() > 0 ==> (probe matches RootProbe::Found(found) ==> found.is_dir
            && found.has_parent && vstd::utf8::encode_utf8(found.canonical@).len() <= 3584 ==> {
            &&& e.status_code() == 403
            &&& e.code() == "forbidden-root"@
            &&& config.workspaces.allowed_roots@.len() > 0
            &&& !is_allowed(config, allowed, found.canonical@, sep)
            &&& e.message() == "root "@ + presented(found.canonical@)
                + " is not under any configured allowed_roots entry"@
        }),
        trimmed(root).len() > 0 && !(probe matches RootProbe::Found(found) && is_root(found))
            ==> root_refused(trimmed(root), probe, e),
{
}

// ---------------------------------------------------------------------------------------------
// What each operation does to the pool.
// ---------------------------------------------------------------------------------------------

/// Getting a workspace finds exactly the one with that id and marks it as used; taking it out hands
/// out that one and leaves the others; and emptying the pool leaves none.
pub proof fn workspaces_are_found_by_their_id(id: &str, other: Seq<char>, now: Duration)
    ensures
        forall|p: &mut Pool, r: Option<&Workspace>| #[trigger]
            call_ensures(Pool::get, (p, id, now), r) ==> {
                &&& r is Some <==> p@.dom().contains(id@)
                &&& r matches Some(w) ==> w.is_still(p@[id@]) && final(p)@[id@] == *w
                &&& final(p)@.dom().contains(other) <==> p@.dom().contains(other)
                &&& other != id@ && p@.dom().contains(other) ==> final(p)@[other] == p@[other]
            },
        forall|p: &mut Pool, r: Option<Workspace>| #[trigger]
            call_ensures(Pool::remove, (p, id), r) ==> {
                &&& r is Some <==> p@.dom().contains(id@)
                &&& r matches Some(w) ==> w == p@[id@]
                &&& !final(p)@.dom().contains(id@)
                &&& other != id@ ==> (final(p)@.dom().contains(other)
                    <==> p@.dom().contains(other))
                &&& other != id@ && p@.dom().contains(other) ==> final(p)@[other] == p@[other]
            },
        forall|p: &mut Pool, r: Vec<Workspace>| #[trigger]
            call_ensures(Pool::shutdown_all, (p,), r) ==> !final(p)@.dom().contains(other),
{
}

/// A create call whose root got a workspace meanwhile hands that one back and changes nothing; one
/// whose root has none leaves the one it built, used just now, under the id of its root, and no
/// other. Whether it got as far as it was asked to is told by the index it ended with.
pub proof fn a_lost_race_is_honoured(
    root: CanonicalRoot,
    req: &CreateWorkspace,
    index: Option<IndexState>,
    elapsed: Duration,
    birth: Birth,
    now: Duration,
    machine: &Machine,
    other: Seq<char>,
)
    ensures
        forall|p: &mut Pool, ws: Workspace, created: Created| #[trigger]
            call_ensures(
                Pool::create_blocking,
                (p, root, req, BuildOutcome::Built { index, elapsed }, birth, now, machine),
                Ok::<(Workspace, Created), ApiError>((ws, created)),
            ) ==> {
                let id = stable_id_text(root.identity@);
                &&& p@.dom().contains(id) ==> final(p)@ == p@ && ws == p@[id] && created
                    == Created::Existing
                &&& !p@.dom().contains(id) ==> {
                    &&& final(p)@.dom().contains(id)
                    &&& final(p)@[id] == ws
                    &&& ws.root == root
                    &&& ws.id@ == id
                    &&& ws.origin == birth.origin
                    &&& ws.created_at == birth.created_at
                    &&& ws.last_scan_at_unix == birth.unix_now
                    &&& birth.origin@ <= now@ < Duration::limit() ==> ws.last_touched
                        * 1_000_000_000 <= now@ - birth.origin@ < (ws.last_touched + 1)
                        * 1_000_000_000
                    &&& created == (Created::New {
                        stage_reached: has_reached(req.wait_for, index),
                    })
                }
                &&& other != id ==> (final(p)@.dom().contains(other)
                    <==> p@.dom().contains(other))
                &&& other != id && p@.dom().contains(other) ==> final(p)@[other] == p@[other]
            },
{
}

/// A create call that failed leaves the pool as it was.
pub proof fn failed_creations_change_nothing(
    root: CanonicalRoot,
    req: &CreateWorkspace,
    outcome: BuildOutcome,
    birth: Birth,
    now: Duration,
    machine: &Machine,
)
    ensures
        forall|p: &mut Pool, e: ApiError| #[trigger]
            call_ensures(
                Pool::create_blocking,
                (p, root, req, outcome, birth, now, machine),
                Err::<(Workspace, Created), ApiError>(e),
            ) ==> final(p)@ == p@ && outcome !is Built,
{
}

/// A root that has a workspace is given that one, and nothing is built for it. One that has none is
/// built for as the request asks, for as long as it asks to wait or else as long as is configured.
pub proof fn roots_with_a_workspace_are_not_built_again(
    root: &CanonicalRoot,
    req: &CreateWorkspace,
    now: Duration,
    machine: &Machine,
)
    ensures
        forall|p: &mut Pool, r: CreateStart| #[trigger]
            call_ensures(Pool::start_create, (p, root, req, now, machine), r) ==> {
                let id = stable_id_text(root.identity@);
                &&& r is Existing <==> p@.dom().contains(id)
                &&& r matches CreateStart::Existing(ws) ==> ws.is_still(p@[id])
                &&& r matches CreateStart::Build(plan) ==> {
                    &&& final(p)@ == p@
                    &&& plan.id@ == id
                    &&& plan.base_path@ == root.canonical@
                    &&& req.wait_for_index_ms matches Some(ms) ==> plan.budget@ == ms * 1_000_000
                    &&& req.wait_for_index_ms is None ==> plan.budget@
                        == p.settings().workspaces.create_block_ms * 1_000_000
                }
            },
{
}

/// A list holds every workspace of the pool once, in the order of their displayed roots.
pub proof fn lists_are_complete_and_in_order(p: &Pool, r: Vec<&Workspace>, i: int, j: int)
    requires
        p.wf(),
        call_ensures(Pool::list, (p,), r),
        0 <= i < j < r@.len(),
    ensures
        r@.len() == p@.len(),
        p@.dom().contains(r@[i].id@),
        p@[r@[i].id@] == *r@[i],
        r@[i].id@ != r@[j].id@,
        text_le(r@[i].root.display@, r@[j].root.display@),
{
}

} // verus!
