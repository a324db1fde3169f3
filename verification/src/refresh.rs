//! The server's background working-tree refresh: when it is due, which workspaces it covers,
//! and how one `git status` per distinct repository fans out to every workspace sharing it.
//! Times are milliseconds on the server's monotonic clock.
use vstd::prelude::*;

use crate::worktree_status::{clone_status_result, opt_tree_view, GitWorkingTreeStatus};

verus! {

/// What the refresh reads of one workspace.
#[derive(Debug, Clone)]
pub struct RefreshWorkspace {
    pub id: String,
    /// Some client shows this workspace's git panel.
    pub git_panel_demand: bool,
    /// The repository the workspace's git space is rooted at, if it is inside one.
    pub repo_root: Option<String>,
}

/// When the last refresh started, and whether one is running now.
#[derive(Debug, Clone, Copy, PartialEq, Eq, Structural)]
pub struct RefreshClock {
    pub last_refresh_ms: u64,
    pub in_flight: bool,
}

pub open spec fn any_demand(ws: Seq<RefreshWorkspace>) -> bool {
    exists|i: int| 0 <= i < ws.len() && #[trigger] ws[i].git_panel_demand
}

pub open spec fn sat_add(a: u64, b: u64) -> u64 {
    if a + b > u64::MAX { u64::MAX } else { (a + b) as u64 }
}

/// The workspaces a refresh covers: those some client watches and that are inside a
/// repository, in order, with their repository roots.
pub open spec fn targets_of(ws: Seq<RefreshWorkspace>) -> Seq<(Seq<char>, Seq<char>)>
    decreases ws.len(),
{
    if ws.len() == 0 {
        Seq::empty()
    } else {
        let prev = targets_of(ws.drop_last());
        let w = ws.last();
        match w.repo_root {
            Some(r) => if w.git_panel_demand { prev.push((w.id@, r@)) } else { prev },
            None => prev,
        }
    }
}

pub open spec fn pairs_view(v: Seq<(String, String)>) -> Seq<(Seq<char>, Seq<char>)> {
    v.map_values(|p: (String, String)| (p.0@, p.1@))
}

impl RefreshClock {
    /// When the next refresh is due: `interval_ms` after the last one started, but only while
    /// no refresh is running and some workspace's git panel is watched.
    pub fn git_working_tree_refresh_deadline(&self, workspaces: &[RefreshWorkspace], interval_ms: u64) -> (r: Option<u64>)
        ensures
            r == (if !self.in_flight && any_demand(workspaces@) {
                Some(sat_add(self.last_refresh_ms, interval_ms))
            } else {
                None
            }),
    {
        if self.in_flight {
            return None;
        }
        let mut i: usize = 0;
        while i < workspaces.len()
            invariant
                i <= workspaces@.len(),
                !self.in_flight,
                forall|k: int| 0 <= k < i ==> !#[trigger] workspaces@[k].git_panel_demand,
            decreases workspaces@.len() - i,
        {
            if workspaces[i].git_panel_demand {
                assert(workspaces@[i as int].git_panel_demand);
                return Some(self.last_refresh_ms.saturating_add(interval_ms));
            }
            i = i + 1;
        }
        None
    }

    /// Makes the next check due right away (e.g. after a file mutation), so the panel does not
    /// wait a full interval.
    pub fn force_git_working_tree_refresh_now(&mut self, now_ms: u64, interval_ms: u64)
        ensures
            final(self).in_flight == old(self).in_flight,
            final(self).last_refresh_ms == (if now_ms >= interval_ms { (now_ms - interval_ms) as u64 } else { 0 }),
    {
        self.last_refresh_ms = now_ms.saturating_sub(interval_ms);
    }

    /// Starts a refresh when one is due at `now_ms`: the clock restarts at `now_ms`, and when
    /// some watched workspace is inside a repository the refresh is in flight and its targets
    /// (workspace id and repository root, in workspace order) are returned for the background
    /// job. Nothing changes when no refresh is due.
    pub fn start_git_working_tree_refresh_if_due(&mut self, now_ms: u64, workspaces: &[RefreshWorkspace], interval_ms: u64) -> (r: Option<Vec<(String, String)>>)
        ensures
            ({
                let due = !old(self).in_flight && any_demand(workspaces@) && now_ms >= sat_add(old(self).last_refresh_ms, interval_ms);
                if !due {
                    r is None && *final(self) == *old(self)
                } else {
                    &&& final(self).last_refresh_ms == now_ms
                    &&& if targets_of(workspaces@).len() == 0 {
                        r is None && final(self).in_flight == old(self).in_flight
                    } else {
                        (r matches Some(t) && pairs_view(t@) == targets_of(workspaces@)) && final(self).in_flight
                    }
                }
            }),
    {
        let deadline = match self.git_working_tree_refresh_deadline(workspaces, interval_ms) {
            None => return None,
            Some(d) => d,
        };
        if now_ms < deadline {
            return None;
        }
        let targets = git_working_tree_refresh_targets(workspaces);
        self.last_refresh_ms = now_ms;
        if targets.len() == 0 {
            return None;
        }
        self.in_flight = true;
        Some(targets)
    }
}

/// The workspaces a refresh covers (see `targets_of`).
pub fn git_working_tree_refresh_targets(workspaces: &[RefreshWorkspace]) -> (r: Vec<(String, String)>)
    ensures
        pairs_view(r@) == targets_of(workspaces@),
{
    let mut out: Vec<(String, String)> = Vec::new();
    let mut i: usize = 0;
    while i < workspaces.len()
        invariant
            i <= workspaces@.len(),
            pairs_view(out@) == targets_of(workspaces@.take(i as int)),
        decreases workspaces@.len() - i,
    {
        let w = &workspaces[i];
        let ghost prev = out@;
        proof {
            assert(workspaces@.take(i + 1).drop_last() =~= workspaces@.take(i as int));
            assert(workspaces@.take(i + 1).last() == workspaces@[i as int]);
        }
        match &w.repo_root {
            Some(root) => {
                if w.git_panel_demand {
                    out.push((w.id.clone(), root.clone()));
                    assert(pairs_view(out@) =~= pairs_view(prev).push((w.id@, root@)));
                }
            },
            None => {},
        }
        i = i + 1;
    }
    assert(workspaces@.take(i as int) =~= workspaces@);
    out
}

/// Some target uses root `j`.
pub open spec fn used(index: Seq<usize>, j: int) -> bool {
    exists|i: int| 0 <= i < index.len() && #[trigger] index[i] == j
}

/// The distinct repository roots among `targets`, in order of first appearance, and for each
/// target the index of its root among them: `git status` runs once per distinct root (linked
/// worktrees of one repository watched at once share it).
pub fn distinct_roots(targets: &Vec<(String, String)>) -> (r: (Vec<String>, Vec<usize>))
    ensures
        r.1@.len() == targets@.len(),
        forall|i: int| #![trigger r.1@[i]] 0 <= i < targets@.len() ==> r.1@[i] < r.0@.len() && r.0@[r.1@[i] as int]@ == targets@[i].1@,
        forall|a: int, b: int| 0 <= a < b < r.0@.len() ==> #[trigger] r.0@[a]@ != #[trigger] r.0@[b]@,
        forall|j: int| 0 <= j < r.0@.len() ==> #[trigger] used(r.1@, j),
{
    let mut roots: Vec<String> = Vec::new();
    let mut index: Vec<usize> = Vec::new();
    let mut i: usize = 0;
    while i < targets.len()
        invariant
            i <= targets@.len(),
            index@.len() == i,
            forall|k: int| #![trigger index@[k]] 0 <= k < i ==> index@[k] < roots@.len() && roots@[index@[k] as int]@ == targets@[k].1@,
            forall|a: int, b: int| 0 <= a < b < roots@.len() ==> #[trigger] roots@[a]@ != #[trigger] roots@[b]@,
            forall|j: int| 0 <= j < roots@.len() ==> #[trigger] used(index@, j),
        decreases targets@.len() - i,
    {
        let root = &targets[i].1;
        let mut j: usize = 0;
        while j < roots.len()
            invariant
                j <= roots@.len(),
                forall|m: int| 0 <= m < j ==> roots@[m]@ != root@,
            ensures
                j <= roots@.len(),
                forall|m: int| 0 <= m < j ==> roots@[m]@ != root@,
                j < roots@.len() ==> roots@[j as int]@ == root@,
            decreases roots@.len() - j,
        {
            if roots[j] == *root {
                break;
            }
            j = j + 1;
        }
        let ghost prev_index = index@;
        let ghost prev_roots = roots@;
        if j == roots.len() {
            roots.push(root.clone());
            proof {
                assert forall|a: int, b: int| 0 <= a < b < roots@.len() implies #[trigger] roots@[a]@ != #[trigger] roots@[b]@ by {
                    if b == prev_roots.len() {
                        assert(roots@[a] == prev_roots[a]);
                    } else {
                        assert(roots@[a] == prev_roots[a]);
                        assert(roots@[b] == prev_roots[b]);
                    }
                }
            }
        }
        index.push(j);
        proof {
            assert forall|k: int| #![trigger index@[k]] 0 <= k < i + 1 implies index@[k] < roots@.len() && roots@[index@[k] as int]@ == targets@[k].1@ by {
                if k < i {
                    assert(index@[k] == prev_index[k]);
                    assert(prev_index[k] < prev_roots.len());
                    assert(roots@[index@[k] as int] == prev_roots[index@[k] as int]);
                }
            }
            assert forall|m: int| 0 <= m < roots@.len() implies #[trigger] used(index@, m) by {
                if m < prev_roots.len() {
                    assert(used(prev_index, m));
                    let k = choose|k: int| 0 <= k < prev_index.len() && #[trigger] prev_index[k] == m;
                    assert(index@[k] == m);
                } else {
                    assert(index@[i as int] == m);
                }
            }
        }
        i = i + 1;
    }
    (roots, index)
}

/// Fans the per-root results back out to the targets: each workspace gets a copy of the
/// status of its own repository root.
pub fn fan_out(
    targets: &Vec<(String, String)>,
    index: &Vec<usize>,
    statuses: &Vec<Option<GitWorkingTreeStatus>>,
) -> (r: Vec<(String, Option<GitWorkingTreeStatus>)>)
    requires
        index@.len() == targets@.len(),
        forall|i: int| 0 <= i < index@.len() ==> #[trigger] index@[i] < statuses@.len(),
    ensures
        r@.len() == targets@.len(),
        forall|i: int|
            0 <= i < targets@.len() ==> #[trigger] r@[i].0@ == targets@[i].0@ && opt_tree_view(r@[i].1)
                == opt_tree_view(statuses@[index@[i] as int]),
{
    let mut out: Vec<(String, Option<GitWorkingTreeStatus>)> = Vec::new();
    let mut i: usize = 0;
    while i < targets.len()
        invariant
            i <= targets@.len(),
            index@.len() == targets@.len(),
            forall|k: int| 0 <= k < index@.len() ==> #[trigger] index@[k] < statuses@.len(),
            out@.len() == i,
            forall|k: int|
                0 <= k < i ==> #[trigger] out@[k].0@ == targets@[k].0@ && opt_tree_view(out@[k].1)
                    == opt_tree_view(statuses@[index@[k] as int]),
        decreases targets@.len() - i,
    {
        let status = clone_status_result(&statuses[index[i]]);
        out.push((targets[i].0.clone(), status));
        i = i + 1;
    }
    out
}

/// Workspaces that share a repository root get equal statuses from one refresh: with the
/// roots and index that `distinct_roots` gives for `targets`, one status per root, and the
/// result of `fan_out`, each workspace gets the status of its own root, and two workspaces
/// whose roots are the same text get the same status.
pub proof fn shared_root_shares_status(
    targets: Seq<(String, String)>,
    roots: Seq<String>,
    index: Seq<usize>,
    statuses: Seq<Option<GitWorkingTreeStatus>>,
    out: Seq<(String, Option<GitWorkingTreeStatus>)>,
)
    requires
        index.len() == targets.len(),
        forall|i: int| #![trigger index[i]] 0 <= i < targets.len() ==> index[i] < roots.len() && roots[index[i] as int]@ == targets[i].1@,
        forall|a: int, b: int| 0 <= a < b < roots.len() ==> #[trigger] roots[a]@ != #[trigger] roots[b]@,
        statuses.len() == roots.len(),
        out.len() == targets.len(),
        forall|i: int|
            0 <= i < targets.len() ==> #[trigger] out[i].0@ == targets[i].0@ && opt_tree_view(out[i].1)
                == opt_tree_view(statuses[index[i] as int]),
    ensures
        forall|i: int| 0 <= i < targets.len() ==> opt_tree_view(#[trigger] out[i].1) == opt_tree_view(statuses[index[i] as int])
            && roots[index[i] as int]@ == targets[i].1@,
        forall|a: int, b: int|
            0 <= a < targets.len() && 0 <= b < targets.len() && targets[a].1@ == targets[b].1@ ==> opt_tree_view(
                #[trigger] out[a].1,
            ) == opt_tree_view(#[trigger] out[b].1),
{
    assert forall|a: int, b: int|
        0 <= a < targets.len() && 0 <= b < targets.len() && targets[a].1@ == targets[b].1@ implies opt_tree_view(
            #[trigger] out[a].1,
        ) == opt_tree_view(#[trigger] out[b].1) by {
        let ia = index[a] as int;
        let ib = index[b] as int;
        assert(roots[ia]@ == targets[a].1@);
        assert(roots[ib]@ == targets[b].1@);
        if ia < ib {
            assert(roots[ia]@ != roots[ib]@);
        } else if ib < ia {
            assert(roots[ib]@ != roots[ia]@);
        }
        assert(ia == ib);
        assert(out[a].0@ == targets[a].0@);
        assert(out[b].0@ == targets[b].0@);
    }
    assert forall|i: int| 0 <= i < targets.len() implies opt_tree_view(#[trigger] out[i].1) == opt_tree_view(statuses[index[i] as int])
        && roots[index[i] as int]@ == targets[i].1@ by {
        assert(out[i].0@ == targets[i].0@);
        assert(index[i] < roots.len());
    }
}

/// One refresh of the working trees of `targets` (workspace id, repository root): `status_of`
/// runs once per distinct root, and each workspace gets a copy of the status of its own root,
/// so workspaces sharing a root (linked worktrees of one repository watched at once) get
/// equal statuses.
pub fn refresh_git_working_trees<F: Fn(&String) -> Option<GitWorkingTreeStatus>>(
    targets: &Vec<(String, String)>,
    status_of: F,
) -> (r: Vec<(String, Option<GitWorkingTreeStatus>)>)
    requires
        forall|root: &String| call_requires(status_of, (root,)),
    ensures
        r@.len() == targets@.len(),
        forall|i: int|
            0 <= i < targets@.len() ==> (#[trigger] r@[i]).0@ == targets@[i].0@ && exists|
                root: String,
                s: Option<GitWorkingTreeStatus>,
            |
                root@ == targets@[i].1@ && call_ensures(status_of, (&root,), s) && opt_tree_view(s) == opt_tree_view(
                    r@[i].1,
                ),
        forall|a: int, b: int|
            0 <= a < targets@.len() && 0 <= b < targets@.len() && targets@[a].1@ == targets@[b].1@ ==> opt_tree_view(
                #[trigger] r@[a].1,
            ) == opt_tree_view(#[trigger] r@[b].1),
{
    let (roots, index) = distinct_roots(targets);
    let mut statuses: Vec<Option<GitWorkingTreeStatus>> = Vec::new();
    let mut j: usize = 0;
    while j < roots.len()
        invariant
            j <= roots@.len(),
            statuses@.len() == j,
            forall|root: &String| call_requires(status_of, (root,)),
            forall|k: int| 0 <= k < j ==> call_ensures(status_of, (&roots@[k],), #[trigger] statuses@[k]),
        decreases roots@.len() - j,
    {
        let s = status_of(&roots[j]);
        statuses.push(s);
        j = j + 1;
    }
    let out = fan_out(targets, &index, &statuses);
    proof {
        shared_root_shares_status(targets@, roots@, index@, statuses@, out@);
        assert forall|i: int| 0 <= i < targets@.len() implies (#[trigger] out@[i]).0@ == targets@[i].0@ && exists|
            root: String,
            s: Option<GitWorkingTreeStatus>,
        |
            root@ == targets@[i].1@ && call_ensures(status_of, (&root,), s) && opt_tree_view(s) == opt_tree_view(
                out@[i].1,
            ) by {
            let k = index@[i] as int;
            assert(k < roots@.len());
            assert(call_ensures(status_of, (&roots@[k],), statuses@[k]));
            assert(roots@[k]@ == targets@[i].1@);
        }
    }
    out
}

/// Whether some workspace's git panel is watched.
pub fn any_workspace_wants_git_panel(workspaces: &[RefreshWorkspace]) -> (r: bool)
    ensures
        r == any_demand(workspaces@),
{
    let mut i: usize = 0;
    while i < workspaces.len()
        invariant
            i <= workspaces@.len(),
            forall|j: int| 0 <= j < i ==> !(#[trigger] workspaces@[j]).git_panel_demand,
        decreases workspaces@.len() - i,
    {
        if workspaces[i].git_panel_demand {
            return true;
        }
        i = i + 1;
    }
    false
}

/// Records whether some client watches the git panel of the (first) workspace with this id;
/// returns whether that changed anything (an unknown id changes nothing).
pub fn set_git_panel_demand(workspaces: &mut Vec<RefreshWorkspace>, workspace_id: &str, demand: bool) -> (changed: bool)
    ensures
        final(workspaces)@.len() == old(workspaces)@.len(),
        (forall|j: int| 0 <= j < old(workspaces)@.len() ==> (#[trigger] old(workspaces)@[j]).id@ != workspace_id@)
            ==> !changed && final(workspaces)@ == old(workspaces)@,
        forall|i: int| 0 <= i < old(workspaces)@.len() && (#[trigger] old(workspaces)@[i]).id@ == workspace_id@
            && (forall|j: int| 0 <= j < i ==> (#[trigger] old(workspaces)@[j]).id@ != workspace_id@) ==> {
            &&& changed == (old(workspaces)@[i].git_panel_demand != demand)
            &&& final(workspaces)@ == old(workspaces)@.update(i, RefreshWorkspace { git_panel_demand: demand, ..old(workspaces)@[i] })
        },
{
    let mut i: usize = 0;
    while i < workspaces.len()
        invariant
            i <= workspaces@.len(),
            workspaces@ == old(workspaces)@,
            forall|j: int| 0 <= j < i ==> (#[trigger] workspaces@[j]).id@ != workspace_id@,
        decreases workspaces@.len() - i,
    {
        if crate::text::str_eq(workspaces[i].id.as_str(), workspace_id) {
            if workspaces[i].git_panel_demand == demand {
                return false;
            }
            let ghost before = workspaces@;
            let mut w = workspaces[i].clone_workspace();
            w.git_panel_demand = demand;
            workspaces.set(i, w);
            proof {
                assert forall|k: int| 0 <= k < before.len() && (#[trigger] before[k]).id@ == workspace_id@
                    && (forall|j: int| 0 <= j < k ==> (#[trigger] before[j]).id@ != workspace_id@) implies k == i by {
                    if k > i {
                        assert(before[i as int].id@ != workspace_id@);
                    }
                }
            }
            return true;
        }
        i = i + 1;
    }
    false
}

impl RefreshWorkspace {
    pub fn clone_workspace(&self) -> (r: Self)
        ensures
            r == *self,
    {
        let repo_root = match &self.repo_root {
            Some(root) => Some(root.clone()),
            None => None,
        };
        RefreshWorkspace { id: self.id.clone(), git_panel_demand: self.git_panel_demand, repo_root }
    }
}

} // verus!
