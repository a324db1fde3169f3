//! Which clients are watching which workspace's git panel, and the per-workspace demand that
//! gates the server's background working-tree refresh: a workspace is refreshed only while at
//! least one client shows its git panel.
use vstd::prelude::*;

verus! {

/// A connected client and the workspace whose git panel it shows, if any. A client watches at
/// most one workspace at a time.
#[derive(Debug, Clone)]
pub struct WatchingClient {
    pub client_id: u64,
    pub open_workspace: Option<String>,
}

/// One (workspace, client) watch: `client_id` shows the git panel of `workspace_id`.
#[derive(Debug, Clone)]
pub struct PanelWatch {
    pub workspace_id: String,
    pub client_id: u64,
}

/// A workspace and whether at least one client is watching its git panel.
#[derive(Debug, Clone)]
pub struct WorkspaceDemand {
    pub workspace_id: String,
    pub git_panel_demand: bool,
}

/// The server's bookkeeping of git panel interest: connected clients, the watches they hold
/// (a workspace appears here only while someone watches it), and every workspace's aggregated
/// demand.
#[derive(Debug, Clone)]
pub struct GitPanelInterest {
    pub clients: Vec<WatchingClient>,
    pub watchers: Vec<PanelWatch>,
    pub workspaces: Vec<WorkspaceDemand>,
}

pub open spec fn pair_is(p: PanelWatch, w: Seq<char>, c: u64) -> bool {
    p.workspace_id@ == w && p.client_id == c
}

pub open spec fn ws_is(p: PanelWatch, w: Seq<char>) -> bool {
    p.workspace_id@ == w
}

pub open spec fn opt_is(o: Option<String>, x: Seq<char>) -> bool {
    match o {
        Some(p) => p@ == x,
        None => false,
    }
}

pub open spec fn opens(cl: WatchingClient, c: u64, w: Seq<char>) -> bool {
    cl.client_id == c && match cl.open_workspace {
        Some(s) => s@ == w,
        None => false,
    }
}

impl GitPanelInterest {
    /// Client `c` is connected.
    pub open spec fn has_client(self, c: u64) -> bool {
        exists|i: int| 0 <= i < self.clients@.len() && #[trigger] self.clients@[i].client_id == c
    }

    /// Client `c` is connected and shows the git panel of `w`.
    pub open spec fn client_opens(self, c: u64, w: Seq<char>) -> bool {
        exists|i: int| 0 <= i < self.clients@.len() && #[trigger] opens(self.clients@[i], c, w)
    }

    /// A watch of `w` by `c` is recorded.
    pub open spec fn watched(self, w: Seq<char>, c: u64) -> bool {
        exists|k: int| 0 <= k < self.watchers@.len() && #[trigger] pair_is(self.watchers@[k], w, c)
    }

    /// Some watch of `w` is recorded.
    pub open spec fn has_watchers(self, w: Seq<char>) -> bool {
        exists|k: int| 0 <= k < self.watchers@.len() && #[trigger] ws_is(self.watchers@[k], w)
    }

    pub open spec fn clients_distinct(self) -> bool {
        forall|i: int, j: int|
            0 <= i < j < self.clients@.len() ==> #[trigger] self.clients@[i].client_id
                != #[trigger] self.clients@[j].client_id
    }

    pub open spec fn watches_distinct(self) -> bool {
        forall|i: int, j: int|
            0 <= i < j < self.watchers@.len() ==> !(#[trigger] self.watchers@[i].workspace_id@
                == #[trigger] self.watchers@[j].workspace_id@ && self.watchers@[i].client_id
                == self.watchers@[j].client_id)
    }

    /// The recorded watches are exactly the clients' open panels.
    pub open spec fn watches_match_clients(self) -> bool {
        forall|w: Seq<char>, c: u64| #[trigger] self.watched(w, c) <==> self.client_opens(c, w)
    }

    pub open spec fn workspaces_distinct(self) -> bool {
        forall|i: int, j: int|
            0 <= i < j < self.workspaces@.len() ==> #[trigger] self.workspaces@[i].workspace_id@
                != #[trigger] self.workspaces@[j].workspace_id@
    }

    /// Every workspace's demand is whether anyone watches it.
    pub open spec fn demand_matches_watches(self) -> bool {
        forall|j: int|
            0 <= j < self.workspaces@.len() ==> #[trigger] self.workspaces@[j].git_panel_demand
                == self.has_watchers(self.workspaces@[j].workspace_id@)
    }

    /// The bookkeeping is consistent: ids are unique, the watches mirror the clients' open
    /// panels, and each workspace's demand says whether it is watched.
    pub open spec fn wf(self) -> bool {
        &&& self.clients_distinct()
        &&& self.watches_distinct()
        &&& self.watches_match_clients()
        &&& self.workspaces_distinct()
        &&& self.demand_matches_watches()
    }

    /// The workspace with id `w` is known, and its demand is `d`.
    pub open spec fn demand_is(self, w: Seq<char>, d: bool) -> bool {
        exists|j: int|
            0 <= j < self.workspaces@.len() && #[trigger] self.workspaces@[j].workspace_id@ == w
                && self.workspaces@[j].git_panel_demand == d
    }

    /// Some workspace's demand differs between `self` and `other` (with the same workspaces).
    pub open spec fn demand_changed(self, other: Self) -> bool {
        exists|j: int|
            0 <= j < self.workspaces@.len() && #[trigger] self.workspaces@[j].git_panel_demand
                != other.workspaces@[j].git_panel_demand
    }

    pub open spec fn same_workspace_ids(self, other: Self) -> bool {
        &&& self.workspaces@.len() == other.workspaces@.len()
        &&& forall|j: int|
            0 <= j < self.workspaces@.len() ==> #[trigger] self.workspaces@[j].workspace_id@
                == other.workspaces@[j].workspace_id@
    }

    pub open spec fn same_clients(self, other: Self) -> bool {
        forall|c: u64| #[trigger] self.has_client(c) == other.has_client(c)
    }

    /// The bookkeeping for the given workspaces, with no client connected.
    pub fn new(workspace_ids: Vec<String>) -> (r: Self)
        requires
            forall|i: int, j: int|
                0 <= i < j < workspace_ids@.len() ==> #[trigger] workspace_ids@[i]@
                    != #[trigger] workspace_ids@[j]@,
        ensures
            r.wf(),
            r.clients@.len() == 0,
            r.workspaces@.len() == workspace_ids@.len(),
            forall|j: int|
                0 <= j < r.workspaces@.len() ==> #[trigger] r.workspaces@[j].workspace_id@
                    == workspace_ids@[j]@ && !r.workspaces@[j].git_panel_demand,
    {
        let mut workspaces: Vec<WorkspaceDemand> = Vec::new();
        let mut i: usize = 0;
        while i < workspace_ids.len()
            invariant
                i <= workspace_ids@.len(),
                workspaces@.len() == i,
                forall|j: int|
                    0 <= j < i ==> #[trigger] workspaces@[j].workspace_id@ == workspace_ids@[j]@
                        && !workspaces@[j].git_panel_demand,
            decreases workspace_ids@.len() - i,
        {
            workspaces.push(
                WorkspaceDemand { workspace_id: workspace_ids[i].clone(), git_panel_demand: false },
            );
            i = i + 1;
        }
        let r = GitPanelInterest { clients: Vec::new(), watchers: Vec::new(), workspaces };
        assert forall|i: int, j: int|
            0 <= i < j < r.workspaces@.len() implies #[trigger] r.workspaces@[i].workspace_id@
            != #[trigger] r.workspaces@[j].workspace_id@ by {
            assert(r.workspaces@[i].workspace_id@ == workspace_ids@[i]@);
            assert(r.workspaces@[j].workspace_id@ == workspace_ids@[j]@);
        }
        r
    }

    fn find_client(&self, c: u64) -> (r: Option<usize>)
        ensures
            r is None <==> !self.has_client(c),
            r matches Some(i) ==> i < self.clients@.len() && self.clients@[i as int].client_id == c,
    {
        let mut i: usize = 0;
        while i < self.clients.len()
            invariant
                i <= self.clients@.len(),
                forall|k: int| 0 <= k < i ==> self.clients@[k].client_id != c,
            decreases self.clients@.len() - i,
        {
            if self.clients[i].client_id == c {
                return Some(i);
            }
            i = i + 1;
        }
        None
    }

    fn find_watch(&self, w: &String, c: u64) -> (r: Option<usize>)
        ensures
            r is None <==> !self.watched(w@, c),
            r matches Some(k) ==> k < self.watchers@.len() && pair_is(self.watchers@[k as int], w@, c),
    {
        let mut k: usize = 0;
        while k < self.watchers.len()
            invariant
                k <= self.watchers@.len(),
                forall|m: int| 0 <= m < k ==> !#[trigger] pair_is(self.watchers@[m], w@, c),
            decreases self.watchers@.len() - k,
        {
            if self.watchers[k].client_id == c && self.watchers[k].workspace_id == *w {
                assert(pair_is(self.watchers@[k as int], w@, c));
                return Some(k);
            }
            k = k + 1;
        }
        None
    }

    fn any_watcher(&self, w: &String) -> (r: bool)
        ensures
            r == self.has_watchers(w@),
    {
        let mut k: usize = 0;
        while k < self.watchers.len()
            invariant
                k <= self.watchers@.len(),
                forall|m: int| 0 <= m < k ==> !#[trigger] ws_is(self.watchers@[m], w@),
            decreases self.watchers@.len() - k,
        {
            if self.watchers[k].workspace_id == *w {
                assert(ws_is(self.watchers@[k as int], w@));
                return true;
            }
            k = k + 1;
        }
        false
    }

    /// Sets the aggregated demand of workspace `w`. Returns whether it actually changed (it
    /// does not when `w` is unknown or already had demand `d`).
    fn set_demand(&mut self, w: &String, d: bool) -> (r: bool)
        requires
            old(self).workspaces_distinct(),
        ensures
            final(self).clients == old(self).clients,
            final(self).watchers == old(self).watchers,
            final(self).same_workspace_ids(*old(self)),
            final(self).workspaces_distinct(),
            forall|j: int|
                0 <= j < final(self).workspaces@.len() ==> #[trigger] final(self).workspaces@[j].git_panel_demand
                    == if old(self).workspaces@[j].workspace_id@ == w@ {
                    d
                } else {
                    old(self).workspaces@[j].git_panel_demand
                },
            r == final(self).demand_changed(*old(self)),
    {
        let mut j: usize = 0;
        while j < self.workspaces.len()
            invariant
                *self == *old(self),
                old(self).workspaces_distinct(),
                j <= self.workspaces@.len(),
                forall|m: int| 0 <= m < j ==> self.workspaces@[m].workspace_id@ != w@,
            decreases self.workspaces@.len() - j,
        {
            if self.workspaces[j].workspace_id == *w {
                if self.workspaces[j].git_panel_demand == d {
                    return false;
                }
                let id = self.workspaces[j].workspace_id.clone();
                let ghost before = *self;
                self.workspaces.set(j, WorkspaceDemand { workspace_id: id, git_panel_demand: d });
                assert(self.workspaces@[j as int].git_panel_demand != before.workspaces@[j as int].git_panel_demand);
                return true;
            }
            j = j + 1;
        }
        false
    }

    /// Removes the watch of `w` by `c`, and clears `w`'s demand once nobody watches it.
    /// Returns whether any demand changed.
    fn release_watch(&mut self, c: u64, w: &String) -> (r: bool)
        requires
            old(self).watches_distinct(),
            old(self).workspaces_distinct(),
            old(self).demand_matches_watches(),
        ensures
            final(self).clients == old(self).clients,
            final(self).watches_distinct(),
            forall|x: Seq<char>, y: u64|
                #[trigger] final(self).watched(x, y) <==> old(self).watched(x, y) && !(x == w@ && y
                    == c),
            forall|x: Seq<char>|
                #[trigger] final(self).has_watchers(x) <==> exists|y: u64| #[trigger]
                    final(self).watched(x, y),
            final(self).same_workspace_ids(*old(self)),
            final(self).workspaces_distinct(),
            final(self).demand_matches_watches(),
            forall|j: int|
                0 <= j < final(self).workspaces@.len() && #[trigger] old(self).workspaces@[j].workspace_id@
                    != w@ ==> final(self).workspaces@[j].git_panel_demand == old(self).workspaces@[j].git_panel_demand,
            r == final(self).demand_changed(*old(self)),
    {
        let ghost start = *self;
        if !self.any_watcher(w) {
            proof {
                assert forall|x: Seq<char>, y: u64|
                    #[trigger] self.watched(x, y) implies !(x == w@ && y == c) by {
                    if x == w@ && y == c {
                        let k = choose|k: int| 0 <= k < self.watchers@.len() && #[trigger] pair_is(self.watchers@[k], x, y);
                        assert(ws_is(self.watchers@[k], w@));
                    }
                }
                self.lemma_has_watchers_iff_watched();
            }
            return false;
        }
        match self.find_watch(w, c) {
            Some(k) => {
                self.watchers.remove(k);
                proof {
                    self.lemma_removed_watch(start, k as int, w@, c);
                }
            },
            None => {
                assert forall|x: Seq<char>, y: u64|
                    #[trigger] self.watched(x, y) implies !(x == w@ && y == c) by {}
            },
        }
        proof {
            self.lemma_has_watchers_iff_watched();
        }
        if !self.any_watcher(w) {
            let ghost mid = *self;
            let r = self.set_demand(w, false);
            proof {
                start.lemma_has_watchers_iff_watched();
                self.lemma_has_watchers_iff_watched();
                assert forall|j: int|
                    0 <= j < self.workspaces@.len() implies #[trigger] self.workspaces@[j].git_panel_demand
                    == self.has_watchers(self.workspaces@[j].workspace_id@) by {
                    let x = self.workspaces@[j].workspace_id@;
                    if x != w@ {
                        if start.has_watchers(x) {
                            let y = choose|y: u64| #[trigger] start.watched(x, y);
                            assert(mid.watched(x, y));
                            assert(self.watched(x, y));
                        }
                        if self.has_watchers(x) {
                            let y = choose|y: u64| #[trigger] self.watched(x, y);
                            assert(mid.watched(x, y));
                            assert(start.watched(x, y));
                        }
                    }
                }
                assert forall|x: Seq<char>, y: u64|
                    #[trigger] self.watched(x, y) <==> start.watched(x, y) && !(x == w@ && y == c) by {
                    assert(self.watched(x, y) == mid.watched(x, y));
                }
                assert(r == self.demand_changed(start));
            }
            r
        } else {
            proof {
                self.lemma_has_watchers_iff_watched();
                assert forall|j: int|
                    0 <= j < self.workspaces@.len() implies #[trigger] self.workspaces@[j].git_panel_demand
                    == self.has_watchers(self.workspaces@[j].workspace_id@) by {
                    let x = self.workspaces@[j].workspace_id@;
                    start.lemma_has_watchers_iff_watched();
                    if x != w@ {
                        if start.has_watchers(x) {
                            let y = choose|y: u64| #[trigger] start.watched(x, y);
                            assert(self.watched(x, y));
                        }
                        if self.has_watchers(x) {
                            let y = choose|y: u64| #[trigger] self.watched(x, y);
                            assert(start.watched(x, y));
                        }
                    } else {
                        assert(start.has_watchers(x));
                    }
                }
                assert(!self.demand_changed(start));
            }
            false
        }
    }

    /// Records the watch of `w` by `c`, and raises `w`'s demand when it is the first watcher.
    /// Returns whether any demand changed.
    fn acquire_watch(&mut self, c: u64, w: &String) -> (r: bool)
        requires
            old(self).watches_distinct(),
            old(self).workspaces_distinct(),
            old(self).demand_matches_watches(),
        ensures
            final(self).clients == old(self).clients,
            final(self).watches_distinct(),
            forall|x: Seq<char>, y: u64|
                #[trigger] final(self).watched(x, y) <==> old(self).watched(x, y) || (x == w@ && y
                    == c),
            final(self).same_workspace_ids(*old(self)),
            final(self).workspaces_distinct(),
            final(self).demand_matches_watches(),
            forall|j: int|
                0 <= j < final(self).workspaces@.len() && #[trigger] old(self).workspaces@[j].workspace_id@
                    != w@ ==> final(self).workspaces@[j].git_panel_demand == old(self).workspaces@[j].git_panel_demand,
            r == final(self).demand_changed(*old(self)),
    {
        let ghost start = *self;
        let was_empty = !self.any_watcher(w);
        if self.find_watch(w, c).is_none() {
            self.watchers.push(PanelWatch { workspace_id: w.clone(), client_id: c });
            proof {
                let n = start.watchers@.len() as int;
                assert(pair_is(self.watchers@[n], w@, c));
                assert forall|i: int, j: int|
                    0 <= i < j < self.watchers@.len() implies !(#[trigger] self.watchers@[i].workspace_id@
                    == #[trigger] self.watchers@[j].workspace_id@ && self.watchers@[i].client_id
                    == self.watchers@[j].client_id) by {
                    if j == n {
                        if self.watchers@[i].workspace_id@ == w@ && self.watchers@[i].client_id == c {
                            assert(pair_is(start.watchers@[i], w@, c));
                        }
                    }
                }
                assert forall|x: Seq<char>, y: u64|
                    #[trigger] self.watched(x, y) <==> start.watched(x, y) || (x == w@ && y == c) by {
                    if self.watched(x, y) {
                        let m = choose|m: int| 0 <= m < self.watchers@.len() && #[trigger] pair_is(self.watchers@[m], x, y);
                        if m < n {
                            assert(pair_is(start.watchers@[m], x, y));
                        }
                    }
                    if start.watched(x, y) {
                        let m = choose|m: int| 0 <= m < start.watchers@.len() && #[trigger] pair_is(start.watchers@[m], x, y);
                        assert(pair_is(self.watchers@[m], x, y));
                    }
                }
            }
        }
        let ghost mid = *self;
        proof {
            start.lemma_has_watchers_iff_watched();
            mid.lemma_has_watchers_iff_watched();
            assert(mid.watched(w@, c));
            assert(mid.has_watchers(w@));
            assert forall|x: Seq<char>| x != w@ implies #[trigger] mid.has_watchers(x) == start.has_watchers(x) by {
                if mid.has_watchers(x) {
                    let y = choose|y: u64| #[trigger] mid.watched(x, y);
                    assert(start.watched(x, y));
                }
                if start.has_watchers(x) {
                    let y = choose|y: u64| #[trigger] start.watched(x, y);
                    assert(mid.watched(x, y));
                }
            }
        }
        if was_empty {
            let r = self.set_demand(w, true);
            proof {
                assert forall|x: Seq<char>, y: u64|
                    #[trigger] self.watched(x, y) <==> start.watched(x, y) || (x == w@ && y == c) by {
                    assert(self.watched(x, y) == mid.watched(x, y));
                }
                assert forall|j: int|
                    0 <= j < self.workspaces@.len() implies #[trigger] self.workspaces@[j].git_panel_demand
                    == self.has_watchers(self.workspaces@[j].workspace_id@) by {
                    let x = self.workspaces@[j].workspace_id@;
                    assert(self.has_watchers(x) == mid.has_watchers(x));
                }
            }
            r
        } else {
            proof {
                assert forall|j: int|
                    0 <= j < self.workspaces@.len() implies #[trigger] self.workspaces@[j].git_panel_demand
                    == self.has_watchers(self.workspaces@[j].workspace_id@) by {
                    let x = self.workspaces@[j].workspace_id@;
                    if x == w@ {
                        assert(start.has_watchers(x));
                    }
                }
                assert(!self.demand_changed(start));
            }
            false
        }
    }

    /// Applies a `git.panel.set_active` request: records which workspace (if any) `client_id`
    /// is watching, and updates the aggregated per-workspace demand that gates the background
    /// working-tree refresh. A client watches at most one workspace at a time; switching
    /// workspaces implicitly releases the previous one. An unknown client changes nothing.
    ///
    /// Returns whether the aggregated demand changed for any workspace.
    pub fn set_git_panel_watch(&mut self, client_id: u64, workspace_id: String, active: bool) -> (r: bool)
        requires
            old(self).wf(),
        ensures
            final(self).wf(),
            final(self).same_clients(*old(self)),
            final(self).same_workspace_ids(*old(self)),
            !old(self).has_client(client_id) ==> !r && *final(self) == *old(self),
            old(self).has_client(client_id) ==> forall|w: Seq<char>|
                #[trigger] final(self).client_opens(client_id, w) <==> active && w == workspace_id@,
            forall|c: u64, w: Seq<char>|
                c != client_id ==> #[trigger] final(self).client_opens(c, w) == old(self).client_opens(c, w),
            r == final(self).demand_changed(*old(self)),
    {
        let ghost s0 = *self;
        let i = match self.find_client(client_id) {
            None => return false,
            Some(i) => i,
        };
        let previous: Option<String> = match &self.clients[i].open_workspace {
            Some(p) => Some(p.clone()),
            None => None,
        };
        let ghost prev_g = previous;
        let new_open: Option<String> = if active {
            Some(workspace_id.clone())
        } else {
            None
        };
        self.clients.set(i, WatchingClient { client_id, open_workspace: new_open });
        let ghost s1 = *self;
        proof {
            self.lemma_client_update(s0, i as int, client_id);
            assert forall|x: Seq<char>| #[trigger] s0.watched(x, client_id) <==> opt_is(prev_g, x) by {
                if s0.client_opens(client_id, x) {
                    let m = choose|m: int| 0 <= m < s0.clients@.len() && #[trigger] opens(s0.clients@[m], client_id, x);
                    if m != i as int {
                        if m < i {
                            assert(s0.clients@[m].client_id != s0.clients@[i as int].client_id);
                        } else {
                            assert(s0.clients@[i as int].client_id != s0.clients@[m].client_id);
                        }
                    }
                }
                if opt_is(prev_g, x) {
                    assert(opens(s0.clients@[i as int], client_id, x));
                }
            }
        }
        proof {
            assert(s1.watchers == s0.watchers && s1.workspaces == s0.workspaces);
            assert forall|x: Seq<char>| #[trigger] s1.has_watchers(x) == s0.has_watchers(x) by {}
            assert forall|x: Seq<char>, y: u64| #[trigger] s1.watched(x, y) == s0.watched(x, y) by {}
        }
        let mut changed = false;
        let ghost mut released = false;
        match previous {
            Some(prev) => {
                if !active || prev != workspace_id {
                    changed = self.release_watch(client_id, &prev);
                    proof {
                        released = true;
                    }
                }
            },
            None => {},
        }
        let ghost s2 = *self;
        proof {
            assert forall|x: Seq<char>, y: u64|
                #[trigger] s2.watched(x, y) <==> if y == client_id {
                    active && x == workspace_id@ && opt_is(prev_g, x)
                } else {
                    s1.client_opens(y, x)
                } by {
                assert(s0.watched(x, y) == s0.client_opens(y, x));
                assert(s1.watched(x, y) == s0.watched(x, y));
                if y != client_id {
                    assert(s1.client_opens(y, x) == s0.client_opens(y, x));
                    if released {
                        assert(s2.watched(x, y) == s1.watched(x, y));
                    }
                } else {
                    assert(s0.watched(x, client_id) == opt_is(prev_g, x));
                    if released {
                        assert(!s2.watched(x, y));
                    } else {
                        assert(s2.watched(x, y) == s1.watched(x, y));
                    }
                }
            }
        }
        if active {
            let a = self.acquire_watch(client_id, &workspace_id);
            changed = changed || a;
        }
        proof {
            assert forall|x: Seq<char>, y: u64| #[trigger] self.watched(x, y) <==> self.client_opens(y, x) by {
                assert(s2.watched(x, y) == s2.watched(x, y));
                if y == client_id {
                    assert(s1.client_opens(client_id, x) <==> active && x == workspace_id@);
                } else {
                    assert(s1.client_opens(y, x) == s0.client_opens(y, x));
                }
            }
            assert(self.clients == s1.clients);
            assert forall|w: Seq<char>|
                #[trigger] self.client_opens(client_id, w) <==> active && w == workspace_id@ by {
                assert(s1.client_opens(client_id, w) <==> opens(s1.clients@[i as int], client_id, w));
                assert(self.client_opens(client_id, w) == s1.client_opens(client_id, w));
            }
            assert forall|c: u64, w: Seq<char>|
                c != client_id implies #[trigger] self.client_opens(c, w) == s0.client_opens(c, w) by {
                assert(s1.client_opens(c, w) == s0.client_opens(c, w));
                assert(self.client_opens(c, w) == s1.client_opens(c, w));
            }
            assert forall|c: u64| #[trigger] self.has_client(c) == s0.has_client(c) by {
                assert(s1.has_client(c) == s0.has_client(c));
            }
            assert forall|j: int|
                0 <= j < self.workspaces@.len() && #[trigger] self.workspaces@[j].git_panel_demand
                    != s0.workspaces@[j].git_panel_demand implies changed by {
                if s2.workspaces@[j].git_panel_demand != s1.workspaces@[j].git_panel_demand {
                    assert(s2.demand_changed(s1));
                } else {
                    assert(self.workspaces@[j].git_panel_demand != s2.workspaces@[j].git_panel_demand);
                    assert(self.demand_changed(s2));
                }
            }
            if changed {
                if s2.demand_changed(s1) {
                    let j = choose|j: int|
                        0 <= j < s2.workspaces@.len() && #[trigger] s2.workspaces@[j].git_panel_demand
                            != s1.workspaces@[j].git_panel_demand;
                    assert(self.workspaces@[j].git_panel_demand != s0.workspaces@[j].git_panel_demand);
                } else {
                    let j = choose|j: int|
                        0 <= j < self.workspaces@.len() && #[trigger] self.workspaces@[j].git_panel_demand
                            != s2.workspaces@[j].git_panel_demand;
                    assert(self.workspaces@[j].git_panel_demand != s0.workspaces@[j].git_panel_demand);
                }
            }
        }
        changed
    }

    /// Releases whatever git panel `client_id` was watching. Called when the connection drops
    /// without an explicit `git.panel.set_active { active: false }`.
    pub fn release_git_panel_watch_on_disconnect(&mut self, client_id: u64)
        requires
            old(self).wf(),
        ensures
            final(self).wf(),
            final(self).same_clients(*old(self)),
            final(self).same_workspace_ids(*old(self)),
            forall|w: Seq<char>| !#[trigger] final(self).client_opens(client_id, w),
            forall|c: u64, w: Seq<char>|
                c != client_id ==> #[trigger] final(self).client_opens(c, w) == old(self).client_opens(c, w),
    {
        let open: Option<String> = match self.find_client(client_id) {
            Some(i) => match &self.clients[i].open_workspace {
                Some(w) => Some(w.clone()),
                None => None,
            },
            None => None,
        };
        match open {
            Some(w) => {
                self.set_git_panel_watch(client_id, w, false);
            },
            None => {
                assert forall|w: Seq<char>| !#[trigger] self.client_opens(client_id, w) by {
                    if self.client_opens(client_id, w) {
                        let m = choose|m: int| 0 <= m < self.clients@.len() && #[trigger] opens(self.clients@[m], client_id, w);
                        let i = choose|i: int| 0 <= i < self.clients@.len() && #[trigger] self.clients@[i].client_id == client_id;
                        if m != i {
                            if m < i {
                                assert(self.clients@[m].client_id != self.clients@[i].client_id);
                            } else {
                                assert(self.clients@[i].client_id != self.clients@[m].client_id);
                            }
                        }
                    }
                }
            },
        }
    }

    /// A new connection, watching nothing. Returns `false`, changing nothing, when `client_id`
    /// is already connected.
    pub fn add_client(&mut self, client_id: u64) -> (r: bool)
        requires
            old(self).wf(),
        ensures
            final(self).wf(),
            r == !old(self).has_client(client_id),
            final(self).has_client(client_id),
            forall|c: u64| c != client_id ==> #[trigger] final(self).has_client(c) == old(self).has_client(c),
            forall|c: u64, w: Seq<char>|
                #[trigger] final(self).client_opens(c, w) == old(self).client_opens(c, w),
            final(self).workspaces == old(self).workspaces,
    {
        if self.find_client(client_id).is_some() {
            return false;
        }
        let ghost start = *self;
        self.clients.push(WatchingClient { client_id, open_workspace: None });
        proof {
            let n = start.clients@.len() as int;
            assert(self.clients@[n].client_id == client_id);
            assert forall|i: int, j: int|
                0 <= i < j < self.clients@.len() implies #[trigger] self.clients@[i].client_id
                != #[trigger] self.clients@[j].client_id by {
                if j == n {
                    assert(start.clients@[i].client_id == self.clients@[i].client_id);
                }
            }
            assert forall|c: u64| c != client_id implies #[trigger] self.has_client(c) == start.has_client(c) by {
                if self.has_client(c) {
                    let m = choose|m: int| 0 <= m < self.clients@.len() && #[trigger] self.clients@[m].client_id == c;
                    assert(start.clients@[m].client_id == c);
                }
                if start.has_client(c) {
                    let m = choose|m: int| 0 <= m < start.clients@.len() && #[trigger] start.clients@[m].client_id == c;
                    assert(self.clients@[m].client_id == c);
                }
            }
            assert forall|c: u64, w: Seq<char>| #[trigger] self.client_opens(c, w) == start.client_opens(c, w) by {
                if self.client_opens(c, w) {
                    let m = choose|m: int| 0 <= m < self.clients@.len() && #[trigger] opens(self.clients@[m], c, w);
                    assert(opens(start.clients@[m], c, w));
                }
                if start.client_opens(c, w) {
                    let m = choose|m: int| 0 <= m < start.clients@.len() && #[trigger] opens(start.clients@[m], c, w);
                    assert(opens(self.clients@[m], c, w));
                }
            }
            assert forall|x: Seq<char>, y: u64| #[trigger] self.watched(x, y) <==> self.client_opens(y, x) by {
                assert(self.watchers@ == start.watchers@);
                assert(self.watched(x, y) == start.watched(x, y));
            }
            assert forall|x: Seq<char>| #[trigger] self.has_watchers(x) == start.has_watchers(x) by {
                assert(self.watchers@ == start.watchers@);
            }
        }
        true
    }

    /// Drops a connection: first releases whatever it watched, then forgets the client.
    pub fn remove_client(&mut self, client_id: u64)
        requires
            old(self).wf(),
        ensures
            final(self).wf(),
            !final(self).has_client(client_id),
            forall|c: u64| c != client_id ==> #[trigger] final(self).has_client(c) == old(self).has_client(c),
            forall|c: u64, w: Seq<char>|
                c != client_id ==> #[trigger] final(self).client_opens(c, w) == old(self).client_opens(c, w),
            final(self).same_workspace_ids(*old(self)),
    {
        self.release_git_panel_watch_on_disconnect(client_id);
        match self.find_client(client_id) {
            Some(i) => {
                let ghost start = *self;
                self.clients.remove(i);
                proof {
                    let ii = i as int;
                    assert forall|a: int, b: int|
                        0 <= a < b < self.clients@.len() implies #[trigger] self.clients@[a].client_id
                        != #[trigger] self.clients@[b].client_id by {
                        let oa = if a < ii { a } else { a + 1 };
                        let ob = if b < ii { b } else { b + 1 };
                        assert(self.clients@[a] == start.clients@[oa]);
                        assert(self.clients@[b] == start.clients@[ob]);
                        assert(start.clients@[oa].client_id != start.clients@[ob].client_id);
                    }
                    assert forall|c: u64| #[trigger] self.has_client(c) == (start.has_client(c) && c != client_id) by {
                        if self.has_client(c) {
                            let m = choose|m: int| 0 <= m < self.clients@.len() && #[trigger] self.clients@[m].client_id == c;
                            let om = if m < ii { m } else { m + 1 };
                            assert(self.clients@[m] == start.clients@[om]);
                            assert(start.clients@[om].client_id == c);
                            if c == client_id {
                                if om < ii {
                                    assert(start.clients@[om].client_id != start.clients@[ii].client_id);
                                } else {
                                    assert(start.clients@[ii].client_id != start.clients@[om].client_id);
                                }
                            }
                        }
                        if start.has_client(c) && c != client_id {
                            let m = choose|m: int| 0 <= m < start.clients@.len() && #[trigger] start.clients@[m].client_id == c;
                            assert(m != ii);
                            let nm = if m < ii { m } else { m - 1 };
                            assert(self.clients@[nm] == start.clients@[m]);
                        }
                    }
                    assert forall|c: u64, w: Seq<char>|
                        #[trigger] self.client_opens(c, w) == (start.client_opens(c, w) && c != client_id) by {
                        if self.client_opens(c, w) {
                            let m = choose|m: int| 0 <= m < self.clients@.len() && #[trigger] opens(self.clients@[m], c, w);
                            let om = if m < ii { m } else { m + 1 };
                            assert(self.clients@[m] == start.clients@[om]);
                            assert(opens(start.clients@[om], c, w));
                        }
                        if start.client_opens(c, w) && c != client_id {
                            let m = choose|m: int| 0 <= m < start.clients@.len() && #[trigger] opens(start.clients@[m], c, w);
                            assert(m != ii);
                            let nm = if m < ii { m } else { m - 1 };
                            assert(self.clients@[nm] == start.clients@[m]);
                            assert(opens(self.clients@[nm], c, w));
                        }
                    }
                    assert forall|x: Seq<char>, y: u64| #[trigger] self.watched(x, y) <==> self.client_opens(y, x) by {
                        assert(self.watchers@ == start.watchers@);
                        assert(self.watched(x, y) == start.watched(x, y));
                        assert(start.watched(x, y) == start.client_opens(y, x));
                    }
                    assert forall|x: Seq<char>| #[trigger] self.has_watchers(x) == start.has_watchers(x) by {
                        assert(self.watchers@ == start.watchers@);
                    }
                }
            },
            None => {},
        }
    }

    /// The aggregated demand of workspace `workspace_id`, or `None` when it is unknown.
    pub fn git_panel_demand(&self, workspace_id: &String) -> (r: Option<bool>)
        requires
            self.workspaces_distinct(),
        ensures
            match r {
                Some(d) => self.demand_is(workspace_id@, d),
                None => forall|j: int|
                    0 <= j < self.workspaces@.len() ==> #[trigger] self.workspaces@[j].workspace_id@
                        != workspace_id@,
            },
    {
        let mut j: usize = 0;
        while j < self.workspaces.len()
            invariant
                j <= self.workspaces@.len(),
                forall|m: int| 0 <= m < j ==> #[trigger] self.workspaces@[m].workspace_id@ != workspace_id@,
            decreases self.workspaces@.len() - j,
        {
            if self.workspaces[j].workspace_id == *workspace_id {
                return Some(self.workspaces[j].git_panel_demand);
            }
            j = j + 1;
        }
        None
    }

    /// Replacing client `i`'s entry (same id) changes only what client `c` opens.
    proof fn lemma_client_update(self, start: Self, i: int, c: u64)
        requires
            start.clients_distinct(),
            0 <= i < start.clients@.len(),
            start.clients@[i].client_id == c,
            self.clients@ == start.clients@.update(i, self.clients@[i]),
            self.clients@[i].client_id == c,
        ensures
            self.clients_distinct(),
            forall|d: u64| #[trigger] self.has_client(d) == start.has_client(d),
            forall|d: u64, w: Seq<char>|
                d != c ==> #[trigger] self.client_opens(d, w) == start.client_opens(d, w),
            forall|w: Seq<char>|
                #[trigger] self.client_opens(c, w) <==> opens(self.clients@[i], c, w),
    {
        assert forall|a: int, b: int|
            0 <= a < b < self.clients@.len() implies #[trigger] self.clients@[a].client_id
            != #[trigger] self.clients@[b].client_id by {
            assert(self.clients@[a].client_id == start.clients@[a].client_id);
            assert(self.clients@[b].client_id == start.clients@[b].client_id);
        }
        assert forall|d: u64| #[trigger] self.has_client(d) == start.has_client(d) by {
            if start.has_client(d) {
                let m = choose|m: int| 0 <= m < start.clients@.len() && #[trigger] start.clients@[m].client_id == d;
                assert(self.clients@[m].client_id == d);
            }
            if self.has_client(d) {
                let m = choose|m: int| 0 <= m < self.clients@.len() && #[trigger] self.clients@[m].client_id == d;
                assert(start.clients@[m].client_id == d);
            }
        }
        assert forall|d: u64, w: Seq<char>|
            d != c implies #[trigger] self.client_opens(d, w) == start.client_opens(d, w) by {
            if start.client_opens(d, w) {
                let m = choose|m: int| 0 <= m < start.clients@.len() && #[trigger] opens(start.clients@[m], d, w);
                assert(opens(self.clients@[m], d, w));
            }
            if self.client_opens(d, w) {
                let m = choose|m: int| 0 <= m < self.clients@.len() && #[trigger] opens(self.clients@[m], d, w);
                assert(opens(start.clients@[m], d, w));
            }
        }
        assert forall|w: Seq<char>| #[trigger] self.client_opens(c, w) <==> opens(self.clients@[i], c, w) by {
            if self.client_opens(c, w) {
                let m = choose|m: int| 0 <= m < self.clients@.len() && #[trigger] opens(self.clients@[m], c, w);
                if m != i {
                    if m < i {
                        assert(self.clients@[m].client_id != self.clients@[i].client_id);
                    } else {
                        assert(self.clients@[i].client_id != self.clients@[m].client_id);
                    }
                }
            }
        }
    }

    /// `has_watchers` is `watched` for some client.
    proof fn lemma_has_watchers_iff_watched(self)
        ensures
            forall|x: Seq<char>|
                #[trigger] self.has_watchers(x) <==> exists|y: u64| #[trigger] self.watched(x, y),
    {
        assert forall|x: Seq<char>| #[trigger] self.has_watchers(x) implies exists|y: u64|
            #[trigger] self.watched(x, y) by {
            let k = choose|k: int| 0 <= k < self.watchers@.len() && #[trigger] ws_is(self.watchers@[k], x);
            assert(pair_is(self.watchers@[k], x, self.watchers@[k].client_id));
            assert(self.watched(x, self.watchers@[k].client_id));
        }
        assert forall|x: Seq<char>|
            (exists|y: u64| #[trigger] self.watched(x, y)) implies #[trigger] self.has_watchers(x) by {
            let y = choose|y: u64| #[trigger] self.watched(x, y);
            let k = choose|k: int| 0 <= k < self.watchers@.len() && #[trigger] pair_is(self.watchers@[k], x, y);
            assert(ws_is(self.watchers@[k], x));
        }
    }

    /// Removing the watch at index `k`, which is `(w, c)`, drops exactly that watch.
    proof fn lemma_removed_watch(self, start: Self, k: int, w: Seq<char>, c: u64)
        requires
            start.watches_distinct(),
            0 <= k < start.watchers@.len(),
            pair_is(start.watchers@[k], w, c),
            self.watchers@ == start.watchers@.remove(k),
        ensures
            self.watches_distinct(),
            forall|x: Seq<char>, y: u64|
                #[trigger] self.watched(x, y) <==> start.watched(x, y) && !(x == w && y == c),
    {
        assert forall|i: int, j: int|
            0 <= i < j < self.watchers@.len() implies !(#[trigger] self.watchers@[i].workspace_id@
            == #[trigger] self.watchers@[j].workspace_id@ && self.watchers@[i].client_id
            == self.watchers@[j].client_id) by {
            let oi = if i < k { i } else { i + 1 };
            let oj = if j < k { j } else { j + 1 };
            assert(self.watchers@[i] == start.watchers@[oi]);
            assert(self.watchers@[j] == start.watchers@[oj]);
            assert(start.watchers@[oi].workspace_id@ == start.watchers@[oi].workspace_id@);
            assert(start.watchers@[oj].workspace_id@ == start.watchers@[oj].workspace_id@);
        }
        assert forall|x: Seq<char>, y: u64|
            #[trigger] self.watched(x, y) <==> start.watched(x, y) && !(x == w && y == c) by {
            if self.watched(x, y) {
                let m = choose|m: int| 0 <= m < self.watchers@.len() && #[trigger] pair_is(self.watchers@[m], x, y);
                let om = if m < k { m } else { m + 1 };
                assert(self.watchers@[m] == start.watchers@[om]);
                assert(pair_is(start.watchers@[om], x, y));
                if x == w && y == c {
                    assert(start.watchers@[om].workspace_id@ == start.watchers@[k].workspace_id@);
                    if om < k {
                        assert(start.watchers@[om].workspace_id@ == start.watchers@[om].workspace_id@);
                    }
                }
            }
            if start.watched(x, y) && !(x == w && y == c) {
                let m = choose|m: int| 0 <= m < start.watchers@.len() && #[trigger] pair_is(start.watchers@[m], x, y);
                assert(m != k);
                let nm = if m < k { m } else { m - 1 };
                assert(self.watchers@[nm] == start.watchers@[m]);
                assert(pair_is(self.watchers@[nm], x, y));
            }
        }
    }
}

/// A workspace's git panel demand is on exactly when some connected client shows its git panel.
pub proof fn lemma_demand_tracks_watching_clients(s: GitPanelInterest)
    requires
        s.wf(),
    ensures
        forall|j: int|
            0 <= j < s.workspaces@.len() ==> (#[trigger] s.workspaces@[j].git_panel_demand
                <==> exists|c: u64| #[trigger] s.client_opens(c, s.workspaces@[j].workspace_id@)),
{
    s.lemma_has_watchers_iff_watched();
    assert forall|j: int|
        0 <= j < s.workspaces@.len() implies (#[trigger] s.workspaces@[j].git_panel_demand
        <==> exists|c: u64| #[trigger] s.client_opens(c, s.workspaces@[j].workspace_id@)) by {
        let x = s.workspaces@[j].workspace_id@;
        if s.workspaces@[j].git_panel_demand {
            let c = choose|c: u64| #[trigger] s.watched(x, c);
            assert(s.client_opens(c, x));
        }
        if exists|c: u64| #[trigger] s.client_opens(c, x) {
            let c = choose|c: u64| #[trigger] s.client_opens(c, x);
            assert(s.watched(x, c));
        }
    }
}

/// The demand of every workspace is determined by who watches what: two consistent states over
/// the same workspaces whose clients show the same panels have the same demands.
pub proof fn lemma_demand_determined_by_watches(a: GitPanelInterest, b: GitPanelInterest)
    requires
        a.wf(),
        b.wf(),
        b.same_workspace_ids(a),
        forall|c: u64, w: Seq<char>| #[trigger] b.client_opens(c, w) == a.client_opens(c, w),
    ensures
        !b.demand_changed(a),
{
    lemma_demand_tracks_watching_clients(a);
    lemma_demand_tracks_watching_clients(b);
    assert forall|j: int|
        0 <= j < b.workspaces@.len() implies #[trigger] b.workspaces@[j].git_panel_demand
        == a.workspaces@[j].git_panel_demand by {
        let x = b.workspaces@[j].workspace_id@;
        assert(x == a.workspaces@[j].workspace_id@);
        if a.workspaces@[j].git_panel_demand {
            let c = choose|c: u64| #[trigger] a.client_opens(c, x);
            assert(b.client_opens(c, x));
        }
        if b.workspaces@[j].git_panel_demand {
            let c = choose|c: u64| #[trigger] b.client_opens(c, x);
            assert(a.client_opens(c, x));
        }
    }
}

} // verus!
