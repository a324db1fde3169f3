//! Deciding when an installed update may replace the running server.
//!
//! Phase A (download + install) runs on the background update thread. Phase B parks a
//! [`PendingUpdateHandoff`] and, on a timer, checks [`update_handoff_blocker`], a pure read over
//! the session's terminals and panes, before starting the live handoff. The blocker keeps the
//! handoff away from any moment a coding agent is mid-task, where the brief client reconnect
//! would interrupt it.
use vstd::prelude::*;

verus! {

/// How long to wait before re-checking after the handoff was blocked, in seconds.
pub const UPDATE_HANDOFF_RETRY_INTERVAL_SECS: u64 = 60;

/// Gap between the consecutive clear probes required before handing off, in seconds.
pub const UPDATE_HANDOFF_SETTLE_INTERVAL_SECS: u64 = 15;

/// Consecutive clear probes required. Agent state can flicker to `Idle` at tool-call
/// boundaries, so one clear reading is not enough.
pub const UPDATE_HANDOFF_SETTLE_PROBES: u8 = 2;

/// What the detector last read from an agent's screen.
#[derive(Debug, Clone, Copy, PartialEq, Eq, Structural)]
pub enum AgentState {
    Idle,
    Working,
    Blocked,
    Unknown,
}

/// How a managed agent is to be resumed once its terminal is ready.
#[derive(Debug, Clone, PartialEq, Eq)]
pub struct AgentResumePlan {
    pub agent: String,
    pub argv: Vec<String>,
    pub dedupe_key: String,
}

/// What the handoff check reads of one terminal of the session.
#[derive(Debug, Clone)]
pub struct HandoffTerminal {
    /// The coding agent detected in the terminal, if any.
    pub agent_name: Option<String>,
    pub state: AgentState,
    /// A managed agent launch was requested and has not started yet.
    pub agent_launch_pending: bool,
    pub pending_agent_resume_plan: Option<AgentResumePlan>,
}

impl HandoffTerminal {
    /// A fresh shell terminal: no agent, nothing pending.
    pub fn new() -> (r: Self)
        ensures
            r.agent_name is None,
            r.state == AgentState::Unknown,
            !r.agent_launch_pending,
            r.pending_agent_resume_plan is None,
    {
        HandoffTerminal {
            agent_name: None,
            state: AgentState::Unknown,
            agent_launch_pending: false,
            pending_agent_resume_plan: None,
        }
    }

    /// Whether a coding agent runs in this terminal.
    pub fn is_agent_terminal(&self) -> (r: bool)
        ensures
            r == self.agent_name is Some,
    {
        self.agent_name.is_some()
    }
}

/// An installed update waiting for a safe moment to take over the session.
#[derive(Debug, Clone, PartialEq, Eq)]
pub struct PendingUpdateHandoff {
    pub version: String,
    pub exe_path: String,
    pub target_protocol: Option<u32>,
    /// Consecutive clear probes seen so far.
    pub clear_probes: u8,
    /// Whether the "blocked" reason has been logged at info once already.
    pub blocked_logged: bool,
}

impl PendingUpdateHandoff {
    pub fn new(version: String, exe_path: String, target_protocol: Option<u32>) -> (r: Self)
        ensures
            r.version == version,
            r.exe_path == exe_path,
            r.target_protocol == target_protocol,
            r.clear_probes == 0,
            !r.blocked_logged,
    {
        PendingUpdateHandoff { version, exe_path, target_protocol, clear_probes: 0, blocked_logged: false }
    }
}

/// Why the pending update handoff cannot run right now.
#[derive(Debug, Clone, Copy, PartialEq, Eq, Structural)]
pub enum UpdateHandoffBlocker {
    HandoffInProgress,
    AgentWorking,
    AgentLaunchPending,
    AgentResumePending,
    TooManyPanes,
}

pub open spec fn blocker_text(b: UpdateHandoffBlocker) -> Seq<char> {
    match b {
        UpdateHandoffBlocker::HandoffInProgress => "handoff already in progress"@,
        UpdateHandoffBlocker::AgentWorking => "an agent is working"@,
        UpdateHandoffBlocker::AgentLaunchPending => "an agent launch is pending"@,
        UpdateHandoffBlocker::AgentResumePending => "an agent resume is pending"@,
        UpdateHandoffBlocker::TooManyPanes => "too many panes for one handoff"@,
    }
}

impl UpdateHandoffBlocker {
    pub fn as_str(self) -> (r: &'static str)
        ensures
            r@ == blocker_text(self),
    {
        match self {
            UpdateHandoffBlocker::HandoffInProgress => "handoff already in progress",
            UpdateHandoffBlocker::AgentWorking => "an agent is working",
            UpdateHandoffBlocker::AgentLaunchPending => "an agent launch is pending",
            UpdateHandoffBlocker::AgentResumePending => "an agent resume is pending",
            UpdateHandoffBlocker::TooManyPanes => "too many panes for one handoff",
        }
    }
}

pub open spec fn working_agent(t: HandoffTerminal) -> bool {
    t.agent_name is Some && t.state == AgentState::Working
}

pub open spec fn resume_pending(t: HandoffTerminal) -> bool {
    t.pending_agent_resume_plan is Some
}

pub open spec fn any_working_agent(ts: Seq<HandoffTerminal>) -> bool {
    exists|i: int| 0 <= i < ts.len() && #[trigger] working_agent(ts[i])
}

pub open spec fn any_launch_pending(ts: Seq<HandoffTerminal>) -> bool {
    exists|i: int| 0 <= i < ts.len() && #[trigger] ts[i].agent_launch_pending
}

pub open spec fn any_resume_pending(ts: Seq<HandoffTerminal>) -> bool {
    exists|i: int| 0 <= i < ts.len() && #[trigger] resume_pending(ts[i])
}

/// The first blocking condition, in this order of priority: a handoff already running, a
/// working agent (`Idle`, `Blocked` and `Unknown` agents are safe: terminals survive the
/// handoff, so a blocked prompt survives it untouched), a pending managed agent launch, a
/// pending agent resume, and more distinct attached terminals than one handoff can carry.
/// The limit is on distinct attached terminals, not on panes: two panes showing one terminal
/// hand over one descriptor.
pub open spec fn handoff_blocker(
    terminals: Seq<HandoffTerminal>,
    attached: Seq<u64>,
    max_attached: nat,
    handoff_in_progress: bool,
) -> Option<UpdateHandoffBlocker> {
    if handoff_in_progress {
        Some(UpdateHandoffBlocker::HandoffInProgress)
    } else if any_working_agent(terminals) {
        Some(UpdateHandoffBlocker::AgentWorking)
    } else if any_launch_pending(terminals) {
        Some(UpdateHandoffBlocker::AgentLaunchPending)
    } else if any_resume_pending(terminals) {
        Some(UpdateHandoffBlocker::AgentResumePending)
    } else if attached.to_set().len() > max_attached {
        Some(UpdateHandoffBlocker::TooManyPanes)
    } else {
        None
    }
}

fn contains_id(ids: &Vec<u64>, id: u64) -> (r: bool)
    ensures
        r == ids@.contains(id),
{
    let mut i: usize = 0;
    while i < ids.len()
        invariant
            i <= ids@.len(),
            forall|k: int| 0 <= k < i ==> ids@[k] != id,
        decreases ids@.len() - i,
    {
        if ids[i] == id {
            return true;
        }
        i = i + 1;
    }
    false
}

/// How many distinct values `ids` holds.
pub fn distinct_count(ids: &[u64]) -> (n: usize)
    ensures
        n == ids@.to_set().len(),
{
    let mut seen: Vec<u64> = Vec::new();
    let mut i: usize = 0;
    while i < ids.len()
        invariant
            i <= ids@.len(),
            seen@.no_duplicates(),
            seen@.to_set() =~= ids@.take(i as int).to_set(),
            seen@.len() <= i,
        decreases ids@.len() - i,
    {
        let id = ids[i];
        proof {
            assert(ids@.take(i + 1) =~= ids@.take(i as int).push(id));
            ids@.take(i as int).lemma_push_to_set_commute(id);
        }
        if !contains_id(&seen, id) {
            proof {
                seen@.lemma_push_to_set_commute(id);
            }
            seen.push(id);
        } else {
            assert(ids@.take(i as int).to_set().contains(id));
            assert(ids@.take(i as int).to_set().insert(id) =~= ids@.take(i as int).to_set());
        }
        i = i + 1;
    }
    proof {
        assert(ids@.take(i as int) =~= ids@);
        seen@.unique_seq_to_set();
    }
    seen.len()
}

/// The first condition that blocks a live handoff right now, or `None` when it is safe to
/// start; see [`handoff_blocker`] for the order. `attached_terminal_ids` holds the terminal
/// each pane of every tab of every workspace is attached to, and `max_attached_terminals` the
/// most terminals one handoff can pass on.
pub fn update_handoff_blocker(
    terminals: &[HandoffTerminal],
    attached_terminal_ids: &[u64],
    max_attached_terminals: usize,
    handoff_in_progress: bool,
) -> (r: Option<UpdateHandoffBlocker>)
    ensures
        r == handoff_blocker(
            terminals@,
            attached_terminal_ids@,
            max_attached_terminals as nat,
            handoff_in_progress,
        ),
{
    if handoff_in_progress {
        return Some(UpdateHandoffBlocker::HandoffInProgress);
    }
    let mut i: usize = 0;
    while i < terminals.len()
        invariant
            i <= terminals@.len(),
            !handoff_in_progress,
            forall|k: int| 0 <= k < i ==> !#[trigger] working_agent(terminals@[k]),
        decreases terminals@.len() - i,
    {
        if terminals[i].is_agent_terminal() && terminals[i].state == AgentState::Working {
            assert(working_agent(terminals@[i as int]));
            return Some(UpdateHandoffBlocker::AgentWorking);
        }
        i = i + 1;
    }
    let mut i: usize = 0;
    while i < terminals.len()
        invariant
            i <= terminals@.len(),
            !handoff_in_progress,
            !any_working_agent(terminals@),
            forall|k: int| 0 <= k < i ==> !#[trigger] terminals@[k].agent_launch_pending,
        decreases terminals@.len() - i,
    {
        if terminals[i].agent_launch_pending {
            assert(terminals@[i as int].agent_launch_pending);
            return Some(UpdateHandoffBlocker::AgentLaunchPending);
        }
        i = i + 1;
    }
    let mut i: usize = 0;
    while i < terminals.len()
        invariant
            i <= terminals@.len(),
            !handoff_in_progress,
            !any_working_agent(terminals@),
            !any_launch_pending(terminals@),
            forall|k: int| 0 <= k < i ==> !#[trigger] resume_pending(terminals@[k]),
        decreases terminals@.len() - i,
    {
        if terminals[i].pending_agent_resume_plan.is_some() {
            assert(resume_pending(terminals@[i as int]));
            return Some(UpdateHandoffBlocker::AgentResumePending);
        }
        i = i + 1;
    }
    if distinct_count(attached_terminal_ids) > max_attached_terminals {
        return Some(UpdateHandoffBlocker::TooManyPanes);
    }
    None
}

/// The notice shown when an update was installed but the handoff to it failed.
#[derive(Debug, Clone)]
pub struct HandoffFailureToast {
    pub title: String,
    pub context: String,
}

/// Records that the handoff to `version` failed: the pending handoff and its next attempt are
/// dropped (the installed update stays, and relaunching by hand still works), and, when
/// notifications are delivered in the application itself, a notice says so.
pub fn record_update_handoff_failure<T>(
    pending: &mut Option<PendingUpdateHandoff>,
    next_attempt: &mut Option<T>,
    version: &str,
    deliver_in_app: bool,
) -> (toast: Option<HandoffFailureToast>)
    ensures
        *final(pending) is None,
        *final(next_attempt) is None,
        !deliver_in_app ==> toast is None,
        deliver_in_app ==> (toast matches Some(t) && t.title@ == "v"@ + version@ + " handoff failed"@
            && t.context@ == "restart Herdr when ready to use the new version"@),
{
    *pending = None;
    *next_attempt = None;
    if !deliver_in_app {
        return None;
    }
    let mut title = "v".to_owned();
    title.append(version);
    title.append(" handoff failed");
    Some(HandoffFailureToast { title, context: "restart Herdr when ready to use the new version".to_owned() })
}

} // verus!
