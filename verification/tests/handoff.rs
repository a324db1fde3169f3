use herdr::handoff::{
    distinct_count, update_handoff_blocker, AgentResumePlan, AgentState, HandoffTerminal,
    PendingUpdateHandoff, UpdateHandoffBlocker,
};

fn agent_terminal(agent_state: AgentState) -> HandoffTerminal {
    let mut terminal = HandoffTerminal::new();
    terminal.agent_name = Some("codex".to_string());
    terminal.state = agent_state;
    terminal
}

const LIMIT: usize = 64;

#[test]
fn blocker_is_clear_for_idle_and_blocked_agents() {
    let terminals = vec![
        agent_terminal(AgentState::Idle),
        agent_terminal(AgentState::Blocked),
        agent_terminal(AgentState::Unknown),
    ];
    assert_eq!(update_handoff_blocker(&terminals, &[], LIMIT, false), None);
}

#[test]
fn blocker_reports_a_working_agent() {
    let terminals = vec![
        agent_terminal(AgentState::Idle),
        agent_terminal(AgentState::Working),
    ];
    assert_eq!(
        update_handoff_blocker(&terminals, &[], LIMIT, false),
        Some(UpdateHandoffBlocker::AgentWorking)
    );
}

#[test]
fn blocker_ignores_working_state_on_a_non_agent_terminal() {
    let mut shell = HandoffTerminal::new();
    shell.state = AgentState::Working;
    let terminals = vec![shell];
    assert_eq!(update_handoff_blocker(&terminals, &[], LIMIT, false), None);
}

#[test]
fn blocker_reports_handoff_in_progress_first() {
    let terminals = vec![agent_terminal(AgentState::Working)];
    assert_eq!(
        update_handoff_blocker(&terminals, &[], LIMIT, true),
        Some(UpdateHandoffBlocker::HandoffInProgress)
    );
}

#[test]
fn blocker_reports_a_pending_agent_resume() {
    let mut terminal = agent_terminal(AgentState::Idle);
    terminal.pending_agent_resume_plan = Some(AgentResumePlan {
        agent: "codex".to_string(),
        argv: vec!["--resume".to_string()],
        dedupe_key: "k".to_string(),
    });
    let terminals = vec![terminal];
    assert_eq!(
        update_handoff_blocker(&terminals, &[], LIMIT, false),
        Some(UpdateHandoffBlocker::AgentResumePending)
    );
}

#[test]
fn blocker_reports_too_many_panes() {
    let attached: Vec<u64> = (0..=LIMIT as u64).collect();
    assert_eq!(
        update_handoff_blocker(&[], &attached, LIMIT, false),
        Some(UpdateHandoffBlocker::TooManyPanes)
    );
}

#[test]
fn panes_sharing_a_terminal_count_once() {
    let mut attached: Vec<u64> = (0..LIMIT as u64).collect();
    attached.extend(0..LIMIT as u64);
    assert_eq!(distinct_count(&attached), LIMIT);
    assert_eq!(update_handoff_blocker(&[], &attached, LIMIT, false), None);
}

#[test]
fn blocker_reports_a_pending_launch_before_a_resume() {
    let mut launching = HandoffTerminal::new();
    launching.agent_launch_pending = true;
    let mut resuming = agent_terminal(AgentState::Idle);
    resuming.pending_agent_resume_plan = Some(AgentResumePlan {
        agent: "codex".to_string(),
        argv: Vec::new(),
        dedupe_key: "k".to_string(),
    });
    let terminals = vec![resuming, launching];
    assert_eq!(
        update_handoff_blocker(&terminals, &[], LIMIT, false),
        Some(UpdateHandoffBlocker::AgentLaunchPending)
    );
}

#[test]
fn blocker_texts() {
    assert_eq!(UpdateHandoffBlocker::HandoffInProgress.as_str(), "handoff already in progress");
    assert_eq!(UpdateHandoffBlocker::AgentWorking.as_str(), "an agent is working");
    assert_eq!(UpdateHandoffBlocker::AgentLaunchPending.as_str(), "an agent launch is pending");
    assert_eq!(UpdateHandoffBlocker::AgentResumePending.as_str(), "an agent resume is pending");
    assert_eq!(UpdateHandoffBlocker::TooManyPanes.as_str(), "too many panes for one handoff");
}

#[test]
fn pending_handoff_starts_with_no_probes() {
    let pending = PendingUpdateHandoff::new("1.2.3".to_string(), "/usr/bin/herdr".to_string(), Some(4));
    assert_eq!(pending.version, "1.2.3");
    assert_eq!(pending.clear_probes, 0);
    assert!(!pending.blocked_logged);
    assert_eq!(pending.target_protocol, Some(4));
}

#[test]
fn a_failed_handoff_drops_the_pending_attempt_and_notifies_in_app() {
    let mut pending = Some(herdr::handoff::PendingUpdateHandoff::new("1.2.3".into(), "/bin/herdr".into(), Some(4)));
    let mut next: Option<u64> = Some(17);
    let toast = herdr::handoff::record_update_handoff_failure(&mut pending, &mut next, "1.2.3", true).unwrap();
    assert!(pending.is_none());
    assert!(next.is_none());
    assert_eq!(toast.title, "v1.2.3 handoff failed");
    assert_eq!(toast.context, "restart Herdr when ready to use the new version");

    let mut pending = Some(herdr::handoff::PendingUpdateHandoff::new("2.0.0".into(), "/bin/herdr".into(), None));
    let mut next: Option<u64> = None;
    assert!(herdr::handoff::record_update_handoff_failure(&mut pending, &mut next, "2.0.0", false).is_none());
    assert!(pending.is_none());
}
