use herdr::config::{CommitAgentConfig, CommitAgentRegistry, CommitAgentsConfig};

#[test]
fn the_default_shape_is_one_active_agent() {
    let config = CommitAgentsConfig::single_active_agent(
        "codex".into(),
        "Codex".into(),
        "codex".into(),
        "exec".into(),
    );
    assert_eq!(config.active.as_deref(), Some("codex"));
    assert_eq!(config.agents.len(), 1);
    assert_eq!(config.agents[0].id, "codex");
    assert_eq!(config.agents[0].command, "codex");
    assert_eq!(config.agents[0].args, vec!["exec".to_string()]);
    assert!(config.diagnostics().is_empty());
}

#[test]
fn active_agent_not_in_the_list_produces_a_diagnostic() {
    let configured = CommitAgentsConfig::single_active_agent("codex".into(), "Codex".into(), "codex".into(), "exec".into());
    let config = CommitAgentsConfig { active: Some("missing".to_string()), ..configured };
    let diagnostics = config.diagnostics();
    assert!(diagnostics
        .iter()
        .any(|diagnostic| diagnostic.contains("commit_agents.active") && diagnostic.contains("missing")));
    assert_eq!(
        diagnostics,
        vec!["commit_agents.active = \"missing\" does not match any configured commit_agents.agents id; no commit agent is active".to_string()]
    );
}

#[test]
fn a_disabled_config_has_no_diagnostics() {
    let disabled = CommitAgentsConfig { active: None, agents: Vec::new() };
    assert!(disabled.diagnostics().is_empty());
}

fn agent(id: &str, label: &str, command: &str, args: &[&str]) -> CommitAgentConfig {
    CommitAgentConfig {
        id: id.into(),
        label: label.into(),
        command: command.into(),
        args: args.iter().map(|a| a.to_string()).collect(),
    }
}

#[test]
fn list_reports_configured_agents_and_the_active_one() {
    let registry = CommitAgentRegistry {
        agents: vec![agent("codex", "Codex", "codex", &["exec"])],
        active: Some("codex".into()),
    };
    let infos = registry.agent_infos();
    assert_eq!(infos.len(), 1);
    assert_eq!(infos[0].id, "codex");
    assert_eq!(infos[0].label, "Codex");
    assert_eq!(infos[0].command, "codex");
    assert_eq!(registry.active.as_deref(), Some("codex"));
}

#[test]
fn set_active_rejects_an_unknown_agent_id() {
    let mut registry = CommitAgentRegistry { agents: Vec::new(), active: None };
    let err = registry.check_set_active(&"missing".to_string()).unwrap_err();
    assert_eq!(err.code, "unknown_commit_agent");
    assert_eq!(err.message, "no commit agent is configured with id \"missing\"");
    assert!(!registry.set_active("missing".to_string()));
    assert_eq!(registry.active, None);

    let answer = registry.handle_commit_agent_set_active("missing".to_string(), |_id: &String| -> Result<(), String> {
        panic!("an unknown agent id must not be saved")
    });
    let err = answer.unwrap_err();
    assert_eq!(err.code, "unknown_commit_agent");
    assert_eq!(err.message, "no commit agent is configured with id \"missing\"");
    assert_eq!(registry.active, None);
}

#[test]
fn set_active_persists_a_known_agent_id() {
    let mut registry = CommitAgentRegistry {
        agents: vec![agent("codex", "Codex", "codex", &["exec"])],
        active: None,
    };
    let mut saved_ids: Vec<String> = Vec::new();
    let answer = registry.handle_commit_agent_set_active("codex".to_string(), |id: &String| {
        saved_ids.push(id.clone());
        Ok(())
    });
    assert_eq!(answer, Ok(Some("codex".to_string())));
    assert_eq!(registry.active.as_deref(), Some("codex"));
    assert_eq!(saved_ids, vec!["codex".to_string()]);
}

#[test]
fn a_failed_save_leaves_the_active_agent_unchanged() {
    let mut registry = CommitAgentRegistry {
        agents: vec![agent("codex", "Codex", "codex", &["exec"]), agent("other", "Other", "other", &[])],
        active: Some("other".to_string()),
    };
    let answer = registry.handle_commit_agent_set_active("codex".to_string(), |_id: &String| Err("disk full".to_string()));
    let err = answer.unwrap_err();
    assert_eq!(err.code, "commit_agent_set_active_failed");
    assert_eq!(err.message, "disk full");
    assert_eq!(registry.active.as_deref(), Some("other"));
    assert_eq!(registry.agents.len(), 2);
}

#[test]
fn answer_set_active_follows_the_save_outcome() {
    let mut registry = CommitAgentRegistry { agents: vec![agent("codex", "Codex", "codex", &["exec"])], active: None };
    let err = registry.answer_set_active("missing".to_string(), Ok(())).unwrap_err();
    assert_eq!(err.code, "unknown_commit_agent");
    assert_eq!(registry.active, None);
    let err = registry.answer_set_active("codex".to_string(), Err("read-only".to_string())).unwrap_err();
    assert_eq!(err.code, "commit_agent_set_active_failed");
    assert_eq!(err.message, "read-only");
    assert_eq!(registry.active, None);
    assert_eq!(registry.answer_set_active("codex".to_string(), Ok(())), Ok(Some("codex".to_string())));
    assert_eq!(registry.active.as_deref(), Some("codex"));
}

#[test]
fn set_active_accepts_a_known_agent_id() {
    let mut registry = CommitAgentRegistry {
        agents: vec![agent("codex", "Codex", "codex", &["exec"])],
        active: None,
    };
    assert!(registry.check_set_active(&"codex".to_string()).is_ok());
    assert!(registry.set_active("codex".to_string()));
    assert_eq!(registry.active.as_deref(), Some("codex"));
}
