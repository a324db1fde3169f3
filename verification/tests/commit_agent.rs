use herdr::commit_agent::{
    agent_pipe_error, agent_start_error, agent_timeout_error, agent_wait_step,
    build_commit_message_prompt, capped_output_text, commit_message_result, AgentExit,
    AgentWaitStep, MAX_AGENT_OUTPUT_BYTES, MAX_DIFF_PROMPT_BYTES,
};

#[test]
fn prompt_includes_the_diff_and_truncates_when_huge() {
    let prompt = build_commit_message_prompt("diff --git a/f b/f\n+hello\n");
    assert!(prompt.contains("diff --git a/f b/f"));
    assert!(prompt.contains("+hello"));

    let huge_diff = "x".repeat(MAX_DIFF_PROMPT_BYTES * 2);
    let truncated_prompt = build_commit_message_prompt(&huge_diff);
    assert!(truncated_prompt.contains("[diff truncated]"));
    assert!(truncated_prompt.len() < huge_diff.len());
}

#[test]
fn prompt_keeps_a_diff_of_exactly_the_limit() {
    let diff = "y".repeat(MAX_DIFF_PROMPT_BYTES);
    let prompt = build_commit_message_prompt(&diff);
    assert!(prompt.ends_with(&diff));
    assert!(!prompt.contains("[diff truncated]"));
}

#[test]
fn truncated_prompt_keeps_exactly_the_first_bytes() {
    let diff = format!("{}{}", "a".repeat(MAX_DIFF_PROMPT_BYTES), "b".repeat(10));
    let prompt = build_commit_message_prompt(&diff);
    let expected_tail = format!("{}\n... [diff truncated]", "a".repeat(MAX_DIFF_PROMPT_BYTES));
    assert!(prompt.ends_with(&expected_tail));
    assert!(prompt.starts_with("Write a concise git commit message"));
    assert!(!prompt.contains('b'.to_string().repeat(2).as_str()));
}

#[test]
fn agent_output_becomes_the_trimmed_message_or_a_clear_error() {
    assert_eq!(commit_message_result("sh", Ok(AgentExit::Success), "fix bug\n", ""), Ok("fix bug".to_string()));
    assert_eq!(
        commit_message_result("sh", Ok(AgentExit::Success), "  \n", "warning"),
        Err("\"sh\" produced no output".to_string())
    );
    assert_eq!(
        commit_message_result("agent", Ok(AgentExit::Failure("exit status: 2".into())), "x", " bad flag\n"),
        Err("\"agent\" exited with exit status: 2: bad flag".to_string())
    );
    assert_eq!(
        commit_message_result("agent", Err("\"agent\" timed out after 5s".into()), "late", ""),
        Err("\"agent\" timed out after 5s".to_string())
    );
}

#[test]
fn agent_errors_name_the_command() {
    assert_eq!(agent_start_error("nope", "No such file"), "failed to start \"nope\": No such file");
    assert_eq!(agent_pipe_error("sh", "stdin"), "failed to open stdin for \"sh\"");
    assert_eq!(agent_timeout_error("sh", 30), "\"sh\" timed out after 30s");
}

#[test]
fn waiting_kills_the_agent_only_past_its_deadline() {
    assert!(matches!(agent_wait_step(None, 10, 20), AgentWaitStep::WaitMore));
    assert!(matches!(agent_wait_step(None, 20, 20), AgentWaitStep::KillForTimeout));
    assert!(matches!(agent_wait_step(Some(AgentExit::Success), 99, 20), AgentWaitStep::Exited(AgentExit::Success)));
}

#[test]
fn captured_output_is_capped_and_decoded_lossily() {
    assert_eq!(capped_output_text(b"hi \xff"), "hi \u{fffd}");
    let long = vec![b'a'; MAX_AGENT_OUTPUT_BYTES + 10];
    assert_eq!(capped_output_text(&long).len(), MAX_AGENT_OUTPUT_BYTES);
}
