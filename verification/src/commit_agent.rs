use vstd::prelude::*;

use crate::text::{decimal, lossy_utf8, spec_trim, trimmed, u64_decimal, utf8_lossy};

verus! {

/// Diff text past this size (in bytes) is truncated before it reaches the agent prompt, so a
/// huge staged change can't balloon the subprocess invocation or the agent's own context.
pub const MAX_DIFF_PROMPT_BYTES: usize = 204800;

/// Caps how much of the agent's stdout/stderr is read (in bytes).
pub const MAX_AGENT_OUTPUT_BYTES: usize = 16384;

/// The fixed instruction that opens every commit-message prompt.
pub open spec fn prompt_instruction() -> Seq<char> {
    "Write a concise git commit message (a short summary line, optionally a blank line then a brief body) describing the following staged changes. Reply with only the commit message text: no markdown fences, no preamble, no explanation. Do not add a signature, co-author line, or any attribution or mention of an AI, assistant, or coding agent having generated this message or the change.\n\n"@
}

/// The diff as it appears in the prompt: unchanged when it is at most `MAX_DIFF_PROMPT_BYTES`
/// bytes long, otherwise its first `MAX_DIFF_PROMPT_BYTES` bytes followed by a truncation note.
pub open spec fn prompt_diff(diff: &str) -> Seq<char> {
    if vstd::utf8::encode_utf8(diff@).len() > MAX_DIFF_PROMPT_BYTES {
        vstd::utf8::decode_utf8(vstd::utf8::encode_utf8(diff@).take(MAX_DIFF_PROMPT_BYTES as int))
            + "\n... [diff truncated]"@
    } else {
        diff@
    }
}

/// Builds the prompt sent to a commit-message-generation agent: a fixed instruction plus the
/// staged diff. A diff longer than `MAX_DIFF_PROMPT_BYTES` is cut at that byte offset, which must
/// then fall on a character boundary (slicing there is what the prompt does).
pub fn build_commit_message_prompt(diff: &str) -> (prompt: String)
    requires
        vstd::utf8::encode_utf8(diff@).len() > MAX_DIFF_PROMPT_BYTES ==> vstd::utf8::is_char_boundary(
            vstd::utf8::encode_utf8(diff@),
            MAX_DIFF_PROMPT_BYTES as int,
        ),
    ensures
        prompt@ == prompt_instruction() + prompt_diff(diff),
{
    let mut prompt = String::from_str(
        "Write a concise git commit message (a short summary line, optionally a blank line then a brief body) describing the following staged changes. Reply with only the commit message text: no markdown fences, no preamble, no explanation. Do not add a signature, co-author line, or any attribution or mention of an AI, assistant, or coding agent having generated this message or the change.\n\n",
    );
    let byte_len: usize = diff.as_bytes().len();
    if byte_len > MAX_DIFF_PROMPT_BYTES {
        let (head, _rest) = diff.split_at(MAX_DIFF_PROMPT_BYTES);
        proof {
            vstd::utf8::encode_utf8_decode_utf8(head@);
            assert(vstd::utf8::encode_utf8(head@) =~= vstd::utf8::encode_utf8(diff@).take(
                MAX_DIFF_PROMPT_BYTES as int,
            ));
            assert(head@ == vstd::utf8::decode_utf8(
                vstd::utf8::encode_utf8(diff@).take(MAX_DIFF_PROMPT_BYTES as int),
            ));
        }
        prompt.append(head);
        prompt.append("\n... [diff truncated]");
        assert(prompt@ =~= prompt_instruction() + prompt_diff(diff));
    } else {
        prompt.append(diff);
        assert(prompt@ =~= prompt_instruction() + prompt_diff(diff));
    }
    prompt
}

/// How the agent process ended, once it did: successfully, or with a failure status (as the
/// platform describes it, such as "exit status: 1").
#[derive(Debug, Clone)]
pub enum AgentExit {
    Success,
    Failure(String),
}

/// The error when the agent command cannot be started.
pub fn agent_start_error(command: &str, err: &str) -> (m: String)
    ensures
        m@ == "failed to start \""@ + command@ + "\": "@ + err@,
{
    let mut m = "failed to start \"".to_owned();
    m.append(command);
    m.append("\": ");
    m.append(err);
    m
}

/// The error when one of the agent's pipes (`stdin`, `stdout`, `stderr`) cannot be opened.
pub fn agent_pipe_error(command: &str, pipe: &str) -> (m: String)
    ensures
        m@ == "failed to open "@ + pipe@ + " for \""@ + command@ + "\""@,
{
    let mut m = "failed to open ".to_owned();
    m.append(pipe);
    m.append(" for \"");
    m.append(command);
    m.append("\"");
    m
}

/// The error when the agent outlives its timeout (and is killed).
pub fn agent_timeout_error(command: &str, timeout_secs: u64) -> (m: String)
    ensures
        m@ == "\""@ + command@ + "\" timed out after "@ + decimal(timeout_secs as nat) + "s"@,
{
    let mut m = "\"".to_owned();
    m.append(command);
    m.append("\" timed out after ");
    m.append(u64_decimal(timeout_secs).as_str());
    m.append("s");
    m
}

/// What the agent's captured output becomes: a failure to wait passes its error on; a failed
/// exit reports the status and the trimmed stderr; otherwise the trimmed stdout is the
/// message, unless it is empty.
pub fn commit_message_result(command: &str, exit: Result<AgentExit, String>, stdout: &str, stderr: &str) -> (r: Result<String, String>)
    ensures
        match exit {
            Err(e) => r matches Err(m) && m == e,
            Ok(AgentExit::Failure(status)) => r matches Err(m)
                && m@ == "\""@ + command@ + "\" exited with "@ + status@ + ": "@ + spec_trim(stderr@),
            Ok(AgentExit::Success) => if spec_trim(stdout@).len() == 0 {
                r matches Err(m) && m@ == "\""@ + command@ + "\" produced no output"@
            } else {
                r matches Ok(m) && m@ == spec_trim(stdout@)
            },
        },
{
    match exit {
        Err(e) => Err(e),
        Ok(AgentExit::Failure(status)) => {
            let mut m = "\"".to_owned();
            m.append(command);
            m.append("\" exited with ");
            m.append(status.as_str());
            m.append(": ");
            m.append(trimmed(stderr).as_str());
            Err(m)
        },
        Ok(AgentExit::Success) => {
            let message = trimmed(stdout);
            if message.as_str().unicode_len() == 0 {
                let mut m = "\"".to_owned();
                m.append(command);
                m.append("\" produced no output");
                Err(m)
            } else {
                Ok(message)
            }
        },
    }
}

/// The text of at most `MAX_AGENT_OUTPUT_BYTES` bytes read from the agent, invalid UTF-8
/// replaced (as `read_capped` keeps it).
pub fn capped_output_text(bytes: &[u8]) -> (s: String)
    ensures
        s@ == lossy_utf8(if bytes@.len() > MAX_AGENT_OUTPUT_BYTES { bytes@.take(MAX_AGENT_OUTPUT_BYTES as int) } else { bytes@ }),
{
    if bytes.len() > MAX_AGENT_OUTPUT_BYTES {
        let (head, _) = bytes.split_at(MAX_AGENT_OUTPUT_BYTES);
        assert(head@ =~= bytes@.take(MAX_AGENT_OUTPUT_BYTES as int));
        utf8_lossy(head)
    } else {
        utf8_lossy(bytes)
    }
}

/// One look at the waiting agent: it has exited (`Some(status)`), or is still running, in
/// which case it is killed once `now_ms` reaches the deadline, and otherwise waited on again.
#[derive(Debug, Clone)]
pub enum AgentWaitStep {
    Exited(AgentExit),
    KillForTimeout,
    WaitMore,
}

pub fn agent_wait_step(polled: Option<AgentExit>, now_ms: u64, deadline_ms: u64) -> (r: AgentWaitStep)
    ensures
        match polled {
            Some(status) => r matches AgentWaitStep::Exited(s) && s == status,
            None => if now_ms >= deadline_ms { r is KillForTimeout } else { r is WaitMore },
        },
{
    match polled {
        Some(status) => AgentWaitStep::Exited(status),
        None => if now_ms >= deadline_ms { AgentWaitStep::KillForTimeout } else { AgentWaitStep::WaitMore },
    }
}

} // verus!
