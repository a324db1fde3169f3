//! The `[commit_agents]` configuration section and the server-side registry of commit agents
//! that `commit_agent.list` / `commit_agent.set_active` read and change.
use vstd::prelude::*;

use crate::schema::CommitAgentInfo;

verus! {

/// One external CLI agent that can be invoked to draft a git commit message from the staged
/// diff. `command` runs on the machine hosting the Herdr server (not necessarily the client's
/// machine), since that is where the git worktree and any agent binaries live. `args` defaults
/// to empty when the configuration leaves it out.
#[derive(Debug, Clone, PartialEq, Eq)]
pub struct CommitAgentConfig {
    pub id: String,
    pub label: String,
    pub command: String,
    pub args: Vec<String>,
}

/// The `[commit_agents]` section: the agents that can draft a commit message and which one
/// is active.
#[derive(Debug, Clone, PartialEq)]
pub struct CommitAgentsConfig {
    /// Id of the agent used by `git.commit_message.generate`. `None` disables generation.
    pub active: Option<String>,
    pub agents: Vec<CommitAgentConfig>,
}

pub open spec fn opt_view(o: Option<String>) -> Option<Seq<char>> {
    match o {
        Some(s) => Some(s@),
        None => None,
    }
}

/// Whether some configured agent has the id `id`.
pub open spec fn has_agent(agents: Seq<CommitAgentConfig>, id: Seq<char>) -> bool {
    exists|i: int| 0 <= i < agents.len() && #[trigger] agents[i].id@ == id
}

impl CommitAgentsConfig {
    /// The shape of the out-of-the-box configuration: exactly one agent, invoked as
    /// `command flag`, and active.
    pub fn single_active_agent(id: String, label: String, command: String, flag: String) -> (r: Self)
        ensures
            opt_view(r.active) == Some(id@),
            r.agents@.len() == 1,
            r.agents@[0].id@ == id@,
            r.agents@[0].label@ == label@,
            r.agents@[0].command@ == command@,
            r.agents@[0].args@.len() == 1,
            r.agents@[0].args@[0]@ == flag@,
            r.diagnostics_clear(),
    {
        let mut args: Vec<String> = Vec::new();
        args.push(flag);
        let active = id.clone();
        let mut agents: Vec<CommitAgentConfig> = Vec::new();
        agents.push(CommitAgentConfig { id, label, command, args });
        let r = CommitAgentsConfig { active: Some(active), agents };
        assert(r.agents@[0].id@ == opt_view(r.active)->0);
        r
    }

    /// No configuration problem to report: generation is off, or the active id names an agent.
    pub open spec fn diagnostics_clear(self) -> bool {
        match opt_view(self.active) {
            Some(id) => has_agent(self.agents@, id),
            None => true,
        }
    }
}

/// The diagnostic reported when `commit_agents.active` names no configured agent.
pub open spec fn unknown_active_diagnostic(id: Seq<char>) -> Seq<char> {
    "commit_agents.active = \""@ + id
        + "\" does not match any configured commit_agents.agents id; no commit agent is active"@
}

/// Whether some agent in `agents` has the id `id`, and where the first one is.
fn find_agent(agents: &Vec<CommitAgentConfig>, id: &String) -> (r: Option<usize>)
    ensures
        r is None <==> !has_agent(agents@, id@),
        r matches Some(i) ==> i < agents@.len() && agents@[i as int].id@ == id@,
{
    let mut i: usize = 0;
    while i < agents.len()
        invariant
            i <= agents@.len(),
            forall|k: int| 0 <= k < i ==> agents@[k].id@ != id@,
        decreases agents@.len() - i,
    {
        if agents[i].id == *id {
            return Some(i);
        }
        i = i + 1;
    }
    None
}

impl CommitAgentsConfig {
    /// Configuration problems worth reporting at load time: an `active` id that names no
    /// configured agent (generation is then disabled).
    pub fn diagnostics(&self) -> (r: Vec<String>)
        ensures
            match opt_view(self.active) {
                Some(id) => if has_agent(self.agents@, id) {
                    r@.len() == 0
                } else {
                    r@.len() == 1 && r@[0]@ == unknown_active_diagnostic(id)
                },
                None => r@.len() == 0,
            },
    {
        let mut out: Vec<String> = Vec::new();
        match &self.active {
            Some(id) => {
                if find_agent(&self.agents, id).is_none() {
                    let mut message = String::from_str("commit_agents.active = \"");
                    message.append(id.as_str());
                    message.append(
                        "\" does not match any configured commit_agents.agents id; no commit agent is active",
                    );
                    out.push(message);
                }
            },
            None => {},
        }
        out
    }
}

/// The commit agents a server offers and which one is active: the state behind
/// `commit_agent.list` and `commit_agent.set_active`.
#[derive(Debug, Clone)]
pub struct CommitAgentRegistry {
    pub agents: Vec<CommitAgentConfig>,
    pub active: Option<String>,
}

/// Why `commit_agent.set_active` was refused, with the API error code and message.
#[derive(Debug, Clone, PartialEq, Eq)]
pub struct CommitAgentError {
    pub code: String,
    pub message: String,
}

pub open spec fn unknown_agent_message(id: Seq<char>) -> Seq<char> {
    "no commit agent is configured with id \""@ + id + "\""@
}

/// What `commit_agent.set_active` answers for `id` and leaves behind, given the agents and
/// active id before it and `saved`, the outcome of saving the choice: unknown ids are refused
/// whatever `saved` is, failed saves are reported with their message, and only a saved choice
/// of a configured agent changes the active agent.
pub open spec fn set_active_answered(
    agents: Seq<CommitAgentConfig>,
    active: Option<String>,
    id: Seq<char>,
    saved: Result<(), String>,
    r: Result<Option<String>, CommitAgentError>,
    after: CommitAgentRegistry,
) -> bool {
    &&& after.agents@ == agents
    &&& if !has_agent(agents, id) {
        &&& r matches Err(e) && e.code@ == "unknown_commit_agent"@ && e.message@ == unknown_agent_message(id)
        &&& after.active == active
    } else {
        match saved {
            Err(m) => {
                &&& r matches Err(e) && e.code@ == "commit_agent_set_active_failed"@ && e.message@ == m@
                &&& after.active == active
            },
            Ok(()) => {
                &&& r matches Ok(a) && opt_view(a) == Some(id)
                &&& opt_view(after.active) == Some(id)
            },
        }
    }
}

impl CommitAgentRegistry {
    /// The client-facing description of every configured agent, in configuration order
    /// (the invocation arguments are left out).
    pub fn agent_infos(&self) -> (r: Vec<CommitAgentInfo>)
        ensures
            r@.len() == self.agents@.len(),
            forall|i: int|
                #![trigger r@[i]]
                0 <= i < r@.len() ==> {
                    &&& r@[i].id@ == self.agents@[i].id@
                    &&& r@[i].label@ == self.agents@[i].label@
                    &&& r@[i].command@ == self.agents@[i].command@
                },
    {
        let mut out: Vec<CommitAgentInfo> = Vec::new();
        let mut i: usize = 0;
        while i < self.agents.len()
            invariant
                i <= self.agents@.len(),
                out@.len() == i,
                forall|k: int|
                    #![trigger out@[k]]
                    0 <= k < i ==> {
                        &&& out@[k].id@ == self.agents@[k].id@
                        &&& out@[k].label@ == self.agents@[k].label@
                        &&& out@[k].command@ == self.agents@[k].command@
                    },
            decreases self.agents@.len() - i,
        {
            let agent = &self.agents[i];
            out.push(
                CommitAgentInfo {
                    id: agent.id.clone(),
                    label: agent.label.clone(),
                    command: agent.command.clone(),
                },
            );
            i = i + 1;
        }
        out
    }

    /// Checks a `commit_agent.set_active` request before anything is persisted: only an id
    /// that names a configured agent may become active.
    pub fn check_set_active(&self, id: &String) -> (r: Result<(), CommitAgentError>)
        ensures
            r is Ok <==> has_agent(self.agents@, id@),
            r matches Err(e) ==> e.code@ == "unknown_commit_agent"@ && e.message@
                == unknown_agent_message(id@),
    {
        if find_agent(&self.agents, id).is_some() {
            Ok(())
        } else {
            let mut message = String::from_str("no commit agent is configured with id \"");
            message.append(id.as_str());
            message.append("\"");
            Err(CommitAgentError { code: String::from_str("unknown_commit_agent"), message })
        }
    }

    /// Answers `commit_agent.set_active` for `id` given `saved`, the outcome of saving the
    /// choice to the configuration file (which is only attempted for a configured id): an id
    /// that names no configured agent is refused with `unknown_commit_agent`; a failed save is
    /// reported with `commit_agent_set_active_failed` and its message; otherwise the id becomes
    /// the active agent, which the answer reports. A refusal changes nothing.
    pub fn answer_set_active(&mut self, id: String, saved: Result<(), String>) -> (r: Result<Option<String>, CommitAgentError>)
        ensures
            set_active_answered(old(self).agents@, old(self).active, id@, saved, r, *final(self)),
    {
        match self.check_set_active(&id) {
            Err(e) => Err(e),
            Ok(()) => match saved {
                Err(message) => Err(CommitAgentError { code: String::from_str("commit_agent_set_active_failed"), message }),
                Ok(()) => {
                    self.active = Some(id);
                    let active = self.active.clone();
                    Ok(active)
                },
            },
        }
    }

    /// Handles `commit_agent.set_active`: an id that names no configured agent is refused
    /// before anything is saved; for a configured id `save` persists the choice to the
    /// configuration file, and the answer follows its outcome as `answer_set_active` says.
    pub fn handle_commit_agent_set_active<F: FnOnce(&String) -> Result<(), String>>(
        &mut self,
        id: String,
        save: F,
    ) -> (r: Result<Option<String>, CommitAgentError>)
        requires
            call_requires(save, (&id,)),
        ensures
            !has_agent(old(self).agents@, id@) ==> set_active_answered(old(self).agents@, old(self).active, id@, Ok(()), r, *final(self)),
            has_agent(old(self).agents@, id@) ==> exists|saved: Result<(), String>|
                call_ensures(save, (&id,), saved) && #[trigger] set_active_answered(old(self).agents@, old(self).active, id@, saved, r, *final(self)),
    {
        if find_agent(&self.agents, &id).is_none() {
            return self.answer_set_active(id, Ok(()));
        }
        let saved = save(&id);
        self.answer_set_active(id, saved)
    }

    /// Completes `commit_agent.set_active` once the new choice has been saved to the
    /// configuration file: a configured id becomes the active agent, and the registry is
    /// otherwise unchanged. An id that names no configured agent changes nothing.
    pub fn set_active(&mut self, id: String) -> (r: bool)
        ensures
            r == has_agent(old(self).agents@, id@),
            final(self).agents@ == old(self).agents@,
            r ==> opt_view(final(self).active) == Some(id@),
            !r ==> opt_view(final(self).active) == opt_view(old(self).active),
    {
        if find_agent(&self.agents, &id).is_some() {
            self.active = Some(id);
            true
        } else {
            false
        }
    }
}

} // verus!
