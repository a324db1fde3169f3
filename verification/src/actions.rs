use vstd::prelude::*;

use crate::command::CommandOutput;
use crate::text::{lossy_utf8, spec_trim, str_chars, trim_range, utf8_lossy};

verus! {

#[derive(Debug, Clone, Copy, PartialEq, Eq, Structural)]
pub enum GitFileActionKind {
    Stage,
    Unstage,
    Discard,
}

/// The git subcommand words an action runs before `path`.
pub open spec fn action_words(action: GitFileActionKind) -> Seq<Seq<char>> {
    match action {
        GitFileActionKind::Stage => seq!["add"@, "--"@],
        GitFileActionKind::Unstage => seq!["restore"@, "--staged"@, "--"@],
        GitFileActionKind::Discard => seq!["restore"@, "--"@],
    }
}

pub open spec fn args_view(v: Seq<String>) -> Seq<Seq<char>> {
    v.map_values(|s: String| s@)
}

/// The arguments after `git -C <repo_root>` that stage (`add -- path`), unstage
/// (`restore --staged -- path`) or discard (`restore -- path`) one file. `path` always follows
/// `--`, so it can never be read as an option.
pub fn git_file_action_args(path: &str, action: GitFileActionKind) -> (args: Vec<String>)
    ensures
        args_view(args@) == action_words(action).push(path@),
{
    let mut args: Vec<String> = Vec::new();
    match action {
        GitFileActionKind::Stage => {
            args.push("add".to_owned());
        },
        GitFileActionKind::Unstage => {
            args.push("restore".to_owned());
            args.push("--staged".to_owned());
        },
        GitFileActionKind::Discard => {
            args.push("restore".to_owned());
        },
    }
    args.push("--".to_owned());
    args.push(path.to_owned());
    assert(args_view(args@) =~= action_words(action).push(path@));
    args
}

/// The arguments after `git -C <repo_root>` that commit the index with `message`, passed as a
/// single argument.
pub fn git_commit_args(message: &str) -> (args: Vec<String>)
    ensures
        args_view(args@) == seq!["commit"@, "-m"@, message@],
{
    let mut args: Vec<String> = Vec::new();
    args.push("commit".to_owned());
    args.push("-m".to_owned());
    args.push(message.to_owned());
    assert(args_view(args@) =~= seq!["commit"@, "-m"@, message@]);
    args
}

/// What a git mutation reports: `Err` with the launch error when the command could not be run,
/// `Ok` when it exited successfully, otherwise `Err` with its stderr (decoded as
/// `String::from_utf8_lossy` decodes it) trimmed.
pub open spec fn spec_git_command_result(outcome: Result<CommandOutput, String>) -> Result<(), Seq<char>> {
    match outcome {
        Err(e) => Err(e@),
        Ok(o) => if o.success {
            Ok(())
        } else {
            Err(spec_trim(lossy_utf8(o.stderr@)))
        },
    }
}

/// Interprets a finished git mutation (see `spec_git_command_result`).
pub fn git_command_result(outcome: Result<CommandOutput, String>) -> (r: Result<(), String>)
    ensures
        match (r, spec_git_command_result(outcome)) {
            (Ok(()), Ok(())) => true,
            (Err(e), Err(m)) => e@ == m,
            _ => false,
        },
{
    match outcome {
        Err(e) => Err(e),
        Ok(o) => {
            if o.success {
                Ok(())
            } else {
                let text = utf8_lossy(o.stderr.as_slice());
                let cs = str_chars(text.as_str());
                let (a, b) = trim_range(&cs, 0, cs.len());
                assert(cs@.subrange(0, cs@.len() as int) =~= cs@);
                let trimmed = crate::text::range_to_string(&cs, a, b);
                Err(trimmed)
            }
        },
    }
}

} // verus!
