use vstd::prelude::*;

verus! {

/// What a finished `git` subprocess handed back: whether it exited successfully, and what it
/// wrote to stdout and stderr.
#[derive(Debug, Clone)]
pub struct CommandOutput {
    pub success: bool,
    pub stdout: Vec<u8>,
    pub stderr: Vec<u8>,
}

/// A `Vec<String>` holding the given literals, in order.
pub(crate) fn strings(parts: &[&str]) -> (out: Vec<String>)
    ensures
        out@.len() == parts@.len(),
        forall|i: int| 0 <= i < parts@.len() ==> #[trigger] out@[i]@ == parts@[i]@,
{
    let mut out: Vec<String> = Vec::new();
    let mut i: usize = 0;
    while i < parts.len()
        invariant
            i <= parts@.len(),
            out@.len() == i,
            forall|k: int| 0 <= k < i ==> #[trigger] out@[k]@ == parts@[k]@,
        decreases parts@.len() - i,
    {
        out.push(parts[i].to_owned());
        i = i + 1;
    }
    out
}

} // verus!
