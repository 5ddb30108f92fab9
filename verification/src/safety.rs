//! Read-only mode and confirmation of destructive actions.

use vstd::prelude::*;

use crate::text::{push_str, str_eq, to_owned_string};

verus! {

/// The command verbs that write, in sorted order.
pub open spec fn spec_write_verbs() -> Seq<Seq<char>> {
    seq![
        "add"@,
        "create"@,
        "delete"@,
        "remove"@,
        "reorder"@,
        "set"@,
        "set-default"@,
        "update"@,
    ]
}

pub open spec fn is_write_verb_spec(name: Seq<char>) -> bool {
    spec_write_verbs().contains(name)
}

/// The verbs that write, in sorted order.
pub fn write_verbs() -> (r: Vec<&'static str>)
    ensures
        r@.map_values(|s: &str| s@) == spec_write_verbs(),
{
    let v = vec!["add", "create", "delete", "remove", "reorder", "set", "set-default", "update"];
    assert(v@.map_values(|s: &str| s@) =~= spec_write_verbs());
    v
}

pub fn is_write_verb(name: &str) -> (r: bool)
    ensures
        r == is_write_verb_spec(name@),
{
    let all = write_verbs();
    let ghost spec_all = spec_write_verbs();
    let mut i: usize = 0;
    while i < all.len()
        invariant
            i <= all.len(),
            all@.map_values(|s: &str| s@) == spec_all,
            spec_all == spec_write_verbs(),
            forall|j: int| 0 <= j < i ==> spec_all[j] != name@,
        decreases all.len() - i,
    {
        assert(spec_all[i as int] == all@[i as int]@);
        if str_eq(all[i], name) {
            return true;
        }
        i = i + 1;
    }
    proof {
        if spec_all.contains(name@) {
            let j = choose|j: int| 0 <= j < spec_all.len() && spec_all[j] == name@;
            assert(false);
        }
    }
    false
}

/// A write refused in read-only mode; holds the verb.
#[derive(Debug)]
pub struct ReadOnlyError {
    pub verb: String,
}

impl ReadOnlyError {
    pub open spec fn message(&self) -> Seq<char> {
        "Write operation '"@ + self.verb@ + "' is blocked in read-only mode."@
    }

    pub fn to_string(&self) -> (r: String)
        ensures
            r@ == self.message(),
    {
        let mut s = to_owned_string("Write operation '");
        push_str(&mut s, self.verb.as_str());
        push_str(&mut s, "' is blocked in read-only mode.");
        s
    }
}

/// Block writes when `--read-only` / `NESTR_READ_ONLY` is set.
pub fn enforce_read_only(verb: &str) -> (r: Result<(), ReadOnlyError>)
    ensures
        r is Ok <==> !is_write_verb_spec(verb@),
        r matches Err(e) ==> e.verb@ == verb@,
{
    if is_write_verb(verb) {
        Err(ReadOnlyError { verb: to_owned_string(verb) })
    } else {
        Ok(())
    }
}

/// The environment variables whose presence marks an agent session.
/// The `--read-only` gate of a write command: refused whenever read-only mode is on,
/// naming the action.
pub fn guard_write(read_only: bool, action: &str) -> (r: Result<(), ReadOnlyError>)
    ensures
        r is Err <==> read_only,
        r matches Err(e) ==> e.verb@ == action@,
{
    if read_only {
        Err(ReadOnlyError { verb: to_owned_string(action) })
    } else {
        Ok(())
    }
}

pub open spec fn spec_agent_env_vars() -> Seq<Seq<char>> {
    seq!["CLAUDECODE"@, "CLAUDE_CODE"@, "CODEX"@, "CURSOR_AGENT"@, "NESTR_AGENT_MODE"@]
}

/// The environment variables whose presence marks an agent session.
pub fn agent_env_vars() -> (r: Vec<&'static str>)
    ensures
        r@.map_values(|s: &str| s@) == spec_agent_env_vars(),
{
    let v = vec!["CLAUDECODE", "CLAUDE_CODE", "CODEX", "CURSOR_AGENT", "NESTR_AGENT_MODE"];
    assert(v@.map_values(|s: &str| s@) =~= spec_agent_env_vars());
    v
}

/// What confirming a destructive action comes to, before any prompt is shown.
#[derive(Debug, Clone, Copy, PartialEq, Eq, Structural)]
pub enum ConfirmStep {
    /// `--yes` was given: proceed, noting the auto-approval on stderr.
    AutoApproved,
    /// An agent session without `--yes`: refuse.
    RefusedAgent,
    /// Standard input is not a terminal: refuse.
    RefusedNoTerminal,
    /// Ask the user interactively.
    Prompt,
}

/// Decide how a destructive action is confirmed: `--yes` auto-approves; agent
/// sessions and non-terminal input are refused; otherwise the user is asked.
pub fn confirm_step(yes: bool, agent_mode: bool, stdin_is_terminal: bool) -> (r: ConfirmStep)
    ensures
        r == (if yes {
            ConfirmStep::AutoApproved
        } else if agent_mode {
            ConfirmStep::RefusedAgent
        } else if !stdin_is_terminal {
            ConfirmStep::RefusedNoTerminal
        } else {
            ConfirmStep::Prompt
        }),
{
    if yes {
        ConfirmStep::AutoApproved
    } else if agent_mode {
        ConfirmStep::RefusedAgent
    } else if !stdin_is_terminal {
        ConfirmStep::RefusedNoTerminal
    } else {
        ConfirmStep::Prompt
    }
}

pub open spec fn confirm_message_spec(step: ConfirmStep, action: Seq<char>) -> Seq<char> {
    match step {
        ConfirmStep::AutoApproved => "[auto-approved via --yes] "@ + action,
        ConfirmStep::RefusedAgent => "'"@ + action
            + "' needs confirmation. You are in agent mode — re-run with --yes once the user confirms."@,
        ConfirmStep::RefusedNoTerminal => "'"@ + action
            + "' needs confirmation but stdin is not a terminal. Pass --yes."@,
        ConfirmStep::Prompt => action,
    }
}

/// The line shown for a confirmation step: the stderr note for an auto-approval,
/// the error for a refusal, the question for a prompt.
pub fn confirm_message(step: ConfirmStep, action: &str) -> (r: String)
    ensures
        r@ == confirm_message_spec(step, action@),
{
    match step {
        ConfirmStep::AutoApproved => {
            let mut s = to_owned_string("[auto-approved via --yes] ");
            push_str(&mut s, action);
            s
        },
        ConfirmStep::RefusedAgent => {
            let mut s = to_owned_string("'");
            push_str(&mut s, action);
            push_str(
                &mut s,
                "' needs confirmation. You are in agent mode — re-run with --yes once the user confirms.",
            );
            s
        },
        ConfirmStep::RefusedNoTerminal => {
            let mut s = to_owned_string("'");
            push_str(&mut s, action);
            push_str(&mut s, "' needs confirmation but stdin is not a terminal. Pass --yes.");
            s
        },
        ConfirmStep::Prompt => to_owned_string(action),
    }
}

} // verus!
