use nestr_cli::safety::guard_write;
use nestr_cli::safety::{
    agent_env_vars, confirm_message, confirm_step, enforce_read_only, is_write_verb, write_verbs,
    ConfirmStep,
};

#[test]
fn classifies_write_verbs() {
    assert!(is_write_verb("delete"));
    assert!(is_write_verb("update"));
    assert!(!is_write_verb("list"));
    assert!(!is_write_verb("get"));
}

#[test]
fn read_only_blocks_writes_only() {
    assert!(enforce_read_only("delete").is_err());
    assert!(enforce_read_only("list").is_ok());
}

#[test]
fn read_only_error_names_the_verb() {
    let e = enforce_read_only("set-default").unwrap_err();
    assert_eq!(e.to_string(), "Write operation 'set-default' is blocked in read-only mode.");
}

#[test]
fn write_verbs_are_sorted_and_all_blocked() {
    let v = write_verbs();
    assert!(v.is_sorted());
    for verb in v {
        assert!(is_write_verb(verb));
        assert!(enforce_read_only(verb).is_err());
    }
    assert!(!is_write_verb("Delete"));
    assert!(!is_write_verb(""));
}

#[test]
fn agent_variables_are_listed() {
    let v = agent_env_vars();
    assert!(v.contains(&"CLAUDECODE"));
    assert!(v.contains(&"NESTR_AGENT_MODE"));
    assert_eq!(v.len(), 5);
}

#[test]
fn confirmation_steps() {
    assert!(matches!(confirm_step(true, true, false), ConfirmStep::AutoApproved));
    assert!(matches!(confirm_step(false, true, true), ConfirmStep::RefusedAgent));
    assert!(matches!(confirm_step(false, false, false), ConfirmStep::RefusedNoTerminal));
    assert!(matches!(confirm_step(false, false, true), ConfirmStep::Prompt));
}

#[test]
fn confirmation_messages() {
    assert_eq!(
        confirm_message(ConfirmStep::AutoApproved, "Delete nest 'x'?"),
        "[auto-approved via --yes] Delete nest 'x'?"
    );
    assert_eq!(
        confirm_message(ConfirmStep::RefusedNoTerminal, "Go?"),
        "'Go?' needs confirmation but stdin is not a terminal. Pass --yes."
    );
}

#[test]
fn read_only_gate_refuses_every_write() {
    assert!(guard_write(false, "nests create").is_ok());
    let e = guard_write(true, "notifications read").unwrap_err();
    assert_eq!(e.to_string(), "Write operation 'notifications read' is blocked in read-only mode.");
}
