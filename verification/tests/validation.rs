use nestr_cli::validation::{is_prime, prime_labels, validate_added_prime, validate_prime_labels};

#[test]
fn prime_labels_stay_sorted() {
    assert!(
        prime_labels().is_sorted(),
        "the prime labels must stay sorted"
    );
}

#[test]
fn allows_zero_or_one_prime() {
    assert!(validate_prime_labels(&[]).is_ok());
    assert!(validate_prime_labels(&["now".into(), "project".into()]).is_ok());
    assert!(validate_prime_labels(&["role".into()]).is_ok());
}

#[test]
fn rejects_two_primes() {
    let err = validate_prime_labels(&["project".into(), "tension".into()]).unwrap_err();
    assert!(err.to_string().contains("only one prime label"));
}

#[test]
fn added_prime_rejected_when_a_different_prime_exists() {
    let err = validate_added_prime(&["role".into()], "project").unwrap_err();
    assert!(err.to_string().contains("already a 'role'"));
}

#[test]
fn added_prime_allowed_without_an_existing_prime() {
    assert!(validate_added_prime(&[], "project").is_ok());
    assert!(validate_added_prime(&["now".into(), "urgent".into()], "project").is_ok());
}

#[test]
fn re_adding_the_same_prime_is_allowed() {
    assert!(validate_added_prime(&["project".into()], "project").is_ok());
}

#[test]
fn adding_a_non_prime_never_conflicts() {
    assert!(validate_added_prime(&["role".into()], "urgent").is_ok());
}

#[test]
fn prime_membership_is_exact() {
    assert!(is_prime("role"));
    assert!(is_prime("anchor-circle"));
    assert!(!is_prime("Role"));
    assert!(!is_prime("rol"));
    assert!(!is_prime(""));
    assert_eq!(prime_labels().len(), 11);
}

#[test]
fn too_many_primes_lists_them_in_order() {
    let err = validate_prime_labels(&["goal".into(), "now".into(), "circle".into(), "role".into()])
        .unwrap_err();
    let msg = err.to_string();
    assert!(msg.contains("goal"));
    assert!(msg.contains("circle"));
    assert!(msg.contains("role"));
    assert!(!msg.contains("now"));
}

#[test]
fn adding_a_prime_keeps_at_most_one_prime() {
    // Law: an accepted prime addition to a valid label set leaves one prime.
    let existing: Vec<String> = vec!["now".into(), "project".into()];
    assert!(validate_prime_labels(&existing).is_ok());
    assert!(validate_added_prime(&existing, "project").is_ok());
    let mut after = existing.clone();
    after.push("project".into());
    after.dedup();
    assert!(validate_prime_labels(&after).is_ok());
    assert!(validate_added_prime(&existing, "goal").is_err());
}

#[test]
fn label_error_messages_are_exact() {
    let e = validate_prime_labels(&["project".into(), "tension".into()]).unwrap_err();
    assert_eq!(
        e.to_string(),
        "A nest can have only one prime label, but 2 were given: project, tension. Pick one, or link separate nests instead."
    );
    let e = validate_added_prime(&["now".into(), "role".into()], "project").unwrap_err();
    assert_eq!(
        e.to_string(),
        "This nest is already a 'role' — a nest can have only one prime label. Remove 'role' first, or use `nests update --label project` to replace the set."
    );
}
