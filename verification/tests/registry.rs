use iris_session::errors::Error;
use iris_session::registry::ValidatorRegistry;
use iris_session::session::ValidatorOf;

fn registry_with(min: usize, initial: &[u64]) -> ValidatorRegistry {
    let mut reg = ValidatorRegistry::new(min);
    reg.initialize_validators(&initial.to_vec());
    reg
}

#[test]
fn initialize_fills_active_and_approved() {
    let reg = registry_with(2, &[1, 2, 3]);
    assert_eq!(reg.validators(), &vec![1, 2, 3]);
    assert_eq!(reg.approved_validators(), &vec![1, 2, 3]);
    assert!(reg.validators_to_remove().is_empty());
    assert_eq!(reg.min_validators(), 2);
}

#[test]
fn add_validator_appends_and_approves() {
    let mut reg = registry_with(2, &[1, 2]);
    assert_eq!(reg.add_validator(3), Ok(()));
    assert_eq!(reg.validators(), &vec![1, 2, 3]);
    assert_eq!(reg.approved_validators(), &vec![1, 2, 3]);
}

#[test]
fn add_validator_rejects_duplicate() {
    let mut reg = registry_with(2, &[1, 2]);
    assert_eq!(reg.add_validator(2), Err(Error::DuplicateValidator));
    assert_eq!(reg.validators(), &vec![1, 2]);
    assert_eq!(reg.approved_validators(), &vec![1, 2]);
}

#[test]
fn repeated_adds_never_duplicate_the_active_set() {
    let mut reg = registry_with(0, &[1, 2]);
    let _ = reg.add_validator(3);
    let _ = reg.add_validator(3);
    let _ = reg.add_validator(2);
    let _ = reg.remove_validator(1);
    let _ = reg.add_validator(1);
    let _ = reg.add_validator(1);
    let active = reg.validators().clone();
    for (i, a) in active.iter().enumerate() {
        for (j, b) in active.iter().enumerate() {
            if i != j {
                assert_ne!(a, b);
            }
        }
    }
}

#[test]
fn remove_validator_enforces_the_minimum() {
    // Initial validators [1, 2, 3], minimum 2: the first removal succeeds
    // (count 3 -> 2), the second fails and mutates nothing.
    let mut reg = registry_with(2, &[1, 2, 3]);
    assert_eq!(reg.remove_validator(1), Ok(()));
    assert_eq!(reg.validators(), &vec![2, 3]);
    assert_eq!(reg.remove_validator(2), Err(Error::TooFewValidators));
    assert_eq!(reg.validators(), &vec![2, 3]);
    assert_eq!(reg.approved_validators(), &vec![2, 3]);
}

#[test]
fn remove_validator_of_absent_id_succeeds_when_count_permits() {
    let mut reg = registry_with(2, &[1, 2, 3]);
    assert_eq!(reg.remove_validator(99), Ok(()));
    assert_eq!(reg.validators(), &vec![1, 2, 3]);
}

#[test]
fn add_validator_again_requires_the_caller_to_be_the_target() {
    // Rejected regardless of approval state: id 2 is approved here, id 5
    // is not, and both attempts fail the same way with nothing mutated.
    let mut reg = registry_with(2, &[1, 2, 3]);
    assert_eq!(reg.add_validator_again(1, 2), Err(Error::UnauthorizedCaller));
    assert_eq!(reg.add_validator_again(1, 5), Err(Error::UnauthorizedCaller));
    assert_eq!(reg.validators(), &vec![1, 2, 3]);
}

#[test]
fn add_validator_again_requires_approval() {
    let mut reg = registry_with(2, &[1, 2, 3]);
    assert_eq!(reg.add_validator_again(5, 5), Err(Error::NotApproved));
    assert_eq!(reg.validators(), &vec![1, 2, 3]);
}

#[test]
fn add_validator_again_rejects_an_already_active_id() {
    let mut reg = registry_with(2, &[1, 2, 3]);
    assert_eq!(reg.add_validator_again(2, 2), Err(Error::DuplicateValidator));
}

#[test]
fn offline_removal_keeps_approval_so_reinstatement_works() {
    let mut reg = registry_with(2, &[1, 2, 3]);
    assert_eq!(reg.report_offence(&vec![], &vec![2]), Ok(()));
    let plan = reg.new_session(1);
    assert_eq!(plan, Some(vec![1, 3]));
    // 2 is gone from the active set but still approved, so it may add
    // itself back once it is online again.
    assert_eq!(reg.add_validator_again(2, 2), Ok(()));
    assert_eq!(reg.validators(), &vec![1, 3, 2]);
}

#[test]
fn approve_validator_rejects_duplicate() {
    let mut reg = ValidatorRegistry::new(0);
    assert_eq!(reg.approve_validator(7), Ok(()));
    assert_eq!(reg.approve_validator(7), Err(Error::DuplicateValidator));
    assert_eq!(reg.approved_validators(), &vec![7]);
}

#[test]
fn unapprove_validator_always_succeeds() {
    let mut reg = ValidatorRegistry::new(0);
    assert_eq!(reg.approve_validator(7), Ok(()));
    assert_eq!(reg.unapprove_validator(7), Ok(()));
    assert_eq!(reg.unapprove_validator(7), Ok(()));
    assert!(reg.approved_validators().is_empty());
}

#[test]
fn session_boundary_removes_all_reported_offenders() {
    // Marks for 1 and 2 are applied at the boundary even though the count
    // drops below the minimum of 2, and the marks are cleared afterwards.
    let mut reg = registry_with(2, &[1, 2, 3]);
    assert_eq!(reg.report_offence(&vec![9], &vec![1, 2]), Ok(()));
    let plan = reg.new_session(4);
    assert_eq!(plan, Some(vec![3]));
    assert_eq!(reg.validators(), &vec![3]);
    assert!(reg.validators_to_remove().is_empty());
}

#[test]
fn marking_twice_removes_exactly_once() {
    let mut reg = registry_with(2, &[1, 2, 3]);
    assert_eq!(reg.report_offence(&vec![], &vec![2]), Ok(()));
    assert_eq!(reg.report_offence(&vec![], &vec![2]), Ok(()));
    assert_eq!(reg.validators_to_remove(), &vec![2, 2]);
    let plan = reg.new_session(1);
    assert_eq!(plan, Some(vec![1, 3]));
    assert!(reg.validators_to_remove().is_empty());
}

#[test]
fn session_boundary_with_no_marks_keeps_the_set() {
    let mut reg = registry_with(2, &[1, 2, 3]);
    let plan = reg.new_session(1);
    assert_eq!(plan, Some(vec![1, 2, 3]));
    assert_eq!(reg.validators(), &vec![1, 2, 3]);
}

#[test]
fn session_start_and_end_observe_only() {
    let mut reg = registry_with(2, &[1, 2]);
    reg.start_session(1);
    reg.end_session(1);
    assert_eq!(reg.validators(), &vec![1, 2]);
    let _ = reg.report_offence(&vec![], &vec![1]);
    reg.start_session(2);
    reg.end_session(2);
    // Marks are applied only at the planning boundary, not by start/end.
    assert_eq!(reg.validators(), &vec![1, 2]);
    assert_eq!(reg.validators_to_remove(), &vec![1]);
}

#[test]
fn offence_reports_are_never_known_and_never_rejected() {
    let mut reg = registry_with(2, &[1, 2]);
    assert!(!reg.is_known_offence(&vec![1, 2], 3));
    assert_eq!(reg.report_offence(&vec![], &vec![]), Ok(()));
    assert!(reg.validators_to_remove().is_empty());
}

#[test]
fn validator_of_converts_every_account_to_itself() {
    assert_eq!(ValidatorOf::convert(7), Some(7));
    assert_eq!(ValidatorOf::convert(0), Some(0));
}
