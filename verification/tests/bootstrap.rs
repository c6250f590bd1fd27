use iris_session::bootstrap::{
    connect_attempt_failed, should_run_periodic_task, BootstrapDirectory, BootstrapPlan,
    DEFAULT_TASK_PERIOD,
};
use iris_session::errors::Error;
use iris_session::store::Response;

#[test]
fn periodic_tasks_run_every_period_ticks() {
    assert!(should_run_periodic_task(0, DEFAULT_TASK_PERIOD));
    assert!(!should_run_periodic_task(1, DEFAULT_TASK_PERIOD));
    assert!(!should_run_periodic_task(4, DEFAULT_TASK_PERIOD));
    assert!(should_run_periodic_task(5, DEFAULT_TASK_PERIOD));
    assert!(should_run_periodic_task(10, DEFAULT_TASK_PERIOD));
    assert!(!should_run_periodic_task(11, DEFAULT_TASK_PERIOD));
}

#[test]
fn an_empty_directory_offers_nothing_to_try() {
    let dir = BootstrapDirectory::new();
    assert!(matches!(dir.plan_connection(&vec![1, 2]), BootstrapPlan::NothingToTry));
}

#[test]
fn a_known_key_needs_no_connection() {
    let mut dir = BootstrapDirectory::new();
    dir.add_entry(vec![1, 2], vec![vec![b'm']]);
    assert!(dir.contains_key(&vec![1, 2]));
    assert!(matches!(dir.plan_connection(&vec![1, 2]), BootstrapPlan::AlreadyKnown));
}

#[test]
fn an_unknown_key_tries_the_last_address_of_the_first_entry() {
    let mut dir = BootstrapDirectory::new();
    dir.add_entry(vec![1], vec![vec![b'a'], vec![b'b'], vec![b'c']]);
    dir.add_entry(vec![2], vec![vec![b'z']]);
    assert!(!dir.contains_key(&vec![9]));
    match dir.plan_connection(&vec![9]) {
        BootstrapPlan::Attempt { primary, fallback } => {
            assert_eq!(primary, vec![b'c']);
            assert_eq!(fallback, Some(vec![b'b']));
        }
        _ => unreachable!(),
    }
}

#[test]
fn a_single_address_leaves_no_fallback() {
    let mut dir = BootstrapDirectory::new();
    dir.add_entry(vec![1], vec![vec![b'a']]);
    match dir.plan_connection(&vec![9]) {
        BootstrapPlan::Attempt { primary, fallback } => {
            assert_eq!(primary, vec![b'a']);
            assert_eq!(fallback, None);
        }
        _ => unreachable!(),
    }
}

#[test]
fn an_entry_without_addresses_offers_nothing_to_try() {
    let mut dir = BootstrapDirectory::new();
    dir.add_entry(vec![1], vec![]);
    assert!(matches!(dir.plan_connection(&vec![9]), BootstrapPlan::NothingToTry));
}

#[test]
fn only_a_success_response_counts_as_a_connection() {
    assert!(!connect_attempt_failed(&Ok(Response::Success)));
    assert!(connect_attempt_failed(&Ok(Response::Peers(vec![]))));
    assert!(connect_attempt_failed(&Err(Error::RequestTimedOut)));
    assert!(connect_attempt_failed(&Err(Error::RequestFailed)));
}
