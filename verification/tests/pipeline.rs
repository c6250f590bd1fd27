use iris_session::errors::Error;
use iris_session::pipeline::{
    advance_command, outcome_aborts_tick, outcome_is_fault, start_command, CommandOutcome,
    DataCommand, FetchCommand, PipelineAction, PipelineEvent, PipelineStep, PublishCommand,
};
use iris_session::store::{RequestKind, Response};

/// Drives one command to the end of the given observations, collecting
/// every action the machine asks for.
fn run_machine(cmd: &DataCommand, events: Vec<PipelineEvent>) -> (PipelineStep, Vec<PipelineAction>) {
    let (mut step, first) = start_command(cmd);
    let mut actions = vec![first];
    for event in events {
        let (next, action) = advance_command(cmd, step, event);
        step = next;
        if let Some(action) = action {
            actions.push(action);
        }
    }
    (step, actions)
}

fn fetch_command() -> DataCommand {
    DataCommand::Fetch(FetchCommand { owner: 10, content_id: vec![b'X'], recipient: 20 })
}

fn publish_command() -> DataCommand {
    DataCommand::Publish(PublishCommand {
        source_addr: vec![b'a', b'd', b'd', b'r'],
        content_id: vec![b'C'],
        admin: 42,
        display_name: vec![b'n'],
        asset_id: 7,
        balance: 100,
    })
}

fn count_store_fetches(actions: &[PipelineAction]) -> usize {
    actions
        .iter()
        .filter(|a| matches!(a, PipelineAction::StoreRequest(RequestKind::CatBytes(_))))
        .count()
}

#[test]
fn fetch_with_zero_balance_never_reaches_the_store() {
    let cmd = fetch_command();
    let (step, actions) = run_machine(
        &cmd,
        vec![
            PipelineEvent::AssetResolved(Some(7)),
            PipelineEvent::BalanceQueried(Some(0)),
        ],
    );
    assert!(matches!(
        step,
        PipelineStep::Done(CommandOutcome::Abandoned(Error::InsufficientBalance))
    ));
    assert_eq!(actions.len(), 2);
    assert!(matches!(
        actions[0],
        PipelineAction::ResolveAsset { owner: 10, .. }
    ));
    assert!(matches!(
        actions[1],
        PipelineAction::QueryBalance { asset_id: 7, account: 20 }
    ));
    assert_eq!(count_store_fetches(&actions), 0);
    assert!(!actions.iter().any(|a| matches!(a, PipelineAction::StoreRequest(_))));
}

#[test]
fn fetch_with_unconvertible_balance_is_denied_like_zero() {
    let cmd = fetch_command();
    let (step, actions) = run_machine(
        &cmd,
        vec![
            PipelineEvent::AssetResolved(Some(7)),
            PipelineEvent::BalanceQueried(None),
        ],
    );
    assert!(matches!(
        step,
        PipelineStep::Done(CommandOutcome::Abandoned(Error::InsufficientBalance))
    ));
    assert_eq!(count_store_fetches(&actions), 0);
}

#[test]
fn fetch_without_asset_mapping_is_skipped() {
    let cmd = fetch_command();
    let (step, actions) = run_machine(&cmd, vec![PipelineEvent::AssetResolved(None)]);
    assert!(matches!(
        step,
        PipelineStep::Done(CommandOutcome::Skipped(Error::NoSuchOwnedContent))
    ));
    assert_eq!(actions.len(), 1);
}

#[test]
fn fetch_with_positive_balance_fetches_writes_and_submits_once() {
    // Queue of one fetch for (owner 10, content id "X", recipient 20); the
    // ledger resolves asset id 7 and reports balance 5: the pipeline does
    // one store fetch of "X", one local write under "X", and one
    // fetch-ready submission for recipient 20.
    let cmd = fetch_command();
    let data = vec![1u8, 2, 3];
    let (step, actions) = run_machine(
        &cmd,
        vec![
            PipelineEvent::AssetResolved(Some(7)),
            PipelineEvent::BalanceQueried(Some(5)),
            PipelineEvent::StoreResponse(Response::CatBytes(data.clone())),
            PipelineEvent::LocalWriteDone,
            PipelineEvent::SignerChecked(true),
            PipelineEvent::SubmissionDone,
        ],
    );
    assert!(matches!(step, PipelineStep::Done(CommandOutcome::Completed)));
    assert_eq!(actions.len(), 6);
    assert!(matches!(
        &actions[0],
        PipelineAction::ResolveAsset { owner: 10, content_id } if content_id == &vec![b'X']
    ));
    assert!(matches!(
        actions[1],
        PipelineAction::QueryBalance { asset_id: 7, account: 20 }
    ));
    assert!(matches!(
        &actions[2],
        PipelineAction::StoreRequest(RequestKind::CatBytes(cid)) if cid == &vec![b'X']
    ));
    assert!(matches!(
        &actions[3],
        PipelineAction::WriteLocal { key, value } if key == &vec![b'X'] && value == &data
    ));
    assert!(matches!(actions[4], PipelineAction::CheckSigner));
    assert!(matches!(
        actions[5],
        PipelineAction::SubmitFetchReady { recipient: 20 }
    ));
    assert_eq!(count_store_fetches(&actions), 1);
}

#[test]
fn fetch_without_signer_completes_without_submission() {
    let cmd = fetch_command();
    let (step, actions) = run_machine(
        &cmd,
        vec![
            PipelineEvent::AssetResolved(Some(7)),
            PipelineEvent::BalanceQueried(Some(5)),
            PipelineEvent::StoreResponse(Response::CatBytes(vec![9])),
            PipelineEvent::LocalWriteDone,
            PipelineEvent::SignerChecked(false),
        ],
    );
    assert!(matches!(
        step,
        PipelineStep::Done(CommandOutcome::CompletedWithoutSubmission)
    ));
    assert!(!actions
        .iter()
        .any(|a| matches!(a, PipelineAction::SubmitFetchReady { .. })));
}

#[test]
fn publish_connect_failure_is_fatal_and_performs_nothing_else() {
    let cmd = publish_command();
    let (step, actions) = run_machine(
        &cmd,
        vec![PipelineEvent::StoreFailure(Error::RequestTimedOut)],
    );
    assert!(matches!(
        step,
        PipelineStep::Done(CommandOutcome::FatalError(Error::RequestTimedOut))
    ));
    assert_eq!(actions.len(), 1);
    assert!(matches!(
        &actions[0],
        PipelineAction::StoreRequest(RequestKind::Connect(addr)) if addr == &vec![b'a', b'd', b'd', b'r']
    ));
    if let PipelineStep::Done(outcome) = step {
        assert!(outcome_aborts_tick(&outcome));
    } else {
        unreachable!();
    }
}

#[test]
fn publish_happy_path_runs_all_five_steps_in_order() {
    let cmd = publish_command();
    let data = vec![5u8, 6];
    let new_cid = vec![b'N'];
    let (step, actions) = run_machine(
        &cmd,
        vec![
            PipelineEvent::StoreResponse(Response::Success),
            PipelineEvent::StoreResponse(Response::CatBytes(data.clone())),
            PipelineEvent::StoreResponse(Response::Success),
            PipelineEvent::StoreResponse(Response::AddBytes(new_cid.clone())),
            PipelineEvent::SignerChecked(true),
            PipelineEvent::SubmissionDone,
        ],
    );
    assert!(matches!(step, PipelineStep::Done(CommandOutcome::Completed)));
    assert_eq!(actions.len(), 6);
    assert!(matches!(
        &actions[0],
        PipelineAction::StoreRequest(RequestKind::Connect(addr)) if addr == &vec![b'a', b'd', b'd', b'r']
    ));
    assert!(matches!(
        &actions[1],
        PipelineAction::StoreRequest(RequestKind::CatBytes(cid)) if cid == &vec![b'C']
    ));
    assert!(matches!(
        &actions[2],
        PipelineAction::StoreRequest(RequestKind::Disconnect(addr)) if addr == &vec![b'a', b'd', b'd', b'r']
    ));
    assert!(matches!(
        &actions[3],
        PipelineAction::StoreRequest(RequestKind::AddBytes(bytes)) if bytes == &data
    ));
    assert!(matches!(actions[4], PipelineAction::CheckSigner));
    assert!(matches!(
        &actions[5],
        PipelineAction::SubmitPublishResult { admin: 42, content_id, asset_id: 7, balance: 100 }
            if content_id == &new_cid
    ));
}

#[test]
fn publish_fetch_failure_abandons_without_aborting_the_tick() {
    let cmd = publish_command();
    let (step, actions) = run_machine(
        &cmd,
        vec![
            PipelineEvent::StoreResponse(Response::Success),
            PipelineEvent::StoreFailure(Error::RequestFailed),
        ],
    );
    assert!(matches!(
        step,
        PipelineStep::Done(CommandOutcome::Abandoned(Error::RequestFailed))
    ));
    assert_eq!(actions.len(), 2);
    if let PipelineStep::Done(outcome) = step {
        assert!(!outcome_aborts_tick(&outcome));
        assert!(!outcome_is_fault(&outcome));
    } else {
        unreachable!();
    }
}

#[test]
fn mismatched_response_variant_is_a_contract_violation() {
    let cmd = publish_command();
    let (step, actions) = run_machine(
        &cmd,
        vec![PipelineEvent::StoreResponse(Response::Peers(vec![]))],
    );
    assert!(matches!(
        step,
        PipelineStep::Done(CommandOutcome::ContractViolation)
    ));
    assert_eq!(actions.len(), 1);
    if let PipelineStep::Done(outcome) = step {
        assert!(outcome_is_fault(&outcome));
        assert!(!outcome_aborts_tick(&outcome));
    } else {
        unreachable!();
    }
}

#[test]
fn a_finished_command_absorbs_further_events() {
    let cmd = fetch_command();
    let (step, actions) = run_machine(
        &cmd,
        vec![
            PipelineEvent::AssetResolved(None),
            PipelineEvent::SubmissionDone,
            PipelineEvent::LocalWriteDone,
        ],
    );
    assert!(matches!(
        step,
        PipelineStep::Done(CommandOutcome::Skipped(Error::NoSuchOwnedContent))
    ));
    assert_eq!(actions.len(), 1);
}
