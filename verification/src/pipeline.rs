//! The data request pipeline: drains the pending-command queue once per
//! tick and executes a multi-step fetch/publish protocol per command.
//!
//! The pipeline is written as a state machine per command.  The host starts
//! a command with [`start_command`], performs the returned action against
//! its collaborator (the remote store, the ledger, local storage or the
//! transaction submitter), and feeds the observed outcome back through
//! [`advance_command`], until the machine reaches [`PipelineStep::Done`].
//! Every decision — balance gating, error classification, which call comes
//! next — lives here and is verified; the host only carries actions out.

use vstd::prelude::*;

use crate::errors::Error;
use crate::store::{clone_bytes, RequestKind, RequestKindView, Response, ResponseView};
use crate::{AccountId, AssetId};

verus! {

/// A request to fetch content from a peer and re-publish it locally,
/// crediting an asset record.
pub struct PublishCommand {
    /// Multiaddress of the peer that holds the content.
    pub source_addr: Vec<u8>,
    /// Content id to fetch from that peer.
    pub content_id: Vec<u8>,
    /// Account that administers the asset record to credit.
    pub admin: AccountId,
    /// Display name for the asset record.
    pub display_name: Vec<u8>,
    /// Asset id to credit.
    pub asset_id: AssetId,
    /// Balance amount to credit.
    pub balance: u64,
}

/// The abstract value of a publish request.
pub struct PublishCommandView {
    pub source_addr: Seq<u8>,
    pub content_id: Seq<u8>,
    pub admin: AccountId,
    pub display_name: Seq<u8>,
    pub asset_id: AssetId,
    pub balance: u64,
}

impl View for PublishCommand {
    type V = PublishCommandView;

    open spec fn view(&self) -> PublishCommandView {
        PublishCommandView {
            source_addr: self.source_addr@,
            content_id: self.content_id@,
            admin: self.admin,
            display_name: self.display_name@,
            asset_id: self.asset_id,
            balance: self.balance,
        }
    }
}

/// A request to retrieve content on behalf of a recipient, gated by the
/// recipient's balance of the asset that represents ownership of the
/// content.
pub struct FetchCommand {
    /// Account that owns the content.
    pub owner: AccountId,
    /// Content id to retrieve.
    pub content_id: Vec<u8>,
    /// Account the content is retrieved for.
    pub recipient: AccountId,
}

/// The abstract value of a fetch request.
pub struct FetchCommandView {
    pub owner: AccountId,
    pub content_id: Seq<u8>,
    pub recipient: AccountId,
}

impl View for FetchCommand {
    type V = FetchCommandView;

    open spec fn view(&self) -> FetchCommandView {
        FetchCommandView {
            owner: self.owner,
            content_id: self.content_id@,
            recipient: self.recipient,
        }
    }
}

/// One entry of the pending-command queue.
pub enum DataCommand {
    Publish(PublishCommand),
    Fetch(FetchCommand),
}

/// The abstract value of a queue entry.
pub enum DataCommandView {
    Publish(PublishCommandView),
    Fetch(FetchCommandView),
}

impl View for DataCommand {
    type V = DataCommandView;

    open spec fn view(&self) -> DataCommandView {
        match self {
            DataCommand::Publish(p) => DataCommandView::Publish(p@),
            DataCommand::Fetch(f) => DataCommandView::Fetch(f@),
        }
    }
}

/// An action the pipeline asks the host to carry out against one of the
/// collaborators.
pub enum PipelineAction {
    /// Send this request to the remote store.
    StoreRequest(RequestKind),
    /// Ask the ledger for the asset id owned by `owner` for `content_id`.
    ResolveAsset { owner: AccountId, content_id: Vec<u8> },
    /// Ask the ledger for `account`'s balance of `asset_id`.
    QueryBalance { asset_id: AssetId, account: AccountId },
    /// Write `value` under `key` into local persistent storage.
    WriteLocal { key: Vec<u8>, value: Vec<u8> },
    /// Ask the transaction submitter whether a local signing identity is
    /// available at all.
    CheckSigner,
    /// Submit a signed transaction carrying the publish result.
    SubmitPublishResult { admin: AccountId, content_id: Vec<u8>, asset_id: AssetId, balance: u64 },
    /// Submit a signed transaction notifying that content is ready for the
    /// recipient.
    SubmitFetchReady { recipient: AccountId },
}

/// The abstract value of an action.
pub enum PipelineActionView {
    StoreRequest(RequestKindView),
    ResolveAsset { owner: AccountId, content_id: Seq<u8> },
    QueryBalance { asset_id: AssetId, account: AccountId },
    WriteLocal { key: Seq<u8>, value: Seq<u8> },
    CheckSigner,
    SubmitPublishResult { admin: AccountId, content_id: Seq<u8>, asset_id: AssetId, balance: u64 },
    SubmitFetchReady { recipient: AccountId },
}

impl View for PipelineAction {
    type V = PipelineActionView;

    open spec fn view(&self) -> PipelineActionView {
        match self {
            PipelineAction::StoreRequest(kind) => PipelineActionView::StoreRequest(kind@),
            PipelineAction::ResolveAsset { owner, content_id } => (PipelineActionView::ResolveAsset {
                owner: *owner,
                content_id: content_id@,
            }),
            PipelineAction::QueryBalance { asset_id, account } => (PipelineActionView::QueryBalance {
                asset_id: *asset_id,
                account: *account,
            }),
            PipelineAction::WriteLocal { key, value } => (PipelineActionView::WriteLocal {
                key: key@,
                value: value@,
            }),
            PipelineAction::CheckSigner => PipelineActionView::CheckSigner,
            PipelineAction::SubmitPublishResult { admin, content_id, asset_id, balance } => (PipelineActionView::SubmitPublishResult {
                admin: *admin,
                content_id: content_id@,
                asset_id: *asset_id,
                balance: *balance,
            }),
            PipelineAction::SubmitFetchReady { recipient } => (PipelineActionView::SubmitFetchReady {
                recipient: *recipient,
            }),
        }
    }
}

/// The abstract value of an optional action.
pub open spec fn opt_action_view(a: Option<PipelineAction>) -> Option<PipelineActionView> {
    match a {
        Some(action) => Some(action@),
        None => None,
    }
}

/// What the host observed after carrying an action out.
pub enum PipelineEvent {
    /// The store answered the request.
    StoreResponse(Response),
    /// The store request failed; the error as classified by the client.
    StoreFailure(Error),
    /// The ledger resolved the asset id, or found no mapping.
    AssetResolved(Option<AssetId>),
    /// The ledger reported the balance; `None` where the numeric value did
    /// not convert, which gates access exactly as a zero balance does.
    BalanceQueried(Option<u64>),
    /// The local storage write completed.
    LocalWriteDone,
    /// Whether any local signing identity is available.
    SignerChecked(bool),
    /// The transaction submission was handed over; one outcome per local
    /// signing identity was logged by the host.
    SubmissionDone,
}

/// The abstract value of an observation.
pub enum PipelineEventView {
    StoreResponse(ResponseView),
    StoreFailure(Error),
    AssetResolved(Option<AssetId>),
    BalanceQueried(Option<u64>),
    LocalWriteDone,
    SignerChecked(bool),
    SubmissionDone,
}

impl View for PipelineEvent {
    type V = PipelineEventView;

    open spec fn view(&self) -> PipelineEventView {
        match self {
            PipelineEvent::StoreResponse(resp) => PipelineEventView::StoreResponse(resp@),
            PipelineEvent::StoreFailure(err) => PipelineEventView::StoreFailure(*err),
            PipelineEvent::AssetResolved(asset) => PipelineEventView::AssetResolved(*asset),
            PipelineEvent::BalanceQueried(balance) => PipelineEventView::BalanceQueried(*balance),
            PipelineEvent::LocalWriteDone => PipelineEventView::LocalWriteDone,
            PipelineEvent::SignerChecked(available) => PipelineEventView::SignerChecked(*available),
            PipelineEvent::SubmissionDone => PipelineEventView::SubmissionDone,
        }
    }
}

/// How the processing of one command ended.
#[derive(Clone, Copy, Debug, PartialEq, Eq, Structural)]
pub enum CommandOutcome {
    /// Every step succeeded, including the transaction submission.
    Completed,
    /// The side effects took place, but no local signing identity was
    /// available, so no transaction was submitted: a partial-failure state
    /// that the host must log, not hide.
    CompletedWithoutSubmission,
    /// The command did not apply (no asset mapping): logged and skipped,
    /// not a pipeline failure.
    Skipped(Error),
    /// A step failed; the command is abandoned without retry and the rest
    /// of the queue goes on.
    Abandoned(Error),
    /// The source-connect step of a publish failed; the whole tick's
    /// remaining commands are abandoned, as there is no per-command
    /// isolation at that step.
    FatalError(Error),
    /// A response variant did not match the request kind: an unrecoverable
    /// internal-consistency fault that the host must surface loudly.
    ContractViolation,
}

/// Where the machine stands between two host observations.
pub enum PipelineStep {
    /// Publish: awaiting the source-connect outcome.
    PubConnecting,
    /// Publish: awaiting the fetched content.
    PubFetching,
    /// Publish: awaiting the disconnect outcome; carries the fetched bytes.
    PubDisconnecting { data: Vec<u8> },
    /// Publish: awaiting the content id of the local re-publication.
    PubPublishing,
    /// Publish: awaiting the signing-identity check; carries the new id.
    PubCheckingSigner { new_content_id: Vec<u8> },
    /// Publish: awaiting the submission hand-over.
    PubSubmitting,
    /// Fetch: awaiting the asset-id resolution.
    FetResolving,
    /// Fetch: awaiting the recipient's balance.
    FetAwaitingBalance { asset_id: AssetId },
    /// Fetch: awaiting the fetched content.
    FetFetching,
    /// Fetch: awaiting the local storage write.
    FetWriting,
    /// Fetch: awaiting the signing-identity check.
    FetCheckingSigner,
    /// Fetch: awaiting the submission hand-over.
    FetSubmitting,
    /// The command is finished, with its outcome.
    Done(CommandOutcome),
}

/// The abstract value of a machine state.
pub enum StepView {
    PubConnecting,
    PubFetching,
    PubDisconnecting { data: Seq<u8> },
    PubPublishing,
    PubCheckingSigner { new_content_id: Seq<u8> },
    PubSubmitting,
    FetResolving,
    FetAwaitingBalance { asset_id: AssetId },
    FetFetching,
    FetWriting,
    FetCheckingSigner,
    FetSubmitting,
    Done(CommandOutcome),
}

impl View for PipelineStep {
    type V = StepView;

    open spec fn view(&self) -> StepView {
        match self {
            PipelineStep::PubConnecting => StepView::PubConnecting,
            PipelineStep::PubFetching => StepView::PubFetching,
            PipelineStep::PubDisconnecting { data } => (StepView::PubDisconnecting {
                data: data@,
            }),
            PipelineStep::PubPublishing => StepView::PubPublishing,
            PipelineStep::PubCheckingSigner { new_content_id } => (StepView::PubCheckingSigner {
                new_content_id: new_content_id@,
            }),
            PipelineStep::PubSubmitting => StepView::PubSubmitting,
            PipelineStep::FetResolving => StepView::FetResolving,
            PipelineStep::FetAwaitingBalance { asset_id } => (StepView::FetAwaitingBalance {
                asset_id: *asset_id,
            }),
            PipelineStep::FetFetching => StepView::FetFetching,
            PipelineStep::FetWriting => StepView::FetWriting,
            PipelineStep::FetCheckingSigner => StepView::FetCheckingSigner,
            PipelineStep::FetSubmitting => StepView::FetSubmitting,
            PipelineStep::Done(outcome) => StepView::Done(*outcome),
        }
    }
}

/// The machine's answer to an observation that no step of the running
/// protocol can account for: an internal-consistency fault.
pub open spec fn fault_transition() -> (StepView, Option<PipelineActionView>) {
    (StepView::Done(CommandOutcome::ContractViolation), None)
}

/// The first state and action of a command: a publish connects to its
/// source; a fetch resolves the asset that guards the content.
pub open spec fn command_start(cmd: DataCommandView) -> (StepView, PipelineActionView) {
    match cmd {
        DataCommandView::Publish(p) => (
            StepView::PubConnecting,
            PipelineActionView::StoreRequest(RequestKindView::Connect(p.source_addr)),
        ),
        DataCommandView::Fetch(f) => (
            StepView::FetResolving,
            PipelineActionView::ResolveAsset { owner: f.owner, content_id: f.content_id },
        ),
    }
}

/// One transition of a publish command.
pub open spec fn publish_step(
    p: PublishCommandView,
    step: StepView,
    event: PipelineEventView,
) -> (StepView, Option<PipelineActionView>) {
    match (step, event) {
        (StepView::PubConnecting, PipelineEventView::StoreResponse(resp)) => if resp is Success {
            (
                StepView::PubFetching,
                Some(PipelineActionView::StoreRequest(RequestKindView::CatBytes(p.content_id))),
            )
        } else {
            fault_transition()
        },
        (StepView::PubConnecting, PipelineEventView::StoreFailure(err)) => (
            StepView::Done(CommandOutcome::FatalError(err)),
            None,
        ),
        (StepView::PubFetching, PipelineEventView::StoreResponse(resp)) => match resp {
            ResponseView::CatBytes(data) => (
                StepView::PubDisconnecting { data },
                Some(
                    PipelineActionView::StoreRequest(RequestKindView::Disconnect(p.source_addr)),
                ),
            ),
            _ => fault_transition(),
        },
        (StepView::PubFetching, PipelineEventView::StoreFailure(err)) => (
            StepView::Done(CommandOutcome::Abandoned(err)),
            None,
        ),
        (StepView::PubDisconnecting { data }, PipelineEventView::StoreResponse(resp)) => if resp
            is Success {
            (
                StepView::PubPublishing,
                Some(PipelineActionView::StoreRequest(RequestKindView::AddBytes(data))),
            )
        } else {
            fault_transition()
        },
        (StepView::PubDisconnecting { data: _ }, PipelineEventView::StoreFailure(err)) => (
            StepView::Done(CommandOutcome::Abandoned(err)),
            None,
        ),
        (StepView::PubPublishing, PipelineEventView::StoreResponse(resp)) => match resp {
            ResponseView::AddBytes(new_content_id) => (
                StepView::PubCheckingSigner { new_content_id },
                Some(PipelineActionView::CheckSigner),
            ),
            _ => fault_transition(),
        },
        (StepView::PubPublishing, PipelineEventView::StoreFailure(err)) => (
            StepView::Done(CommandOutcome::Abandoned(err)),
            None,
        ),
        (
            StepView::PubCheckingSigner { new_content_id },
            PipelineEventView::SignerChecked(available),
        ) => if available {
            (
                StepView::PubSubmitting,
                Some(
                    PipelineActionView::SubmitPublishResult {
                        admin: p.admin,
                        content_id: new_content_id,
                        asset_id: p.asset_id,
                        balance: p.balance,
                    },
                ),
            )
        } else {
            (StepView::Done(CommandOutcome::CompletedWithoutSubmission), None)
        },
        (StepView::PubSubmitting, PipelineEventView::SubmissionDone) => (
            StepView::Done(CommandOutcome::Completed),
            None,
        ),
        _ => fault_transition(),
    }
}

/// One transition of a fetch command.
pub open spec fn fetch_step(
    f: FetchCommandView,
    step: StepView,
    event: PipelineEventView,
) -> (StepView, Option<PipelineActionView>) {
    match (step, event) {
        (StepView::FetResolving, PipelineEventView::AssetResolved(asset)) => match asset {
            Some(asset_id) => (
                StepView::FetAwaitingBalance { asset_id },
                Some(PipelineActionView::QueryBalance { asset_id, account: f.recipient }),
            ),
            None => (StepView::Done(CommandOutcome::Skipped(Error::NoSuchOwnedContent)), None),
        },
        (
            StepView::FetAwaitingBalance { asset_id: _ },
            PipelineEventView::BalanceQueried(balance),
        ) => match balance {
            Some(amount) => if amount > 0 {
                (
                    StepView::FetFetching,
                    Some(
                        PipelineActionView::StoreRequest(RequestKindView::CatBytes(f.content_id)),
                    ),
                )
            } else {
                (StepView::Done(CommandOutcome::Abandoned(Error::InsufficientBalance)), None)
            },
            None => (StepView::Done(CommandOutcome::Abandoned(Error::InsufficientBalance)), None),
        },
        (StepView::FetFetching, PipelineEventView::StoreResponse(resp)) => match resp {
            ResponseView::CatBytes(data) => (
                StepView::FetWriting,
                Some(PipelineActionView::WriteLocal { key: f.content_id, value: data }),
            ),
            _ => fault_transition(),
        },
        (StepView::FetFetching, PipelineEventView::StoreFailure(err)) => (
            StepView::Done(CommandOutcome::Abandoned(err)),
            None,
        ),
        (StepView::FetWriting, PipelineEventView::LocalWriteDone) => (
            StepView::FetCheckingSigner,
            Some(PipelineActionView::CheckSigner),
        ),
        (StepView::FetCheckingSigner, PipelineEventView::SignerChecked(available)) => if available {
            (
                StepView::FetSubmitting,
                Some(PipelineActionView::SubmitFetchReady { recipient: f.recipient }),
            )
        } else {
            (StepView::Done(CommandOutcome::CompletedWithoutSubmission), None)
        },
        (StepView::FetSubmitting, PipelineEventView::SubmissionDone) => (
            StepView::Done(CommandOutcome::Completed),
            None,
        ),
        _ => fault_transition(),
    }
}

/// One transition of the machine.  A finished command absorbs every further
/// observation without emitting an action.
pub open spec fn command_step(
    cmd: DataCommandView,
    step: StepView,
    event: PipelineEventView,
) -> (StepView, Option<PipelineActionView>) {
    match step {
        StepView::Done(outcome) => (StepView::Done(outcome), None),
        _ => match cmd {
            DataCommandView::Publish(p) => publish_step(p, step, event),
            DataCommandView::Fetch(f) => fetch_step(f, step, event),
        },
    }
}

/// Starts the machine for one command.
pub fn start_command(cmd: &DataCommand) -> (r: (PipelineStep, PipelineAction))
    ensures
        (r.0@, r.1@) == command_start(cmd@),
{
    match cmd {
        DataCommand::Publish(p) => (
            PipelineStep::PubConnecting,
            PipelineAction::StoreRequest(RequestKind::Connect(clone_bytes(&p.source_addr))),
        ),
        DataCommand::Fetch(f) => (
            PipelineStep::FetResolving,
            PipelineAction::ResolveAsset {
                owner: f.owner,
                content_id: clone_bytes(&f.content_id),
            },
        ),
    }
}

/// Feeds one observation into the machine and returns the next state and,
/// possibly, the next action for the host to carry out.
pub fn advance_command(
    cmd: &DataCommand,
    step: PipelineStep,
    event: PipelineEvent,
) -> (r: (PipelineStep, Option<PipelineAction>))
    ensures
        r.0@ == command_step(cmd@, step@, event@).0,
        opt_action_view(r.1) == command_step(cmd@, step@, event@).1,
{
    if let PipelineStep::Done(outcome) = step {
        return (PipelineStep::Done(outcome), None);
    }
    match cmd {
        DataCommand::Publish(p) => advance_publish(p, step, event),
        DataCommand::Fetch(f) => advance_fetch(f, step, event),
    }
}

/// One transition of a publish command (executable side).
fn advance_publish(
    p: &PublishCommand,
    step: PipelineStep,
    event: PipelineEvent,
) -> (r: (PipelineStep, Option<PipelineAction>))
    requires
        !(step is Done),
    ensures
        r.0@ == publish_step(p@, step@, event@).0,
        opt_action_view(r.1) == publish_step(p@, step@, event@).1,
{
    match (step, event) {
        (PipelineStep::PubConnecting, PipelineEvent::StoreResponse(resp)) => match resp {
            Response::Success => (
                PipelineStep::PubFetching,
                Some(
                    PipelineAction::StoreRequest(
                        RequestKind::CatBytes(clone_bytes(&p.content_id)),
                    ),
                ),
            ),
            _ => fault(),
        },
        (PipelineStep::PubConnecting, PipelineEvent::StoreFailure(err)) => (
            PipelineStep::Done(CommandOutcome::FatalError(err)),
            None,
        ),
        (PipelineStep::PubFetching, PipelineEvent::StoreResponse(resp)) => match resp {
            Response::CatBytes(data) => (
                PipelineStep::PubDisconnecting { data },
                Some(
                    PipelineAction::StoreRequest(
                        RequestKind::Disconnect(clone_bytes(&p.source_addr)),
                    ),
                ),
            ),
            _ => fault(),
        },
        (PipelineStep::PubFetching, PipelineEvent::StoreFailure(err)) => (
            PipelineStep::Done(CommandOutcome::Abandoned(err)),
            None,
        ),
        (PipelineStep::PubDisconnecting { data }, PipelineEvent::StoreResponse(resp)) => match resp {
            Response::Success => (
                PipelineStep::PubPublishing,
                Some(PipelineAction::StoreRequest(RequestKind::AddBytes(data))),
            ),
            _ => fault(),
        },
        (PipelineStep::PubDisconnecting { data: _ }, PipelineEvent::StoreFailure(err)) => (
            PipelineStep::Done(CommandOutcome::Abandoned(err)),
            None,
        ),
        (PipelineStep::PubPublishing, PipelineEvent::StoreResponse(resp)) => match resp {
            Response::AddBytes(new_content_id) => (
                PipelineStep::PubCheckingSigner { new_content_id },
                Some(PipelineAction::CheckSigner),
            ),
            _ => fault(),
        },
        (PipelineStep::PubPublishing, PipelineEvent::StoreFailure(err)) => (
            PipelineStep::Done(CommandOutcome::Abandoned(err)),
            None,
        ),
        (
            PipelineStep::PubCheckingSigner { new_content_id },
            PipelineEvent::SignerChecked(available),
        ) => if available {
            (
                PipelineStep::PubSubmitting,
                Some(
                    PipelineAction::SubmitPublishResult {
                        admin: p.admin,
                        content_id: new_content_id,
                        asset_id: p.asset_id,
                        balance: p.balance,
                    },
                ),
            )
        } else {
            (PipelineStep::Done(CommandOutcome::CompletedWithoutSubmission), None)
        },
        (PipelineStep::PubSubmitting, PipelineEvent::SubmissionDone) => (
            PipelineStep::Done(CommandOutcome::Completed),
            None,
        ),
        _ => fault(),
    }
}

/// One transition of a fetch command (executable side).
fn advance_fetch(
    f: &FetchCommand,
    step: PipelineStep,
    event: PipelineEvent,
) -> (r: (PipelineStep, Option<PipelineAction>))
    requires
        !(step is Done),
    ensures
        r.0@ == fetch_step(f@, step@, event@).0,
        opt_action_view(r.1) == fetch_step(f@, step@, event@).1,
{
    match (step, event) {
        (PipelineStep::FetResolving, PipelineEvent::AssetResolved(asset)) => match asset {
            Some(asset_id) => (
                PipelineStep::FetAwaitingBalance { asset_id },
                Some(PipelineAction::QueryBalance { asset_id, account: f.recipient }),
            ),
            None => (PipelineStep::Done(CommandOutcome::Skipped(Error::NoSuchOwnedContent)), None),
        },
        (
            PipelineStep::FetAwaitingBalance { asset_id: _ },
            PipelineEvent::BalanceQueried(balance),
        ) => match balance {
            Some(amount) => if amount > 0 {
                (
                    PipelineStep::FetFetching,
                    Some(
                        PipelineAction::StoreRequest(
                            RequestKind::CatBytes(clone_bytes(&f.content_id)),
                        ),
                    ),
                )
            } else {
                (PipelineStep::Done(CommandOutcome::Abandoned(Error::InsufficientBalance)), None)
            },
            None => (
                PipelineStep::Done(CommandOutcome::Abandoned(Error::InsufficientBalance)),
                None,
            ),
        },
        (PipelineStep::FetFetching, PipelineEvent::StoreResponse(resp)) => match resp {
            Response::CatBytes(data) => (
                PipelineStep::FetWriting,
                Some(
                    PipelineAction::WriteLocal { key: clone_bytes(&f.content_id), value: data },
                ),
            ),
            _ => fault(),
        },
        (PipelineStep::FetFetching, PipelineEvent::StoreFailure(err)) => (
            PipelineStep::Done(CommandOutcome::Abandoned(err)),
            None,
        ),
        (PipelineStep::FetWriting, PipelineEvent::LocalWriteDone) => (
            PipelineStep::FetCheckingSigner,
            Some(PipelineAction::CheckSigner),
        ),
        (PipelineStep::FetCheckingSigner, PipelineEvent::SignerChecked(available)) => if available {
            (
                PipelineStep::FetSubmitting,
                Some(PipelineAction::SubmitFetchReady { recipient: f.recipient }),
            )
        } else {
            (PipelineStep::Done(CommandOutcome::CompletedWithoutSubmission), None)
        },
        (PipelineStep::FetSubmitting, PipelineEvent::SubmissionDone) => (
            PipelineStep::Done(CommandOutcome::Completed),
            None,
        ),
        _ => fault(),
    }
}

/// The executable fault answer: see `fault_transition`.
fn fault() -> (r: (PipelineStep, Option<PipelineAction>))
    ensures
        (r.0@, opt_action_view(r.1)) == fault_transition(),
{
    (PipelineStep::Done(CommandOutcome::ContractViolation), None)
}

/// Whether this outcome abandons the rest of the tick's queue.
pub fn outcome_aborts_tick(outcome: &CommandOutcome) -> (b: bool)
    ensures
        b == (outcome matches CommandOutcome::FatalError(_)),
{
    matches!(outcome, CommandOutcome::FatalError(_))
}

/// Whether this outcome is an internal-consistency fault that the host must
/// surface loudly rather than log and continue.
pub fn outcome_is_fault(outcome: &CommandOutcome) -> (b: bool)
    ensures
        b == (outcome is ContractViolation),
{
    matches!(outcome, CommandOutcome::ContractViolation)
}

/// The machine run from `step` over `events`: the final state and every
/// action emitted along the way, in order.
pub open spec fn run_steps(
    cmd: DataCommandView,
    step: StepView,
    events: Seq<PipelineEventView>,
) -> (StepView, Seq<PipelineActionView>)
    decreases events.len(),
{
    if events.len() == 0 {
        (step, Seq::empty())
    } else {
        let next = command_step(cmd, step, events[0]);
        let rest = run_steps(cmd, next.0, events.drop_first());
        (
            rest.0,
            match next.1 {
                Some(action) => seq![action] + rest.1,
                None => rest.1,
            },
        )
    }
}

/// The whole run of one command over `events`: the final state and every
/// action emitted, starting with the command's first action.
pub open spec fn run_command(
    cmd: DataCommandView,
    events: Seq<PipelineEventView>,
) -> (StepView, Seq<PipelineActionView>) {
    let start = command_start(cmd);
    let rest = run_steps(cmd, start.0, events);
    (rest.0, seq![start.1] + rest.1)
}

/// A finished command stays finished and emits nothing, whatever else the
/// host observes.
pub proof fn lemma_done_is_absorbing(
    cmd: DataCommandView,
    outcome: CommandOutcome,
    events: Seq<PipelineEventView>,
)
    ensures
        run_steps(cmd, StepView::Done(outcome), events).0 == StepView::Done(outcome),
        run_steps(cmd, StepView::Done(outcome), events).1 == Seq::<PipelineActionView>::empty(),
    decreases events.len(),
{
    if events.len() > 0 {
        lemma_done_is_absorbing(cmd, outcome, events.drop_first());
    }
}

/// A publish command whose source-connect step fails ends the tick fatally
/// and performs nothing further: no fetch, no disconnect, no publication,
/// no submission — the only action ever emitted is the connect itself.
pub proof fn lemma_publish_connect_failure(
    p: PublishCommandView,
    err: Error,
    events: Seq<PipelineEventView>,
)
    requires
        events.len() >= 1,
        events[0] == PipelineEventView::StoreFailure(err),
    ensures
        run_command(DataCommandView::Publish(p), events).0 == StepView::Done(
            CommandOutcome::FatalError(err),
        ),
        run_command(DataCommandView::Publish(p), events).1 == seq![
            PipelineActionView::StoreRequest(RequestKindView::Connect(p.source_addr)),
        ],
{
    let cmd = DataCommandView::Publish(p);
    let start = command_start(cmd);
    let step1 = command_step(cmd, start.0, events[0]);
    assert(step1.0 == StepView::Done(CommandOutcome::FatalError(err)));
    assert(step1.1 is None);
    lemma_done_is_absorbing(cmd, CommandOutcome::FatalError(err), events.drop_first());
    let rest = run_steps(cmd, start.0, events);
    assert(rest.1 == run_steps(cmd, step1.0, events.drop_first()).1);
    assert(seq![start.1] + rest.1 =~= seq![start.1]);
}

/// A fetch command for a recipient whose balance of the resolved asset is
/// zero — or did not convert, which gates identically — never reaches the
/// store: it is abandoned with `InsufficientBalance` after the resolution
/// and the balance query, and no store request of any kind is emitted.
pub proof fn lemma_fetch_denied_without_balance(
    f: FetchCommandView,
    asset_id: AssetId,
    balance: Option<u64>,
    events: Seq<PipelineEventView>,
)
    requires
        events.len() >= 2,
        events[0] == PipelineEventView::AssetResolved(Some(asset_id)),
        events[1] == PipelineEventView::BalanceQueried(balance),
        balance is None || balance == Some(0u64),
    ensures
        run_command(DataCommandView::Fetch(f), events).0 == StepView::Done(
            CommandOutcome::Abandoned(Error::InsufficientBalance),
        ),
        run_command(DataCommandView::Fetch(f), events).1 == seq![
            (PipelineActionView::ResolveAsset { owner: f.owner, content_id: f.content_id }),
            (PipelineActionView::QueryBalance { asset_id, account: f.recipient }),
        ],
        forall|i: int|
            0 <= i < run_command(DataCommandView::Fetch(f), events).1.len() ==> !(run_command(
                DataCommandView::Fetch(f),
                events,
            ).1[i] is StoreRequest),
{
    let cmd = DataCommandView::Fetch(f);
    let start = command_start(cmd);
    let events1 = events.drop_first();
    assert(events1[0] == events[1]);
    let step1 = command_step(cmd, start.0, events[0]);
    assert(step1.0 == StepView::FetAwaitingBalance { asset_id });
    let step2 = command_step(cmd, step1.0, events1[0]);
    assert(step2.0 == StepView::Done(CommandOutcome::Abandoned(Error::InsufficientBalance)));
    assert(step2.1 is None);
    lemma_done_is_absorbing(
        cmd,
        CommandOutcome::Abandoned(Error::InsufficientBalance),
        events1.drop_first(),
    );
    let a1 = step1.1->0;
    let rest1 = run_steps(cmd, step1.0, events1);
    assert(rest1.1 == run_steps(cmd, step2.0, events1.drop_first()).1);
    let rest = run_steps(cmd, start.0, events);
    assert(rest.1 == seq![a1] + rest1.1);
    assert(seq![start.1] + rest.1 =~= seq![start.1, a1]);
}

/// A fetch command for a recipient with a positive balance of the resolved
/// asset performs exactly one store fetch, one local-storage write keyed by
/// the content id and holding the fetched bytes, and one submission
/// hand-over to the transaction submitter (which fans it out to each local
/// signing identity).
pub proof fn lemma_fetch_served_with_balance(
    f: FetchCommandView,
    asset_id: AssetId,
    amount: u64,
    data: Seq<u8>,
    events: Seq<PipelineEventView>,
)
    requires
        amount > 0,
        events.len() >= 6,
        events[0] == PipelineEventView::AssetResolved(Some(asset_id)),
        events[1] == PipelineEventView::BalanceQueried(Some(amount)),
        events[2] == PipelineEventView::StoreResponse(ResponseView::CatBytes(data)),
        events[3] == PipelineEventView::LocalWriteDone,
        events[4] == PipelineEventView::SignerChecked(true),
        events[5] == PipelineEventView::SubmissionDone,
    ensures
        run_command(DataCommandView::Fetch(f), events).0 == StepView::Done(
            CommandOutcome::Completed,
        ),
        run_command(DataCommandView::Fetch(f), events).1 == seq![
            (PipelineActionView::ResolveAsset { owner: f.owner, content_id: f.content_id }),
            (PipelineActionView::QueryBalance { asset_id, account: f.recipient }),
            PipelineActionView::StoreRequest(RequestKindView::CatBytes(f.content_id)),
            (PipelineActionView::WriteLocal { key: f.content_id, value: data }),
            PipelineActionView::CheckSigner,
            (PipelineActionView::SubmitFetchReady { recipient: f.recipient }),
        ],
{
    let cmd = DataCommandView::Fetch(f);
    let start = command_start(cmd);
    let e1 = events.drop_first();
    let e2 = e1.drop_first();
    let e3 = e2.drop_first();
    let e4 = e3.drop_first();
    let e5 = e4.drop_first();
    let e6 = e5.drop_first();
    assert(e1[0] == events[1]);
    assert(e2[0] == events[2]);
    assert(e3[0] == events[3]);
    assert(e4[0] == events[4]);
    assert(e5[0] == events[5]);
    let step1 = command_step(cmd, start.0, events[0]);
    assert(step1.0 == StepView::FetAwaitingBalance { asset_id });
    let step2 = command_step(cmd, step1.0, e1[0]);
    assert(step2.0 == StepView::FetFetching);
    let step3 = command_step(cmd, step2.0, e2[0]);
    assert(step3.0 == StepView::FetWriting);
    let step4 = command_step(cmd, step3.0, e3[0]);
    assert(step4.0 == StepView::FetCheckingSigner);
    let step5 = command_step(cmd, step4.0, e4[0]);
    assert(step5.0 == StepView::FetSubmitting);
    let step6 = command_step(cmd, step5.0, e5[0]);
    assert(step6.0 == StepView::Done(CommandOutcome::Completed));
    assert(step6.1 is None);
    lemma_done_is_absorbing(cmd, CommandOutcome::Completed, e6);
    let r6 = run_steps(cmd, step6.0, e6);
    let r5 = run_steps(cmd, step5.0, e5);
    assert(r5.1 == r6.1);
    let r4 = run_steps(cmd, step4.0, e4);
    assert(r4.1 == seq![step5.1->0] + r5.1);
    let r3 = run_steps(cmd, step3.0, e3);
    assert(r3.1 == seq![step4.1->0] + r4.1);
    let r2 = run_steps(cmd, step2.0, e2);
    assert(r2.1 == seq![step3.1->0] + r3.1);
    let r1 = run_steps(cmd, step1.0, e1);
    assert(r1.1 == seq![step2.1->0] + r2.1);
    let r0 = run_steps(cmd, start.0, events);
    assert(r0.1 == seq![step1.1->0] + r1.1);
    assert(seq![start.1] + r0.1 =~= seq![
        start.1,
        step1.1->0,
        step2.1->0,
        step3.1->0,
        step4.1->0,
        step5.1->0,
    ]);
}

/// A publish command whose five steps all succeed performs exactly one
/// connect to the source, one fetch of the content, one disconnect, one
/// local re-publication of the fetched bytes, and one submission hand-over
/// carrying the admin, the new content id, the asset id and the balance.
pub proof fn lemma_publish_completes(
    p: PublishCommandView,
    data: Seq<u8>,
    new_content_id: Seq<u8>,
    events: Seq<PipelineEventView>,
)
    requires
        events.len() >= 6,
        events[0] == PipelineEventView::StoreResponse(ResponseView::Success),
        events[1] == PipelineEventView::StoreResponse(ResponseView::CatBytes(data)),
        events[2] == PipelineEventView::StoreResponse(ResponseView::Success),
        events[3] == PipelineEventView::StoreResponse(ResponseView::AddBytes(new_content_id)),
        events[4] == PipelineEventView::SignerChecked(true),
        events[5] == PipelineEventView::SubmissionDone,
    ensures
        run_command(DataCommandView::Publish(p), events).0 == StepView::Done(
            CommandOutcome::Completed,
        ),
        run_command(DataCommandView::Publish(p), events).1 == seq![
            PipelineActionView::StoreRequest(RequestKindView::Connect(p.source_addr)),
            PipelineActionView::StoreRequest(RequestKindView::CatBytes(p.content_id)),
            PipelineActionView::StoreRequest(RequestKindView::Disconnect(p.source_addr)),
            PipelineActionView::StoreRequest(RequestKindView::AddBytes(data)),
            PipelineActionView::CheckSigner,
            (PipelineActionView::SubmitPublishResult {
                admin: p.admin,
                content_id: new_content_id,
                asset_id: p.asset_id,
                balance: p.balance,
            }),
        ],
{
    let cmd = DataCommandView::Publish(p);
    let start = command_start(cmd);
    let e1 = events.drop_first();
    let e2 = e1.drop_first();
    let e3 = e2.drop_first();
    let e4 = e3.drop_first();
    let e5 = e4.drop_first();
    let e6 = e5.drop_first();
    assert(e1[0] == events[1]);
    assert(e2[0] == events[2]);
    assert(e3[0] == events[3]);
    assert(e4[0] == events[4]);
    assert(e5[0] == events[5]);
    let step1 = command_step(cmd, start.0, events[0]);
    assert(step1.0 == StepView::PubFetching);
    let step2 = command_step(cmd, step1.0, e1[0]);
    assert(step2.0 == StepView::PubDisconnecting { data });
    let step3 = command_step(cmd, step2.0, e2[0]);
    assert(step3.0 == StepView::PubPublishing);
    let step4 = command_step(cmd, step3.0, e3[0]);
    assert(step4.0 == StepView::PubCheckingSigner { new_content_id });
    let step5 = command_step(cmd, step4.0, e4[0]);
    assert(step5.0 == StepView::PubSubmitting);
    let step6 = command_step(cmd, step5.0, e5[0]);
    assert(step6.0 == StepView::Done(CommandOutcome::Completed));
    assert(step6.1 is None);
    lemma_done_is_absorbing(cmd, CommandOutcome::Completed, e6);
    let r6 = run_steps(cmd, step6.0, e6);
    let r5 = run_steps(cmd, step5.0, e5);
    assert(r5.1 == r6.1);
    let r4 = run_steps(cmd, step4.0, e4);
    assert(r4.1 == seq![step5.1->0] + r5.1);
    let r3 = run_steps(cmd, step3.0, e3);
    assert(r3.1 == seq![step4.1->0] + r4.1);
    let r2 = run_steps(cmd, step2.0, e2);
    assert(r2.1 == seq![step3.1->0] + r3.1);
    let r1 = run_steps(cmd, step1.0, e1);
    assert(r1.1 == seq![step2.1->0] + r2.1);
    let r0 = run_steps(cmd, start.0, events);
    assert(r0.1 == seq![step1.1->0] + r1.1);
    assert(seq![start.1] + r0.1 =~= seq![
        start.1,
        step1.1->0,
        step2.1->0,
        step3.1->0,
        step4.1->0,
        step5.1->0,
    ]);
}

} // verus!
