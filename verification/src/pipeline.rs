use vstd::prelude::*;

use crate::errors::ArbError;

verus! {

/// How far one opportunity's execution has progressed. A failed transition
/// lands in `Abandoned` with the stage's error; `Mined`, `Dropped` and
/// `Abandoned` are terminal — nothing is ever retried.
#[derive(Clone, Copy, Debug, PartialEq, Eq, Structural)]
pub enum ExecutionStage {
    Evaluated,
    GasEstimated,
    Signed,
    Broadcast,
    Mined,
    Dropped,
    Abandoned { reason: ArbError },
}

/// What the surrounding runtime reports back after performing the action
/// the pipeline asked for.
#[derive(Clone, Copy, Debug, PartialEq, Eq, Structural)]
pub enum ExecutionEvent {
    GasEstimateReady,
    GasEstimationFailed,
    SignatureReady,
    SigningFailed,
    BroadcastAccepted,
    BroadcastRejected,
    ReceiptMined,
    ReceiptMissing,
}

/// The next piece of outside work the pipeline asks the runtime to do.
#[derive(Clone, Copy, Debug, PartialEq, Eq, Structural)]
pub enum ExecutionAction {
    EstimateGas,
    Sign,
    Broadcast,
    AwaitReceipt,
    Stop,
}

pub open spec fn stage_is_terminal(stage: ExecutionStage) -> bool {
    match stage {
        ExecutionStage::Mined => true,
        ExecutionStage::Dropped => true,
        ExecutionStage::Abandoned { .. } => true,
        _ => false,
    }
}

/// Whether `event` is one the runtime can report while in `stage`.
pub open spec fn event_fits_stage(stage: ExecutionStage, event: ExecutionEvent) -> bool {
    match stage {
        ExecutionStage::Evaluated => event == ExecutionEvent::GasEstimateReady || event
            == ExecutionEvent::GasEstimationFailed,
        ExecutionStage::GasEstimated => event == ExecutionEvent::SignatureReady || event
            == ExecutionEvent::SigningFailed,
        ExecutionStage::Signed => event == ExecutionEvent::BroadcastAccepted || event
            == ExecutionEvent::BroadcastRejected,
        ExecutionStage::Broadcast => event == ExecutionEvent::ReceiptMined || event
            == ExecutionEvent::ReceiptMissing,
        _ => true,
    }
}

/// The transition table: each stage advances on its success event, turns
/// into `Abandoned` with that stage's error on its failure event, and a
/// terminal stage absorbs everything.
pub open spec fn advance_spec(stage: ExecutionStage, event: ExecutionEvent) -> (
    ExecutionStage,
    ExecutionAction,
) {
    if stage_is_terminal(stage) {
        (stage, ExecutionAction::Stop)
    } else {
        match (stage, event) {
            (ExecutionStage::Evaluated, ExecutionEvent::GasEstimateReady) => (
                ExecutionStage::GasEstimated,
                ExecutionAction::Sign,
            ),
            (ExecutionStage::Evaluated, ExecutionEvent::GasEstimationFailed) => (
                ExecutionStage::Abandoned { reason: ArbError::GasEstimationError },
                ExecutionAction::Stop,
            ),
            (ExecutionStage::GasEstimated, ExecutionEvent::SignatureReady) => (
                ExecutionStage::Signed,
                ExecutionAction::Broadcast,
            ),
            (ExecutionStage::GasEstimated, ExecutionEvent::SigningFailed) => (
                ExecutionStage::Abandoned { reason: ArbError::SigningError },
                ExecutionAction::Stop,
            ),
            (ExecutionStage::Signed, ExecutionEvent::BroadcastAccepted) => (
                ExecutionStage::Broadcast,
                ExecutionAction::AwaitReceipt,
            ),
            (ExecutionStage::Signed, ExecutionEvent::BroadcastRejected) => (
                ExecutionStage::Abandoned { reason: ArbError::BroadcastError },
                ExecutionAction::Stop,
            ),
            (ExecutionStage::Broadcast, ExecutionEvent::ReceiptMined) => (
                ExecutionStage::Mined,
                ExecutionAction::Stop,
            ),
            (ExecutionStage::Broadcast, ExecutionEvent::ReceiptMissing) => (
                ExecutionStage::Dropped,
                ExecutionAction::Stop,
            ),
            _ => (stage, ExecutionAction::Stop),
        }
    }
}

/// Runs one transition of the execution pipeline.
pub fn advance_execution(stage: &ExecutionStage, event: &ExecutionEvent) -> (r: (
    ExecutionStage,
    ExecutionAction,
))
    requires
        event_fits_stage(*stage, *event),
    ensures
        r == advance_spec(*stage, *event),
{
    match (*stage, *event) {
        (ExecutionStage::Evaluated, ExecutionEvent::GasEstimateReady) => (
            ExecutionStage::GasEstimated,
            ExecutionAction::Sign,
        ),
        (ExecutionStage::Evaluated, ExecutionEvent::GasEstimationFailed) => (
            ExecutionStage::Abandoned { reason: ArbError::GasEstimationError },
            ExecutionAction::Stop,
        ),
        (ExecutionStage::GasEstimated, ExecutionEvent::SignatureReady) => (
            ExecutionStage::Signed,
            ExecutionAction::Broadcast,
        ),
        (ExecutionStage::GasEstimated, ExecutionEvent::SigningFailed) => (
            ExecutionStage::Abandoned { reason: ArbError::SigningError },
            ExecutionAction::Stop,
        ),
        (ExecutionStage::Signed, ExecutionEvent::BroadcastAccepted) => (
            ExecutionStage::Broadcast,
            ExecutionAction::AwaitReceipt,
        ),
        (ExecutionStage::Signed, ExecutionEvent::BroadcastRejected) => (
            ExecutionStage::Abandoned { reason: ArbError::BroadcastError },
            ExecutionAction::Stop,
        ),
        (ExecutionStage::Broadcast, ExecutionEvent::ReceiptMined) => (
            ExecutionStage::Mined,
            ExecutionAction::Stop,
        ),
        (ExecutionStage::Broadcast, ExecutionEvent::ReceiptMissing) => (
            ExecutionStage::Dropped,
            ExecutionAction::Stop,
        ),
        _ => (*stage, ExecutionAction::Stop),
    }
}

/// How far along the pipeline a stage is; terminal stages rank last.
pub open spec fn stage_rank(stage: ExecutionStage) -> int {
    match stage {
        ExecutionStage::Evaluated => 0,
        ExecutionStage::GasEstimated => 1,
        ExecutionStage::Signed => 2,
        ExecutionStage::Broadcast => 3,
        _ => 4,
    }
}

/// A terminal stage absorbs every event: nothing mined, dropped or
/// abandoned is ever acted on again.
pub proof fn lemma_terminal_is_absorbing(stage: ExecutionStage, event: ExecutionEvent)
    requires
        stage_is_terminal(stage),
    ensures
        advance_spec(stage, event).0 == stage,
        advance_spec(stage, event).1 == ExecutionAction::Stop,
{
}

/// The pipeline never retries and never goes back: every transition out
/// of a live stage moves strictly forward — one step on success, straight
/// to a terminal stage on failure.
pub proof fn lemma_no_retreat(stage: ExecutionStage, event: ExecutionEvent)
    requires
        !stage_is_terminal(stage),
        event_fits_stage(stage, event),
    ensures
        stage_rank(advance_spec(stage, event).0) > stage_rank(stage),
{
}

/// The listener's one fatal outcome: every per-transaction failure is
/// contained in that transaction's evaluation, but a feed that could not
/// be established stops the whole monitoring loop, to be restarted by an
/// outside supervisor.
pub fn start_listening(subscribed: bool) -> (r: Result<(), ArbError>)
    ensures
        subscribed ==> r == Ok::<(), ArbError>(()),
        !subscribed ==> r == Err::<(), ArbError>(ArbError::FeedSubscriptionError),
{
    if subscribed {
        Ok(())
    } else {
        Err(ArbError::FeedSubscriptionError)
    }
}

/// Whether the executing contract's balance covers the required input
/// amount for a trade.
pub fn has_sufficient_balance(balance: u128, required: u128) -> (r: bool)
    ensures
        r == (balance >= required),
{
    balance >= required
}

/// The balance screening's outcome: distinct from every other way an
/// opportunity can end, so observability can tell them apart.
#[derive(Clone, Copy, Debug, PartialEq, Eq, Structural)]
pub enum BalanceCheck {
    Sufficient,
    InsufficientBalance,
}

/// Blocks execution unless the contract's input-token balance covers the
/// trade. A balance that could not be read (`None`) blocks it too: the
/// decision fails closed.
pub fn gate_execution(balance: Option<u128>, required: u128) -> (r: BalanceCheck)
    ensures
        (r == BalanceCheck::Sufficient) <==> (balance matches Some(b) && b >= required),
        (r == BalanceCheck::InsufficientBalance) <==> !(balance matches Some(b) && b >= required),
{
    match balance {
        Some(b) => {
            if has_sufficient_balance(b, required) {
                BalanceCheck::Sufficient
            } else {
                BalanceCheck::InsufficientBalance
            }
        },
        None => BalanceCheck::InsufficientBalance,
    }
}

} // verus!
