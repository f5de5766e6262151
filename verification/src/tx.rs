//! The common shape of the endpoints that submit one extrinsic and refund its fees:
//! submit, look for the expected event, refund the fees, answer.
//!
//! `tx_step` takes the stage and what the last call returned, and gives the next stage
//! and call, or the answer.

use vstd::prelude::*;

verus! {

/// Where a submission stands.
#[derive(Clone, Copy, Debug, PartialEq, Eq, Structural)]
pub enum TxStage {
    /// Submitting the extrinsic and looking for its event.
    Submitting,
    /// Refunding the fees; `found` tells whether the event was found.
    Refunding { found: bool },
    /// Answered.
    Done,
}

/// What the last call of a submission returned; an error is the body its failure is
/// reported with.
#[derive(Debug)]
pub enum TxEvent {
    /// Whether the expected event was among the events of the finalized extrinsic.
    Submitted(Result<bool, String>),
    Refunded(Result<(), String>),
}

/// The answer of a submission.
#[derive(Debug)]
pub enum TxAnswer {
    /// The event was found: the endpoint answers with what it holds.
    Found,
    /// The event was not found: the endpoint's refusal.
    NotFound,
    /// A call failed, with the body it is reported with.
    Failed(String),
}

/// The next call of a submission, or its answer.
#[derive(Debug)]
pub enum TxAction {
    Submit,
    Refund,
    Respond(TxAnswer),
}

/// Whether `event` is what the call made at `stage` returns.
pub open spec fn tx_event_fits(stage: TxStage, event: TxEvent) -> bool {
    match stage {
        TxStage::Submitting => event is Submitted,
        TxStage::Refunding { .. } => event is Refunded,
        TxStage::Done => false,
    }
}

/// The transitions of a submission: a failed submission is reported as it failed;
/// otherwise the fees are refunded whether or not the event was found; a failed refund is
/// reported as it failed, else the answer tells whether the event was found.
pub open spec fn tx_next(stage: TxStage, event: TxEvent) -> (TxStage, TxAction) {
    match (stage, event) {
        (TxStage::Submitting, TxEvent::Submitted(Ok(found))) => (TxStage::Refunding { found }, TxAction::Refund),
        (TxStage::Submitting, TxEvent::Submitted(Err(body))) => (TxStage::Done, TxAction::Respond(TxAnswer::Failed(body))),
        (TxStage::Refunding { found }, TxEvent::Refunded(Ok(()))) => (
            TxStage::Done,
            TxAction::Respond(if found { TxAnswer::Found } else { TxAnswer::NotFound }),
        ),
        (TxStage::Refunding { .. }, TxEvent::Refunded(Err(body))) => (TxStage::Done, TxAction::Respond(TxAnswer::Failed(body))),
        _ => (stage, TxAction::Submit),
    }
}

/// The first call of a submission.
pub fn start_tx() -> (r: (TxStage, TxAction))
    ensures
        r == (TxStage::Submitting, TxAction::Submit),
{
    (TxStage::Submitting, TxAction::Submit)
}

/// The next stage and call of a submission, given what the last call returned.
pub fn tx_step(stage: TxStage, event: TxEvent) -> (r: (TxStage, TxAction))
    requires
        tx_event_fits(stage, event),
    ensures
        r == tx_next(stage, event),
        (r.1 is Respond) <==> (r.0 == TxStage::Done),
{
    match event {
        TxEvent::Submitted(Ok(found)) => (TxStage::Refunding { found }, TxAction::Refund),
        TxEvent::Submitted(Err(body)) => (TxStage::Done, TxAction::Respond(TxAnswer::Failed(body))),
        TxEvent::Refunded(Ok(())) => {
            let found = match stage {
                TxStage::Refunding { found } => found,
                _ => false,
            };
            (TxStage::Done, TxAction::Respond(if found { TxAnswer::Found } else { TxAnswer::NotFound }))
        },
        TxEvent::Refunded(Err(body)) => (TxStage::Done, TxAction::Respond(TxAnswer::Failed(body))),
    }
}

/// A submission answers with its event only when the event was found and the fees were
/// refunded, and it always refunds after a successful submission: from the start, the
/// answer after two fitting events is `Found` exactly when they are `Submitted(Ok(true))`
/// and `Refunded(Ok(()))`, and a successful submission is always followed by a refund.
pub proof fn lemma_tx_found_needs_event_and_refund(submitted: TxEvent, refunded: TxEvent)
    requires
        tx_event_fits(TxStage::Submitting, submitted),
        tx_event_fits(tx_next(TxStage::Submitting, submitted).0, refunded),
    ensures
        submitted matches TxEvent::Submitted(Ok(_)),
        tx_next(TxStage::Submitting, submitted).1 is Refund,
        tx_next(tx_next(TxStage::Submitting, submitted).0, refunded).1 matches TxAction::Respond(TxAnswer::Found)
            <==> (submitted == TxEvent::Submitted(Ok::<bool, String>(true)) && refunded == TxEvent::Refunded(Ok::<(), String>(()))),
        tx_next(tx_next(TxStage::Submitting, submitted).0, refunded).0 == TxStage::Done,
{
    if let TxEvent::Refunded(Ok(u)) = refunded {
        assert(u == ());
    }
}

} // verus!
