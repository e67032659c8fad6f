use vstd::prelude::*;
use crate::errors::PuppeteerError;
use crate::types::{Transaction, TransactionModel};

verus! {

/// Status of the single in-flight transaction slot.
#[derive(Clone, Copy, Debug, PartialEq, Eq, Structural)]
pub enum TxStatus {
    /// Nothing is pending; a new submission may be accepted.
    Idle,
    /// A submission has been issued locally and awaits the local
    /// acknowledgement that assigns its sequence number.
    Submitting,
    /// The remote transaction is in flight and awaits exactly one of
    /// response, error or timeout.
    WaitingForAck,
}

/// The singleton slot that owns the at-most-one-in-flight guarantee.
///
/// The slot is never partially populated: see [`TransactionSlot::wf`].
#[derive(Clone, Debug, PartialEq)]
pub struct TransactionSlot {
    pub status: TxStatus,
    pub sequence_id: Option<u64>,
    pub pending_operation: Option<Transaction>,
    pub notify: Option<String>,
}

/// Mathematical model of a [`TransactionSlot`].
pub struct TransactionSlotModel {
    pub status: TxStatus,
    pub sequence_id: Option<u64>,
    pub pending_operation: Option<TransactionModel>,
    pub notify: Option<Seq<char>>,
}

impl View for TransactionSlot {
    type V = TransactionSlotModel;

    open spec fn view(&self) -> TransactionSlotModel {
        TransactionSlotModel {
            status: self.status,
            sequence_id: self.sequence_id,
            pending_operation: self.pending_operation.deep_view(),
            notify: self.notify.deep_view(),
        }
    }
}

impl TransactionSlotModel {
    /// The model of an idle slot.
    pub open spec fn idle() -> TransactionSlotModel {
        TransactionSlotModel {
            status: TxStatus::Idle,
            sequence_id: None,
            pending_operation: None,
            notify: None,
        }
    }
}

impl TransactionSlot {
    /// The slot is exactly as populated as its status demands: empty while
    /// idle, holding the operation and the notification target while
    /// submitting, and additionally the sequence id while waiting.
    pub open spec fn wf(self) -> bool {
        match self.status {
            TxStatus::Idle => self.sequence_id is None && self.pending_operation is None
                && self.notify is None,
            TxStatus::Submitting => self.sequence_id is None && self.pending_operation is Some
                && self.notify is Some,
            TxStatus::WaitingForAck => self.sequence_id is Some && self.pending_operation is Some
                && self.notify is Some,
        }
    }

    /// A fresh, idle slot.
    pub fn new() -> (r: Self)
        ensures
            r.wf(),
            r@ == TransactionSlotModel::idle(),
    {
        TransactionSlot {
            status: TxStatus::Idle,
            sequence_id: None,
            pending_operation: None,
            notify: None,
        }
    }

    /// Accepts a new operation batch for submission.
    ///
    /// A second submission while one is already pending always fails with
    /// [`PuppeteerError::InFlight`] and leaves the slot unchanged — the
    /// at-most-one-in-flight guarantee.
    pub fn begin(&mut self, operation: Transaction, notify: String) -> (r: Result<
        (),
        PuppeteerError,
    >)
        requires
            old(self).wf(),
        ensures
            final(self).wf(),
            r is Ok <==> old(self).status is Idle,
            r is Ok ==> final(self)@ == (TransactionSlotModel {
                status: TxStatus::Submitting,
                sequence_id: None,
                pending_operation: Some(operation@),
                notify: Some(notify@),
            }),
            r is Err ==> *final(self) == *old(self) && r == Err::<(), PuppeteerError>(
                PuppeteerError::InFlight,
            ),
    {
        match self.status {
            TxStatus::Idle => {
                self.status = TxStatus::Submitting;
                self.pending_operation = Some(operation);
                self.notify = Some(notify);
                Ok(())
            },
            _ => Err(PuppeteerError::InFlight),
        }
    }

    /// Records the sequence number assigned by the local acknowledgement of
    /// the submission; the slot moves to `WaitingForAck`.
    pub fn confirm(&mut self, sequence_id: u64) -> (r: Result<(), PuppeteerError>)
        requires
            old(self).wf(),
        ensures
            final(self).wf(),
            r is Ok <==> old(self).status is Submitting,
            r is Ok ==> final(self)@ == (TransactionSlotModel {
                status: TxStatus::WaitingForAck,
                sequence_id: Some(sequence_id),
                pending_operation: old(self)@.pending_operation,
                notify: old(self)@.notify,
            }),
            r is Err ==> *final(self) == *old(self) && r == Err::<(), PuppeteerError>(
                PuppeteerError::NotSubmitting,
            ),
    {
        match self.status {
            TxStatus::Submitting => {
                self.status = TxStatus::WaitingForAck;
                self.sequence_id = Some(sequence_id);
                Ok(())
            },
            _ => Err(PuppeteerError::NotSubmitting),
        }
    }

    /// Resets the slot after the local submission itself failed: no
    /// asynchronous continuation exists, so the slot returns to idle.
    pub fn abort_submission(&mut self) -> (r: Result<(), PuppeteerError>)
        requires
            old(self).wf(),
        ensures
            final(self).wf(),
            r is Ok <==> old(self).status is Submitting,
            r is Ok ==> final(self)@ == TransactionSlotModel::idle(),
            r is Err ==> *final(self) == *old(self) && r == Err::<(), PuppeteerError>(
                PuppeteerError::NotSubmitting,
            ),
    {
        match self.status {
            TxStatus::Submitting => {
                self.status = TxStatus::Idle;
                self.pending_operation = None;
                self.notify = None;
                Ok(())
            },
            _ => Err(PuppeteerError::NotSubmitting),
        }
    }

    /// Takes the pending transaction out of the slot for resolution.
    ///
    /// Succeeds exactly when a transaction is waiting for its
    /// acknowledgement and the delivered sequence id matches the pending
    /// one; the slot is then reset to idle before the caller dispatches any
    /// notification. A terminal event with a missing or mismatched sequence
    /// id — spurious or duplicate delivery — is rejected and the slot is
    /// left unchanged.
    pub fn take_resolution(&mut self, sequence_id: Option<u64>) -> (r: Result<
        (Transaction, String, u64),
        PuppeteerError,
    >)
        requires
            old(self).wf(),
        ensures
            final(self).wf(),
            r is Ok <==> (old(self).status is WaitingForAck && sequence_id is Some && sequence_id
                == old(self).sequence_id),
            r is Ok ==> final(self)@ == TransactionSlotModel::idle() && Some(r->Ok_0.0@) == old(
                self,
            )@.pending_operation && Some(r->Ok_0.1@) == old(self)@.notify && Some(r->Ok_0.2) == old(
                self,
            ).sequence_id,
            r is Err ==> *final(self) == *old(self) && r == Err::<
                (Transaction, String, u64),
                PuppeteerError,
            >(PuppeteerError::NoMatchingPendingTransaction),
    {
        match self.status {
            TxStatus::WaitingForAck => {
                let matches = match (sequence_id, self.sequence_id) {
                    (Some(a), Some(b)) => a == b,
                    _ => false,
                };
                if matches {
                    let mut taken = TransactionSlot::new();
                    core::mem::swap(self, &mut taken);
                    match (taken.pending_operation, taken.notify, taken.sequence_id) {
                        (Some(op), Some(notify), Some(seq)) => Ok((op, notify, seq)),
                        _ => Err(PuppeteerError::NoMatchingPendingTransaction),
                    }
                } else {
                    Err(PuppeteerError::NoMatchingPendingTransaction)
                }
            },
            _ => Err(PuppeteerError::NoMatchingPendingTransaction),
        }
    }
}

} // verus!
