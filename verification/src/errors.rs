use vstd::prelude::*;

verus! {

/// Typed errors of the orchestration engine.
///
/// Every rejected request or event maps to exactly one variant; the
/// human-readable description of each is returned by [`PuppeteerError::message`].
#[derive(Clone, Copy, Debug, PartialEq, Eq, Structural)]
pub enum PuppeteerError {
    /// A submission was attempted while the transaction slot was not idle.
    InFlight,
    /// A remote-account-dependent operation was requested while the account
    /// lifecycle is not `Registered`.
    AccountNotReady,
    /// A terminal event (response, error or timeout) carried no sequence id,
    /// a sequence id different from the pending one, or arrived while no
    /// transaction was waiting for an acknowledgement.
    NoMatchingPendingTransaction,
    /// A local-submission acknowledgement arrived while no submission was
    /// outstanding.
    NotSubmitting,
    /// Account registration was begun from a state that does not allow it.
    RegistrationNotAllowed,
    /// Account registration was confirmed while none was in progress.
    RegistrationNotInProgress,
    /// A query result was delivered for an identifier that was never
    /// registered.
    UnknownQueryId,
    /// A query identifier was re-registered with, or its result delivered
    /// under, a different kind than the one recorded for it.
    QueryKindMismatch,
    /// The sender of a request is not in the allow list.
    Unauthorized,
    /// A transfer was requested without any usable funds.
    NoTransferFunds,
    /// A transfer was requested with more than one usable coin.
    MultipleTransferFunds,
    /// A local acknowledgement payload could not be parsed.
    MalformedAck,
    /// A remote acknowledgement payload could not be decoded.
    MalformedPayload,
}

impl PuppeteerError {
    /// The description of the error, as surfaced to callers.
    pub open spec fn message_view(self) -> Seq<char> {
        match self {
            PuppeteerError::InFlight => "transaction already in flight"@,
            PuppeteerError::AccountNotReady => "account not ready"@,
            PuppeteerError::NoMatchingPendingTransaction => "no matching pending transaction"@,
            PuppeteerError::NotSubmitting => "no submission is outstanding"@,
            PuppeteerError::RegistrationNotAllowed => "registration is not allowed from this state"@,
            PuppeteerError::RegistrationNotInProgress => "no registration is in progress"@,
            PuppeteerError::UnknownQueryId => "unknown query id"@,
            PuppeteerError::QueryKindMismatch => "kind mismatch"@,
            PuppeteerError::Unauthorized => "Sender is not allowed"@,
            PuppeteerError::NoTransferFunds => "No funds"@,
            PuppeteerError::MultipleTransferFunds => "Only one coin is allowed"@,
            PuppeteerError::MalformedAck => "failed to parse response"@,
            PuppeteerError::MalformedPayload => "failed to decode acknowledgement payload"@,
        }
    }

    /// Returns the description of the error.
    pub fn message(&self) -> (r: &'static str)
        ensures
            r@ == self.message_view(),
    {
        match self {
            PuppeteerError::InFlight => "transaction already in flight",
            PuppeteerError::AccountNotReady => "account not ready",
            PuppeteerError::NoMatchingPendingTransaction => "no matching pending transaction",
            PuppeteerError::NotSubmitting => "no submission is outstanding",
            PuppeteerError::RegistrationNotAllowed => "registration is not allowed from this state",
            PuppeteerError::RegistrationNotInProgress => "no registration is in progress",
            PuppeteerError::UnknownQueryId => "unknown query id",
            PuppeteerError::QueryKindMismatch => "kind mismatch",
            PuppeteerError::Unauthorized => "Sender is not allowed",
            PuppeteerError::NoTransferFunds => "No funds",
            PuppeteerError::MultipleTransferFunds => "Only one coin is allowed",
            PuppeteerError::MalformedAck => "failed to parse response",
            PuppeteerError::MalformedPayload => "failed to decode acknowledgement payload",
        }
    }
}

} // verus!
