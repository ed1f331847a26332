use vstd::prelude::*;

verus! {

/// The validation failures of the signaling operations.
///
/// Every failure is caller-visible and non-retryable in itself; an operation
/// that fails commits no mutation at all, so the caller can always distinguish
/// "retry with fresh data" (`OfferMismatch`, `AnswerChanged`) from "not
/// authorized" from "not found".
#[derive(Clone, Copy, Debug, PartialEq, Eq, Structural)]
pub enum HubError {
    /// The operation referenced a stream key with no record.
    NotFound,
    /// The caller is not the record's owner where ownership is required.
    Unauthorized,
    /// The caller attempted to answer its own offer.
    SelfAnswerForbidden,
    /// The caller's asserted offer does not match the stored offer.
    OfferMismatch,
    /// A new answer was published while an answer is already present.
    AnswerAlreadyPresent,
    /// An answer refresh was attempted with no existing answer.
    MissingPriorAnswer,
    /// An answer refresh was attempted by someone other than the current answerer.
    AnswerOwnerMismatch,
    /// The consume path's expected snapshot does not match the current answer.
    AnswerChanged,
    /// The store bootstrap was invoked while a store already exists.
    AlreadyInitialized,
}

} // verus!
