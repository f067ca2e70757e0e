use vstd::prelude::*;

verus! {

/// The guard violations an operation can report. Every failed guard maps to
/// exactly one of these, so callers can tell a wrong party from a wrong
/// state, changed terms, a balance mismatch, a premature withdrawal, or
/// invalid terms at creation.
#[derive(Clone, Copy, PartialEq, Eq, Structural, Debug)]
pub enum ErrorCode {
    /// Creation terms name a zero amount.
    InvalidAmount,
    /// Creation terms name the seller as the buyer.
    BuyerCannotBeSeller,
    /// Creation terms name the null identity as the buyer.
    InvalidBuyerAddress,
    /// Creation terms name the null identity as the arbiter.
    InvalidArbiterAddress,
    /// The caller is not the agreement's buyer.
    InvalidBuyer,
    /// The operation is not legal in the agreement's current stage.
    InvalidEscrowState,
    /// The asset kind supplied does not match the agreement's.
    InvalidTokenMint,
    /// The terms fingerprint supplied does not match the recorded one.
    TermsChanged,
    /// The buyer's balance of the asset is below the agreed amount.
    InsufficientFunds,
    /// The caller is not the agreement's seller.
    InvalidSeller,
    /// The agreement carries no shipment timestamp where one is needed.
    EscrowNotShipped,
    /// The grace period after shipment has not yet elapsed.
    WithdrawTooEarly,
    /// Creation terms name a negative grace period.
    InvalidDuration,
    /// The vault's balance does not match the agreed amount.
    InvalidVaultBalance,
}

/// What a ledger-level operation can report: either the keyed store cannot
/// resolve the agreement, or a guard of the operation itself rejected the
/// call with its specific [`ErrorCode`].
#[derive(Clone, Copy, PartialEq, Eq, Structural, Debug)]
pub enum LedgerError {
    /// An agreement under the same (seller, id) key already exists.
    AgreementAlreadyExists,
    /// No agreement exists under the (seller, id) key.
    AgreementNotFound,
    /// A guard of the operation rejected the call.
    Rejected(ErrorCode),
}

} // verus!
