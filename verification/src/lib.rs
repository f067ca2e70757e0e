//! A verified escrow lifecycle engine.
//!
//! A seller and a buyer agree on a fixed-amount token payment held in custody
//! by a vault that neither party controls directly. The engine drives one
//! agreement through `Created -> Funded -> MarkedAsShipped ->
//! {BuyerConfirmed | timeout} -> FundsReleased`, checking every guard before
//! any effect. Token transfers, authentication and durable storage are the
//! job of an external ledger; this crate models their observable facts
//! (caller identity, balances, the clock) as plain values and verifies the
//! decisions taken on them.

pub mod buyer_confirm;
pub mod create;
pub mod error;
pub mod fund;
pub mod laws;
pub mod ledger;
pub mod mark_shipped;
pub mod state;
pub mod withdraw;
