use vstd::prelude::*;

use crate::error::ErrorCode;
use crate::state::Address;
use crate::state::Escrow;
use crate::state::EscrowState;

verus! {

/// The withdrawal as the caller submits it: the authenticated caller, the
/// asset account they supplied, and the balance the external ledger reports
/// for the agreement's vault.
#[derive(Clone, Copy, Debug)]
pub struct Withdraw {
    /// The authenticated caller, who must be the agreement's seller.
    pub seller: Address,
    /// The asset kind of the supplied token account.
    pub token_mint: Address,
    /// The vault's balance, as the ledger reports it immediately before the
    /// release; re-checked here against external tampering.
    pub vault_balance: u64,
}

/// The earliest instant (as unbounded time) at which a shipped but
/// unconfirmed agreement may be withdrawn: the shipment timestamp plus the
/// grace period.
pub open spec fn withdraw_deadline(escrow: Escrow) -> int {
    escrow.marked_shipped_at->0 + escrow.auto_complete_duration
}

impl Withdraw {
    /// The first guard of the withdrawal that the call violates, or `None`
    /// when every guard passes. From `MarkedAsShipped` the grace period must
    /// have elapsed; from `BuyerConfirmed` no timing check applies.
    pub open spec fn withdraw_error(self, escrow: Escrow, now: i64) -> Option<ErrorCode> {
        if escrow.seller != self.seller {
            Some(ErrorCode::InvalidSeller)
        } else if escrow.token_mint != self.token_mint {
            Some(ErrorCode::InvalidTokenMint)
        } else if !(escrow.state is MarkedAsShipped || escrow.state is BuyerConfirmed) {
            Some(ErrorCode::InvalidEscrowState)
        } else if escrow.state is MarkedAsShipped && escrow.marked_shipped_at is None {
            Some(ErrorCode::EscrowNotShipped)
        } else if escrow.state is MarkedAsShipped && (now as int) < withdraw_deadline(escrow) {
            Some(ErrorCode::WithdrawTooEarly)
        } else if self.vault_balance != escrow.amount {
            Some(ErrorCode::InvalidVaultBalance)
        } else {
            None
        }
    }

    /// Releases the funds to the seller: checks every guard, then moves the
    /// agreement to `FundsReleased`.
    ///
    /// `now` is the external clock's current time. On success the enclosing
    /// transaction must transfer the vault's `escrow.amount` to the seller,
    /// close the vault, and retire the agreement record; on any error the
    /// record is left untouched.
    pub fn withdraw_from_escrow(&self, escrow: &mut Escrow, now: i64) -> (r: Result<
        (),
        ErrorCode,
    >)
        ensures
            match self.withdraw_error(*old(escrow), now) {
                Some(code) => r == Err::<(), ErrorCode>(code) && *final(escrow) == *old(escrow),
                None => r == Ok::<(), ErrorCode>(()) && *final(escrow) == (Escrow {
                    state: EscrowState::FundsReleased,
                    ..*old(escrow)
                }),
            },
    {
        if escrow.seller != self.seller {
            return Err(ErrorCode::InvalidSeller);
        }
        if escrow.token_mint != self.token_mint {
            return Err(ErrorCode::InvalidTokenMint);
        }
        match escrow.state {
            EscrowState::MarkedAsShipped => {
                let shipped_at: i64 = match escrow.marked_shipped_at {
                    Some(t) => t,
                    None => {
                        return Err(ErrorCode::EscrowNotShipped);
                    },
                };
                let duration = escrow.auto_complete_duration;
                // `now >= shipped_at + duration` over unbounded integers,
                // computed without overflowing i64: when the sum leaves the
                // i64 range the comparison is decided by the sign of the
                // overflow alone.
                let on_time: bool = if duration >= 0 {
                    if shipped_at <= i64::MAX - duration {
                        now >= shipped_at + duration
                    } else {
                        false
                    }
                } else {
                    if shipped_at >= i64::MIN - duration {
                        now >= shipped_at + duration
                    } else {
                        true
                    }
                };
                if !on_time {
                    return Err(ErrorCode::WithdrawTooEarly);
                }
            },
            EscrowState::BuyerConfirmed => {},
            _ => {
                return Err(ErrorCode::InvalidEscrowState);
            },
        }
        if self.vault_balance != escrow.amount {
            return Err(ErrorCode::InvalidVaultBalance);
        }
        escrow.state = EscrowState::FundsReleased;
        Ok(())
    }
}

} // verus!
