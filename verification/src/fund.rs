use vstd::prelude::*;

use crate::error::ErrorCode;
use crate::state::Address;
use crate::state::Escrow;
use crate::state::EscrowState;

verus! {

/// The funding operation as the caller submits it: the authenticated caller,
/// the asset account they supplied, and the balance the external ledger
/// reports for their account of that asset.
#[derive(Clone, Copy, Debug)]
pub struct Fund {
    /// The authenticated caller, who must be the agreement's buyer.
    pub buyer: Address,
    /// The asset kind of the supplied token account.
    pub token_mint: Address,
    /// The caller's balance of that asset, as the ledger reports it.
    pub buyer_token_balance: u64,
}

impl Fund {
    /// The first guard of funding that the call violates, or `None` when
    /// every guard passes.
    pub open spec fn fund_error(self, escrow: Escrow, terms_update_slot: u64) -> Option<
        ErrorCode,
    > {
        if escrow.buyer != self.buyer {
            Some(ErrorCode::InvalidBuyer)
        } else if !(escrow.state is Created) {
            Some(ErrorCode::InvalidEscrowState)
        } else if escrow.token_mint != self.token_mint {
            Some(ErrorCode::InvalidTokenMint)
        } else if escrow.terms_update_slot != terms_update_slot {
            Some(ErrorCode::TermsChanged)
        } else if self.buyer_token_balance < escrow.amount {
            Some(ErrorCode::InsufficientFunds)
        } else {
            None
        }
    }

    /// Funds the agreement: checks every guard, then moves it to `Funded`.
    ///
    /// `terms_update_slot` is the fingerprint the buyer read before deciding
    /// to fund; it must match the recorded one, so that terms changed between
    /// that read and this call are detected. On success the enclosing
    /// transaction must move exactly `escrow.amount` of the asset from the
    /// buyer into the agreement's vault; on any error the record is left
    /// untouched.
    pub fn fund_escrow(&self, escrow: &mut Escrow, terms_update_slot: u64) -> (r: Result<
        (),
        ErrorCode,
    >)
        ensures
            match self.fund_error(*old(escrow), terms_update_slot) {
                Some(code) => r == Err::<(), ErrorCode>(code) && *final(escrow) == *old(escrow),
                None => r == Ok::<(), ErrorCode>(()) && *final(escrow) == (Escrow {
                    state: EscrowState::Funded,
                    ..*old(escrow)
                }),
            },
    {
        if escrow.buyer != self.buyer {
            return Err(ErrorCode::InvalidBuyer);
        }
        if escrow.state != EscrowState::Created {
            return Err(ErrorCode::InvalidEscrowState);
        }
        if escrow.token_mint != self.token_mint {
            return Err(ErrorCode::InvalidTokenMint);
        }
        if escrow.terms_update_slot != terms_update_slot {
            return Err(ErrorCode::TermsChanged);
        }
        if self.buyer_token_balance < escrow.amount {
            return Err(ErrorCode::InsufficientFunds);
        }
        escrow.state = EscrowState::Funded;
        Ok(())
    }
}

} // verus!
