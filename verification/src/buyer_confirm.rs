use vstd::prelude::*;

use crate::error::ErrorCode;
use crate::state::Address;
use crate::state::Escrow;
use crate::state::EscrowState;

verus! {

/// The receipt confirmation as the caller submits it: the authenticated
/// caller.
#[derive(Clone, Copy, Debug)]
pub struct BuyerConfirm {
    /// The authenticated caller, who must be the agreement's buyer.
    pub buyer: Address,
}

impl BuyerConfirm {
    /// The first guard of the confirmation that the call violates, or `None`
    /// when every guard passes.
    pub open spec fn buyer_confirm_error(self, escrow: Escrow) -> Option<ErrorCode> {
        if escrow.buyer != self.buyer {
            Some(ErrorCode::InvalidBuyer)
        } else if !(escrow.state is MarkedAsShipped) {
            Some(ErrorCode::InvalidEscrowState)
        } else {
            None
        }
    }

    /// Confirms receipt of the goods: checks every guard, then moves the
    /// agreement to `BuyerConfirmed`, which lets the seller withdraw without
    /// waiting out the grace period.
    pub fn confirm_receipt(&self, escrow: &mut Escrow) -> (r: Result<(), ErrorCode>)
        ensures
            match self.buyer_confirm_error(*old(escrow)) {
                Some(code) => r == Err::<(), ErrorCode>(code) && *final(escrow) == *old(escrow),
                None => r == Ok::<(), ErrorCode>(()) && *final(escrow) == (Escrow {
                    state: EscrowState::BuyerConfirmed,
                    ..*old(escrow)
                }),
            },
    {
        if escrow.buyer != self.buyer {
            return Err(ErrorCode::InvalidBuyer);
        }
        if escrow.state != EscrowState::MarkedAsShipped {
            return Err(ErrorCode::InvalidEscrowState);
        }
        escrow.state = EscrowState::BuyerConfirmed;
        Ok(())
    }
}

} // verus!
