use vstd::prelude::*;

use crate::error::ErrorCode;
use crate::state::Address;
use crate::state::Escrow;
use crate::state::EscrowState;

verus! {

/// The shipment-mark operation as the caller submits it: the authenticated
/// caller.
#[derive(Clone, Copy, Debug)]
pub struct MarkShipped {
    /// The authenticated caller, who must be the agreement's seller.
    pub seller: Address,
}

impl MarkShipped {
    /// The first guard of the shipment mark that the call violates, or
    /// `None` when every guard passes.
    pub open spec fn mark_shipped_error(self, escrow: Escrow) -> Option<ErrorCode> {
        if escrow.seller != self.seller {
            Some(ErrorCode::InvalidSeller)
        } else if !(escrow.state is Funded) {
            Some(ErrorCode::InvalidEscrowState)
        } else {
            None
        }
    }

    /// Marks the item shipped: checks every guard, then moves the agreement
    /// to `MarkedAsShipped` and records `now`, the external clock's current
    /// time, as the shipment timestamp. The timestamp is written exactly
    /// once: a second call finds the agreement past `Funded` and is rejected.
    pub fn mark_escrow_shipped(&self, escrow: &mut Escrow, now: i64) -> (r: Result<(), ErrorCode>)
        ensures
            match self.mark_shipped_error(*old(escrow)) {
                Some(code) => r == Err::<(), ErrorCode>(code) && *final(escrow) == *old(escrow),
                None => r == Ok::<(), ErrorCode>(()) && *final(escrow) == (Escrow {
                    state: EscrowState::MarkedAsShipped,
                    marked_shipped_at: Some(now),
                    ..*old(escrow)
                }),
            },
    {
        if escrow.seller != self.seller {
            return Err(ErrorCode::InvalidSeller);
        }
        if escrow.state != EscrowState::Funded {
            return Err(ErrorCode::InvalidEscrowState);
        }
        escrow.state = EscrowState::MarkedAsShipped;
        escrow.marked_shipped_at = Some(now);
        Ok(())
    }
}

} // verus!
