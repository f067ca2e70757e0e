use vstd::prelude::*;

use crate::error::ErrorCode;
use crate::state::Address;
use crate::state::Escrow;
use crate::state::EscrowState;
use crate::state::ESCROW_VERSION;

verus! {

/// The terms a seller proposes when creating an agreement.
#[derive(Clone, Copy, Debug)]
pub struct CreateParams {
    pub buyer: Address,
    pub arbiter: Address,
    pub token_mint: Address,
    pub amount: u64,
    pub auto_complete_duration: i64,
}

/// The creation operation as the caller submits it: the authenticated seller.
#[derive(Clone, Copy, Debug)]
pub struct Create {
    /// The authenticated caller, who becomes the agreement's seller.
    pub seller: Address,
}

impl Create {
    /// The first guard of creation that the submitted terms violate, or
    /// `None` when every guard passes.
    pub open spec fn create_error(self, params: CreateParams) -> Option<ErrorCode> {
        if params.amount == 0 {
            Some(ErrorCode::InvalidAmount)
        } else if params.buyer == self.seller {
            Some(ErrorCode::BuyerCannotBeSeller)
        } else if params.buyer.spec_is_null() {
            Some(ErrorCode::InvalidBuyerAddress)
        } else if params.arbiter.spec_is_null() {
            Some(ErrorCode::InvalidArbiterAddress)
        } else if params.auto_complete_duration < 0 {
            Some(ErrorCode::InvalidDuration)
        } else {
            None
        }
    }

    /// The agreement record that creation persists when every guard passes:
    /// the submitted terms under the key (`seller`, `id`), in stage
    /// `Created`, fingerprinted with the current ledger slot.
    pub open spec fn created_escrow(self, id: u64, params: CreateParams, now_slot: u64) -> Escrow {
        Escrow {
            version: ESCROW_VERSION,
            state: EscrowState::Created,
            id,
            seller: self.seller,
            buyer: params.buyer,
            arbiter: params.arbiter,
            token_mint: params.token_mint,
            amount: params.amount,
            auto_complete_duration: params.auto_complete_duration,
            terms_update_slot: now_slot,
            marked_shipped_at: None,
        }
    }

    /// Validates the submitted terms and builds the new agreement record.
    ///
    /// `now_slot` is the external ledger's current slot, recorded as the
    /// terms fingerprint that funding will check.
    pub fn create_escrow(&self, id: u64, params: &CreateParams, now_slot: u64) -> (r: Result<
        Escrow,
        ErrorCode,
    >)
        ensures
            match self.create_error(*params) {
                Some(code) => r == Err::<Escrow, ErrorCode>(code),
                None => r == Ok::<Escrow, ErrorCode>(self.created_escrow(id, *params, now_slot)),
            },
    {
        if params.amount == 0 {
            return Err(ErrorCode::InvalidAmount);
        }
        if params.buyer == self.seller {
            return Err(ErrorCode::BuyerCannotBeSeller);
        }
        if params.buyer.is_null() {
            return Err(ErrorCode::InvalidBuyerAddress);
        }
        if params.arbiter.is_null() {
            return Err(ErrorCode::InvalidArbiterAddress);
        }
        if params.auto_complete_duration < 0 {
            return Err(ErrorCode::InvalidDuration);
        }
        Ok(
            Escrow {
                version: ESCROW_VERSION,
                state: EscrowState::Created,
                id,
                seller: self.seller,
                buyer: params.buyer,
                arbiter: params.arbiter,
                token_mint: params.token_mint,
                amount: params.amount,
                auto_complete_duration: params.auto_complete_duration,
                terms_update_slot: now_slot,
                marked_shipped_at: None,
            },
        )
    }
}

/// A freshly created agreement is well formed and carries no shipment mark.
pub proof fn lemma_created_escrow_wf(ctx: Create, id: u64, params: CreateParams, now_slot: u64)
    requires
        ctx.create_error(params) is None,
    ensures
        ctx.created_escrow(id, params, now_slot).wf(),
        ctx.created_escrow(id, params, now_slot).state is Created,
{
}

} // verus!
