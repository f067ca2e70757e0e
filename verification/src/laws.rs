use vstd::prelude::*;

use crate::create::Create;
use crate::create::CreateParams;
use crate::error::ErrorCode;
use crate::error::LedgerError;
use crate::fund::Fund;
use crate::ledger::EscrowLedger;
use crate::mark_shipped::MarkShipped;
use crate::state::Address;
use crate::state::Escrow;
use crate::withdraw::Withdraw;
use crate::withdraw::withdraw_deadline;

verus! {

/// Creation validates each term independently: it succeeds exactly when the
/// amount is positive, the buyer is neither the seller nor null, the arbiter
/// is not null, and the grace period is not negative — and each violated
/// condition, taken in guard order, reports its own error.
pub proof fn lemma_create_validation(seller: Address, params: CreateParams)
    ensures
        (Create { seller }).create_error(params) is None <==> (params.amount > 0 && params.buyer
            != seller && !params.buyer.spec_is_null() && !params.arbiter.spec_is_null()
            && params.auto_complete_duration >= 0),
        params.amount == 0 ==> (Create { seller }).create_error(params) == Some(
            ErrorCode::InvalidAmount,
        ),
        params.amount > 0 && params.buyer == seller ==> (Create { seller }).create_error(params)
            == Some(ErrorCode::BuyerCannotBeSeller),
        params.amount > 0 && params.buyer != seller && params.buyer.spec_is_null() ==> (Create {
            seller,
        }).create_error(params) == Some(ErrorCode::InvalidBuyerAddress),
        params.amount > 0 && params.buyer != seller && !params.buyer.spec_is_null()
            && params.arbiter.spec_is_null() ==> (Create { seller }).create_error(params) == Some(
            ErrorCode::InvalidArbiterAddress,
        ),
        params.amount > 0 && params.buyer != seller && !params.buyer.spec_is_null()
            && !params.arbiter.spec_is_null() && params.auto_complete_duration < 0 ==> (Create {
            seller,
        }).create_error(params) == Some(ErrorCode::InvalidDuration),
{
}

/// A (seller, id) key can hold at most one agreement: as long as the key is
/// occupied — and a successful creation leaves it occupied — any further
/// creation under it is refused, whatever terms it submits. Only a completed
/// withdrawal frees the key again.
pub proof fn lemma_create_exactly_once(
    ledger: EscrowLedger,
    seller: Address,
    id: u64,
    params: CreateParams,
)
    requires
        ledger.has_agreement(seller, id),
    ensures
        ledger.create_err(seller, id, params) == Some(LedgerError::AgreementAlreadyExists),
{
}

/// Funding is legal only from `Created`: from any other stage the buyer's
/// funding call is refused with the state-sequence error.
pub proof fn lemma_fund_only_from_created(ctx: Fund, escrow: Escrow, terms_update_slot: u64)
    requires
        escrow.buyer == ctx.buyer,
        !(escrow.state is Created),
    ensures
        ctx.fund_error(escrow, terms_update_slot) == Some(ErrorCode::InvalidEscrowState),
{
}

/// The terms fingerprint is decisive: even when every other funding guard
/// passes, a fingerprint that does not match the recorded one is refused as
/// changed terms.
pub proof fn lemma_fund_detects_changed_terms(ctx: Fund, escrow: Escrow, terms_update_slot: u64)
    requires
        escrow.buyer == ctx.buyer,
        escrow.state is Created,
        escrow.token_mint == ctx.token_mint,
        ctx.buyer_token_balance >= escrow.amount,
        escrow.terms_update_slot != terms_update_slot,
    ensures
        ctx.fund_error(escrow, terms_update_slot) == Some(ErrorCode::TermsChanged),
{
}

/// The shipment timestamp is written at most once: on a well-formed
/// agreement that already carries one, every further shipment mark is
/// refused — by the proper seller with the state-sequence error — so the
/// timestamp, once set, never moves.
pub proof fn lemma_shipment_timestamp_set_once(ctx: MarkShipped, escrow: Escrow)
    requires
        escrow.wf(),
        escrow.marked_shipped_at is Some,
    ensures
        ctx.mark_shipped_error(escrow) is Some,
        escrow.seller == ctx.seller ==> ctx.mark_shipped_error(escrow) == Some(
            ErrorCode::InvalidEscrowState,
        ),
{
}

/// After shipment without confirmation, timing alone decides: the seller's
/// withdrawal is refused as too early strictly before the shipment timestamp
/// plus the grace period, and succeeds at or after that instant.
pub proof fn lemma_withdraw_grace_period(ctx: Withdraw, escrow: Escrow, now: i64)
    requires
        escrow.seller == ctx.seller,
        escrow.token_mint == ctx.token_mint,
        escrow.state is MarkedAsShipped,
        escrow.marked_shipped_at is Some,
        ctx.vault_balance == escrow.amount,
    ensures
        ctx.withdraw_error(escrow, now) == if (now as int) < withdraw_deadline(escrow) {
            Some(ErrorCode::WithdrawTooEarly)
        } else {
            None::<ErrorCode>
        },
{
}

/// After the buyer's confirmation no timing guard applies: the seller's
/// withdrawal succeeds at every instant.
pub proof fn lemma_withdraw_after_confirmation(ctx: Withdraw, escrow: Escrow, now: i64)
    requires
        escrow.seller == ctx.seller,
        escrow.token_mint == ctx.token_mint,
        escrow.state is BuyerConfirmed,
        ctx.vault_balance == escrow.amount,
    ensures
        ctx.withdraw_error(escrow, now) is None,
{
}

/// Once a key no longer resolves — as after a completed withdrawal retires
/// the record — every operation against it except creation is refused as
/// not found, whoever calls and whatever they supply.
pub proof fn lemma_retired_key_rejects_operations(
    ledger: EscrowLedger,
    seller: Address,
    id: u64,
    caller: Address,
    token_mint: Address,
    buyer_token_balance: u64,
    terms_update_slot: u64,
    now: i64,
)
    requires
        !ledger.has_agreement(seller, id),
    ensures
        ledger.fund_err(caller, seller, id, token_mint, buyer_token_balance, terms_update_slot)
            == Some(LedgerError::AgreementNotFound),
        ledger.mark_shipped_err(caller, seller, id) == Some(LedgerError::AgreementNotFound),
        ledger.buyer_confirm_err(caller, seller, id) == Some(LedgerError::AgreementNotFound),
        ledger.withdraw_err(caller, seller, id, token_mint, now) == Some(
            LedgerError::AgreementNotFound,
        ),
{
}

/// Custody invariant of a well-formed store: from funding until release the
/// agreement's vault exists and holds exactly the agreed amount; before
/// funding no vault exists.
pub proof fn lemma_vault_holds_exact_amount(ledger: EscrowLedger, seller: Address, id: u64)
    requires
        ledger.wf(),
        ledger.has_agreement(seller, id),
    ensures
        ledger.agreement(seller, id).state is Funded || ledger.agreement(seller, id).state
            is MarkedAsShipped || ledger.agreement(seller, id).state is BuyerConfirmed
            ==> ledger.vault_balance(seller, id) == Some(ledger.agreement(seller, id).amount),
        ledger.agreement(seller, id).state is Created ==> ledger.vault_balance(seller, id)
            is None,
        ledger.agreement(seller, id).wf(),
{
    let i = ledger.index_of(seller, id);
    assert(0 <= i < ledger.entries@.len() && EscrowLedger::entry_has_key(
        ledger.entries@[i],
        seller,
        id,
    ));
    assert(EscrowLedger::entry_wf(ledger.entries@[i]));
}

/// The buyer's confirmation and the elapsed grace period are the only two
/// doors to release: a withdrawal that succeeds came from `BuyerConfirmed`,
/// or from `MarkedAsShipped` with the deadline passed.
pub proof fn lemma_release_needs_confirmation_or_timeout(ctx: Withdraw, escrow: Escrow, now: i64)
    requires
        ctx.withdraw_error(escrow, now) is None,
    ensures
        escrow.state is BuyerConfirmed || (escrow.state is MarkedAsShipped
            && escrow.marked_shipped_at is Some && (now as int) >= withdraw_deadline(escrow)),
        ctx.vault_balance == escrow.amount,
        escrow.seller == ctx.seller,
{
}

} // verus!
