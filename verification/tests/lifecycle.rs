use escrow::create::CreateParams;
use escrow::error::ErrorCode;
use escrow::error::LedgerError;
use escrow::ledger::EscrowLedger;
use escrow::state::Address;
use escrow::state::EscrowState;

fn addr(key: u64) -> Address {
    Address { key }
}

fn params(amount: u64, duration: i64) -> CreateParams {
    CreateParams {
        buyer: addr(2),
        arbiter: addr(3),
        token_mint: addr(4),
        amount,
        auto_complete_duration: duration,
    }
}

const SELLER: u64 = 1;
const BUYER: u64 = 2;
const MINT: u64 = 4;
const SLOT: u64 = 50;

fn funded_ledger(amount: u64, duration: i64) -> EscrowLedger {
    let mut ledger = EscrowLedger::new();
    assert_eq!(ledger.create(addr(SELLER), 1, &params(amount, duration), SLOT), Ok(()));
    assert_eq!(ledger.fund(addr(BUYER), addr(SELLER), 1, addr(MINT), amount, SLOT), Ok(()));
    ledger
}

#[test]
fn scenario_immediate_withdraw_after_grace_zero() {
    // create(id=1, amount=100, duration=0) -> fund -> markShipped -> withdraw
    // succeeds at once and reclaims the vault.
    let mut ledger = funded_ledger(100, 0);
    assert_eq!(ledger.mark_shipped(addr(SELLER), addr(SELLER), 1, 1_000), Ok(()));
    assert_eq!(ledger.withdraw(addr(SELLER), addr(SELLER), 1, addr(MINT), 1_000), Ok(100));
    assert_eq!(ledger.get_vault_balance(addr(SELLER), 1), None);
    assert!(ledger.get_agreement(addr(SELLER), 1).is_none());
}

#[test]
fn scenario_confirmed_withdraw_skips_grace_period() {
    // With duration=3600 not elapsed, the buyer's confirmation lets the
    // seller withdraw immediately.
    let mut ledger = funded_ledger(100, 3_600);
    assert_eq!(ledger.mark_shipped(addr(SELLER), addr(SELLER), 1, 1_000), Ok(()));
    assert_eq!(ledger.buyer_confirm(addr(BUYER), addr(SELLER), 1), Ok(()));
    assert_eq!(ledger.withdraw(addr(SELLER), addr(SELLER), 1, addr(MINT), 1_001), Ok(100));
    assert!(ledger.get_agreement(addr(SELLER), 1).is_none());
}

#[test]
fn scenario_withdraw_without_shipping_is_rejected() {
    // create -> fund -> withdraw (skipping markShipped) fails with the
    // state-sequence error and changes nothing.
    let mut ledger = funded_ledger(100, 0);
    assert_eq!(
        ledger.withdraw(addr(SELLER), addr(SELLER), 1, addr(MINT), 1_000),
        Err(LedgerError::Rejected(ErrorCode::InvalidEscrowState))
    );
    let escrow = ledger.get_agreement(addr(SELLER), 1).unwrap();
    assert_eq!(escrow.state, EscrowState::Funded);
    assert_eq!(ledger.get_vault_balance(addr(SELLER), 1), Some(100));
}

#[test]
fn withdraw_before_deadline_is_too_early() {
    let mut ledger = funded_ledger(100, 3_600);
    assert_eq!(ledger.mark_shipped(addr(SELLER), addr(SELLER), 1, 1_000), Ok(()));
    assert_eq!(
        ledger.withdraw(addr(SELLER), addr(SELLER), 1, addr(MINT), 4_599),
        Err(LedgerError::Rejected(ErrorCode::WithdrawTooEarly))
    );
    // At exactly shippedAt + duration the withdrawal succeeds.
    assert_eq!(ledger.withdraw(addr(SELLER), addr(SELLER), 1, addr(MINT), 4_600), Ok(100));
}

#[test]
fn withdraw_after_confirmation_ignores_clock() {
    let mut ledger = funded_ledger(100, i64::MAX);
    assert_eq!(ledger.mark_shipped(addr(SELLER), addr(SELLER), 1, 1_000), Ok(()));
    assert_eq!(ledger.buyer_confirm(addr(BUYER), addr(SELLER), 1), Ok(()));
    // Even at the earliest representable instant the confirmed path releases.
    assert_eq!(ledger.withdraw(addr(SELLER), addr(SELLER), 1, addr(MINT), i64::MIN), Ok(100));
}

#[test]
fn deadline_beyond_clock_range_is_too_early() {
    // shippedAt + duration overflows i64: no instant can satisfy it yet.
    let mut ledger = funded_ledger(100, i64::MAX);
    assert_eq!(ledger.mark_shipped(addr(SELLER), addr(SELLER), 1, 1_000), Ok(()));
    assert_eq!(
        ledger.withdraw(addr(SELLER), addr(SELLER), 1, addr(MINT), i64::MAX),
        Err(LedgerError::Rejected(ErrorCode::WithdrawTooEarly))
    );
}

#[test]
fn fund_sets_state_and_vault() {
    let mut ledger = EscrowLedger::new();
    assert_eq!(ledger.create(addr(SELLER), 7, &params(250, 60), SLOT), Ok(()));
    assert_eq!(ledger.get_vault_balance(addr(SELLER), 7), None);
    assert_eq!(ledger.fund(addr(BUYER), addr(SELLER), 7, addr(MINT), 250, SLOT), Ok(()));
    let escrow = ledger.get_agreement(addr(SELLER), 7).unwrap();
    assert_eq!(escrow.state, EscrowState::Funded);
    assert_eq!(ledger.get_vault_balance(addr(SELLER), 7), Some(250));
}

#[test]
fn mark_shipped_records_timestamp_once() {
    let mut ledger = funded_ledger(100, 10);
    assert_eq!(ledger.mark_shipped(addr(SELLER), addr(SELLER), 1, 12_345), Ok(()));
    let escrow = ledger.get_agreement(addr(SELLER), 1).unwrap();
    assert_eq!(escrow.state, EscrowState::MarkedAsShipped);
    assert_eq!(escrow.marked_shipped_at, Some(12_345));
    // A retried mark is rejected and the timestamp does not move.
    assert_eq!(
        ledger.mark_shipped(addr(SELLER), addr(SELLER), 1, 99_999),
        Err(LedgerError::Rejected(ErrorCode::InvalidEscrowState))
    );
    assert_eq!(ledger.get_agreement(addr(SELLER), 1).unwrap().marked_shipped_at, Some(12_345));
}

#[test]
fn retired_key_no_longer_resolves() {
    // After a successful withdraw, the record is gone and every further
    // operation against the key reports it as not found.
    let mut ledger = funded_ledger(100, 0);
    assert_eq!(ledger.mark_shipped(addr(SELLER), addr(SELLER), 1, 500), Ok(()));
    assert_eq!(ledger.withdraw(addr(SELLER), addr(SELLER), 1, addr(MINT), 500), Ok(100));
    assert_eq!(
        ledger.fund(addr(BUYER), addr(SELLER), 1, addr(MINT), 100, SLOT),
        Err(LedgerError::AgreementNotFound)
    );
    assert_eq!(
        ledger.mark_shipped(addr(SELLER), addr(SELLER), 1, 501),
        Err(LedgerError::AgreementNotFound)
    );
    assert_eq!(
        ledger.buyer_confirm(addr(BUYER), addr(SELLER), 1),
        Err(LedgerError::AgreementNotFound)
    );
    assert_eq!(
        ledger.withdraw(addr(SELLER), addr(SELLER), 1, addr(MINT), 502),
        Err(LedgerError::AgreementNotFound)
    );
}

#[test]
fn agreements_are_independent_per_key() {
    let mut ledger = EscrowLedger::new();
    assert_eq!(ledger.create(addr(SELLER), 1, &params(100, 0), SLOT), Ok(()));
    assert_eq!(ledger.create(addr(SELLER), 2, &params(300, 0), SLOT), Ok(()));
    assert_eq!(ledger.create(addr(9), 1, &params(400, 0), SLOT), Ok(()));
    assert_eq!(ledger.fund(addr(BUYER), addr(SELLER), 2, addr(MINT), 300, SLOT), Ok(()));
    // Only (seller, 2) moved; the other two keys still hold fresh records.
    assert_eq!(ledger.get_agreement(addr(SELLER), 1).unwrap().state, EscrowState::Created);
    assert_eq!(ledger.get_agreement(addr(SELLER), 2).unwrap().state, EscrowState::Funded);
    assert_eq!(ledger.get_agreement(addr(9), 1).unwrap().state, EscrowState::Created);
    assert_eq!(ledger.get_vault_balance(addr(SELLER), 1), None);
    assert_eq!(ledger.get_vault_balance(addr(SELLER), 2), Some(300));
}
