use ledger::acc::Account;
use ledger::errors::LedgerError;
use ledger::trans::{settle, Settlement, Transaction};
use std::collections::HashMap;

fn fresh(id: u16) -> Account {
    Account { id, available: 0, held: 0, locked: false }
}

#[test]
fn settle_deposit_records_transaction() {
    let mut acc = fresh(1);
    let mut reg: HashMap<u32, Transaction> = HashMap::new();

    let result = settle("deposit", &mut acc, 1, 1000, &mut reg);

    assert_eq!(result, Ok(()));
    assert_eq!(acc.available, 1000);
    assert_eq!(acc.held, 0);
    assert_eq!(acc.total(), 1000);
    assert_eq!(acc.locked, false);
    let entry = reg.get(&1).unwrap();
    assert!(entry.dispute.is_none());
    assert!(entry.settlement.is_none());
}

#[test]
fn settle_withdrawal_debits_available() {
    let mut acc = fresh(1);
    let mut reg: HashMap<u32, Transaction> = HashMap::new();

    let _ = settle("deposit", &mut acc, 1, 1000, &mut reg);
    let result = settle("withdrawal", &mut acc, 2, 500, &mut reg);

    assert_eq!(result, Ok(()));
    assert_eq!(acc.available, 500);
    assert_eq!(acc.total(), 500);
    assert!(reg.contains_key(&2));
}

#[test]
fn settle_dispute_freezes_disputed_amount() {
    let mut acc = fresh(1);
    let mut reg: HashMap<u32, Transaction> = HashMap::new();

    let _ = settle("deposit", &mut acc, 1, 1000, &mut reg);
    let _ = settle("withdrawal", &mut acc, 2, 500, &mut reg);
    let result = settle("dispute", &mut acc, 2, 0, &mut reg);

    assert_eq!(result, Ok(()));
    assert_eq!(acc.available, 0);
    assert_eq!(acc.held, 500);
    assert_eq!(acc.total(), 500);
    assert!(reg.get(&2).unwrap().dispute.is_some());
}

#[test]
fn settle_resolve_releases_dispute() {
    let mut acc = fresh(1);
    let mut reg: HashMap<u32, Transaction> = HashMap::new();

    let _ = settle("deposit", &mut acc, 1, 1000, &mut reg);
    let _ = settle("dispute", &mut acc, 1, 0, &mut reg);
    assert_eq!(acc.available, 0);
    assert_eq!(acc.held, 1000);

    let result = settle("resolve", &mut acc, 1, 0, &mut reg);

    assert_eq!(result, Ok(()));
    assert_eq!(acc.available, 1000);
    assert_eq!(acc.held, 0);
    assert_eq!(acc.locked, false);
    assert!(matches!(reg.get(&1).unwrap().settlement, Some(Settlement::Resolve(_))));
}

#[test]
fn settle_chargeback_reverses_withdrawal_and_locks() {
    let mut acc = fresh(1);
    let mut reg: HashMap<u32, Transaction> = HashMap::new();

    let _ = settle("deposit", &mut acc, 1, 1000, &mut reg);
    let _ = settle("withdrawal", &mut acc, 2, 500, &mut reg);
    let _ = settle("dispute", &mut acc, 2, 0, &mut reg);
    assert_eq!(acc.available, 0);
    assert_eq!(acc.held, 500);

    let result = settle("chargeback", &mut acc, 2, 0, &mut reg);

    assert_eq!(result, Ok(()));
    assert_eq!(acc.available, 1000);
    assert_eq!(acc.held, 0);
    assert_eq!(acc.locked, true);
    assert!(matches!(reg.get(&2).unwrap().settlement, Some(Settlement::Chargeback(_))));
}

#[test]
fn settle_chargeback_credits_remaining_held_for_withdrawal() {
    let mut acc = fresh(1);
    let mut reg: HashMap<u32, Transaction> = HashMap::new();

    let _ = settle("deposit", &mut acc, 1, 1000, &mut reg);
    let _ = settle("withdrawal", &mut acc, 2, 200, &mut reg);
    let _ = settle("withdrawal", &mut acc, 3, 300, &mut reg);
    let _ = settle("dispute", &mut acc, 2, 0, &mut reg);
    let _ = settle("dispute", &mut acc, 3, 0, &mut reg);
    assert_eq!(acc.available, 0);
    assert_eq!(acc.held, 500);

    let result = settle("chargeback", &mut acc, 2, 0, &mut reg);

    assert_eq!(result, Ok(()));
    assert_eq!(acc.available, 700);
    assert_eq!(acc.held, 300);
    assert_eq!(acc.locked, true);
}

#[test]
fn settle_unknown_kind_is_rejected() {
    let mut acc = fresh(1);
    let mut reg: HashMap<u32, Transaction> = HashMap::new();

    let result = settle("transfer", &mut acc, 1, 1000, &mut reg);

    assert_eq!(result, Err(LedgerError::UnknownTransactionKind));
    assert_eq!(acc.available, 0);
    assert!(reg.is_empty());
}

#[test]
fn settle_dispute_of_unknown_tx_fails() {
    let mut acc = fresh(1);
    let mut reg: HashMap<u32, Transaction> = HashMap::new();

    let result = settle("dispute", &mut acc, 42, 0, &mut reg);

    assert_eq!(result, Err(LedgerError::TransactionNotFound { tx: 42 }));
    assert!(reg.is_empty());
}

#[test]
fn settle_resolve_of_unknown_tx_fails() {
    let mut acc = fresh(1);
    let mut reg: HashMap<u32, Transaction> = HashMap::new();

    let result = settle("resolve", &mut acc, 42, 0, &mut reg);

    assert_eq!(result, Err(LedgerError::TransactionNotFound { tx: 42 }));
}

#[test]
fn settle_chargeback_of_unknown_tx_fails() {
    let mut acc = fresh(1);
    let mut reg: HashMap<u32, Transaction> = HashMap::new();

    let result = settle("chargeback", &mut acc, 42, 0, &mut reg);

    assert_eq!(result, Err(LedgerError::TransactionNotFound { tx: 42 }));
}

#[test]
fn settle_resolve_without_dispute_fails() {
    let mut acc = fresh(1);
    let mut reg: HashMap<u32, Transaction> = HashMap::new();

    let _ = settle("deposit", &mut acc, 1, 1000, &mut reg);
    let result = settle("resolve", &mut acc, 1, 0, &mut reg);

    assert_eq!(result, Err(LedgerError::DisputeNotFound { tx: 1 }));
    assert_eq!(acc.available, 1000);
    assert_eq!(acc.held, 0);
}

#[test]
fn settle_chargeback_without_dispute_fails() {
    let mut acc = fresh(1);
    let mut reg: HashMap<u32, Transaction> = HashMap::new();

    let _ = settle("deposit", &mut acc, 1, 1000, &mut reg);
    let result = settle("chargeback", &mut acc, 1, 0, &mut reg);

    assert_eq!(result, Err(LedgerError::DisputeNotFound { tx: 1 }));
    assert_eq!(acc.locked, false);
}

#[test]
fn settle_reused_tx_discards_dispute_history() {
    let mut acc = fresh(1);
    let mut reg: HashMap<u32, Transaction> = HashMap::new();

    let _ = settle("deposit", &mut acc, 1, 1000, &mut reg);
    let _ = settle("dispute", &mut acc, 1, 0, &mut reg);
    assert!(reg.get(&1).unwrap().dispute.is_some());

    let _ = settle("deposit", &mut acc, 1, 200, &mut reg);
    assert!(reg.get(&1).unwrap().dispute.is_none());

    let result = settle("resolve", &mut acc, 1, 0, &mut reg);
    assert_eq!(result, Err(LedgerError::DisputeNotFound { tx: 1 }));
}

#[test]
fn settle_records_dispute_even_when_account_rejects_it() {
    let mut acc = fresh(1);
    let mut reg: HashMap<u32, Transaction> = HashMap::new();

    let _ = settle("deposit", &mut acc, 1, 1000, &mut reg);
    let _ = settle("dispute", &mut acc, 1, 0, &mut reg);
    let _ = settle("chargeback", &mut acc, 1, 0, &mut reg);
    assert_eq!(acc.locked, true);

    let _ = settle("deposit", &mut acc, 2, 300, &mut reg);
    let result = settle("dispute", &mut acc, 2, 0, &mut reg);

    assert_eq!(result, Err(LedgerError::AccountLocked { client: 1 }));
    assert!(reg.get(&2).unwrap().dispute.is_some());
}

#[test]
fn settle_resettling_a_settled_dispute_fails_on_held_funds() {
    let mut acc = fresh(1);
    let mut reg: HashMap<u32, Transaction> = HashMap::new();

    let _ = settle("deposit", &mut acc, 1, 1000, &mut reg);
    let _ = settle("dispute", &mut acc, 1, 0, &mut reg);
    let first = settle("resolve", &mut acc, 1, 0, &mut reg);
    assert_eq!(first, Ok(()));
    assert_eq!(acc.held, 0);

    let second = settle("resolve", &mut acc, 1, 0, &mut reg);

    assert_eq!(second, Err(LedgerError::InsufficientHeldFunds { client: 1 }));
    assert_eq!(acc.available, 1000);
}

#[test]
fn settle_stream_of_two_clients() {
    let mut acc1 = fresh(1);
    let mut acc2 = fresh(2);
    let mut reg: HashMap<u32, Transaction> = HashMap::new();

    let _ = settle("deposit", &mut acc1, 1, 10, &mut reg);
    let _ = settle("deposit", &mut acc2, 2, 20, &mut reg);
    let _ = settle("deposit", &mut acc1, 3, 20, &mut reg);
    let _ = settle("withdrawal", &mut acc1, 4, 15, &mut reg);
    let denied = settle("withdrawal", &mut acc2, 5, 30, &mut reg);

    assert_eq!(denied, Err(LedgerError::InsufficientFunds { client: 2 }));
    assert_eq!(acc1.available, 15);
    assert_eq!(acc1.held, 0);
    assert_eq!(acc1.locked, false);
    assert_eq!(acc2.available, 20);
    assert_eq!(acc2.held, 0);
    assert_eq!(acc2.locked, false);
}
