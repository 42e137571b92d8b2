use vstd::prelude::*;

use crate::acc::{
    chargeback_fits, deposit_fits, dispute_fits, resolve_fits, spec_chargeback, spec_deposit,
    spec_dispute, spec_resolve, spec_withdrawal, withdrawal_fits, Account, AccountV,
};
use crate::errors::LedgerError;
use std::collections::HashMap;

verus! {

broadcast use vstd::std_specs::hash::group_hash_axioms;

/// The original credit of funds to an account.
#[derive(Clone, Copy)]
pub struct Deposit {
    pub tx: u32,
    pub amount: i64,
}

/// The original debit of funds from an account.
#[derive(Clone, Copy)]
pub struct Withdrawal {
    pub tx: u32,
    pub amount: i64,
}

/// The original movement of funds that a dispute may later contest.
#[derive(Clone, Copy)]
pub enum Transfer {
    Deposit(Deposit),
    Withdrawal(Withdrawal),
}

impl Transfer {
    /// The transaction identifier of the underlying transfer.
    pub open spec fn spec_tx(self) -> u32 {
        match self {
            Transfer::Deposit(d) => d.tx,
            Transfer::Withdrawal(w) => w.tx,
        }
    }

    /// The amount of the underlying transfer, in tenths.
    pub open spec fn spec_amount(self) -> i64 {
        match self {
            Transfer::Deposit(d) => d.amount,
            Transfer::Withdrawal(w) => w.amount,
        }
    }

    pub open spec fn is_withdrawal(self) -> bool {
        self is Withdrawal
    }
}

/// A claim against a prior transfer. It holds a value snapshot of the
/// transfer as it stood at dispute time, not a reference into the registry.
#[derive(Clone, Copy)]
pub struct Dispute {
    pub tx: Transfer,
}

/// The dispute outcome that releases the frozen funds back to available.
#[derive(Clone, Copy)]
pub struct Resolve {
    pub tx: Dispute,
}

/// The dispute outcome that reverses the funds and locks the account.
#[derive(Clone, Copy)]
pub struct Chargeback {
    pub tx: Dispute,
}

/// Either terminal outcome of a dispute.
#[derive(Clone, Copy)]
pub enum Settlement {
    Resolve(Resolve),
    Chargeback(Chargeback),
}

/// A registry entry: the original transfer, its current dispute if one was
/// opened, and its settlement if one was applied. The dispute is not cleared
/// on settlement, and nothing prevents re-opening or re-settling an entry.
#[derive(Clone, Copy)]
pub struct Transaction {
    pub transfer: Transfer,
    pub dispute: Option<Dispute>,
    pub settlement: Option<Settlement>,
}

/// Everything one settlement step touches: the account's new state, the new
/// transaction registry, and the operation's outcome.
pub ghost struct SettleEffect {
    pub account: AccountV,
    pub registry: Map<u32, Transaction>,
    pub outcome: Result<(), LedgerError>,
}

/// What `settle` does for each record kind, stated over the mathematical
/// account state and the registry as a map.
///
/// A deposit or withdrawal applies the matching account operation and then
/// unconditionally overwrites the registry entry under `tx` with a fresh
/// record, discarding any dispute history a reused identifier had. A dispute,
/// resolve or chargeback first looks `tx` up; the dispute or settlement
/// bookkeeping is written back even when the account operation itself failed.
pub open spec fn spec_settle(
    kind: Seq<char>,
    a: AccountV,
    tx: u32,
    amount: i64,
    reg: Map<u32, Transaction>,
) -> SettleEffect {
    if kind == "deposit"@ {
        let step = spec_deposit(a, amount as int);
        SettleEffect {
            account: step.0,
            registry: reg.insert(
                tx,
                Transaction {
                    transfer: Transfer::Deposit(Deposit { tx, amount }),
                    dispute: None,
                    settlement: None,
                },
            ),
            outcome: step.1,
        }
    } else if kind == "withdrawal"@ {
        let step = spec_withdrawal(a, amount as int);
        SettleEffect {
            account: step.0,
            registry: reg.insert(
                tx,
                Transaction {
                    transfer: Transfer::Withdrawal(Withdrawal { tx, amount }),
                    dispute: None,
                    settlement: None,
                },
            ),
            outcome: step.1,
        }
    } else if kind == "dispute"@ {
        if reg.contains_key(tx) {
            let t = reg[tx];
            let step = spec_dispute(a, t.transfer.spec_amount() as int);
            SettleEffect {
                account: step.0,
                registry: reg.insert(
                    tx,
                    Transaction {
                        transfer: t.transfer,
                        dispute: Some(Dispute { tx: t.transfer }),
                        settlement: t.settlement,
                    },
                ),
                outcome: step.1,
            }
        } else {
            SettleEffect {
                account: a,
                registry: reg,
                outcome: Err(LedgerError::TransactionNotFound { tx }),
            }
        }
    } else if kind == "resolve"@ {
        if reg.contains_key(tx) {
            let t = reg[tx];
            match t.dispute {
                Some(d) => {
                    let step = spec_resolve(a, d.tx.spec_amount() as int);
                    SettleEffect {
                        account: step.0,
                        registry: reg.insert(
                            tx,
                            Transaction {
                                transfer: t.transfer,
                                dispute: t.dispute,
                                settlement: Some(Settlement::Resolve(Resolve { tx: d })),
                            },
                        ),
                        outcome: step.1,
                    }
                },
                None => SettleEffect {
                    account: a,
                    registry: reg,
                    outcome: Err(LedgerError::DisputeNotFound { tx }),
                },
            }
        } else {
            SettleEffect {
                account: a,
                registry: reg,
                outcome: Err(LedgerError::TransactionNotFound { tx }),
            }
        }
    } else if kind == "chargeback"@ {
        if reg.contains_key(tx) {
            let t = reg[tx];
            match t.dispute {
                Some(d) => {
                    let step = spec_chargeback(
                        a,
                        d.tx.spec_amount() as int,
                        d.tx.is_withdrawal(),
                    );
                    SettleEffect {
                        account: step.0,
                        registry: reg.insert(
                            tx,
                            Transaction {
                                transfer: t.transfer,
                                dispute: t.dispute,
                                settlement: Some(Settlement::Chargeback(Chargeback { tx: d })),
                            },
                        ),
                        outcome: step.1,
                    }
                },
                None => SettleEffect {
                    account: a,
                    registry: reg,
                    outcome: Err(LedgerError::DisputeNotFound { tx }),
                },
            }
        } else {
            SettleEffect {
                account: a,
                registry: reg,
                outcome: Err(LedgerError::TransactionNotFound { tx }),
            }
        }
    } else {
        SettleEffect { account: a, registry: reg, outcome: Err(LedgerError::UnknownTransactionKind) }
    }
}

/// The arithmetic of the one settlement step about to run stays within `i64`:
/// the machine-limit precondition of `settle`, by record kind.
pub open spec fn settle_fits(
    kind: Seq<char>,
    a: AccountV,
    tx: u32,
    amount: i64,
    reg: Map<u32, Transaction>,
) -> bool {
    if kind == "deposit"@ {
        deposit_fits(a, amount as int)
    } else if kind == "withdrawal"@ {
        withdrawal_fits(a, amount as int)
    } else if kind == "dispute"@ {
        reg.contains_key(tx) ==> dispute_fits(a, reg[tx].transfer.spec_amount() as int)
    } else if kind == "resolve"@ {
        reg.contains_key(tx) ==> match reg[tx].dispute {
            Some(d) => resolve_fits(a, d.tx.spec_amount() as int),
            None => true,
        }
    } else if kind == "chargeback"@ {
        reg.contains_key(tx) ==> match reg[tx].dispute {
            Some(d) => chargeback_fits(a, d.tx.spec_amount() as int, d.tx.is_withdrawal()),
            None => true,
        }
    } else {
        true
    }
}

/// The five record kinds are pairwise distinct strings, so exactly one
/// branch of `spec_settle` applies to a given kind. Callers reasoning about
/// a kind other than `deposit` need these disequalities to step past the
/// earlier branches.
pub proof fn lemma_record_kinds_distinct()
    ensures
        "deposit"@ != "withdrawal"@,
        "deposit"@ != "dispute"@,
        "deposit"@ != "resolve"@,
        "deposit"@ != "chargeback"@,
        "withdrawal"@ != "dispute"@,
        "withdrawal"@ != "resolve"@,
        "withdrawal"@ != "chargeback"@,
        "dispute"@ != "resolve"@,
        "dispute"@ != "chargeback"@,
        "resolve"@ != "chargeback"@,
{
    reveal_strlit("deposit");
    reveal_strlit("withdrawal");
    reveal_strlit("dispute");
    reveal_strlit("resolve");
    reveal_strlit("chargeback");
    assert("deposit"@.len() == 7);
    assert("withdrawal"@.len() == 10);
    assert("dispute"@.len() == 7);
    assert("resolve"@.len() == 7);
    assert("chargeback"@.len() == 10);
    assert("deposit"@[1] == 'e' && "dispute"@[1] == 'i');
    assert("deposit"@[0] == 'd' && "resolve"@[0] == 'r');
    assert("withdrawal"@[0] == 'w' && "chargeback"@[0] == 'c');
    assert("dispute"@[0] == 'd');
}

/// A dispute, resolve or chargeback that names a transaction the registry
/// has never recorded fails with `TransactionNotFound`, and neither the
/// account nor the registry changes.
pub proof fn lemma_unknown_transaction(
    kind: Seq<char>,
    a: AccountV,
    tx: u32,
    amount: i64,
    reg: Map<u32, Transaction>,
)
    requires
        kind == "dispute"@ || kind == "resolve"@ || kind == "chargeback"@,
        !reg.contains_key(tx),
    ensures
        spec_settle(kind, a, tx, amount, reg) == (SettleEffect {
            account: a,
            registry: reg,
            outcome: Err((LedgerError::TransactionNotFound { tx })),
        }),
{
    lemma_record_kinds_distinct();
}

/// A resolve or chargeback on a recorded transaction that has no recorded
/// dispute fails with `DisputeNotFound`, and neither the account nor the
/// registry changes.
pub proof fn lemma_settlement_requires_dispute(
    kind: Seq<char>,
    a: AccountV,
    tx: u32,
    amount: i64,
    reg: Map<u32, Transaction>,
)
    requires
        kind == "resolve"@ || kind == "chargeback"@,
        reg.contains_key(tx),
        reg[tx].dispute is None,
    ensures
        spec_settle(kind, a, tx, amount, reg) == (SettleEffect {
            account: a,
            registry: reg,
            outcome: Err((LedgerError::DisputeNotFound { tx })),
        }),
{
    lemma_record_kinds_distinct();
}

/// Relies on str's `PartialEq`: two string slices are equal exactly when
/// their character sequences are equal.
#[verifier::external_body]
fn str_eq(a: &str, b: &str) -> (r: bool)
    ensures
        r == (a@ == b@),
{
    a == b
}

/// Apply one transaction record to the given account and registry,
/// dispatching on `ttype`. The stream's caller resolves the account first;
/// failure never aborts a run, it is simply this record's outcome.
pub fn settle(
    ttype: &str,
    acc: &mut Account,
    tx: u32,
    amount: i64,
    transactions: &mut HashMap<u32, Transaction>,
) -> (r: Result<(), LedgerError>)
    requires
        settle_fits(ttype@, old(acc)@, tx, amount, old(transactions)@),
    ensures
        ({
            let effect = spec_settle(ttype@, old(acc)@, tx, amount, old(transactions)@);
            &&& final(acc)@ == effect.account
            &&& final(transactions)@ == effect.registry
            &&& r == effect.outcome
        }),
{
    if str_eq(ttype, "deposit") {
        let d = Deposit { tx, amount };
        let rs = acc.deposit(&d);
        let t = Transaction { transfer: Transfer::Deposit(d), dispute: None, settlement: None };
        transactions.insert(tx, t);
        rs
    } else if str_eq(ttype, "withdrawal") {
        let w = Withdrawal { tx, amount };
        let rs = acc.withdrawal(&w);
        let t = Transaction { transfer: Transfer::Withdrawal(w), dispute: None, settlement: None };
        transactions.insert(tx, t);
        rs
    } else if str_eq(ttype, "dispute") {
        let entry = match transactions.get(&tx) {
            Some(t) => Some(*t),
            None => None,
        };
        match entry {
            Some(t) => {
                let d = Dispute { tx: t.transfer };
                let rs = acc.dispute(&d);
                transactions.insert(
                    tx,
                    Transaction {
                        transfer: t.transfer,
                        dispute: Some(d),
                        settlement: t.settlement,
                    },
                );
                rs
            },
            None => Err(LedgerError::TransactionNotFound { tx }),
        }
    } else if str_eq(ttype, "resolve") {
        let entry = match transactions.get(&tx) {
            Some(t) => Some(*t),
            None => None,
        };
        match entry {
            Some(t) => match t.dispute {
                Some(dispute) => {
                    let res = Resolve { tx: dispute };
                    let rs = acc.resolve(&res);
                    transactions.insert(
                        tx,
                        Transaction {
                            transfer: t.transfer,
                            dispute: t.dispute,
                            settlement: Some(Settlement::Resolve(res)),
                        },
                    );
                    rs
                },
                None => Err(LedgerError::DisputeNotFound { tx }),
            },
            None => Err(LedgerError::TransactionNotFound { tx }),
        }
    } else if str_eq(ttype, "chargeback") {
        let entry = match transactions.get(&tx) {
            Some(t) => Some(*t),
            None => None,
        };
        match entry {
            Some(t) => match t.dispute {
                Some(dispute) => {
                    let c = Chargeback { tx: dispute };
                    let rs = acc.chargeback(&c);
                    transactions.insert(
                        tx,
                        Transaction {
                            transfer: t.transfer,
                            dispute: t.dispute,
                            settlement: Some(Settlement::Chargeback(c)),
                        },
                    );
                    rs
                },
                None => Err(LedgerError::DisputeNotFound { tx }),
            },
            None => Err(LedgerError::TransactionNotFound { tx }),
        }
    } else {
        Err(LedgerError::UnknownTransactionKind)
    }
}

} // verus!
