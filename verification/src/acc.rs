use vstd::prelude::*;

use crate::errors::LedgerError;
use crate::trans::{Chargeback, Deposit, Dispute, Resolve, Transfer, Withdrawal};

verus! {

/// One client's account. Balances are fixed-point decimals counted in tenths
/// of a currency unit; both may go negative by design (a dispute moves funds
/// to `held` without checking that `available` stays non-negative).
pub struct Account {
    pub id: u16,
    pub available: i64,
    pub held: i64,
    pub locked: bool,
}

/// The mathematical state of an account: the balances as unbounded integers.
pub ghost struct AccountV {
    pub id: u16,
    pub available: int,
    pub held: int,
    pub locked: bool,
}

impl View for Account {
    type V = AccountV;

    open spec fn view(&self) -> AccountV {
        AccountV {
            id: self.id,
            available: self.available as int,
            held: self.held as int,
            locked: self.locked,
        }
    }
}

/// The account's nominal balance: available plus held funds.
pub open spec fn total_of(a: AccountV) -> int {
    a.available + a.held
}

pub open spec fn fits_i64(x: int) -> bool {
    i64::MIN <= x <= i64::MAX
}

/// What a deposit does: rejected on a locked account, otherwise the amount is
/// credited to `available` unconditionally, whatever its sign.
pub open spec fn spec_deposit(a: AccountV, amount: int) -> (AccountV, Result<(), LedgerError>) {
    if a.locked {
        (a, Err(LedgerError::AccountLocked { client: a.id }))
    } else {
        (
            AccountV { id: a.id, available: a.available + amount, held: a.held, locked: a.locked },
            Ok(()),
        )
    }
}

/// What a withdrawal does: rejected on a locked account; debited from
/// `available` only when `available` strictly exceeds the amount, so taking
/// exactly the whole available balance is refused as insufficient funds.
pub open spec fn spec_withdrawal(a: AccountV, amount: int) -> (AccountV, Result<(), LedgerError>) {
    if a.locked {
        (a, Err(LedgerError::AccountLocked { client: a.id }))
    } else if a.available > amount {
        (
            AccountV { id: a.id, available: a.available - amount, held: a.held, locked: a.locked },
            Ok(()),
        )
    } else {
        (a, Err(LedgerError::InsufficientFunds { client: a.id }))
    }
}

/// What a dispute does: rejected on a locked account, otherwise the disputed
/// amount moves from `available` to `held` unconditionally; `available` may
/// go negative.
pub open spec fn spec_dispute(a: AccountV, amount: int) -> (AccountV, Result<(), LedgerError>) {
    if a.locked {
        (a, Err(LedgerError::AccountLocked { client: a.id }))
    } else {
        (
            AccountV {
                id: a.id,
                available: a.available - amount,
                held: a.held + amount,
                locked: a.locked,
            },
            Ok(()),
        )
    }
}

/// What a resolve does: rejected on a locked account; when enough funds are
/// held, the disputed amount moves back from `held` to `available`, else the
/// state is unchanged and the operation fails.
pub open spec fn spec_resolve(a: AccountV, amount: int) -> (AccountV, Result<(), LedgerError>) {
    if a.locked {
        (a, Err(LedgerError::AccountLocked { client: a.id }))
    } else if a.held >= amount {
        (
            AccountV {
                id: a.id,
                available: a.available + amount,
                held: a.held - amount,
                locked: a.locked,
            },
            Ok(()),
        )
    } else {
        (a, Err(LedgerError::InsufficientHeldFunds { client: a.id }))
    }
}

/// What a chargeback does. It is the one operation that does not check the
/// lock. When enough funds are held, the disputed amount leaves `held` and
/// the account is locked; for a disputed withdrawal the whole held balance
/// as it stood before the decrement, plus the disputed amount, is credited
/// to `available`, while a disputed deposit credits nothing.
pub open spec fn spec_chargeback(a: AccountV, amount: int, from_withdrawal: bool) -> (
    AccountV,
    Result<(), LedgerError>,
) {
    if a.held >= amount {
        (
            AccountV {
                id: a.id,
                available: if from_withdrawal {
                    a.available + a.held + amount
                } else {
                    a.available
                },
                held: a.held - amount,
                locked: true,
            },
            Ok(()),
        )
    } else {
        (a, Err(LedgerError::InsufficientHeldFunds { client: a.id }))
    }
}

/// The deposit's arithmetic stays within `i64`.
pub open spec fn deposit_fits(a: AccountV, amount: int) -> bool {
    !a.locked ==> fits_i64(a.available + amount)
}

/// The withdrawal's arithmetic stays within `i64`.
pub open spec fn withdrawal_fits(a: AccountV, amount: int) -> bool {
    (!a.locked && a.available > amount) ==> fits_i64(a.available - amount)
}

/// The dispute's arithmetic stays within `i64`.
pub open spec fn dispute_fits(a: AccountV, amount: int) -> bool {
    !a.locked ==> fits_i64(a.held + amount) && fits_i64(a.available - amount)
}

/// The resolve's arithmetic stays within `i64`.
pub open spec fn resolve_fits(a: AccountV, amount: int) -> bool {
    (!a.locked && a.held >= amount) ==> fits_i64(a.held - amount) && fits_i64(
        a.available + amount,
    )
}

/// The chargeback's arithmetic stays within `i64`.
pub open spec fn chargeback_fits(a: AccountV, amount: int, from_withdrawal: bool) -> bool {
    a.held >= amount ==> fits_i64(a.held - amount) && (from_withdrawal ==> fits_i64(
        a.held + amount,
    ) && fits_i64(a.available + a.held + amount))
}

/// A deposit on an unlocked account raises the nominal balance by exactly
/// the deposited amount and leaves the held funds alone.
pub proof fn lemma_deposit_total(a: AccountV, amount: int)
    requires
        !a.locked,
    ensures
        total_of(spec_deposit(a, amount).0) == total_of(a) + amount,
        spec_deposit(a, amount).0.held == a.held,
{
}

/// A withdrawal that goes through lowers the nominal balance by exactly the
/// withdrawn amount; one that is refused changes nothing.
pub proof fn lemma_withdrawal_total(a: AccountV, amount: int)
    ensures
        !a.locked && a.available > amount ==> total_of(spec_withdrawal(a, amount).0) == total_of(
            a,
        ) - amount,
        !(!a.locked && a.available > amount) ==> spec_withdrawal(a, amount).0 == a,
{
}

/// A dispute freezes funds without changing the nominal balance: whatever
/// leaves `available` arrives in `held`.
pub proof fn lemma_dispute_preserves_total(a: AccountV, amount: int)
    requires
        !a.locked,
    ensures
        total_of(spec_dispute(a, amount).0) == total_of(a),
{
}

/// A resolve releases frozen funds without changing the nominal balance:
/// whatever leaves `held` arrives back in `available`.
pub proof fn lemma_resolve_preserves_total(a: AccountV, amount: int)
    requires
        !a.locked,
    ensures
        total_of(spec_resolve(a, amount).0) == total_of(a),
{
}

/// The chargeback's effect on the nominal balance. Reversing a disputed
/// deposit removes the disputed amount. For a disputed withdrawal the credit
/// formula pays out the held balance on top of releasing it, so the nominal
/// balance grows by the whole previously held amount instead of shrinking.
pub proof fn lemma_chargeback_total(a: AccountV, amount: int, from_withdrawal: bool)
    requires
        a.held >= amount,
    ensures
        !from_withdrawal ==> total_of(spec_chargeback(a, amount, from_withdrawal).0) == total_of(
            a,
        ) - amount,
        from_withdrawal ==> total_of(spec_chargeback(a, amount, from_withdrawal).0) == total_of(a)
            + a.held,
{
}

/// A locked account rejects deposit, withdrawal, dispute and resolve with
/// `AccountLocked`, leaving its state unchanged.
pub proof fn lemma_locked_rejects(a: AccountV, amount: int)
    requires
        a.locked,
    ensures
        spec_deposit(a, amount) == (
            a,
            Err::<(), LedgerError>((LedgerError::AccountLocked { client: a.id })),
        ),
        spec_withdrawal(a, amount) == (
            a,
            Err::<(), LedgerError>((LedgerError::AccountLocked { client: a.id })),
        ),
        spec_dispute(a, amount) == (
            a,
            Err::<(), LedgerError>((LedgerError::AccountLocked { client: a.id })),
        ),
        spec_resolve(a, amount) == (
            a,
            Err::<(), LedgerError>((LedgerError::AccountLocked { client: a.id })),
        ),
{
}

/// A chargeback is not blocked by the lock: on a locked account with enough
/// held funds it still goes through, and the account stays locked.
pub proof fn lemma_chargeback_ignores_lock(a: AccountV, amount: int, from_withdrawal: bool)
    requires
        a.locked,
        a.held >= amount,
    ensures
        spec_chargeback(a, amount, from_withdrawal).1 == Ok::<(), LedgerError>(()),
        spec_chargeback(a, amount, from_withdrawal).0.locked,
{
}

/// A withdrawal succeeds exactly when the account is unlocked and its
/// available balance strictly exceeds the requested amount. In particular,
/// withdrawing exactly the available balance fails with `InsufficientFunds`
/// and changes nothing.
pub proof fn lemma_withdrawal_strict(a: AccountV, amount: int)
    ensures
        spec_withdrawal(a, amount).1 == Ok::<(), LedgerError>(()) <==> (!a.locked && a.available
            > amount),
        !a.locked && a.available == amount ==> spec_withdrawal(a, amount) == (
            a,
            Err::<(), LedgerError>((LedgerError::InsufficientFunds { client: a.id })),
        ),
{
}

fn disputed_amount(t: &Transfer) -> (a: i64)
    ensures
        a == t.spec_amount(),
{
    match t {
        Transfer::Deposit(deposit) => deposit.amount,
        Transfer::Withdrawal(withdrawal) => withdrawal.amount,
    }
}

impl Account {
    /// The account's nominal balance, available plus held.
    pub fn total(&self) -> (t: i64)
        requires
            fits_i64(self@.available + self@.held),
        ensures
            t == total_of(self@),
    {
        self.available + self.held
    }

    /// Credit a deposit to the available balance.
    pub fn deposit(&mut self, d: &Deposit) -> (r: Result<(), LedgerError>)
        requires
            deposit_fits(old(self)@, d.amount as int),
        ensures
            final(self)@ == spec_deposit(old(self)@, d.amount as int).0,
            r == spec_deposit(old(self)@, d.amount as int).1,
    {
        if self.locked {
            return Err(LedgerError::AccountLocked { client: self.id });
        }
        self.available = self.available + d.amount;
        Ok(())
    }

    /// Debit a withdrawal from the available balance, when it strictly
    /// exceeds the requested amount.
    pub fn withdrawal(&mut self, w: &Withdrawal) -> (r: Result<(), LedgerError>)
        requires
            withdrawal_fits(old(self)@, w.amount as int),
        ensures
            final(self)@ == spec_withdrawal(old(self)@, w.amount as int).0,
            r == spec_withdrawal(old(self)@, w.amount as int).1,
    {
        if self.locked {
            return Err(LedgerError::AccountLocked { client: self.id });
        }
        if self.available > w.amount {
            self.available = self.available - w.amount;
            Ok(())
        } else {
            Err(LedgerError::InsufficientFunds { client: self.id })
        }
    }

    /// Freeze the disputed transfer's amount: move it from available to held.
    pub fn dispute(&mut self, d: &Dispute) -> (r: Result<(), LedgerError>)
        requires
            dispute_fits(old(self)@, d.tx.spec_amount() as int),
        ensures
            final(self)@ == spec_dispute(old(self)@, d.tx.spec_amount() as int).0,
            r == spec_dispute(old(self)@, d.tx.spec_amount() as int).1,
    {
        if self.locked {
            return Err(LedgerError::AccountLocked { client: self.id });
        }
        let amount = disputed_amount(&d.tx);
        self.held = self.held + amount;
        self.available = self.available - amount;
        Ok(())
    }

    /// Release a dispute in the account holder's favor: move the disputed
    /// amount back from held to available.
    pub fn resolve(&mut self, r: &Resolve) -> (res: Result<(), LedgerError>)
        requires
            resolve_fits(old(self)@, r.tx.tx.spec_amount() as int),
        ensures
            final(self)@ == spec_resolve(old(self)@, r.tx.tx.spec_amount() as int).0,
            res == spec_resolve(old(self)@, r.tx.tx.spec_amount() as int).1,
    {
        if self.locked {
            return Err(LedgerError::AccountLocked { client: self.id });
        }
        let amount = disputed_amount(&r.tx.tx);
        if self.held >= amount {
            self.held = self.held - amount;
            self.available = self.available + amount;
            Ok(())
        } else {
            Err(LedgerError::InsufficientHeldFunds { client: self.id })
        }
    }

    /// Reverse a disputed transfer and lock the account.
    pub fn chargeback(&mut self, c: &Chargeback) -> (r: Result<(), LedgerError>)
        requires
            chargeback_fits(old(self)@, c.tx.tx.spec_amount() as int, c.tx.tx.is_withdrawal()),
        ensures
            final(self)@ == spec_chargeback(
                old(self)@,
                c.tx.tx.spec_amount() as int,
                c.tx.tx.is_withdrawal(),
            ).0,
            r == spec_chargeback(
                old(self)@,
                c.tx.tx.spec_amount() as int,
                c.tx.tx.is_withdrawal(),
            ).1,
    {
        let amount = disputed_amount(&c.tx.tx);
        if self.held >= amount {
            match c.tx.tx {
                Transfer::Withdrawal(_) => {
                    let credit = self.held + amount;
                    self.available = self.available + credit;
                },
                Transfer::Deposit(_) => {},
            }
            self.held = self.held - amount;
            self.locked = true;
            Ok(())
        } else {
            Err(LedgerError::InsufficientHeldFunds { client: self.id })
        }
    }
}

} // verus!
