//! The balance of the native coin that an account holds, with its time lock,
//! and the snapshot through which one account's balance is changed.

use crate::database::ClarityDatabase;
use crate::errors::{Error, InterpreterError, RuntimeErrorType};
use crate::types::PrincipalData;
use vstd::prelude::*;

verus! {

/// The number of bytes that a balance takes in storage.
pub const STX_BALANCE_SIZE: u64 = 40;

/// An account's balance: what it can spend, and what is locked until the
/// chain reaches `unlock_height`.
#[derive(Clone, Copy, Debug, PartialEq, Eq, Structural)]
pub struct STXBalance {
    pub amount_unlocked: u128,
    pub amount_locked: u128,
    pub unlock_height: u64,
}

impl STXBalance {
    /// A lock has a height at which it ends, and the whole balance is an
    /// amount that the machine can hold.
    pub open spec fn wf(&self) -> bool {
        &&& self.amount_locked > 0 ==> self.unlock_height > 0
        &&& self.amount_unlocked + self.amount_locked <= u128::MAX
    }

    /// Whether the lock has ended once the chain is at `height`.
    pub open spec fn lock_matured_at(&self, height: u64) -> bool {
        self.amount_locked > 0 && self.unlock_height <= height
    }

    /// The balance as an account sees it once the chain is at `height`: a lock
    /// that has ended is folded into what can be spent.
    pub open spec fn unlocked_at(&self, height: u64) -> STXBalance {
        if self.lock_matured_at(height) {
            STXBalance {
                amount_unlocked: (self.amount_unlocked + self.amount_locked) as u128,
                amount_locked: 0,
                unlock_height: 0,
            }
        } else {
            *self
        }
    }

    /// The whole of the balance: what can be spent and what is locked.
    pub open spec fn held(&self) -> nat {
        (self.amount_unlocked + self.amount_locked) as nat
    }

    /// Whether the balance is still an amount that the machine can hold
    /// after `amount` is added to it.
    pub open spec fn can_hold(&self, amount: u128) -> bool {
        self.held() + amount <= u128::MAX
    }

    /// The balance with `amount` more to spend.
    pub open spec fn credited(&self, amount: u128) -> STXBalance {
        STXBalance { amount_unlocked: (self.amount_unlocked + amount) as u128, ..*self }
    }

    /// The balance with `amount` less to spend.
    pub open spec fn debited(&self, amount: u128) -> STXBalance {
        STXBalance { amount_unlocked: (self.amount_unlocked - amount) as u128, ..*self }
    }

    /// The balance with `amount` of what could be spent locked until
    /// `unlock_height`.
    pub open spec fn locking(&self, amount: u128, unlock_height: u64) -> STXBalance {
        STXBalance {
            amount_unlocked: (self.amount_unlocked - amount) as u128,
            amount_locked: amount,
            unlock_height,
        }
    }

    /// The balance of an account that was never touched.
    pub fn zero() -> (r: STXBalance)
        ensures
            r == (STXBalance { amount_unlocked: 0, amount_locked: 0, unlock_height: 0 }),
            r.wf(),
    {
        STXBalance { amount_unlocked: 0, amount_locked: 0, unlock_height: 0 }
    }

    /// A balance of `amount_unlocked` with nothing locked.
    pub fn initial(amount_unlocked: u128) -> (r: STXBalance)
        ensures
            r == (STXBalance { amount_unlocked, amount_locked: 0, unlock_height: 0 }),
            r.wf(),
    {
        STXBalance { amount_unlocked, amount_locked: 0, unlock_height: 0 }
    }

    /// Whether any amount is locked.
    pub fn has_locked_tokens(&self) -> (r: bool)
        ensures
            r == (self.amount_locked > 0),
    {
        self.amount_locked > 0
    }

    /// Folds a lock that has ended at `height` into what can be spent.
    pub fn unlock_available_tokens_at(&self, height: u64) -> (r: STXBalance)
        requires
            self.wf(),
        ensures
            r == self.unlocked_at(height),
            r.wf(),
            !r.lock_matured_at(height),
    {
        if self.amount_locked > 0 && self.unlock_height <= height {
            STXBalance {
                amount_unlocked: self.amount_unlocked + self.amount_locked,
                amount_locked: 0,
                unlock_height: 0,
            }
        } else {
            *self
        }
    }
}

/// A lock leaves the whole of a balance as it was, and once the lock has
/// ended the account can again spend all that it could spend before.
pub proof fn lemma_lock_conserves(
    balance: STXBalance,
    amount: u128,
    unlock_height: u64,
    height: u64,
)
    requires
        balance.wf(),
        balance.amount_locked == 0,
        0 < amount <= balance.amount_unlocked,
        unlock_height > 0,
    ensures
        balance.locking(amount, unlock_height).wf(),
        balance.locking(amount, unlock_height).held() == balance.held(),
        height < unlock_height ==> balance.locking(amount, unlock_height).unlocked_at(height)
            == balance.locking(amount, unlock_height),
        height >= unlock_height ==> balance.locking(amount, unlock_height).unlocked_at(height)
            == (STXBalance {
            amount_unlocked: balance.amount_unlocked,
            amount_locked: 0,
            unlock_height: 0,
        }),
{
}

/// Folding a lock that has ended changes nothing of the whole of a balance,
/// and a balance that was folded needs no folding.
pub proof fn lemma_unlock_conserves(balance: STXBalance, height: u64)
    requires
        balance.wf(),
    ensures
        balance.unlocked_at(height).wf(),
        balance.unlocked_at(height).held() == balance.held(),
        balance.unlocked_at(height).unlocked_at(height) == balance.unlocked_at(height),
{
}

/// One account's balance, fetched from the ledger to be changed and then
/// saved. A snapshot that is dropped without `save` changes nothing.
#[derive(Debug)]
pub struct STXBalanceSnapshot {
    principal: PrincipalData,
    balance: STXBalance,
    burn_block_height: u64,
}

impl STXBalanceSnapshot {
    /// The account that the snapshot was taken of.
    pub closed spec fn spec_principal(&self) -> PrincipalData {
        self.principal
    }

    /// The balance as it stands in the snapshot.
    pub closed spec fn spec_balance(&self) -> STXBalance {
        self.balance
    }

    /// The height of the chain when the snapshot was taken.
    pub closed spec fn spec_height(&self) -> u64 {
        self.burn_block_height
    }

    /// The balance is well formed.
    pub open spec fn wf(&self) -> bool {
        self.spec_balance().wf()
    }

    /// A snapshot of `balance` for `principal`, taken at `burn_block_height`:
    /// a lock that has ended by then is folded into what can be spent.
    pub fn new(principal: &PrincipalData, balance: STXBalance, burn_block_height: u64) -> (r:
        STXBalanceSnapshot)
        requires
            balance.wf(),
        ensures
            r.wf(),
            r.spec_principal()@ == principal@,
            r.spec_balance() == balance.unlocked_at(burn_block_height),
            r.spec_height() == burn_block_height,
    {
        STXBalanceSnapshot {
            principal: principal.clone(),
            balance: balance.unlock_available_tokens_at(burn_block_height),
            burn_block_height,
        }
    }

    /// The account that the snapshot was taken of.
    pub fn principal(&self) -> (r: &PrincipalData)
        ensures
            *r == self.spec_principal(),
    {
        &self.principal
    }

    /// The balance as it stands in the snapshot.
    pub fn balance(&self) -> (r: &STXBalance)
        ensures
            *r == self.spec_balance(),
    {
        &self.balance
    }

    /// What the account can spend.
    pub fn get_available_balance(&self) -> (r: u128)
        ensures
            r == self.spec_balance().amount_unlocked,
    {
        self.balance.amount_unlocked
    }

    /// Whether the account can spend `amount`.
    pub fn can_transfer(&self, amount: u128) -> (r: bool)
        ensures
            r == (amount <= self.spec_balance().amount_unlocked),
    {
        amount <= self.balance.amount_unlocked
    }

    /// Whether the account has a lock that has not ended.
    pub fn has_locked_tokens(&self) -> (r: bool)
        ensures
            r == (self.spec_balance().amount_locked > 0),
    {
        self.balance.amount_locked > 0
    }

    /// Replaces the balance.
    pub fn set_balance(&mut self, balance: STXBalance)
        requires
            balance.wf(),
        ensures
            final(self).wf(),
            final(self).spec_balance() == balance,
            final(self).spec_principal() == old(self).spec_principal(),
            final(self).spec_height() == old(self).spec_height(),
    {
        self.balance = balance;
    }

    /// Adds `amount` to what the account can spend.
    pub fn credit(&mut self, amount: u128)
        requires
            old(self).wf(),
            old(self).spec_balance().can_hold(amount),
        ensures
            final(self).wf(),
            final(self).spec_balance() == old(self).spec_balance().credited(amount),
            final(self).spec_principal() == old(self).spec_principal(),
            final(self).spec_height() == old(self).spec_height(),
    {
        self.balance.amount_unlocked = self.balance.amount_unlocked + amount;
    }

    /// Takes `amount` from what the account can spend.
    pub fn debit(&mut self, amount: u128)
        requires
            old(self).wf(),
            amount <= old(self).spec_balance().amount_unlocked,
        ensures
            final(self).wf(),
            final(self).spec_balance() == old(self).spec_balance().debited(amount),
            final(self).spec_principal() == old(self).spec_principal(),
            final(self).spec_height() == old(self).spec_height(),
    {
        self.balance.amount_unlocked = self.balance.amount_unlocked - amount;
    }

    /// Locks `amount` of what the account can spend until the chain reaches
    /// `unlock_height`.
    ///
    /// Fails, and leaves the snapshot as it was, where the account already has
    /// a lock, and where it cannot spend `amount`.
    pub fn lock_tokens(&mut self, amount: u128, unlock_height: u64) -> (r: Result<(), Error>)
        requires
            old(self).wf(),
            amount > 0,
            unlock_height > 0,
        ensures
            final(self).spec_principal() == old(self).spec_principal(),
            final(self).spec_height() == old(self).spec_height(),
            final(self).wf(),
            ({
                let before = old(self).spec_balance();
                let after = final(self).spec_balance();
                if before.amount_locked > 0 {
                    r == Err::<(), Error>(Error::PoxAlreadyLocked) && after == before
                } else if amount > before.amount_unlocked {
                    r == Err::<(), Error>(Error::PoxInsufficientBalance) && after == before
                } else {
                    r == Ok::<(), Error>(()) && after == before.locking(amount, unlock_height)
                }
            }),
    {
        if self.has_locked_tokens() {
            return Err(Error::PoxAlreadyLocked);
        }
        if !self.can_transfer(amount) {
            return Err(Error::PoxInsufficientBalance);
        }
        self.balance.amount_unlocked = self.balance.amount_unlocked - amount;
        self.balance.amount_locked = amount;
        self.balance.unlock_height = unlock_height;
        Ok(())
    }

    /// Writes the balance back to the ledger, which ends the snapshot.
    pub fn save(self, db: &mut ClarityDatabase)
        requires
            self.wf(),
            old(db).wf(),
        ensures
            final(db).wf(),
            final(db)@ == old(db)@.with_stx_balance(self.spec_principal()@, self.spec_balance()),
    {
        db.set_account_stx_balance(&self.principal, self.balance);
    }

    /// Moves `amount` from the account of the snapshot to `recipient`, and
    /// writes both balances to the ledger, which ends the snapshot.
    ///
    /// Fails, and changes nothing, where the recipient's balance would be more
    /// than the machine can hold.
    pub fn transfer_to(
        self,
        db: &mut ClarityDatabase,
        recipient: &PrincipalData,
        amount: u128,
    ) -> (r: Result<(), InterpreterError>)
        requires
            self.wf(),
            old(db).wf(),
            amount <= self.spec_balance().amount_unlocked,
        ensures
            final(db).wf(),
            if old(db)@.stx_balance(recipient@).can_hold(amount) {
                r == Ok::<(), InterpreterError>(()) && final(db)@ == old(db)@.with_stx_balance(
                    recipient@,
                    old(db)@.stx_balance(recipient@).credited(amount),
                ).with_stx_balance(self.spec_principal()@, self.spec_balance().debited(amount))
            } else {
                r == Err::<(), InterpreterError>(
                    InterpreterError::Runtime(RuntimeErrorType::ArithmeticOverflow),
                ) && final(db)@ == old(db)@
            },
    {
        let mut sender = self;
        let recipient_balance = db.get_account_stx_balance(recipient);
        let held = recipient_balance.amount_unlocked + recipient_balance.amount_locked;
        if amount > u128::MAX - held {
            return Err(InterpreterError::Runtime(RuntimeErrorType::ArithmeticOverflow));
        }
        let recipient_balance = STXBalance {
            amount_unlocked: recipient_balance.amount_unlocked + amount,
            amount_locked: recipient_balance.amount_locked,
            unlock_height: recipient_balance.unlock_height,
        };
        sender.debit(amount);
        db.set_account_stx_balance(recipient, recipient_balance);
        sender.save(db);
        Ok(())
    }
}

} // verus!
