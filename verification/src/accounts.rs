//! Operations of the chain state on accounts: reads of balances and owners,
//! debits and credits of the native coin, nonces, and the lock of a balance.

use crate::balance::STXBalance;
use crate::database::{ClarityDatabase, LedgerView};
use crate::errors::{Error, InterpreterError, RuntimeErrorType};
use crate::types::{
    AssetIdView, AssetIdentifier, ContractIdView, PrincipalData, QualifiedContractIdentifier,
    StacksAddress,
};
use crate::values::Value;
use vstd::prelude::*;

verus! {

/// The chain state: the owner of the operations that a block's processing
/// applies to accounts and to scheduled payments.
pub struct StacksChainState {}

/// An account as the ledger records it.
#[derive(Debug)]
pub struct StacksAccount {
    pub principal: PrincipalData,
    pub stx_balance: STXBalance,
    pub nonce: u64,
}

/// The asset of a contract that has the given name.
pub open spec fn asset_of(contract: ContractIdView, name: Seq<char>) -> AssetIdView {
    AssetIdView { contract, name }
}

impl StacksChainState {
    /// The account of a principal: its balance as it is stored, and its nonce.
    pub fn get_account(clarity_tx: &ClarityDatabase, principal: &PrincipalData) -> (r:
        StacksAccount)
        requires
            clarity_tx.wf(),
        ensures
            r.principal@ == principal@,
            r.stx_balance == clarity_tx@.stx_balance(principal@),
            r.nonce == clarity_tx@.nonce(principal@),
    {
        let stx_balance = clarity_tx.get_account_stx_balance(principal);
        let nonce = clarity_tx.get_account_nonce(principal);
        StacksAccount { principal: principal.clone(), stx_balance, nonce }
    }

    /// The balance of a principal in a fungible token: zero if it never held
    /// any.
    pub fn get_account_ft(
        clarity_tx: &ClarityDatabase,
        contract_id: &QualifiedContractIdentifier,
        token_name: &str,
        principal: &PrincipalData,
    ) -> (r: Result<u128, Error>)
        requires
            clarity_tx.wf(),
        ensures
            r == Ok::<u128, Error>(
                clarity_tx@.ft_balance(asset_of(contract_id@, token_name@), principal@),
            ),
    {
        let asset = AssetIdentifier {
            contract_identifier: contract_id.clone(),
            asset_name: token_name.to_owned(),
        };
        Ok(clarity_tx.get_ft_balance(&asset, principal))
    }

    /// The owner of a token of a non-fungible token. Fails where no owner is
    /// recorded for the token.
    pub fn get_account_nft(
        clarity_tx: &ClarityDatabase,
        contract_id: &QualifiedContractIdentifier,
        token_name: &str,
        token_value: &Value,
    ) -> (r: Result<PrincipalData, Error>)
        requires
            clarity_tx.wf(),
        ensures
            ({
                let key = (asset_of(contract_id@, token_name@), token_value@);
                match r {
                    Ok(owner) => clarity_tx@.nft_owners.contains_key(key)
                        && clarity_tx@.nft_owners[key] == owner@,
                    Err(e) => !clarity_tx@.nft_owners.contains_key(key) && e
                        == Error::ClarityError(
                        InterpreterError::Runtime(RuntimeErrorType::NoSuchToken),
                    ),
                }
            }),
    {
        let asset = AssetIdentifier {
            contract_identifier: contract_id.clone(),
            asset_name: token_name.to_owned(),
        };
        match clarity_tx.get_nft_owner(&asset, token_value) {
            Ok(owner) => Ok(owner),
            Err(e) => Err(Error::ClarityError(e)),
        }
    }

    /// Takes `amount` from what an account can spend, after a lock that has
    /// ended is folded into its balance. The nonce is left as it is.
    ///
    /// That the account can spend the amount is for the caller to have made
    /// sure of.
    pub fn account_debit(clarity_tx: &mut ClarityDatabase, principal: &PrincipalData, amount: u64)
        requires
            old(clarity_tx).wf(),
            amount <= old(clarity_tx)@.available_balance(principal@).amount_unlocked,
        ensures
            final(clarity_tx).wf(),
            final(clarity_tx)@ == old(clarity_tx)@.with_stx_balance(
                principal@,
                old(clarity_tx)@.available_balance(principal@).debited(amount as u128),
            ),
    {
        let mut snapshot = clarity_tx.get_stx_balance_snapshot(principal);
        snapshot.debit(amount as u128);
        snapshot.save(clarity_tx);
    }

    /// Adds `amount` to what an account can spend, after a lock that has
    /// ended is folded into its balance. The nonce is left as it is.
    ///
    /// The account's whole balance after the credit must be an amount that
    /// the machine can hold.
    pub fn account_credit(clarity_tx: &mut ClarityDatabase, principal: &PrincipalData, amount: u64)
        requires
            old(clarity_tx).wf(),
            old(clarity_tx)@.stx_balance(principal@).can_hold(amount as u128),
        ensures
            final(clarity_tx).wf(),
            final(clarity_tx)@ == old(clarity_tx)@.with_stx_balance(
                principal@,
                old(clarity_tx)@.available_balance(principal@).credited(amount as u128),
            ),
    {
        let mut snapshot = clarity_tx.get_stx_balance_snapshot(principal);
        snapshot.credit(amount as u128);
        snapshot.save(clarity_tx);
    }

    /// Adds `amount` to what an account can spend, as part of the first
    /// block: no lock is looked at.
    ///
    /// The account's whole balance after the credit must be an amount that
    /// the machine can hold.
    pub fn account_genesis_credit(
        clarity_tx: &mut ClarityDatabase,
        principal: &PrincipalData,
        amount: u128,
    )
        requires
            old(clarity_tx).wf(),
            old(clarity_tx)@.stx_balance(principal@).can_hold(amount),
        ensures
            final(clarity_tx).wf(),
            final(clarity_tx)@ == old(clarity_tx)@.with_stx_balance(
                principal@,
                old(clarity_tx)@.stx_balance(principal@).credited(amount),
            ),
    {
        let mut snapshot = clarity_tx.get_stx_balance_snapshot_genesis(principal);
        snapshot.credit(amount);
        snapshot.save(clarity_tx);
    }

    /// Sets an account's nonce to the one after `cur_nonce`.
    pub fn update_account_nonce(
        clarity_tx: &mut ClarityDatabase,
        principal: &PrincipalData,
        cur_nonce: u64,
    )
        requires
            old(clarity_tx).wf(),
            cur_nonce < u64::MAX,
        ensures
            final(clarity_tx).wf(),
            final(clarity_tx)@ == (LedgerView {
                nonces: old(clarity_tx)@.nonces.insert(principal@, (cur_nonce + 1) as u64),
                ..old(clarity_tx)@
            }),
    {
        let next_nonce = cur_nonce + 1;
        clarity_tx.set_account_nonce(principal, next_nonce);
    }

    /// Locks `lock_amount` of what an account can spend until the burn chain
    /// reaches `unlock_burn_height`. The nonce is left as it is.
    ///
    /// Fails, and leaves the ledger as it was, where the account has a lock
    /// that has not ended, and where it cannot spend the amount.
    pub fn pox_lock(
        db: &mut ClarityDatabase,
        principal: &PrincipalData,
        lock_amount: u128,
        unlock_burn_height: u64,
    ) -> (r: Result<(), Error>)
        requires
            old(db).wf(),
            unlock_burn_height > 0,
            lock_amount > 0,
        ensures
            final(db).wf(),
            ({
                let before = old(db)@.available_balance(principal@);
                if before.amount_locked > 0 {
                    r == Err::<(), Error>(Error::PoxAlreadyLocked) && final(db)@ == old(db)@
                } else if lock_amount > before.amount_unlocked {
                    r == Err::<(), Error>(Error::PoxInsufficientBalance) && final(db)@ == old(db)@
                } else {
                    r == Ok::<(), Error>(()) && final(db)@ == old(db)@.with_stx_balance(
                        principal@,
                        before.locking(lock_amount, unlock_burn_height),
                    )
                }
            }),
    {
        let mut snapshot = db.get_stx_balance_snapshot(principal);
        match snapshot.lock_tokens(lock_amount, unlock_burn_height) {
            Err(e) => {
                return Err(e);
            },
            Ok(()) => {},
        }
        snapshot.save(db);
        Ok(())
    }

    /// The report of a poisoned microblock stream for the block at `height`,
    /// if there is one: the address of who reported it, and the sequence
    /// number reported. The ledger keeps reports by the low 32 bits of the
    /// height.
    pub fn get_poison_microblock_report(clarity_tx: &ClarityDatabase, height: u64) -> (r: Result<
        Option<(StacksAddress, u16)>,
        Error,
    >)
        requires
            clarity_tx.wf(),
        ensures
            r == Ok::<Option<(StacksAddress, u16)>, Error>(
                if clarity_tx@.poison_reports.contains_key(height as u32) {
                    let report = clarity_tx@.poison_reports[height as u32];
                    Some((StacksAddress::spec_from_standard(report.0), report.1))
                } else {
                    None
                },
            ),
    {
        let key = #[verifier::truncate]
        (height as u32);
        match clarity_tx.get_microblock_poison_report(key) {
            Some((principal, seq)) => Ok(Some((StacksAddress::from_standard(&principal), seq))),
            None => Ok(None),
        }
    }
}

} // verus!
