//! The ledger: the balances of the native coin, the supply and balances of
//! fungible tokens, the owners of non-fungible tokens, and the reports of
//! poisoned microblock streams.

use crate::balance::{STXBalance, STXBalanceSnapshot};
use crate::errors::{CheckErrors, InterpreterError, RuntimeErrorType};
use crate::table::Table;
use crate::types::{
    AssetIdView, AssetIdentifier, PrincipalData, PrincipalView, StandardPrincipalData,
};
use crate::values::{TypeSignature, Value, ValueView};
use vstd::prelude::*;

verus! {

/// What a contract declared of a fungible token, and how much of it exists.
#[derive(Clone, Copy, Debug, PartialEq, Eq, Structural)]
pub struct FungibleTokenState {
    /// How much has been minted.
    pub supply: u128,
    /// The most that may ever be minted, where the contract declared a limit.
    pub total_supply: Option<u128>,
}

/// The ledger as a mathematical value.
pub struct LedgerView {
    /// The height of the burn chain, by which locks end.
    pub burn_block_height: u64,
    /// The balance of each account that was ever touched.
    pub stx_balances: Map<PrincipalView, STXBalance>,
    /// The nonce of each account that has one.
    pub nonces: Map<PrincipalView, u64>,
    /// The fungible tokens that contracts defined.
    pub ft_supplies: Map<AssetIdView, FungibleTokenState>,
    /// The balance of each principal in each fungible token.
    pub ft_balances: Map<(AssetIdView, PrincipalView), u128>,
    /// The non-fungible tokens that contracts defined, with the type of what
    /// identifies one token.
    pub nft_types: Map<AssetIdView, TypeSignature>,
    /// The owner of each token that was minted.
    pub nft_owners: Map<(AssetIdView, ValueView), PrincipalView>,
    /// The reporter of a poisoned microblock stream, and the sequence number
    /// reported, by the height of the block.
    pub poison_reports: Map<u32, (StandardPrincipalData, u16)>,
}

impl LedgerView {
    /// The balance of an account: zero if it was never touched.
    pub open spec fn stx_balance(&self, principal: PrincipalView) -> STXBalance {
        if self.stx_balances.contains_key(principal) {
            self.stx_balances[principal]
        } else {
            STXBalance { amount_unlocked: 0, amount_locked: 0, unlock_height: 0 }
        }
    }

    /// What an account holds as it sees it at the ledger's height: a lock
    /// that has ended is folded into what can be spent.
    pub open spec fn available_balance(&self, principal: PrincipalView) -> STXBalance {
        self.stx_balance(principal).unlocked_at(self.burn_block_height)
    }

    /// The ledger with another balance for one account.
    pub open spec fn with_stx_balance(
        self,
        principal: PrincipalView,
        balance: STXBalance,
    ) -> LedgerView {
        LedgerView { stx_balances: self.stx_balances.insert(principal, balance), ..self }
    }

    /// The ledger with an owner recorded for one token.
    pub open spec fn with_nft_owner(
        self,
        asset: AssetIdView,
        value: ValueView,
        owner: PrincipalView,
    ) -> LedgerView {
        LedgerView { nft_owners: self.nft_owners.insert((asset, value), owner), ..self }
    }

    /// The nonce of an account: zero if it was never set.
    pub open spec fn nonce(&self, principal: PrincipalView) -> u64 {
        if self.nonces.contains_key(principal) {
            self.nonces[principal]
        } else {
            0
        }
    }

    /// The balance of a principal in a fungible token: zero if it never held
    /// any.
    pub open spec fn ft_balance(&self, asset: AssetIdView, principal: PrincipalView) -> u128 {
        if self.ft_balances.contains_key((asset, principal)) {
            self.ft_balances[(asset, principal)]
        } else {
            0
        }
    }

    /// How much of a fungible token has been minted: nothing of a token that
    /// no contract defined.
    pub open spec fn ft_supply(&self, asset: AssetIdView) -> u128 {
        if self.ft_supplies.contains_key(asset) {
            self.ft_supplies[asset].supply
        } else {
            0
        }
    }

    /// What the supply of a fungible token would be after `amount` more is
    /// minted, or why that much cannot be minted.
    pub open spec fn supply_after_mint(&self, asset: AssetIdView, amount: u128) -> Result<
        u128,
        InterpreterError,
    > {
        if self.ft_supplies.contains_key(asset) {
            ClarityDatabase::increased_supply(self.ft_supplies[asset], amount)
        } else {
            Err(InterpreterError::Unchecked(CheckErrors::NoSuchFT))
        }
    }

    /// The ledger after `amount` of a fungible token is minted to `to`, which
    /// brings the token's supply to `supply`.
    pub open spec fn ft_minted(
        self,
        asset: AssetIdView,
        to: PrincipalView,
        amount: u128,
        supply: u128,
    ) -> LedgerView {
        LedgerView {
            ft_supplies: self.ft_supplies.insert(
                asset,
                FungibleTokenState { supply, ..self.ft_supplies[asset] },
            ),
            ft_balances: self.ft_balances.insert(
                (asset, to),
                (self.ft_balance(asset, to) + amount) as u128,
            ),
            ..self
        }
    }

    /// The ledger after `amount` of a fungible token is moved from `from` to
    /// `to`.
    pub open spec fn ft_transferred(
        self,
        asset: AssetIdView,
        from: PrincipalView,
        to: PrincipalView,
        amount: u128,
    ) -> LedgerView {
        LedgerView {
            ft_balances: self.ft_balances.insert(
                (asset, from),
                (self.ft_balance(asset, from) - amount) as u128,
            ).insert((asset, to), (self.ft_balance(asset, to) + amount) as u128),
            ..self
        }
    }
}

/// What a balance counts for in the sum of the balances of `asset`: itself,
/// where it is a balance of that asset.
pub open spec fn ft_weight(asset: AssetIdView) -> spec_fn(
    (AssetIdView, PrincipalView),
    u128,
) -> nat {
    |key: (AssetIdView, PrincipalView), balance: u128|
        if key.0 == asset {
            balance as nat
        } else {
            0
        }
}

/// Whether the balances of each fungible token are together the supply that
/// is recorded for it, and nothing where none is recorded.
spec fn tokens_balanced(
    balances: Table<(AssetIdentifier, PrincipalData), u128>,
    supplies: Map<AssetIdView, FungibleTokenState>,
) -> bool {
    forall|asset: AssetIdView| #[trigger]
        balances.total(ft_weight(asset)) == (if supplies.contains_key(asset) {
            supplies[asset].supply
        } else {
            0
        })
}

/// The ledger.
pub struct ClarityDatabase {
    burn_block_height: u64,
    stx_balances: Table<PrincipalData, STXBalance>,
    nonces: Table<PrincipalData, u64>,
    ft_supplies: Table<AssetIdentifier, FungibleTokenState>,
    ft_balances: Table<(AssetIdentifier, PrincipalData), u128>,
    nft_types: Table<AssetIdentifier, TypeSignature>,
    nft_owners: Table<(AssetIdentifier, Value), PrincipalData>,
    poison_reports: Table<u32, (StandardPrincipalData, u16)>,
}

impl View for ClarityDatabase {
    type V = LedgerView;

    closed spec fn view(&self) -> LedgerView {
        LedgerView {
            burn_block_height: self.burn_block_height,
            stx_balances: self.stx_balances@,
            nonces: self.nonces@,
            ft_supplies: self.ft_supplies@,
            ft_balances: self.ft_balances@,
            nft_types: self.nft_types@,
            nft_owners: self.nft_owners@.map_values(|p: PrincipalData| p@),
            poison_reports: self.poison_reports@,
        }
    }
}

impl ClarityDatabase {
    /// The balances of a fungible token, together.
    pub closed spec fn ft_circulating(&self, asset: AssetIdView) -> nat {
        self.ft_balances.total(ft_weight(asset))
    }

    /// The balances of each fungible token are together its supply.
    closed spec fn balanced(&self) -> bool {
        tokens_balanced(self.ft_balances, self.ft_supplies@)
    }

    /// No key is stored twice, every stored balance is well formed, and the
    /// balances of each fungible token are together its supply.
    pub closed spec fn wf(&self) -> bool {
        &&& self.structure_wf()
        &&& self.balanced()
    }

    /// No key is stored twice, and every stored balance is well formed.
    closed spec fn structure_wf(&self) -> bool {
        &&& self.stx_balances.wf()
        &&& self.nonces.wf()
        &&& self.ft_supplies.wf()
        &&& self.ft_balances.wf()
        &&& self.nft_types.wf()
        &&& self.nft_owners.wf()
        &&& self.poison_reports.wf()
        &&& forall|p: PrincipalView| #[trigger]
            self.stx_balances@.contains_key(p) ==> self.stx_balances@[p].wf()
    }

    /// Every balance of a well-formed ledger is well formed.
    pub proof fn lemma_balances_wf(&self, principal: PrincipalView)
        requires
            self.wf(),
        ensures
            self@.stx_balance(principal).wf(),
    {
    }

    /// Conservation of a fungible token: what the principals hold of it is
    /// together what was minted, and nothing of a token that no contract
    /// defined.
    pub proof fn lemma_ft_conservation(&self, asset: AssetIdView)
        requires
            self.wf(),
        ensures
            self.ft_circulating(asset) == self@.ft_supply(asset),
    {
        assert(self.ft_balances.total(ft_weight(asset)) == self@.ft_supply(asset));
    }

    /// Conservation of a fungible token: no principal holds more of it than
    /// was minted, and nobody holds any of a token that no contract defined.
    pub proof fn lemma_ft_balance_within_supply(&self, asset: AssetIdView, principal: PrincipalView)
        requires
            self.wf(),
        ensures
            self@.ft_balance(asset, principal) <= self@.ft_supply(asset),
    {
        assert(self.ft_balances.total(ft_weight(asset)) == self@.ft_supply(asset));
        if self@.ft_balances.contains_key((asset, principal)) {
            self.ft_balances.lemma_total_covers((asset, principal), ft_weight(asset));
        }
    }

    /// Conservation of a fungible token: two principals hold together no
    /// more of it than was minted.
    pub proof fn lemma_ft_balances_within_supply(
        &self,
        asset: AssetIdView,
        first: PrincipalView,
        second: PrincipalView,
    )
        requires
            self.wf(),
            first != second,
        ensures
            self@.ft_balance(asset, first) + self@.ft_balance(asset, second) <= self@.ft_supply(
                asset,
            ),
    {
        assert(self.ft_balances.total(ft_weight(asset)) == self@.ft_supply(asset));
        let has_first = self@.ft_balances.contains_key((asset, first));
        let has_second = self@.ft_balances.contains_key((asset, second));
        if has_first && has_second {
            self.ft_balances.lemma_total_covers_two(
                (asset, first),
                (asset, second),
                ft_weight(asset),
            );
        } else if has_first {
            self.ft_balances.lemma_total_covers((asset, first), ft_weight(asset));
        } else if has_second {
            self.ft_balances.lemma_total_covers((asset, second), ft_weight(asset));
        }
    }

    /// An empty ledger at the given height of the burn chain.
    pub fn new(burn_block_height: u64) -> (r: ClarityDatabase)
        ensures
            r.wf(),
            r@ == (LedgerView {
                burn_block_height,
                stx_balances: Map::empty(),
                nonces: Map::empty(),
                ft_supplies: Map::empty(),
                ft_balances: Map::empty(),
                nft_types: Map::empty(),
                nft_owners: Map::empty(),
                poison_reports: Map::empty(),
            }),
    {
        let r = ClarityDatabase {
            burn_block_height,
            stx_balances: Table::new(),
            nonces: Table::new(),
            ft_supplies: Table::new(),
            ft_balances: Table::new(),
            nft_types: Table::new(),
            nft_owners: Table::new(),
            poison_reports: Table::new(),
        };
        assert(r@.nft_owners =~= Map::empty());
        r
    }

    /// The height of the burn chain.
    pub fn get_current_burnchain_block_height(&self) -> (r: u64)
        ensures
            r == self@.burn_block_height,
    {
        self.burn_block_height
    }

    /// Moves the ledger to another height of the burn chain.
    pub fn set_burnchain_block_height(&mut self, burn_block_height: u64)
        requires
            old(self).wf(),
        ensures
            final(self).wf(),
            final(self)@ == (LedgerView { burn_block_height, ..old(self)@ }),
    {
        self.burn_block_height = burn_block_height;
    }

    /// The balance of an account as it is stored: a lock that has ended is
    /// still recorded as a lock.
    pub fn get_account_stx_balance(&self, principal: &PrincipalData) -> (r: STXBalance)
        requires
            self.wf(),
        ensures
            r == self@.stx_balance(principal@),
            r.wf(),
    {
        match self.stx_balances.get(principal) {
            Some(balance) => *balance,
            None => STXBalance::zero(),
        }
    }

    /// Stores the balance of an account.
    pub fn set_account_stx_balance(&mut self, principal: &PrincipalData, balance: STXBalance)
        requires
            old(self).wf(),
            balance.wf(),
        ensures
            final(self).wf(),
            final(self)@ == old(self)@.with_stx_balance(principal@, balance),
    {
        self.stx_balances.set(principal, balance);
    }

    /// A snapshot of an account's balance at the ledger's height.
    pub fn get_stx_balance_snapshot(&self, principal: &PrincipalData) -> (r: STXBalanceSnapshot)
        requires
            self.wf(),
        ensures
            r.wf(),
            r.spec_principal()@ == principal@,
            r.spec_height() == self@.burn_block_height,
            r.spec_balance() == self@.available_balance(principal@),
    {
        let balance = self.get_account_stx_balance(principal);
        STXBalanceSnapshot::new(principal, balance, self.burn_block_height)
    }

    /// A snapshot of an account's balance as it is stored, for the credits
    /// that make up the first block: no lock is looked at.
    pub fn get_stx_balance_snapshot_genesis(&self, principal: &PrincipalData) -> (r:
        STXBalanceSnapshot)
        requires
            self.wf(),
        ensures
            r.wf(),
            r.spec_principal()@ == principal@,
            r.spec_height() == 0,
            r.spec_balance() == self@.stx_balance(principal@),
    {
        let balance = self.get_account_stx_balance(principal);
        STXBalanceSnapshot::new(principal, balance, 0)
    }

    /// The nonce of an account.
    pub fn get_account_nonce(&self, principal: &PrincipalData) -> (r: u64)
        requires
            self.wf(),
        ensures
            r == self@.nonce(principal@),
    {
        match self.nonces.get(principal) {
            Some(nonce) => *nonce,
            None => 0,
        }
    }

    /// Stores the nonce of an account.
    pub fn set_account_nonce(&mut self, principal: &PrincipalData, nonce: u64)
        requires
            old(self).wf(),
        ensures
            final(self).wf(),
            final(self)@ == (LedgerView {
                nonces: old(self)@.nonces.insert(principal@, nonce),
                ..old(self)@
            }),
    {
        self.nonces.set(principal, nonce);
    }

    /// Defines a fungible token with nothing minted, and with the most that
    /// may ever be minted where `total_supply` gives a limit. Fails where the
    /// token is defined already.
    pub fn define_fungible_token(
        &mut self,
        asset: &AssetIdentifier,
        total_supply: Option<u128>,
    ) -> (r: Result<(), InterpreterError>)
        requires
            old(self).wf(),
        ensures
            final(self).wf(),
            old(self)@.ft_supplies.contains_key(asset@) ==> r == Err::<(), InterpreterError>(
                InterpreterError::Unchecked(CheckErrors::NameAlreadyUsed),
            ) && final(self)@ == old(self)@,
            !old(self)@.ft_supplies.contains_key(asset@) ==> r == Ok::<(), InterpreterError>(())
                && final(self)@ == (LedgerView {
                ft_supplies: old(self)@.ft_supplies.insert(
                    asset@,
                    FungibleTokenState { supply: 0, total_supply },
                ),
                ..old(self)@
            }),
    {
        if self.ft_supplies.contains(asset) {
            return Err(InterpreterError::Unchecked(CheckErrors::NameAlreadyUsed));
        }
        self.ft_supplies.set(asset, FungibleTokenState { supply: 0, total_supply });
        Ok(())
    }

    /// What the supply of a fungible token would be after `amount` more is
    /// minted, where that is an amount the machine can hold and within the
    /// declared limit.
    pub open spec fn increased_supply(state: FungibleTokenState, amount: u128) -> Result<
        u128,
        InterpreterError,
    > {
        if state.supply + amount > u128::MAX {
            Err(InterpreterError::Runtime(RuntimeErrorType::ArithmeticOverflow))
        } else if state.total_supply is Some && state.supply + amount > state.total_supply->0 {
            Err(
                InterpreterError::Runtime(
                    RuntimeErrorType::SupplyOverflow(
                        (state.supply + amount) as u128,
                        state.total_supply->0,
                    ),
                ),
            )
        } else {
            Ok((state.supply + amount) as u128)
        }
    }

    /// What the supply of a fungible token would be after `amount` more is
    /// minted. Fails where the token is not defined, where the sum is more
    /// than the machine can hold, and where it is more than the declared
    /// limit.
    pub fn check_token_supply_increase(&self, asset: &AssetIdentifier, amount: u128) -> (r: Result<
        u128,
        InterpreterError,
    >)
        requires
            self.wf(),
        ensures
            r == if self@.ft_supplies.contains_key(asset@) {
                Self::increased_supply(self@.ft_supplies[asset@], amount)
            } else {
                Err::<u128, InterpreterError>(InterpreterError::Unchecked(CheckErrors::NoSuchFT))
            },
    {
        let state = match self.ft_supplies.get(asset) {
            Some(state) => *state,
            None => {
                return Err(InterpreterError::Unchecked(CheckErrors::NoSuchFT));
            },
        };
        let new_supply = match state.supply.checked_add(amount) {
            Some(new_supply) => new_supply,
            None => {
                return Err(InterpreterError::Runtime(RuntimeErrorType::ArithmeticOverflow));
            },
        };
        match state.total_supply {
            Some(total_supply) => {
                if new_supply > total_supply {
                    return Err(
                        InterpreterError::Runtime(
                            RuntimeErrorType::SupplyOverflow(new_supply, total_supply),
                        ),
                    );
                }
            },
            None => {},
        }
        Ok(new_supply)
    }

    /// Mints `amount` of a fungible token to `to`: the supply and the balance
    /// go up together. Fails, and changes nothing, where the token is not
    /// defined, where the supply would be more than the machine can hold, and
    /// where it would be more than the declared limit.
    pub fn mint_ft(
        &mut self,
        asset: &AssetIdentifier,
        to: &PrincipalData,
        amount: u128,
    ) -> (r: Result<(), InterpreterError>)
        requires
            old(self).wf(),
        ensures
            final(self).wf(),
            match old(self)@.supply_after_mint(asset@, amount) {
                Ok(supply) => r == Ok::<(), InterpreterError>(()) && final(self)@ == old(
                    self,
                )@.ft_minted(asset@, to@, amount, supply),
                Err(e) => r == Err::<(), InterpreterError>(e) && final(self)@ == old(self)@,
            },
            old(self)@.supply_after_mint(asset@, amount) is Ok ==> old(self)@.ft_balance(
                asset@,
                to@,
            ) + amount <= u128::MAX,
    {
        let new_supply = match self.check_token_supply_increase(asset, amount) {
            Ok(new_supply) => new_supply,
            Err(e) => {
                return Err(e);
            },
        };
        let total_supply = match self.ft_supplies.get(asset) {
            Some(state) => state.total_supply,
            None => None,
        };
        let to_bal = self.get_ft_balance(asset, to);
        proof {
            self.lemma_ft_balance_within_supply(asset@, to@);
        }
        let final_to_bal = to_bal + amount;
        self.ft_supplies.set(asset, FungibleTokenState { supply: new_supply, total_supply });
        self.set_ft_balance(asset, to, final_to_bal);
        proof {
            assert forall|a: AssetIdView| #[trigger]
                self.ft_balances.total(ft_weight(a)) == self@.ft_supply(a) by {
                assert(old(self).ft_balances.total(ft_weight(a)) == old(self)@.ft_supply(a));
                assert(self.ft_circulating(a) + ft_weight(a)((asset@, to@), to_bal) == old(
                    self,
                ).ft_circulating(a) + ft_weight(a)((asset@, to@), final_to_bal));
            }
        }
        Ok(())
    }

    /// The balance of a principal in a fungible token.
    pub fn get_ft_balance(&self, asset: &AssetIdentifier, principal: &PrincipalData) -> (r: u128)
        requires
            self.wf(),
        ensures
            r == self@.ft_balance(asset@, principal@),
    {
        let key = (asset.clone(), principal.clone());
        match self.ft_balances.get(&key) {
            Some(balance) => *balance,
            None => 0,
        }
    }

    /// Stores the balance of a principal in a fungible token, and says what
    /// that does to the sum of the balances of each token.
    fn set_ft_balance(&mut self, asset: &AssetIdentifier, principal: &PrincipalData, balance: u128)
        requires
            old(self).structure_wf(),
        ensures
            final(self).structure_wf(),
            final(self)@ == (LedgerView {
                ft_balances: old(self)@.ft_balances.insert((asset@, principal@), balance),
                ..old(self)@
            }),
            forall|a: AssetIdView| #[trigger]
                final(self).ft_circulating(a) + ft_weight(a)(
                    (asset@, principal@),
                    old(self)@.ft_balance(asset@, principal@),
                ) == old(self).ft_circulating(a) + ft_weight(a)((asset@, principal@), balance),
    {
        let key = (asset.clone(), principal.clone());
        self.ft_balances.set(&key, balance);
    }

    /// Moves `amount` of a fungible token from `from` to `to`, who is
    /// another principal. The sender must hold the amount.
    pub fn transfer_ft(
        &mut self,
        asset: &AssetIdentifier,
        from: &PrincipalData,
        to: &PrincipalData,
        amount: u128,
    )
        requires
            old(self).wf(),
            from@ != to@,
            amount <= old(self)@.ft_balance(asset@, from@),
        ensures
            final(self).wf(),
            final(self)@ == old(self)@.ft_transferred(asset@, from@, to@, amount),
    {
        let from_bal = self.get_ft_balance(asset, from);
        let to_bal = self.get_ft_balance(asset, to);
        self.set_ft_balance(asset, from, from_bal - amount);
        let ghost mid = *self;
        proof {
            assert(old(self).ft_balances.total(ft_weight(asset@)) == old(self)@.ft_supply(asset@));
            assert(mid.ft_circulating(asset@) + ft_weight(asset@)((asset@, from@), from_bal)
                == old(self).ft_circulating(asset@) + ft_weight(asset@)(
                (asset@, from@),
                (from_bal - amount) as u128,
            ));
            if mid@.ft_balances.contains_key((asset@, to@)) {
                mid.ft_balances.lemma_total_covers((asset@, to@), ft_weight(asset@));
            }
            assert(mid@.ft_balance(asset@, to@) == to_bal);
        }
        self.set_ft_balance(asset, to, to_bal + amount);
        proof {
            assert forall|a: AssetIdView| #[trigger]
                self.ft_balances.total(ft_weight(a)) == self@.ft_supply(a) by {
                assert(old(self).ft_balances.total(ft_weight(a)) == old(self)@.ft_supply(a));
                assert(mid.ft_circulating(a) + ft_weight(a)((asset@, from@), from_bal) == old(
                    self,
                ).ft_circulating(a) + ft_weight(a)((asset@, from@), (from_bal - amount) as u128));
                assert(self.ft_circulating(a) + ft_weight(a)((asset@, to@), to_bal)
                    == mid.ft_circulating(a) + ft_weight(a)(
                    (asset@, to@),
                    (to_bal + amount) as u128,
                ));
            }
        }
    }

    /// Defines a non-fungible token whose tokens are identified by values of
    /// `key_type`. Fails where the token is defined already.
    pub fn define_non_fungible_token(
        &mut self,
        asset: &AssetIdentifier,
        key_type: TypeSignature,
    ) -> (r: Result<(), InterpreterError>)
        requires
            old(self).wf(),
        ensures
            final(self).wf(),
            old(self)@.nft_types.contains_key(asset@) ==> r == Err::<(), InterpreterError>(
                InterpreterError::Unchecked(CheckErrors::NameAlreadyUsed),
            ) && final(self)@ == old(self)@,
            !old(self)@.nft_types.contains_key(asset@) ==> r == Ok::<(), InterpreterError>(())
                && final(self)@ == (LedgerView {
                nft_types: old(self)@.nft_types.insert(asset@, key_type),
                ..old(self)@
            }),
    {
        if self.nft_types.contains(asset) {
            return Err(InterpreterError::Unchecked(CheckErrors::NameAlreadyUsed));
        }
        self.nft_types.set(asset, key_type);
        Ok(())
    }

    /// The type of what identifies a token of a non-fungible token. Fails
    /// where the token is not defined.
    pub fn get_nft_key_type(&self, asset: &AssetIdentifier) -> (r: Result<
        TypeSignature,
        InterpreterError,
    >)
        requires
            self.wf(),
        ensures
            r == if self@.nft_types.contains_key(asset@) {
                Ok::<TypeSignature, InterpreterError>(self@.nft_types[asset@])
            } else {
                Err::<TypeSignature, InterpreterError>(
                    InterpreterError::Unchecked(CheckErrors::NoSuchNFT),
                )
            },
    {
        match self.nft_types.get(asset) {
            Some(key_type) => Ok(*key_type),
            None => Err(InterpreterError::Unchecked(CheckErrors::NoSuchNFT)),
        }
    }

    /// The owner of a token. Fails where no owner is recorded for it.
    pub fn get_nft_owner(&self, asset: &AssetIdentifier, value: &Value) -> (r: Result<
        PrincipalData,
        InterpreterError,
    >)
        requires
            self.wf(),
        ensures
            match r {
                Ok(owner) => self@.nft_owners.contains_key((asset@, value@))
                    && self@.nft_owners[(asset@, value@)] == owner@,
                Err(e) => !self@.nft_owners.contains_key((asset@, value@)) && e
                    == InterpreterError::Runtime(RuntimeErrorType::NoSuchToken),
            },
    {
        let key = (asset.clone(), value.clone());
        match self.nft_owners.get(&key) {
            Some(owner) => Ok(owner.clone()),
            None => Err(InterpreterError::Runtime(RuntimeErrorType::NoSuchToken)),
        }
    }

    /// Records the owner of a token.
    pub fn set_nft_owner(&mut self, asset: &AssetIdentifier, value: &Value, owner: &PrincipalData)
        requires
            old(self).wf(),
        ensures
            final(self).wf(),
            final(self)@ == old(self)@.with_nft_owner(asset@, value@, owner@),
    {
        let key = (asset.clone(), value.clone());
        let owner = owner.clone();
        self.nft_owners.set(&key, owner);
        assert(self@.nft_owners =~= old(self)@.nft_owners.insert((asset@, value@), owner@));
    }

    /// The report of a poisoned microblock stream for the block at `height`,
    /// if there is one: who reported it, and the sequence number reported.
    pub fn get_microblock_poison_report(&self, height: u32) -> (r: Option<
        (StandardPrincipalData, u16),
    >)
        requires
            self.wf(),
        ensures
            r == if self@.poison_reports.contains_key(height) {
                Some(self@.poison_reports[height])
            } else {
                None
            },
    {
        match self.poison_reports.get(&height) {
            Some(report) => Some(*report),
            None => None,
        }
    }

    /// Records the report of a poisoned microblock stream for the block at
    /// `height`.
    pub fn insert_microblock_poison(
        &mut self,
        height: u32,
        reporter: &StandardPrincipalData,
        seq: u16,
    )
        requires
            old(self).wf(),
        ensures
            final(self).wf(),
            final(self)@ == (LedgerView {
                poison_reports: old(self)@.poison_reports.insert(height, (*reporter, seq)),
                ..old(self)@
            }),
    {
        self.poison_reports.set(&height, (*reporter, seq));
    }
}

} // verus!
