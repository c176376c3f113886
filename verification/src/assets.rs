//! The operations on the native coin and on contract-defined assets that
//! contract code calls: transfers, mints, burns and the queries of balances
//! and owners.
//!
//! What each operation returns and does to the environment is given by a
//! function of the environment's value and the arguments' values; the
//! operation's contract says that it computes exactly that.

use crate::balance::STX_BALANCE_SIZE;
use crate::environment::{Environment, EnvironmentView, EventView, StacksTransactionEvent};
use crate::errors::{CheckErrors, InterpreterError, RuntimeErrorType};
use crate::types::{principal_eq, AssetIdView, PrincipalData, PrincipalView};
use crate::values::{TypeSignature, Value, ValueView};
use vstd::prelude::*;

verus! {

/// Why a mint of a non-fungible token is turned down.
#[derive(Clone, Copy, Debug, PartialEq, Eq, Structural)]
pub enum MintAssetErrorCodes {
    AlreadyExist,
}

/// Why a mint of a fungible token is turned down.
#[derive(Clone, Copy, Debug, PartialEq, Eq, Structural)]
pub enum MintTokenErrorCodes {
    NonPositiveAmount,
}

/// Why a transfer of a non-fungible token is turned down.
#[derive(Clone, Copy, Debug, PartialEq, Eq, Structural)]
pub enum TransferAssetErrorCodes {
    NotOwnedBy,
    SenderIsRecipient,
    DoesNotExist,
}

/// Why a transfer of a fungible token is turned down.
#[derive(Clone, Copy, Debug, PartialEq, Eq, Structural)]
pub enum TransferTokenErrorCodes {
    NotEnoughBalance,
    SenderIsRecipient,
    NonPositiveAmount,
}

/// Why a transfer or a burn of the native coin is turned down.
#[derive(Clone, Copy, Debug, PartialEq, Eq, Structural)]
pub enum StxErrorCodes {
    NotEnoughBalance,
    SenderIsRecipient,
    NonPositiveAmount,
    SenderIsNotTxSender,
}

impl MintAssetErrorCodes {
    /// The number that the contract sees.
    pub open spec fn spec_code(self) -> u128 {
        1
    }

    /// The number that the contract sees.
    pub fn code(self) -> (r: u128)
        ensures
            r == self.spec_code(),
    {
        1
    }
}

impl MintTokenErrorCodes {
    /// The number that the contract sees.
    pub open spec fn spec_code(self) -> u128 {
        1
    }

    /// The number that the contract sees.
    pub fn code(self) -> (r: u128)
        ensures
            r == self.spec_code(),
    {
        1
    }
}

impl TransferAssetErrorCodes {
    /// The number that the contract sees.
    pub open spec fn spec_code(self) -> u128 {
        match self {
            TransferAssetErrorCodes::NotOwnedBy => 1,
            TransferAssetErrorCodes::SenderIsRecipient => 2,
            TransferAssetErrorCodes::DoesNotExist => 3,
        }
    }

    /// The number that the contract sees.
    pub fn code(self) -> (r: u128)
        ensures
            r == self.spec_code(),
    {
        match self {
            TransferAssetErrorCodes::NotOwnedBy => 1,
            TransferAssetErrorCodes::SenderIsRecipient => 2,
            TransferAssetErrorCodes::DoesNotExist => 3,
        }
    }
}

impl TransferTokenErrorCodes {
    /// The number that the contract sees.
    pub open spec fn spec_code(self) -> u128 {
        match self {
            TransferTokenErrorCodes::NotEnoughBalance => 1,
            TransferTokenErrorCodes::SenderIsRecipient => 2,
            TransferTokenErrorCodes::NonPositiveAmount => 3,
        }
    }

    /// The number that the contract sees.
    pub fn code(self) -> (r: u128)
        ensures
            r == self.spec_code(),
    {
        match self {
            TransferTokenErrorCodes::NotEnoughBalance => 1,
            TransferTokenErrorCodes::SenderIsRecipient => 2,
            TransferTokenErrorCodes::NonPositiveAmount => 3,
        }
    }
}

impl StxErrorCodes {
    /// The number that the contract sees.
    pub open spec fn spec_code(self) -> u128 {
        match self {
            StxErrorCodes::NotEnoughBalance => 1,
            StxErrorCodes::SenderIsRecipient => 2,
            StxErrorCodes::NonPositiveAmount => 3,
            StxErrorCodes::SenderIsNotTxSender => 4,
        }
    }

    /// The number that the contract sees.
    pub fn code(self) -> (r: u128)
        ensures
            r == self.spec_code(),
    {
        match self {
            StxErrorCodes::NotEnoughBalance => 1,
            StxErrorCodes::SenderIsRecipient => 2,
            StxErrorCodes::NonPositiveAmount => 3,
            StxErrorCodes::SenderIsNotTxSender => 4,
        }
    }
}

/// The bytes that a principal takes in memory.
pub const PRINCIPAL_SIZE: u64 = 148;

/// The bytes that an unsigned integer takes in memory.
pub const UINT_SIZE: u64 = 16;

/// The memory that a transfer of the native coin accounts for: two
/// principals and two balances.
pub const STX_TRANSFER_MEMORY: u64 = 2 * PRINCIPAL_SIZE + 2 * STX_BALANCE_SIZE;

/// The memory that a burn of the native coin accounts for: one principal and
/// one balance.
pub const STX_BURN_MEMORY: u64 = PRINCIPAL_SIZE + STX_BALANCE_SIZE;

/// The memory that a mint of a fungible token accounts for: one principal and
/// one amount.
pub const FT_MINT_MEMORY: u64 = PRINCIPAL_SIZE + UINT_SIZE;

/// The memory that a transfer of a fungible token accounts for: two
/// principals and two amounts.
pub const FT_TRANSFER_MEMORY: u64 = 2 * PRINCIPAL_SIZE + 2 * UINT_SIZE;

/// What an operation returns and the environment that it leaves.
pub struct Outcome {
    pub result: Result<ValueView, InterpreterError>,
    pub env: EnvironmentView,
}

/// What an operation returned, as a mathematical value.
pub open spec fn result_view(r: Result<Value, InterpreterError>) -> Result<
    ValueView,
    InterpreterError,
> {
    match r {
        Ok(v) => Ok(v@),
        Err(e) => Err(e),
    }
}

/// The operation answers `(err code)`.
pub open spec fn declined(code: u128, env: EnvironmentView) -> Outcome {
    Outcome { result: Ok(Value::spec_err_uint(code)), env }
}

/// The operation is aborted.
pub open spec fn aborted(e: InterpreterError, env: EnvironmentView) -> Outcome {
    Outcome { result: Err(e), env }
}

/// The operation answers `(ok true)`.
pub open spec fn done(env: EnvironmentView) -> Outcome {
    Outcome { result: Ok(Value::spec_okay_true()), env }
}

/// The operation is aborted for want of memory.
pub open spec fn out_of_memory(env: EnvironmentView) -> Outcome {
    aborted(InterpreterError::Unchecked(CheckErrors::MemoryBalanceExceeded), env)
}

/// What the query of an account's balance in the native coin returns: what
/// the account can spend at the ledger's height.
pub open spec fn spec_stx_balance(env: EnvironmentView, owner: ValueView) -> Outcome {
    match owner {
        ValueView::Principal(principal) => Outcome {
            result: Ok(ValueView::UInt(env.ledger.available_balance(principal).amount_unlocked)),
            env,
        },
        _ => aborted(InterpreterError::Unchecked(CheckErrors::TypeValueError), env),
    }
}

/// What a transfer of `amount` of the native coin from `from` to `to` returns
/// and does.
///
/// The amount is looked at first, then whether the two are one, then what
/// the sender can spend, then whether the sender authorized the transaction.
pub open spec fn spec_stx_transfer(
    env: EnvironmentView,
    from: PrincipalView,
    to: PrincipalView,
    amount: u128,
) -> Outcome {
    if amount == 0 {
        declined(StxErrorCodes::NonPositiveAmount.spec_code(), env)
    } else if from == to {
        declined(StxErrorCodes::SenderIsRecipient.spec_code(), env)
    } else {
        match env.charged(STX_TRANSFER_MEMORY as nat) {
            None => out_of_memory(env),
            Some(env) => {
                let sender_balance = env.ledger.available_balance(from);
                if amount > sender_balance.amount_unlocked {
                    declined(StxErrorCodes::NotEnoughBalance.spec_code(), env)
                } else if env.sender != Some(from) {
                    declined(StxErrorCodes::SenderIsNotTxSender.spec_code(), env)
                } else {
                    if !env.ledger.stx_balance(to).can_hold(amount) {
                        aborted(
                            InterpreterError::Runtime(RuntimeErrorType::ArithmeticOverflow),
                            env,
                        )
                    } else {
                        done(
                            env.with_ledger(
                                env.ledger.with_stx_balance(
                                    to,
                                    env.ledger.stx_balance(to).credited(amount),
                                ).with_stx_balance(from, sender_balance.debited(amount)),
                            ).emitting(
                                EventView::STXTransfer { sender: from, recipient: to, amount },
                            ),
                        )
                    }
                }
            },
        }
    }
}

/// What a transfer of the native coin returns and does, given the values
/// that the contract handed over.
pub open spec fn spec_special_stx_transfer(
    env: EnvironmentView,
    amount: ValueView,
    from: ValueView,
    to: ValueView,
) -> Outcome {
    match (from, to, amount) {
        (ValueView::Principal(from), ValueView::Principal(to), ValueView::UInt(amount)) => {
            spec_stx_transfer(env, from, to, amount)
        },
        _ => aborted(InterpreterError::Unchecked(CheckErrors::BadTransferSTXArguments), env),
    }
}

/// What a burn of the native coin returns and does: as a transfer, but what
/// leaves the sender's balance goes to nobody.
pub open spec fn spec_stx_burn(
    env: EnvironmentView,
    amount: ValueView,
    from: ValueView,
) -> Outcome {
    match (from, amount) {
        (ValueView::Principal(from), ValueView::UInt(amount)) => {
            if amount == 0 {
                declined(StxErrorCodes::NonPositiveAmount.spec_code(), env)
            } else {
                match env.charged(STX_BURN_MEMORY as nat) {
                    None => out_of_memory(env),
                    Some(env) => {
                        let burner_balance = env.ledger.available_balance(from);
                        if amount > burner_balance.amount_unlocked {
                            declined(StxErrorCodes::NotEnoughBalance.spec_code(), env)
                        } else if env.sender != Some(from) {
                            declined(StxErrorCodes::SenderIsNotTxSender.spec_code(), env)
                        } else {
                            done(
                                env.with_ledger(
                                    env.ledger.with_stx_balance(
                                        from,
                                        burner_balance.debited(amount),
                                    ),
                                ).emitting(EventView::STXBurn { sender: from, amount }),
                            )
                        }
                    },
                }
            }
        },
        _ => aborted(InterpreterError::Unchecked(CheckErrors::BadTransferSTXArguments), env),
    }
}

/// Whether `sender` is the principal `principal`.
fn is_sender(sender: &Option<PrincipalData>, principal: &PrincipalData) -> (r: bool)
    ensures
        r == match *sender {
            Some(s) => s@ == principal@,
            None => false,
        },
{
    match sender {
        Some(s) => principal_eq(s, principal),
        None => false,
    }
}

/// The balance of an account in the native coin: what it can spend now.
pub fn special_stx_balance(env: &mut Environment, owner: Value) -> (r: Result<
    Value,
    InterpreterError,
>)
    requires
        old(env).wf(),
    ensures
        final(env).wf(),
        (Outcome { result: result_view(r), env: final(env)@ }) == spec_stx_balance(
            old(env)@,
            owner@,
        ),
{
    match owner {
        Value::Principal(principal) => {
            let snapshot = env.database.get_stx_balance_snapshot(&principal);
            Ok(Value::UInt(snapshot.get_available_balance()))
        },
        _ => Err(InterpreterError::Unchecked(CheckErrors::TypeValueError)),
    }
}

/// Transfers `amount` of the native coin from `from` to `to`. A lock of the
/// sender that has ended is folded into its balance on the way.
pub fn stx_transfer_consolidated(
    env: &mut Environment,
    from: &PrincipalData,
    to: &PrincipalData,
    amount: u128,
) -> (r: Result<Value, InterpreterError>)
    requires
        old(env).wf(),
    ensures
        final(env).wf(),
        (Outcome { result: result_view(r), env: final(env)@ }) == spec_stx_transfer(
            old(env)@,
            from@,
            to@,
            amount,
        ),
{
    if amount == 0 {
        return Ok(Value::err_uint(StxErrorCodes::NonPositiveAmount.code()));
    }
    if principal_eq(from, to) {
        return Ok(Value::err_uint(StxErrorCodes::SenderIsRecipient.code()));
    }
    // the two principals and the two balances are loaded
    match env.add_memory(STX_TRANSFER_MEMORY) {
        Err(e) => {
            return Err(e);
        },
        Ok(()) => {},
    }
    let sender_snapshot = env.database.get_stx_balance_snapshot(from);
    if !sender_snapshot.can_transfer(amount) {
        return Ok(Value::err_uint(StxErrorCodes::NotEnoughBalance.code()));
    }
    if !is_sender(&env.sender, from) {
        return Ok(Value::err_uint(StxErrorCodes::SenderIsNotTxSender.code()));
    }
    match sender_snapshot.transfer_to(&mut env.database, to, amount) {
        Err(e) => {
            return Err(e);
        },
        Ok(()) => {},
    }
    env.register_event(
        StacksTransactionEvent::STXTransfer { sender: from.clone(), recipient: to.clone(), amount },
    );
    Ok(Value::okay_true())
}

/// Transfers the native coin, given the values that the contract handed over:
/// the amount, the sender and the recipient.
pub fn special_stx_transfer(
    env: &mut Environment,
    amount_val: Value,
    from_val: Value,
    to_val: Value,
) -> (r: Result<Value, InterpreterError>)
    requires
        old(env).wf(),
    ensures
        final(env).wf(),
        (Outcome { result: result_view(r), env: final(env)@ }) == spec_special_stx_transfer(
            old(env)@,
            amount_val@,
            from_val@,
            to_val@,
        ),
{
    match (&from_val, &to_val, &amount_val) {
        (Value::Principal(from), Value::Principal(to), Value::UInt(amount)) => {
            stx_transfer_consolidated(env, from, to, *amount)
        },
        _ => Err(InterpreterError::Unchecked(CheckErrors::BadTransferSTXArguments)),
    }
}

/// Burns the native coin, given the values that the contract handed over:
/// the amount and the account that burns it.
pub fn special_stx_burn(env: &mut Environment, amount_val: Value, from_val: Value) -> (r: Result<
    Value,
    InterpreterError,
>)
    requires
        old(env).wf(),
    ensures
        final(env).wf(),
        (Outcome { result: result_view(r), env: final(env)@ }) == spec_stx_burn(
            old(env)@,
            amount_val@,
            from_val@,
        ),
{
    match (&from_val, &amount_val) {
        (Value::Principal(from), Value::UInt(amount)) => {
            let amount = *amount;
            if amount == 0 {
                return Ok(Value::err_uint(StxErrorCodes::NonPositiveAmount.code()));
            }
            // the principal and its balance are loaded
            match env.add_memory(STX_BURN_MEMORY) {
                Err(e) => {
                    return Err(e);
                },
                Ok(()) => {},
            }
            let mut burner_snapshot = env.database.get_stx_balance_snapshot(from);
            if !burner_snapshot.can_transfer(amount) {
                return Ok(Value::err_uint(StxErrorCodes::NotEnoughBalance.code()));
            }
            if !is_sender(&env.sender, from) {
                return Ok(Value::err_uint(StxErrorCodes::SenderIsNotTxSender.code()));
            }
            burner_snapshot.debit(amount);
            burner_snapshot.save(&mut env.database);
            env.register_event(StacksTransactionEvent::STXBurn { sender: from.clone(), amount });
            Ok(Value::okay_true())
        },
        _ => Err(InterpreterError::Unchecked(CheckErrors::BadTransferSTXArguments)),
    }
}

/// What a mint of `amount` of a fungible token of the running contract to
/// `to` returns and does.
pub open spec fn spec_mint_token(
    env: EnvironmentView,
    token_name: Seq<char>,
    amount: ValueView,
    to: ValueView,
) -> Outcome {
    match (amount, to) {
        (ValueView::UInt(amount), ValueView::Principal(to)) => {
            let asset = env.asset(token_name);
            if amount == 0 {
                declined(MintTokenErrorCodes::NonPositiveAmount.spec_code(), env)
            } else {
                match env.ledger.supply_after_mint(asset, amount) {
                    Err(e) => aborted(e, env),
                    Ok(supply) => match env.charged(FT_MINT_MEMORY as nat) {
                        None => out_of_memory(env),
                        Some(env) => done(
                            env.with_ledger(
                                env.ledger.ft_minted(asset, to, amount, supply),
                            ).emitting(
                                EventView::FTMint {
                                    asset_identifier: asset,
                                    recipient: to,
                                    amount,
                                },
                            ),
                        ),
                    },
                }
            }
        },
        _ => aborted(InterpreterError::Unchecked(CheckErrors::BadMintFTArguments), env),
    }
}

/// What a transfer of `amount` of a fungible token of the running contract
/// from `from` to `to` returns and does.
pub open spec fn spec_transfer_token(
    env: EnvironmentView,
    token_name: Seq<char>,
    amount: ValueView,
    from: ValueView,
    to: ValueView,
) -> Outcome {
    match (amount, from, to) {
        (ValueView::UInt(amount), ValueView::Principal(from), ValueView::Principal(to)) => {
            let asset = env.asset(token_name);
            let from_bal = env.ledger.ft_balance(asset, from);
            let to_bal = env.ledger.ft_balance(asset, to);
            if amount == 0 {
                declined(TransferTokenErrorCodes::NonPositiveAmount.spec_code(), env)
            } else if from == to {
                declined(TransferTokenErrorCodes::SenderIsRecipient.spec_code(), env)
            } else if from_bal < amount {
                declined(TransferTokenErrorCodes::NotEnoughBalance.spec_code(), env)
            } else if to_bal + amount > u128::MAX {
                aborted(InterpreterError::Runtime(RuntimeErrorType::ArithmeticOverflow), env)
            } else {
                match env.charged(FT_TRANSFER_MEMORY as nat) {
                    None => out_of_memory(env),
                    Some(env) => done(
                        env.with_ledger(
                            env.ledger.ft_transferred(asset, from, to, amount),
                        ).emitting(
                            EventView::FTTransfer {
                                asset_identifier: asset,
                                sender: from,
                                recipient: to,
                                amount,
                            },
                        ),
                    ),
                }
            }
        },
        _ => aborted(InterpreterError::Unchecked(CheckErrors::BadTransferFTArguments), env),
    }
}

/// What the query of a principal's balance in a fungible token of the
/// running contract returns.
pub open spec fn spec_get_balance(
    env: EnvironmentView,
    token_name: Seq<char>,
    owner: ValueView,
) -> Outcome {
    match owner {
        ValueView::Principal(principal) => Outcome {
            result: Ok(ValueView::UInt(env.ledger.ft_balance(env.asset(token_name), principal))),
            env,
        },
        _ => aborted(InterpreterError::Unchecked(CheckErrors::TypeValueError), env),
    }
}

/// The memory that recording the owner of a token accounts for: one
/// principal and one value of the token's type.
pub open spec fn nft_memory(key_type: TypeSignature) -> nat {
    PRINCIPAL_SIZE as nat + key_type.spec_size()
}

/// What a mint of the token `value` of a non-fungible token of the running
/// contract to `to` returns and does.
pub open spec fn spec_mint_asset(
    env: EnvironmentView,
    asset_name: Seq<char>,
    value: ValueView,
    to: ValueView,
) -> Outcome {
    let asset = env.asset(asset_name);
    if !env.ledger.nft_types.contains_key(asset) {
        aborted(InterpreterError::Unchecked(CheckErrors::NoSuchNFT), env)
    } else if !env.ledger.nft_types[asset].spec_admits(value) {
        aborted(InterpreterError::Unchecked(CheckErrors::TypeValueError), env)
    } else {
        match to {
            ValueView::Principal(to) => {
                if env.ledger.nft_owners.contains_key((asset, value)) {
                    declined(MintAssetErrorCodes::AlreadyExist.spec_code(), env)
                } else {
                    match env.charged(nft_memory(env.ledger.nft_types[asset])) {
                        None => out_of_memory(env),
                        Some(env) => done(
                            env.with_ledger(env.ledger.with_nft_owner(asset, value, to)).emitting(
                                EventView::NFTMint {
                                    asset_identifier: asset,
                                    recipient: to,
                                    value,
                                },
                            ),
                        ),
                    }
                }
            },
            _ => aborted(InterpreterError::Unchecked(CheckErrors::TypeValueError), env),
        }
    }
}

/// What a transfer of the token `value` of a non-fungible token of the
/// running contract from `from` to `to` returns and does.
pub open spec fn spec_transfer_asset(
    env: EnvironmentView,
    asset_name: Seq<char>,
    value: ValueView,
    from: ValueView,
    to: ValueView,
) -> Outcome {
    let asset = env.asset(asset_name);
    if !env.ledger.nft_types.contains_key(asset) {
        aborted(InterpreterError::Unchecked(CheckErrors::NoSuchNFT), env)
    } else if !env.ledger.nft_types[asset].spec_admits(value) {
        aborted(InterpreterError::Unchecked(CheckErrors::TypeValueError), env)
    } else {
        match (from, to) {
            (ValueView::Principal(from), ValueView::Principal(to)) => {
                if from == to {
                    declined(TransferAssetErrorCodes::SenderIsRecipient.spec_code(), env)
                } else if !env.ledger.nft_owners.contains_key((asset, value)) {
                    declined(TransferAssetErrorCodes::DoesNotExist.spec_code(), env)
                } else if env.ledger.nft_owners[(asset, value)] != from {
                    declined(TransferAssetErrorCodes::NotOwnedBy.spec_code(), env)
                } else {
                    match env.charged(nft_memory(env.ledger.nft_types[asset])) {
                        None => out_of_memory(env),
                        Some(env) => done(
                            env.with_ledger(env.ledger.with_nft_owner(asset, value, to)).emitting(
                                EventView::NFTTransfer {
                                    asset_identifier: asset,
                                    sender: from,
                                    recipient: to,
                                    value,
                                },
                            ),
                        ),
                    }
                }
            },
            _ => aborted(InterpreterError::Unchecked(CheckErrors::BadTransferNFTArguments), env),
        }
    }
}

/// What the query of the owner of the token `value` of a non-fungible token
/// of the running contract returns: `(some owner)`, or `none` for a token
/// that was never minted.
pub open spec fn spec_get_owner(
    env: EnvironmentView,
    asset_name: Seq<char>,
    value: ValueView,
) -> Outcome {
    let asset = env.asset(asset_name);
    if !env.ledger.nft_types.contains_key(asset) {
        aborted(InterpreterError::Unchecked(CheckErrors::NoSuchNFT), env)
    } else if !env.ledger.nft_types[asset].spec_admits(value) {
        aborted(InterpreterError::Unchecked(CheckErrors::TypeValueError), env)
    } else if env.ledger.nft_owners.contains_key((asset, value)) {
        Outcome {
            result: Ok(
                ValueView::Optional(
                    Some(Box::new(ValueView::Principal(env.ledger.nft_owners[(asset, value)]))),
                ),
            ),
            env,
        }
    } else {
        Outcome { result: Ok(ValueView::Optional(None)), env }
    }
}

/// Mints a fungible token of the running contract, given its name and the
/// values that the contract handed over: the amount and the recipient.
pub fn special_mint_token(env: &mut Environment, token_name: &str, amount: Value, to: Value) -> (r:
    Result<Value, InterpreterError>)
    requires
        old(env).wf(),
    ensures
        final(env).wf(),
        (Outcome { result: result_view(r), env: final(env)@ }) == spec_mint_token(
            old(env)@,
            token_name@,
            amount@,
            to@,
        ),
{
    match (&amount, &to) {
        (Value::UInt(amount), Value::Principal(to_principal)) => {
            let amount = *amount;
            if amount == 0 {
                return Ok(Value::err_uint(MintTokenErrorCodes::NonPositiveAmount.code()));
            }
            let asset_identifier = env.asset_identifier(token_name);
            match env.database.check_token_supply_increase(&asset_identifier, amount) {
                Err(e) => {
                    return Err(e);
                },
                Ok(_) => {},
            }
            // the recipient and its balance are stored
            match env.add_memory(FT_MINT_MEMORY) {
                Err(e) => {
                    return Err(e);
                },
                Ok(()) => {},
            }
            match env.database.mint_ft(
                &asset_identifier,
                to_principal,
                amount,
            ) {
                Err(e) => {
                    return Err(e);
                },
                Ok(()) => {},
            }
            env.register_event(
                StacksTransactionEvent::FTMint {
                    asset_identifier,
                    recipient: to_principal.clone(),
                    amount,
                },
            );
            Ok(Value::okay_true())
        },
        _ => Err(InterpreterError::Unchecked(CheckErrors::BadMintFTArguments)),
    }
}

/// Transfers a fungible token of the running contract, given its name and
/// the values that the contract handed over: the amount, the sender and the
/// recipient.
pub fn special_transfer_token(
    env: &mut Environment,
    token_name: &str,
    amount: Value,
    from: Value,
    to: Value,
) -> (r: Result<Value, InterpreterError>)
    requires
        old(env).wf(),
    ensures
        final(env).wf(),
        (Outcome { result: result_view(r), env: final(env)@ }) == spec_transfer_token(
            old(env)@,
            token_name@,
            amount@,
            from@,
            to@,
        ),
        r != Err::<Value, InterpreterError>(
            InterpreterError::Runtime(RuntimeErrorType::ArithmeticOverflow),
        ),
{
    match (&amount, &from, &to) {
        (Value::UInt(amount), Value::Principal(from_principal), Value::Principal(to_principal)) => {
            let amount = *amount;
            if amount == 0 {
                return Ok(Value::err_uint(TransferTokenErrorCodes::NonPositiveAmount.code()));
            }
            if principal_eq(from_principal, to_principal) {
                return Ok(Value::err_uint(TransferTokenErrorCodes::SenderIsRecipient.code()));
            }
            let asset_identifier = env.asset_identifier(token_name);
            let from_bal = env.database.get_ft_balance(&asset_identifier, from_principal);
            if from_bal < amount {
                return Ok(Value::err_uint(TransferTokenErrorCodes::NotEnoughBalance.code()));
            }
            let to_bal = env.database.get_ft_balance(&asset_identifier, to_principal);
            proof {
                env.database.lemma_ft_balances_within_supply(
                    asset_identifier@,
                    from_principal@,
                    to_principal@,
                );
            }
            if to_bal.checked_add(amount).is_none() {
                return Err(InterpreterError::Runtime(RuntimeErrorType::ArithmeticOverflow));
            }
            // the two principals and the two balances are stored
            match env.add_memory(FT_TRANSFER_MEMORY) {
                Err(e) => {
                    return Err(e);
                },
                Ok(()) => {},
            }
            env.database.transfer_ft(&asset_identifier, from_principal, to_principal, amount);
            env.register_event(
                StacksTransactionEvent::FTTransfer {
                    asset_identifier,
                    sender: from_principal.clone(),
                    recipient: to_principal.clone(),
                    amount,
                },
            );
            Ok(Value::okay_true())
        },
        _ => Err(InterpreterError::Unchecked(CheckErrors::BadTransferFTArguments)),
    }
}

/// The balance of a principal in a fungible token of the running contract.
pub fn special_get_balance(env: &mut Environment, token_name: &str, owner: Value) -> (r: Result<
    Value,
    InterpreterError,
>)
    requires
        old(env).wf(),
    ensures
        final(env).wf(),
        (Outcome { result: result_view(r), env: final(env)@ }) == spec_get_balance(
            old(env)@,
            token_name@,
            owner@,
        ),
{
    match &owner {
        Value::Principal(principal) => {
            let asset_identifier = env.asset_identifier(token_name);
            let balance = env.database.get_ft_balance(&asset_identifier, principal);
            Ok(Value::UInt(balance))
        },
        _ => Err(InterpreterError::Unchecked(CheckErrors::TypeValueError)),
    }
}

/// Mints a token of a non-fungible token of the running contract, given the
/// token's name and the values that the contract handed over: what
/// identifies the token, and the recipient.
pub fn special_mint_asset(env: &mut Environment, asset_name: &str, asset: Value, to: Value) -> (r:
    Result<Value, InterpreterError>)
    requires
        old(env).wf(),
    ensures
        final(env).wf(),
        (Outcome { result: result_view(r), env: final(env)@ }) == spec_mint_asset(
            old(env)@,
            asset_name@,
            asset@,
            to@,
        ),
{
    let asset_identifier = env.asset_identifier(asset_name);
    let expected_asset_type = match env.database.get_nft_key_type(&asset_identifier) {
        Ok(key_type) => key_type,
        Err(e) => {
            return Err(e);
        },
    };
    if !expected_asset_type.admits(&asset) {
        return Err(InterpreterError::Unchecked(CheckErrors::TypeValueError));
    }
    match &to {
        Value::Principal(to_principal) => {
            match env.database.get_nft_owner(&asset_identifier, &asset) {
                Ok(_owner) => {
                    return Ok(Value::err_uint(MintAssetErrorCodes::AlreadyExist.code()));
                },
                Err(_) => {},
            }
            // the owner and what identifies the token are stored
            match env.add_memory(PRINCIPAL_SIZE + expected_asset_type.size()) {
                Err(e) => {
                    return Err(e);
                },
                Ok(()) => {},
            }
            env.database.set_nft_owner(&asset_identifier, &asset, to_principal);
            env.register_event(
                StacksTransactionEvent::NFTMint {
                    asset_identifier,
                    recipient: to_principal.clone(),
                    value: asset,
                },
            );
            Ok(Value::okay_true())
        },
        _ => Err(InterpreterError::Unchecked(CheckErrors::TypeValueError)),
    }
}

/// Transfers a token of a non-fungible token of the running contract, given
/// the token's name and the values that the contract handed over: what
/// identifies the token, the sender and the recipient.
pub fn special_transfer_asset(
    env: &mut Environment,
    asset_name: &str,
    asset: Value,
    from: Value,
    to: Value,
) -> (r: Result<Value, InterpreterError>)
    requires
        old(env).wf(),
    ensures
        final(env).wf(),
        (Outcome { result: result_view(r), env: final(env)@ }) == spec_transfer_asset(
            old(env)@,
            asset_name@,
            asset@,
            from@,
            to@,
        ),
{
    let asset_identifier = env.asset_identifier(asset_name);
    let expected_asset_type = match env.database.get_nft_key_type(&asset_identifier) {
        Ok(key_type) => key_type,
        Err(e) => {
            return Err(e);
        },
    };
    if !expected_asset_type.admits(&asset) {
        return Err(InterpreterError::Unchecked(CheckErrors::TypeValueError));
    }
    match (&from, &to) {
        (Value::Principal(from_principal), Value::Principal(to_principal)) => {
            if principal_eq(from_principal, to_principal) {
                return Ok(Value::err_uint(TransferAssetErrorCodes::SenderIsRecipient.code()));
            }
            let current_owner = match env.database.get_nft_owner(&asset_identifier, &asset) {
                Ok(owner) => owner,
                Err(_) => {
                    return Ok(Value::err_uint(TransferAssetErrorCodes::DoesNotExist.code()));
                },
            };
            if !principal_eq(&current_owner, from_principal) {
                return Ok(Value::err_uint(TransferAssetErrorCodes::NotOwnedBy.code()));
            }
            // the owner and what identifies the token are stored
            match env.add_memory(PRINCIPAL_SIZE + expected_asset_type.size()) {
                Err(e) => {
                    return Err(e);
                },
                Ok(()) => {},
            }
            env.database.set_nft_owner(&asset_identifier, &asset, to_principal);
            env.register_event(
                StacksTransactionEvent::NFTTransfer {
                    asset_identifier,
                    sender: from_principal.clone(),
                    recipient: to_principal.clone(),
                    value: asset,
                },
            );
            Ok(Value::okay_true())
        },
        _ => Err(InterpreterError::Unchecked(CheckErrors::BadTransferNFTArguments)),
    }
}

/// The owner of a token of a non-fungible token of the running contract.
pub fn special_get_owner(env: &mut Environment, asset_name: &str, asset: Value) -> (r: Result<
    Value,
    InterpreterError,
>)
    requires
        old(env).wf(),
    ensures
        final(env).wf(),
        (Outcome { result: result_view(r), env: final(env)@ }) == spec_get_owner(
            old(env)@,
            asset_name@,
            asset@,
        ),
{
    let asset_identifier = env.asset_identifier(asset_name);
    let expected_asset_type = match env.database.get_nft_key_type(&asset_identifier) {
        Ok(key_type) => key_type,
        Err(e) => {
            return Err(e);
        },
    };
    if !expected_asset_type.admits(&asset) {
        return Err(InterpreterError::Unchecked(CheckErrors::TypeValueError));
    }
    match env.database.get_nft_owner(&asset_identifier, &asset) {
        Ok(owner) => {
            proof {
                reveal_with_fuel(crate::values::value_view, 2);
            }
            Ok(Value::some(Value::Principal(owner)))
        },
        Err(_) => Ok(Value::none()),
    }
}

/// A transfer of a positive amount of the native coin from a principal to
/// itself is turned down as a transfer to oneself, whatever the principal
/// holds, and changes nothing.
pub proof fn lemma_stx_self_transfer_declined(
    env: EnvironmentView,
    principal: PrincipalView,
    amount: u128,
)
    requires
        amount > 0,
    ensures
        spec_stx_transfer(env, principal, principal, amount) == declined(2, env),
{
}

/// A transfer of a positive amount of a fungible token from a principal to
/// itself is turned down as a transfer to oneself, whatever the principal
/// holds, and changes nothing.
pub proof fn lemma_ft_self_transfer_declined(
    env: EnvironmentView,
    token_name: Seq<char>,
    principal: PrincipalView,
    amount: u128,
)
    requires
        amount > 0,
    ensures
        spec_transfer_token(
            env,
            token_name,
            ValueView::UInt(amount),
            ValueView::Principal(principal),
            ValueView::Principal(principal),
        ) == declined(2, env),
{
}

/// A transfer of a token of a defined non-fungible token, identified by a
/// value of the token's type, from a principal to itself is turned down as
/// a transfer to oneself, whoever owns the token and whether it exists or
/// not, and changes nothing.
pub proof fn lemma_nft_self_transfer_declined(
    env: EnvironmentView,
    asset_name: Seq<char>,
    value: ValueView,
    principal: PrincipalView,
)
    requires
        env.ledger.nft_types.contains_key(env.asset(asset_name)),
        env.ledger.nft_types[env.asset(asset_name)].spec_admits(value),
    ensures
        spec_transfer_asset(
            env,
            asset_name,
            value,
            ValueView::Principal(principal),
            ValueView::Principal(principal),
        ) == declined(2, env),
{
}

/// An amount of zero is turned down by every operation that moves an amount,
/// and nothing is changed: no balance, no supply, no memory, no event.
pub proof fn lemma_zero_amount_declined(
    env: EnvironmentView,
    token_name: Seq<char>,
    from: PrincipalView,
    to: PrincipalView,
)
    ensures
        spec_stx_transfer(env, from, to, 0) == declined(3, env),
        spec_stx_burn(env, ValueView::UInt(0), ValueView::Principal(from)) == declined(3, env),
        spec_mint_token(env, token_name, ValueView::UInt(0), ValueView::Principal(to)) == declined(
            1,
            env,
        ),
        spec_transfer_token(
            env,
            token_name,
            ValueView::UInt(0),
            ValueView::Principal(from),
            ValueView::Principal(to),
        ) == declined(3, env),
{
}

/// After a token was minted, a second mint of the same token is turned down
/// as a token that already exists, to whomever it is made out, and the owner
/// is still the recipient of the first mint.
pub proof fn lemma_nft_mint_twice(
    env: EnvironmentView,
    asset_name: Seq<char>,
    value: ValueView,
    first: PrincipalView,
    second: PrincipalView,
)
    requires
        spec_mint_asset(env, asset_name, value, ValueView::Principal(first)).result == Ok::<
            ValueView,
            InterpreterError,
        >(Value::spec_okay_true()),
    ensures
        ({
            let minted = spec_mint_asset(env, asset_name, value, ValueView::Principal(first)).env;
            &&& spec_mint_asset(minted, asset_name, value, ValueView::Principal(second))
                == declined(1, minted)
            &&& minted.ledger.nft_owners[(minted.asset(asset_name), value)] == first
            &&& spec_get_owner(minted, asset_name, value).result == Ok::<
                ValueView,
                InterpreterError,
            >(ValueView::Optional(Some(Box::new(ValueView::Principal(first)))))
        }),
{
}

/// A transfer of a token that was never minted is turned down as a token
/// that does not exist, and a transfer of a token by another than its owner
/// as a token that the sender does not own; neither changes anything.
pub proof fn lemma_nft_transfer_declined(
    env: EnvironmentView,
    asset_name: Seq<char>,
    value: ValueView,
    from: PrincipalView,
    to: PrincipalView,
)
    requires
        env.ledger.nft_types.contains_key(env.asset(asset_name)),
        env.ledger.nft_types[env.asset(asset_name)].spec_admits(value),
        from != to,
    ensures
        ({
            let key = (env.asset(asset_name), value);
            let outcome = spec_transfer_asset(
                env,
                asset_name,
                value,
                ValueView::Principal(from),
                ValueView::Principal(to),
            );
            &&& !env.ledger.nft_owners.contains_key(key) ==> outcome == declined(3, env)
            &&& env.ledger.nft_owners.contains_key(key) && env.ledger.nft_owners[key] != from
                ==> outcome == declined(1, env)
        }),
{
}

/// Conservation of the native coin in a transfer: where a transfer is done,
/// the sender and the recipient hold together what they held before, and
/// every other account holds what it held.
pub proof fn lemma_stx_transfer_conserves(
    env: EnvironmentView,
    from: PrincipalView,
    to: PrincipalView,
    amount: u128,
)
    requires
        env.ledger.stx_balance(from).wf(),
        spec_stx_transfer(env, from, to, amount).result == Ok::<ValueView, InterpreterError>(
            Value::spec_okay_true(),
        ),
    ensures
        ({
            let before = env.ledger;
            let after = spec_stx_transfer(env, from, to, amount).env.ledger;
            &&& after.stx_balance(from).held() + after.stx_balance(to).held()
                == before.stx_balance(from).held() + before.stx_balance(to).held()
            &&& after.stx_balance(from).held() + amount == before.stx_balance(from).held()
            &&& forall|other: PrincipalView|
                other != from && other != to ==> after.stx_balance(other) == before.stx_balance(
                    other,
                )
        }),
{
    reveal_with_fuel(crate::values::value_view, 2);
}

/// Destruction of the native coin in a burn: where a burn is done, the
/// burner holds the amount less than before, and every other account holds
/// what it held.
pub proof fn lemma_stx_burn_destroys(env: EnvironmentView, from: PrincipalView, amount: u128)
    requires
        env.ledger.stx_balance(from).wf(),
        spec_stx_burn(env, ValueView::UInt(amount), ValueView::Principal(from)).result == Ok::<
            ValueView,
            InterpreterError,
        >(Value::spec_okay_true()),
    ensures
        ({
            let before = env.ledger;
            let after = spec_stx_burn(
                env,
                ValueView::UInt(amount),
                ValueView::Principal(from),
            ).env.ledger;
            &&& after.stx_balance(from).held() + amount == before.stx_balance(from).held()
            &&& forall|other: PrincipalView|
                other != from ==> after.stx_balance(other) == before.stx_balance(other)
        }),
{
}

/// The supply of a fungible token only grows: a mint that is done adds the
/// amount to the supply of its token and leaves every other supply as it
/// was; a mint that is not done, and a transfer, leave every supply as it
/// was.
pub proof fn lemma_ft_supply_monotone(
    env: EnvironmentView,
    token_name: Seq<char>,
    amount: ValueView,
    from: ValueView,
    to: ValueView,
    asset: AssetIdView,
)
    ensures
        ({
            let minted = spec_mint_token(env, token_name, amount, to);
            let moved = spec_transfer_token(env, token_name, amount, from, to);
            &&& minted.env.ledger.ft_supply(asset) >= env.ledger.ft_supply(asset)
            &&& minted.result == Ok::<ValueView, InterpreterError>(Value::spec_okay_true())
                && asset == env.asset(token_name) && amount is UInt
                ==> minted.env.ledger.ft_supply(asset) == env.ledger.ft_supply(asset)
                + amount->UInt_0
            &&& minted.result != Ok::<ValueView, InterpreterError>(Value::spec_okay_true())
                || asset != env.asset(token_name) ==> minted.env.ledger.ft_supply(asset)
                == env.ledger.ft_supply(asset)
            &&& moved.env.ledger.ft_supply(asset) == env.ledger.ft_supply(asset)
        }),
{
    reveal_with_fuel(crate::values::value_view, 2);
}

} // verus!
