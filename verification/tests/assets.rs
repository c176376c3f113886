use stx_settlement::accounts::StacksChainState;
use stx_settlement::assets::{
    special_get_balance, special_get_owner, special_mint_asset, special_mint_token,
    special_stx_balance, special_stx_burn, special_stx_transfer, special_transfer_asset,
    special_transfer_token, stx_transfer_consolidated, MintAssetErrorCodes, MintTokenErrorCodes,
    StxErrorCodes, TransferAssetErrorCodes, TransferTokenErrorCodes,
};
use stx_settlement::balance::STXBalance;
use stx_settlement::database::ClarityDatabase;
use stx_settlement::environment::{Environment, StacksTransactionEvent};
use stx_settlement::errors::{CheckErrors, InterpreterError, RuntimeErrorType};
use stx_settlement::types::{
    AssetIdentifier, PrincipalData, QualifiedContractIdentifier, StandardPrincipalData,
};
use stx_settlement::values::{TypeSignature, Value};

fn alice() -> PrincipalData {
    PrincipalData::Standard(StandardPrincipalData(22, [1u8; 20]))
}

fn bob() -> PrincipalData {
    PrincipalData::Standard(StandardPrincipalData(22, [2u8; 20]))
}

fn contract() -> QualifiedContractIdentifier {
    QualifiedContractIdentifier {
        issuer: StandardPrincipalData(22, [3u8; 20]),
        name: "tokens".to_string(),
    }
}

fn asset(name: &str) -> AssetIdentifier {
    AssetIdentifier { contract_identifier: contract(), asset_name: name.to_string() }
}

fn principal(p: PrincipalData) -> Value {
    Value::Principal(p)
}

fn ok_true() -> Result<Value, InterpreterError> {
    Ok(Value::Response(true, Box::new(Value::Bool(true))))
}

fn err_code(code: u128) -> Result<Value, InterpreterError> {
    Ok(Value::Response(false, Box::new(Value::UInt(code))))
}

fn unchecked(e: CheckErrors) -> Result<Value, InterpreterError> {
    Err(InterpreterError::Unchecked(e))
}

/// A ledger at height 10 in which alice has 1000 of the native coin, and the
/// contract defines the fungible tokens `coin` (at most 1000) and `points`
/// (without limit) and the non-fungible tokens `deed` (unsigned) and `name`
/// (byte strings of at most 4 bytes).
fn ledger() -> ClarityDatabase {
    let mut db = ClarityDatabase::new(10);
    StacksChainState::account_genesis_credit(&mut db, &alice(), 1000);
    assert_eq!(db.define_fungible_token(&asset("coin"), Some(1000)), Ok(()));
    assert_eq!(db.define_fungible_token(&asset("points"), None), Ok(()));
    assert_eq!(db.define_non_fungible_token(&asset("deed"), TypeSignature::UIntType), Ok(()));
    assert_eq!(db.define_non_fungible_token(&asset("name"), TypeSignature::BufferType(4)), Ok(()));
    db
}

fn env_of(sender: Option<PrincipalData>) -> Environment {
    Environment::new(sender, contract(), ledger(), 1_000_000)
}

fn stx(env: &Environment, p: &PrincipalData) -> STXBalance {
    env.database().get_account_stx_balance(p)
}

#[test]
fn error_codes() {
    assert_eq!(MintAssetErrorCodes::AlreadyExist.code(), 1);
    assert_eq!(MintTokenErrorCodes::NonPositiveAmount.code(), 1);
    assert_eq!(TransferAssetErrorCodes::NotOwnedBy.code(), 1);
    assert_eq!(TransferAssetErrorCodes::SenderIsRecipient.code(), 2);
    assert_eq!(TransferAssetErrorCodes::DoesNotExist.code(), 3);
    assert_eq!(TransferTokenErrorCodes::NotEnoughBalance.code(), 1);
    assert_eq!(TransferTokenErrorCodes::SenderIsRecipient.code(), 2);
    assert_eq!(TransferTokenErrorCodes::NonPositiveAmount.code(), 3);
    assert_eq!(StxErrorCodes::NotEnoughBalance.code(), 1);
    assert_eq!(StxErrorCodes::SenderIsRecipient.code(), 2);
    assert_eq!(StxErrorCodes::NonPositiveAmount.code(), 3);
    assert_eq!(StxErrorCodes::SenderIsNotTxSender.code(), 4);
    assert_eq!(Value::okay_true(), Value::Response(true, Box::new(Value::Bool(true))));
    assert_eq!(Value::err_uint(3), Value::Response(false, Box::new(Value::UInt(3))));
    assert_eq!(Value::none(), Value::Optional(None));
    assert_eq!(Value::some(Value::Int(-1)), Value::Optional(Some(Box::new(Value::Int(-1)))));
}

#[test]
fn stx_transfer_moves_the_amount() {
    let mut env = env_of(Some(alice()));
    assert_eq!(stx_transfer_consolidated(&mut env, &alice(), &bob(), 400), ok_true());
    assert_eq!(stx(&env, &alice()).amount_unlocked, 600);
    assert_eq!(stx(&env, &bob()).amount_unlocked, 400);
    assert_eq!(
        env.events(),
        &vec![StacksTransactionEvent::STXTransfer { sender: alice(), recipient: bob(), amount: 400 }]
    );
    assert_eq!(env.memory_used(), 376);
    // all of the rest
    assert_eq!(
        special_stx_transfer(&mut env, Value::UInt(600), principal(alice()), principal(bob())),
        ok_true()
    );
    assert_eq!(stx(&env, &alice()).amount_unlocked, 0);
    assert_eq!(stx(&env, &bob()).amount_unlocked, 1000);
    assert_eq!(env.events().len(), 2);
}

#[test]
fn stx_transfer_is_turned_down() {
    let mut env = env_of(Some(alice()));
    // not enough balance
    assert_eq!(stx_transfer_consolidated(&mut env, &alice(), &bob(), 1001), err_code(1));
    // sender is recipient
    assert_eq!(stx_transfer_consolidated(&mut env, &alice(), &alice(), 5), err_code(2));
    // non-positive amount
    assert_eq!(stx_transfer_consolidated(&mut env, &alice(), &bob(), 0), err_code(3));
    // sender is not the transaction's sender
    let mut env_bob = env_of(Some(bob()));
    assert_eq!(stx_transfer_consolidated(&mut env_bob, &alice(), &bob(), 5), err_code(4));
    let mut env_nobody = env_of(None);
    assert_eq!(stx_transfer_consolidated(&mut env_nobody, &alice(), &bob(), 5), err_code(4));

    for e in [&env, &env_bob, &env_nobody] {
        assert_eq!(stx(e, &alice()), STXBalance::initial(1000));
        assert_eq!(stx(e, &bob()), STXBalance::zero());
        assert!(e.events().is_empty());
    }
}

#[test]
fn stx_transfer_checks_in_order() {
    // the amount before everything
    let mut env = env_of(Some(bob()));
    assert_eq!(stx_transfer_consolidated(&mut env, &alice(), &alice(), 0), err_code(3));
    assert_eq!(env.memory_used(), 0);
    // a transfer to oneself before the balance and before the sender
    assert_eq!(stx_transfer_consolidated(&mut env, &alice(), &alice(), 5000), err_code(2));
    assert_eq!(stx_transfer_consolidated(&mut env, &bob(), &bob(), 1), err_code(2));
    assert_eq!(env.memory_used(), 0);
    // the balance before the sender
    assert_eq!(stx_transfer_consolidated(&mut env, &alice(), &bob(), 5000), err_code(1));
    assert_eq!(stx_transfer_consolidated(&mut env, &alice(), &bob(), 1000), err_code(4));
}

#[test]
fn stx_transfer_of_wrong_values() {
    let mut env = env_of(Some(alice()));
    assert_eq!(
        special_stx_transfer(&mut env, Value::Int(5), principal(alice()), principal(bob())),
        unchecked(CheckErrors::BadTransferSTXArguments)
    );
    assert_eq!(
        special_stx_transfer(&mut env, Value::UInt(5), Value::UInt(1), principal(bob())),
        unchecked(CheckErrors::BadTransferSTXArguments)
    );
    assert_eq!(
        special_stx_transfer(&mut env, Value::UInt(5), principal(alice()), Value::Bool(true)),
        unchecked(CheckErrors::BadTransferSTXArguments)
    );
    assert_eq!(
        special_stx_burn(&mut env, Value::Int(5), principal(alice())),
        unchecked(CheckErrors::BadTransferSTXArguments)
    );
    assert_eq!(
        special_stx_balance(&mut env, Value::UInt(5)),
        unchecked(CheckErrors::TypeValueError)
    );
    assert_eq!(stx(&env, &alice()), STXBalance::initial(1000));
}

#[test]
fn stx_transfer_needs_memory() {
    let mut env = Environment::new(Some(alice()), contract(), ledger(), 375);
    assert_eq!(
        stx_transfer_consolidated(&mut env, &alice(), &bob(), 5),
        unchecked(CheckErrors::MemoryBalanceExceeded)
    );
    assert_eq!(env.memory_used(), 0);
    assert_eq!(env.memory_limit(), 375);
    assert_eq!(stx(&env, &alice()), STXBalance::initial(1000));
    let mut env = Environment::new(Some(alice()), contract(), ledger(), 376);
    assert_eq!(stx_transfer_consolidated(&mut env, &alice(), &bob(), 5), ok_true());
    assert_eq!(
        stx_transfer_consolidated(&mut env, &alice(), &bob(), 5),
        unchecked(CheckErrors::MemoryBalanceExceeded)
    );
    assert_eq!(stx(&env, &bob()).amount_unlocked, 5);
}

#[test]
fn stx_transfer_folds_a_lock_that_has_ended() {
    let mut db = ledger();
    assert_eq!(StacksChainState::pox_lock(&mut db, &alice(), 900, 20), Ok(()));
    let mut env = Environment::new(Some(alice()), contract(), db, 1_000_000);
    assert_eq!(special_stx_balance(&mut env, principal(alice())), Ok(Value::UInt(100)));
    assert_eq!(stx_transfer_consolidated(&mut env, &alice(), &bob(), 101), err_code(1));

    let mut db = env.into_database();
    db.set_burnchain_block_height(20);
    let mut env = Environment::new(Some(alice()), contract(), db, 1_000_000);
    assert_eq!(special_stx_balance(&mut env, principal(alice())), Ok(Value::UInt(1000)));
    assert_eq!(stx_transfer_consolidated(&mut env, &alice(), &bob(), 101), ok_true());
    assert_eq!(stx(&env, &alice()), STXBalance::initial(899));
    assert_eq!(stx(&env, &bob()), STXBalance::initial(101));
}

#[test]
fn stx_burn_destroys_the_amount() {
    let mut env = env_of(Some(alice()));
    assert_eq!(special_stx_burn(&mut env, Value::UInt(250), principal(alice())), ok_true());
    assert_eq!(stx(&env, &alice()).amount_unlocked, 750);
    assert_eq!(stx(&env, &bob()).amount_unlocked, 0);
    assert_eq!(
        env.events(),
        &vec![StacksTransactionEvent::STXBurn { sender: alice(), amount: 250 }]
    );
    assert_eq!(env.memory_used(), 188);
    assert_eq!(special_stx_burn(&mut env, Value::UInt(0), principal(alice())), err_code(3));
    assert_eq!(special_stx_burn(&mut env, Value::UInt(751), principal(alice())), err_code(1));
    assert_eq!(special_stx_burn(&mut env, Value::UInt(1), principal(bob())), err_code(1));
    let mut env_bob = env_of(Some(bob()));
    assert_eq!(special_stx_burn(&mut env_bob, Value::UInt(1), principal(alice())), err_code(4));
    assert_eq!(stx(&env_bob, &alice()).amount_unlocked, 1000);
    assert_eq!(stx(&env, &alice()).amount_unlocked, 750);
    assert_eq!(env.events().len(), 1);
}

#[test]
fn ft_mint_adds_to_supply_and_balance() {
    let mut env = env_of(None);
    assert_eq!(
        special_mint_token(&mut env, "coin", Value::UInt(300), principal(bob())),
        ok_true()
    );
    assert_eq!(special_get_balance(&mut env, "coin", principal(bob())), Ok(Value::UInt(300)));
    assert_eq!(special_get_balance(&mut env, "coin", principal(alice())), Ok(Value::UInt(0)));
    assert_eq!(special_get_balance(&mut env, "points", principal(bob())), Ok(Value::UInt(0)));
    assert_eq!(env.database().check_token_supply_increase(&asset("coin"), 0), Ok(300));
    assert_eq!(
        env.events(),
        &vec![StacksTransactionEvent::FTMint {
            asset_identifier: asset("coin"),
            recipient: bob(),
            amount: 300
        }]
    );
    assert_eq!(env.memory_used(), 164);
    // up to the declared limit
    assert_eq!(
        special_mint_token(&mut env, "coin", Value::UInt(700), principal(alice())),
        ok_true()
    );
    assert_eq!(env.database().get_ft_balance(&asset("coin"), &alice()), 700);
    assert_eq!(env.database().check_token_supply_increase(&asset("coin"), 0), Ok(1000));
}

#[test]
fn ft_mint_is_turned_down() {
    let mut env = env_of(None);
    assert_eq!(special_mint_token(&mut env, "coin", Value::UInt(0), principal(bob())), err_code(1));
    assert_eq!(
        special_mint_token(&mut env, "coin", Value::UInt(1001), principal(bob())),
        Err(InterpreterError::Runtime(RuntimeErrorType::SupplyOverflow(1001, 1000)))
    );
    assert_eq!(
        special_mint_token(&mut env, "coin", Value::UInt(600), principal(bob())),
        ok_true()
    );
    assert_eq!(
        special_mint_token(&mut env, "coin", Value::UInt(401), principal(alice())),
        Err(InterpreterError::Runtime(RuntimeErrorType::SupplyOverflow(1001, 1000)))
    );
    assert_eq!(
        special_mint_token(&mut env, "coin", Value::UInt(u128::MAX), principal(alice())),
        Err(InterpreterError::Runtime(RuntimeErrorType::ArithmeticOverflow))
    );
    assert_eq!(
        special_mint_token(&mut env, "nothing", Value::UInt(5), principal(alice())),
        unchecked(CheckErrors::NoSuchFT)
    );
    assert_eq!(
        special_mint_token(&mut env, "coin", Value::Int(5), principal(alice())),
        unchecked(CheckErrors::BadMintFTArguments)
    );
    assert_eq!(
        special_mint_token(&mut env, "coin", Value::UInt(5), Value::UInt(5)),
        unchecked(CheckErrors::BadMintFTArguments)
    );
    assert_eq!(env.database().get_ft_balance(&asset("coin"), &bob()), 600);
    assert_eq!(env.database().get_ft_balance(&asset("coin"), &alice()), 0);
    assert_eq!(env.database().check_token_supply_increase(&asset("coin"), 0), Ok(600));
    assert_eq!(env.events().len(), 1);

    // a token without limit
    assert_eq!(
        special_mint_token(&mut env, "points", Value::UInt(u128::MAX), principal(alice())),
        ok_true()
    );
    assert_eq!(
        special_mint_token(&mut env, "points", Value::UInt(1), principal(bob())),
        Err(InterpreterError::Runtime(RuntimeErrorType::ArithmeticOverflow))
    );
}

#[test]
fn ft_mint_needs_memory() {
    let mut env = Environment::new(None, contract(), ledger(), 163);
    assert_eq!(
        special_mint_token(&mut env, "coin", Value::UInt(5), principal(bob())),
        unchecked(CheckErrors::MemoryBalanceExceeded)
    );
    assert_eq!(env.database().get_ft_balance(&asset("coin"), &bob()), 0);
    assert_eq!(env.database().check_token_supply_increase(&asset("coin"), 0), Ok(0));
    assert_eq!(env.memory_used(), 0);
}

#[test]
fn ft_transfer_moves_the_amount() {
    let mut env = env_of(None);
    assert_eq!(
        special_mint_token(&mut env, "coin", Value::UInt(300), principal(alice())),
        ok_true()
    );
    // the sender need not be the transaction's sender
    assert_eq!(
        special_transfer_token(
            &mut env,
            "coin",
            Value::UInt(100),
            principal(alice()),
            principal(bob())
        ),
        ok_true()
    );
    assert_eq!(env.database().get_ft_balance(&asset("coin"), &alice()), 200);
    assert_eq!(env.database().get_ft_balance(&asset("coin"), &bob()), 100);
    assert_eq!(env.database().get_ft_balance(&asset("points"), &bob()), 0);
    assert_eq!(env.events().len(), 2);
    assert_eq!(
        env.events()[1],
        StacksTransactionEvent::FTTransfer {
            asset_identifier: asset("coin"),
            sender: alice(),
            recipient: bob(),
            amount: 100
        }
    );
    assert_eq!(env.memory_used(), 164 + 328);
}

#[test]
fn ft_transfer_is_turned_down() {
    let mut env = env_of(None);
    assert_eq!(
        special_mint_token(&mut env, "coin", Value::UInt(300), principal(alice())),
        ok_true()
    );
    let mut transfer = |amount: u128, from: PrincipalData, to: PrincipalData| {
        special_transfer_token(&mut env, "coin", Value::UInt(amount), principal(from), principal(to))
    };
    assert_eq!(transfer(301, alice(), bob()), err_code(1));
    assert_eq!(transfer(1, bob(), alice()), err_code(1));
    assert_eq!(transfer(5, alice(), alice()), err_code(2));
    assert_eq!(transfer(500, alice(), alice()), err_code(2));
    assert_eq!(transfer(0, alice(), bob()), err_code(3));
    assert_eq!(transfer(0, alice(), alice()), err_code(3));
    assert_eq!(
        special_transfer_token(&mut env, "coin", Value::Int(1), principal(alice()), principal(bob())),
        unchecked(CheckErrors::BadTransferFTArguments)
    );
    assert_eq!(
        special_transfer_token(&mut env, "coin", Value::UInt(1), Value::Bool(false), principal(bob())),
        unchecked(CheckErrors::BadTransferFTArguments)
    );
    assert_eq!(
        special_get_balance(&mut env, "coin", Value::Bool(false)),
        unchecked(CheckErrors::TypeValueError)
    );
    assert_eq!(env.database().get_ft_balance(&asset("coin"), &alice()), 300);
    assert_eq!(env.database().get_ft_balance(&asset("coin"), &bob()), 0);
    assert_eq!(env.events().len(), 1);
}

#[test]
fn ft_balances_stay_within_the_supply() {
    let mut env = env_of(None);
    assert_eq!(
        special_mint_token(&mut env, "points", Value::UInt(u128::MAX - 5), principal(bob())),
        ok_true()
    );
    assert_eq!(
        special_mint_token(&mut env, "points", Value::UInt(5), principal(alice())),
        ok_true()
    );
    // nothing more can be minted, so no transfer can overflow a balance
    assert_eq!(
        special_mint_token(&mut env, "points", Value::UInt(1), principal(alice())),
        Err(InterpreterError::Runtime(RuntimeErrorType::ArithmeticOverflow))
    );
    assert_eq!(
        special_transfer_token(
            &mut env,
            "points",
            Value::UInt(5),
            principal(alice()),
            principal(bob())
        ),
        ok_true()
    );
    assert_eq!(env.database().get_ft_balance(&asset("points"), &bob()), u128::MAX);
    assert_eq!(env.database().get_ft_balance(&asset("points"), &alice()), 0);
    assert_eq!(env.database().check_token_supply_increase(&asset("points"), 0), Ok(u128::MAX));

    // the ledger's own operations
    let mut db = env.into_database();
    db.transfer_ft(&asset("points"), &bob(), &alice(), 7);
    assert_eq!(db.get_ft_balance(&asset("points"), &bob()), u128::MAX - 7);
    assert_eq!(db.get_ft_balance(&asset("points"), &alice()), 7);
    assert_eq!(db.get_ft_balance(&asset("coin"), &alice()), 0);
}

#[test]
fn nft_mint_twice_keeps_the_first_owner() {
    let mut env = env_of(None);
    assert_eq!(special_get_owner(&mut env, "deed", Value::UInt(7)), Ok(Value::Optional(None)));
    assert_eq!(special_mint_asset(&mut env, "deed", Value::UInt(7), principal(alice())), ok_true());
    assert_eq!(special_mint_asset(&mut env, "deed", Value::UInt(7), principal(bob())), err_code(1));
    assert_eq!(
        special_mint_asset(&mut env, "deed", Value::UInt(7), principal(alice())),
        err_code(1)
    );
    assert_eq!(
        special_get_owner(&mut env, "deed", Value::UInt(7)),
        Ok(Value::Optional(Some(Box::new(Value::Principal(alice())))))
    );
    assert_eq!(env.database().get_nft_owner(&asset("deed"), &Value::UInt(7)), Ok(alice()));
    assert_eq!(
        env.events(),
        &vec![StacksTransactionEvent::NFTMint {
            asset_identifier: asset("deed"),
            recipient: alice(),
            value: Value::UInt(7)
        }]
    );
    assert_eq!(env.memory_used(), 148 + 16);
    // another token, and the same value in another asset
    assert_eq!(special_mint_asset(&mut env, "deed", Value::UInt(8), principal(bob())), ok_true());
    assert_eq!(
        special_mint_asset(&mut env, "name", Value::Buffer(vec![7]), principal(bob())),
        ok_true()
    );
    assert_eq!(env.memory_used(), 2 * (148 + 16) + 148 + 8);
}

#[test]
fn nft_mint_checks_the_type() {
    let mut env = env_of(None);
    assert_eq!(
        special_mint_asset(&mut env, "deed", Value::Int(7), principal(alice())),
        unchecked(CheckErrors::TypeValueError)
    );
    assert_eq!(
        special_mint_asset(&mut env, "name", Value::Buffer(vec![1, 2, 3, 4, 5]), principal(alice())),
        unchecked(CheckErrors::TypeValueError)
    );
    assert_eq!(
        special_mint_asset(&mut env, "name", Value::Buffer(vec![1, 2, 3, 4]), principal(alice())),
        ok_true()
    );
    assert_eq!(
        special_mint_asset(&mut env, "deed", Value::UInt(7), Value::UInt(7)),
        unchecked(CheckErrors::TypeValueError)
    );
    assert_eq!(
        special_mint_asset(&mut env, "nothing", Value::UInt(7), principal(alice())),
        unchecked(CheckErrors::NoSuchNFT)
    );
    assert_eq!(
        special_get_owner(&mut env, "deed", Value::Bool(true)),
        unchecked(CheckErrors::TypeValueError)
    );
    assert_eq!(
        special_get_owner(&mut env, "nothing", Value::UInt(7)),
        unchecked(CheckErrors::NoSuchNFT)
    );
    assert_eq!(special_get_owner(&mut env, "deed", Value::UInt(7)), Ok(Value::none()));
}

#[test]
fn nft_transfer_changes_the_owner() {
    let mut env = env_of(None);
    assert_eq!(special_mint_asset(&mut env, "deed", Value::UInt(7), principal(alice())), ok_true());
    assert_eq!(
        special_transfer_asset(&mut env, "deed", Value::UInt(7), principal(alice()), principal(bob())),
        ok_true()
    );
    assert_eq!(env.database().get_nft_owner(&asset("deed"), &Value::UInt(7)), Ok(bob()));
    assert_eq!(
        env.events()[1],
        StacksTransactionEvent::NFTTransfer {
            asset_identifier: asset("deed"),
            sender: alice(),
            recipient: bob(),
            value: Value::UInt(7)
        }
    );
    // and back
    assert_eq!(
        special_transfer_asset(&mut env, "deed", Value::UInt(7), principal(bob()), principal(alice())),
        ok_true()
    );
    assert_eq!(
        special_get_owner(&mut env, "deed", Value::UInt(7)),
        Ok(Value::some(Value::Principal(alice())))
    );
}

#[test]
fn nft_transfer_is_turned_down() {
    let mut env = env_of(None);
    assert_eq!(special_mint_asset(&mut env, "deed", Value::UInt(7), principal(alice())), ok_true());
    // not owned by the sender
    assert_eq!(
        special_transfer_asset(&mut env, "deed", Value::UInt(7), principal(bob()), principal(alice())),
        err_code(1)
    );
    // sender is recipient, whoever owns the token and whether it exists
    assert_eq!(
        special_transfer_asset(&mut env, "deed", Value::UInt(7), principal(alice()), principal(alice())),
        err_code(2)
    );
    assert_eq!(
        special_transfer_asset(&mut env, "deed", Value::UInt(7), principal(bob()), principal(bob())),
        err_code(2)
    );
    assert_eq!(
        special_transfer_asset(&mut env, "deed", Value::UInt(99), principal(bob()), principal(bob())),
        err_code(2)
    );
    // does not exist
    assert_eq!(
        special_transfer_asset(&mut env, "deed", Value::UInt(99), principal(alice()), principal(bob())),
        err_code(3)
    );
    assert_eq!(
        special_transfer_asset(&mut env, "deed", Value::Int(7), principal(alice()), principal(bob())),
        unchecked(CheckErrors::TypeValueError)
    );
    assert_eq!(
        special_transfer_asset(&mut env, "deed", Value::UInt(7), Value::UInt(1), principal(bob())),
        unchecked(CheckErrors::BadTransferNFTArguments)
    );
    assert_eq!(
        special_transfer_asset(&mut env, "nothing", Value::UInt(7), principal(alice()), principal(bob())),
        unchecked(CheckErrors::NoSuchNFT)
    );
    assert_eq!(env.database().get_nft_owner(&asset("deed"), &Value::UInt(7)), Ok(alice()));
    assert_eq!(env.events().len(), 1);
}

#[test]
fn assets_are_defined_once() {
    let mut db = ledger();
    assert_eq!(
        db.define_fungible_token(&asset("coin"), None),
        Err(InterpreterError::Unchecked(CheckErrors::NameAlreadyUsed))
    );
    assert_eq!(
        db.define_non_fungible_token(&asset("deed"), TypeSignature::IntType),
        Err(InterpreterError::Unchecked(CheckErrors::NameAlreadyUsed))
    );
    assert_eq!(db.get_nft_key_type(&asset("deed")), Ok(TypeSignature::UIntType));
    assert_eq!(
        db.get_nft_key_type(&asset("coin")),
        Err(InterpreterError::Unchecked(CheckErrors::NoSuchNFT))
    );
    assert_eq!(db.mint_ft(&asset("coin"), &alice(), 10), Ok(()));
    assert_eq!(db.get_ft_balance(&asset("coin"), &alice()), 10);
    assert_eq!(db.check_token_supply_increase(&asset("coin"), 990), Ok(1000));
    assert_eq!(
        db.mint_ft(&asset("coin"), &alice(), 991),
        Err(InterpreterError::Runtime(RuntimeErrorType::SupplyOverflow(1001, 1000)))
    );
    assert_eq!(db.get_ft_balance(&asset("coin"), &alice()), 10);
    assert_eq!(
        db.mint_ft(&asset("deed"), &alice(), 1),
        Err(InterpreterError::Unchecked(CheckErrors::NoSuchFT))
    );
}

#[test]
fn contract_principals_hold_assets_too() {
    let vault = PrincipalData::Contract(QualifiedContractIdentifier {
        issuer: StandardPrincipalData(22, [1u8; 20]),
        name: "vault".to_string(),
    });
    let other = PrincipalData::Contract(QualifiedContractIdentifier {
        issuer: StandardPrincipalData(22, [1u8; 20]),
        name: "vaulu".to_string(),
    });
    let mut env = env_of(Some(alice()));
    assert_eq!(stx_transfer_consolidated(&mut env, &alice(), &vault, 10), ok_true());
    assert_eq!(stx(&env, &vault).amount_unlocked, 10);
    assert_eq!(stx(&env, &other).amount_unlocked, 0);
    assert_eq!(stx(&env, &alice()).amount_unlocked, 990);
    assert_eq!(
        special_mint_asset(&mut env, "deed", Value::Principal(vault.clone()), principal(alice())),
        unchecked(CheckErrors::TypeValueError)
    );
    assert_eq!(TypeSignature::PrincipalType.admits(&Value::Principal(vault.clone())), true);
    assert_eq!(TypeSignature::PrincipalType.size(), 148);
    assert_eq!(TypeSignature::BufferType(u32::MAX).size(), 4 + u32::MAX as u64);
    assert_eq!(TypeSignature::BoolType.size(), 1);
    assert_eq!(TypeSignature::IntType.size(), 16);
    assert!(TypeSignature::IntType.admits(&Value::Int(-3)));
    assert!(TypeSignature::BoolType.admits(&Value::Bool(false)));
    assert!(!TypeSignature::BoolType.admits(&Value::none()));
    assert!(!TypeSignature::UIntType.admits(&Value::okay_true()));
}
