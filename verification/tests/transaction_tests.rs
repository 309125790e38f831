use near_cli::common::{CryptoHash, MAX_GAS};
use near_cli::errors::Error;
use near_cli::transaction::{
    append_action, set_identity, set_validity, Action, FunctionCallAction, UnsignedTransaction,
};

fn call_with_gas(gas: u64) -> Action {
    Action::FunctionCall(FunctionCallAction {
        method_name: "set".to_string(),
        args: b"{}".to_vec(),
        gas,
        deposit: 0,
    })
}

#[test]
fn new_transaction_holds_placeholders() {
    let transaction = UnsignedTransaction::new("contract.test".to_string());
    assert_eq!(transaction.receiver_id, "contract.test");
    assert_eq!(transaction.signer_id, "");
    assert_eq!(transaction.public_key, "");
    assert_eq!(transaction.nonce, 0);
    assert_eq!(transaction.block_hash, CryptoHash { bytes: [0u8; 32] });
    assert!(transaction.actions.is_empty());
}

#[test]
fn append_action_adds_the_action_at_the_end() {
    let mut transaction = UnsignedTransaction::new("contract.test".to_string());
    assert_eq!(append_action(&mut transaction, call_with_gas(1)), Ok(()));
    assert_eq!(append_action(&mut transaction, call_with_gas(2)), Ok(()));
    assert_eq!(transaction.actions, vec![call_with_gas(1), call_with_gas(2)]);
    assert_eq!(transaction.receiver_id, "contract.test");
}

#[test]
fn append_action_takes_gas_at_the_limit() {
    let mut transaction = UnsignedTransaction::new("contract.test".to_string());
    assert_eq!(append_action(&mut transaction, call_with_gas(MAX_GAS)), Ok(()));
    assert_eq!(transaction.actions.len(), 1);
}

#[test]
fn append_action_refuses_gas_above_the_limit() {
    let mut transaction = UnsignedTransaction::new("contract.test".to_string());
    append_action(&mut transaction, call_with_gas(5)).unwrap();
    let before = transaction.clone();
    assert_eq!(
        append_action(&mut transaction, call_with_gas(MAX_GAS + 1)),
        Err(Error::GasLimitExceeded { gas: MAX_GAS + 1 })
    );
    assert_eq!(transaction, before);
    assert_eq!(
        append_action(&mut transaction, call_with_gas(400_000_000_000_000)),
        Err(Error::GasLimitExceeded { gas: 400_000_000_000_000 })
    );
    assert_eq!(transaction, before);
    assert_eq!(
        append_action(&mut transaction, call_with_gas(u64::MAX)),
        Err(Error::GasLimitExceeded { gas: u64::MAX })
    );
    assert_eq!(transaction, before);
}

#[test]
fn set_identity_changes_signer_and_key_only() {
    let mut transaction = UnsignedTransaction::new("contract.test".to_string());
    append_action(&mut transaction, call_with_gas(5)).unwrap();
    let before = transaction.clone();
    set_identity(&mut transaction, "alice.test".to_string(), "ed25519:AbC".to_string());
    assert_eq!(transaction.signer_id, "alice.test");
    assert_eq!(transaction.public_key, "ed25519:AbC");
    assert_eq!(transaction.receiver_id, before.receiver_id);
    assert_eq!(transaction.nonce, before.nonce);
    assert_eq!(transaction.block_hash, before.block_hash);
    assert_eq!(transaction.actions, before.actions);
}

#[test]
fn set_validity_changes_nonce_and_block_only() {
    let mut transaction = UnsignedTransaction::new("contract.test".to_string());
    append_action(&mut transaction, call_with_gas(5)).unwrap();
    let before = transaction.clone();
    set_validity(&mut transaction, 42, CryptoHash { bytes: [9u8; 32] });
    assert_eq!(transaction.nonce, 42);
    assert_eq!(transaction.block_hash, CryptoHash { bytes: [9u8; 32] });
    assert_eq!(transaction.signer_id, before.signer_id);
    assert_eq!(transaction.public_key, before.public_key);
    assert_eq!(transaction.receiver_id, before.receiver_id);
    assert_eq!(transaction.actions, before.actions);
}

#[test]
fn action_tells_its_gas() {
    assert_eq!(call_with_gas(7).gas(), 7);
    assert_eq!(call_with_gas(u64::MAX).gas(), u64::MAX);
}
