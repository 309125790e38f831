use near_cli::account::{CliAccount, CliSendTo};
use near_cli::answer::{Answer, SignMethod};
use near_cli::call_function_type::{CallFunctionAction, CliCallFunctionAction};
use near_cli::common::{AvailableRpcServerUrl, ConnectionConfig, CryptoHash, NearBalance, NearGas};
use near_cli::errors::Error;
use near_cli::field::Field;
use near_cli::keychain::{KeyFile, KeychainEntry};
use near_cli::resolution::{Recovery, Retries};
use near_cli::server::{CliCustomServer, CliServer};
use near_cli::sign_transaction::{CliSignTransaction, Submit};
use near_cli::sign_with_keychain::CliSignKeychain;
use near_cli::sign_with_private_key::CliSignPrivateKey;
use near_cli::signer::{AccountLookup, CliSendFrom, CliSender, SenderLookup};

const SECRET_KEY: &str = "ed25519:3D4YudUahN1nawWogh8pAKSj92sUNMdbZGjn7kERKzYoTy8tnFQuwoGUC51DowKqorvkr2pytJSnwuSbsNVfqygr";
const PUBLIC_KEY: &str = "ed25519:6DSjZ8mvsRZDvFqFxo8tCKePG96omXW7eVYVSySmDk8e";

fn text(value: &str) -> Answer {
    Answer::Text(value.to_string())
}

fn block() -> CryptoHash {
    CryptoHash { bytes: [7u8; 32] }
}

const ALL_FIELDS: [Field; 13] = [
    Field::MethodName,
    Field::Args,
    Field::Gas,
    Field::Deposit,
    Field::SenderAccountId,
    Field::SignOption,
    Field::SignerPublicKey,
    Field::SignerPrivateKey,
    Field::Nonce,
    Field::BlockHash,
    Field::Submit,
    Field::Url,
    Field::AccountId,
];

fn answer_for(field: Field) -> Answer {
    match field {
        Field::MethodName => text("set"),
        Field::Args => text("{}"),
        Field::Gas => Answer::Gas(NearGas { inner: 5 }),
        Field::Deposit => Answer::Deposit(NearBalance::from_yoctonear(1)),
        Field::SenderAccountId => text("alice.test"),
        Field::SignOption => Answer::SignOption(SignMethod::Keychain),
        Field::SignerPublicKey => text(PUBLIC_KEY),
        Field::SignerPrivateKey => text(SECRET_KEY),
        Field::Nonce => Answer::Nonce(42),
        Field::BlockHash => Answer::BlockHash(block()),
        Field::Submit => Answer::Submit(Submit::Display),
        Field::Url => text("http://localhost:3030/"),
        Field::AccountId => text("alice.test"),
    }
}

#[test]
fn answers_fit_the_fields_of_their_kind() {
    for field in ALL_FIELDS {
        assert!(answer_for(field).fits(field));
    }
    assert!(text("x").fits(Field::MethodName));
    assert!(!text("x").fits(Field::Gas));
    assert!(!text("x").fits(Field::Nonce));
    assert!(!Answer::Nonce(1).fits(Field::BlockHash));
    assert!(!Answer::Gas(NearGas { inner: 1 }).fits(Field::Deposit));
    assert!(!Answer::Deposit(NearBalance::from_yoctonear(1)).fits(Field::Gas));
    assert!(!Answer::Submit(Submit::Send).fits(Field::SignOption));
    assert!(!Answer::SignOption(SignMethod::PrivateKey).fits(Field::Submit));
    assert!(!Answer::BlockHash(block()).fits(Field::Url));
}

#[test]
fn sign_keychain_takes_its_own_answers() {
    let cli = CliSignKeychain::default();
    let cli = cli.supply(Field::Nonce, Answer::Nonce(42));
    assert_eq!(cli, CliSignKeychain { nonce: Some(42), block_hash: None, submit: None });
    let cli = cli.supply(Field::BlockHash, Answer::BlockHash(block()));
    let cli = cli.supply(Field::Submit, Answer::Submit(Submit::Send));
    assert_eq!(
        cli,
        CliSignKeychain { nonce: Some(42), block_hash: Some(block()), submit: Some(Submit::Send) }
    );
    assert_eq!(cli.supply(Field::Nonce, text("43")), cli);
    assert_eq!(cli.supply(Field::MethodName, text("set")), cli);
    assert_eq!(cli.supply(Field::Nonce, Answer::Nonce(43)).nonce, Some(43));
}

#[test]
fn sign_private_key_takes_its_own_answers() {
    let cli = CliSignPrivateKey::default()
        .supply(Field::SignerPublicKey, text(PUBLIC_KEY))
        .supply(Field::SignerPrivateKey, text(SECRET_KEY))
        .supply(Field::Nonce, Answer::Nonce(1))
        .supply(Field::BlockHash, Answer::BlockHash(block()))
        .supply(Field::Submit, Answer::Submit(Submit::Display));
    assert_eq!(
        cli,
        CliSignPrivateKey {
            signer_public_key: Some(PUBLIC_KEY.to_string()),
            signer_private_key: Some(SECRET_KEY.to_string()),
            nonce: Some(1),
            block_hash: Some(block()),
            submit: Some(Submit::Display),
        }
    );
    assert_eq!(cli.clone().supply(Field::SignerPublicKey, Answer::Nonce(1)), cli);
    assert_eq!(cli.clone().supply(Field::Url, text("x")), cli);
}

#[test]
fn sender_takes_account_and_way_to_sign() {
    let cli = CliSender::default().supply(Field::SenderAccountId, text("alice.test"));
    assert_eq!(
        cli,
        CliSender { sender_account_id: Some("alice.test".to_string()), sign_option: None }
    );
    let keychain = cli.clone().supply(Field::SignOption, Answer::SignOption(SignMethod::Keychain));
    assert_eq!(
        keychain.sign_option,
        Some(CliSignTransaction::SignWithKeychain(CliSignKeychain::default()))
    );
    let private_key = cli.supply(Field::SignOption, Answer::SignOption(SignMethod::PrivateKey));
    assert_eq!(
        private_key.sign_option,
        Some(CliSignTransaction::SignPrivateKey(CliSignPrivateKey::default()))
    );
    assert_eq!(CliSignTransaction::of_method(SignMethod::Keychain), keychain.sign_option.unwrap());
}

#[test]
fn sender_hands_other_answers_to_the_way_to_sign() {
    let cli = CliSender {
        sender_account_id: None,
        sign_option: Some(CliSignTransaction::SignWithKeychain(CliSignKeychain::default())),
    };
    let cli = cli.supply(Field::Nonce, Answer::Nonce(42));
    assert_eq!(
        cli.sign_option,
        Some(CliSignTransaction::SignWithKeychain(CliSignKeychain {
            nonce: Some(42),
            block_hash: None,
            submit: None
        }))
    );
    let without = CliSender::default().supply(Field::Nonce, Answer::Nonce(42));
    assert_eq!(without, CliSender::default());
}

#[test]
fn call_function_takes_its_own_answers() {
    let cli = CliCallFunctionAction::default()
        .supply(Field::MethodName, text("set"))
        .supply(Field::Args, text("{}"))
        .supply(Field::Gas, Answer::Gas(NearGas { inner: 5 }))
        .supply(Field::Deposit, Answer::Deposit(NearBalance::from_yoctonear(1)));
    assert_eq!(
        cli,
        CliCallFunctionAction {
            method_name: Some("set".to_string()),
            args: Some("{}".to_string()),
            deposit: Some(NearBalance::from_yoctonear(1)),
            gas: Some(NearGas { inner: 5 }),
            send_from: None,
        }
    );
    assert_eq!(cli.clone().supply(Field::Gas, text("5")), cli);
    assert_eq!(cli.sender_account_id(), None);
}

#[test]
fn call_function_hands_other_answers_to_the_sender() {
    let cli = CliCallFunctionAction::default().supply(Field::SenderAccountId, text("alice.test"));
    assert_eq!(
        cli.send_from,
        Some(CliSendFrom::Signer(CliSender {
            sender_account_id: Some("alice.test".to_string()),
            sign_option: None,
        }))
    );
    assert_eq!(cli.sender_account_id(), Some("alice.test".to_string()));
    assert_eq!(
        cli.send_from.as_ref().unwrap().sender_account_id(),
        Some("alice.test".to_string())
    );
    let cli = cli
        .supply(Field::SignOption, Answer::SignOption(SignMethod::Keychain))
        .supply(Field::BlockHash, Answer::BlockHash(block()));
    assert_eq!(
        cli.send_from,
        Some(CliSendFrom::Signer(CliSender {
            sender_account_id: Some("alice.test".to_string()),
            sign_option: Some(CliSignTransaction::SignWithKeychain(CliSignKeychain {
                nonce: None,
                block_hash: Some(block()),
                submit: None,
            })),
        }))
    );
}

#[test]
fn servers_take_url_and_account() {
    let cli = CliCustomServer::default()
        .supply(Field::Url, text("http://localhost:3030/"))
        .supply(Field::AccountId, text("alice.test"));
    assert_eq!(
        cli,
        CliCustomServer {
            url: Some(AvailableRpcServerUrl { inner: "http://localhost:3030/".to_string() }),
            send_to: Some(CliSendTo::Account(CliAccount {
                account_id: Some("alice.test".to_string())
            })),
        }
    );
    let cli = CliServer::default().supply(Field::AccountId, text("alice.test"));
    assert_eq!(
        cli,
        CliServer {
            send_to: Some(CliSendTo::Account(CliAccount {
                account_id: Some("alice.test".to_string())
            })),
        }
    );
    assert_eq!(
        CliServer::default().supply(Field::AccountId, Answer::Nonce(1)),
        CliServer { send_to: Some(CliSendTo::Account(CliAccount::default())) }
    );
}

fn resolve_by_answers(connection: Option<ConnectionConfig>, method: SignMethod) -> CallFunctionAction {
    let lookup = SenderLookup {
        account: AccountLookup::Found,
        key_file: KeyFile::Entry(KeychainEntry {
            account_id: "alice.test".to_string(),
            public_key: PUBLIC_KEY.to_string(),
            private_key: SECRET_KEY.to_string(),
        }),
    };
    let mut record = CliCallFunctionAction::default();
    let mut retries = Retries { left: 0 };
    let mut asked = Vec::new();
    loop {
        match CallFunctionAction::from(record.clone(), connection.clone(), &lookup) {
            Ok(call) => return call,
            Err(error) => match retries.recover(error) {
                Recovery::Ask { field } => {
                    assert!(!asked.contains(&field), "asked twice for {:?}", field);
                    asked.push(field);
                    let answer = match field {
                        Field::SignOption => Answer::SignOption(method),
                        field => answer_for(field),
                    };
                    record = record.supply(field, answer);
                }
                Recovery::GiveUp { error } => panic!("gave up: {}", error.message()),
            },
        }
    }
}

#[test]
fn every_answer_brings_the_resolution_forward() {
    for connection in [None, Some(ConnectionConfig::Testnet)] {
        for method in [SignMethod::Keychain, SignMethod::PrivateKey] {
            let call = resolve_by_answers(connection.clone(), method);
            assert_eq!(call.method_name, "set");
            assert_eq!(call.args, b"{}".to_vec());
            assert_eq!(call.gas, 5);
            assert_eq!(call.deposit, 1);
        }
    }
}

#[test]
fn refused_gas_is_asked_for_again() {
    let record = CliCallFunctionAction::default()
        .supply(Field::MethodName, text("set"))
        .supply(Field::Args, text("{}"))
        .supply(Field::Gas, Answer::Gas(NearGas { inner: 400_000_000_000_000 }));
    let lookup = SenderLookup { account: AccountLookup::Found, key_file: KeyFile::Missing };
    let error = CallFunctionAction::from(record.clone(), None, &lookup).unwrap_err();
    assert_eq!(error, Error::GasLimitExceeded { gas: 400_000_000_000_000 });
    let mut retries = Retries { left: 1 };
    assert_eq!(retries.recover(error), Recovery::Ask { field: Field::Gas });
    let record = record.supply(Field::Gas, Answer::Gas(NearGas { inner: 300_000_000_000_000 }));
    assert_eq!(
        CallFunctionAction::from(record, None, &lookup),
        Err(Error::FieldResolutionFailed { field: Field::Deposit })
    );
}
