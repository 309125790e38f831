use near_cli::account::{Account, CliAccount, CliSendTo, SendTo};
use near_cli::call_function_type::{CallFunctionAction, CliCallFunctionAction};
use near_cli::common::{
    AvailableRpcServerUrl, ConnectionConfig, CryptoHash, NearBalance, NearGas, MAX_GAS,
};
use near_cli::errors::{Error, Operation};
use near_cli::field::Field;
use near_cli::keychain::{KeyFile, KeychainEntry};
use near_cli::resolution::{Recovery, Retries};
use near_cli::server::{CliCustomServer, CliServer, Server};
use near_cli::sign_transaction::{CliSignTransaction, SignTransaction, Submit};
use near_cli::sign_with_keychain::{CliSignKeychain, SignKeychain};
use near_cli::sign_with_private_key::{CliSignPrivateKey, SignPrivateKey};
use near_cli::signer::{AccountLookup, CliSendFrom, CliSender, SendFrom, Sender, SenderLookup};

const SECRET_KEY: &str = "ed25519:3D4YudUahN1nawWogh8pAKSj92sUNMdbZGjn7kERKzYoTy8tnFQuwoGUC51DowKqorvkr2pytJSnwuSbsNVfqygr";
const PUBLIC_KEY: &str = "ed25519:6DSjZ8mvsRZDvFqFxo8tCKePG96omXW7eVYVSySmDk8e";

fn alice_key_file() -> KeyFile {
    KeyFile::Entry(KeychainEntry {
        account_id: "alice.test".to_string(),
        public_key: PUBLIC_KEY.to_string(),
        private_key: SECRET_KEY.to_string(),
    })
}

fn accepting() -> SenderLookup {
    SenderLookup { account: AccountLookup::Found, key_file: alice_key_file() }
}

fn nothing_found() -> SenderLookup {
    SenderLookup { account: AccountLookup::NotFound, key_file: KeyFile::Missing }
}

fn block() -> CryptoHash {
    CryptoHash { bytes: [7u8; 32] }
}

fn full_call() -> CliCallFunctionAction {
    CliCallFunctionAction {
        method_name: Some("set".to_string()),
        args: Some("{}".to_string()),
        deposit: Some(NearBalance::from_yoctonear(0)),
        gas: Some(NearGas { inner: 5_000_000_000_000 }),
        send_from: Some(CliSendFrom::Signer(CliSender {
            sender_account_id: Some("alice.test".to_string()),
            sign_option: Some(CliSignTransaction::SignWithKeychain(CliSignKeychain {
                nonce: Some(42),
                block_hash: Some(block()),
                submit: Some(Submit::Send),
            })),
        })),
    }
}

fn missing(field: Field) -> Error {
    Error::FieldResolutionFailed { field }
}

#[test]
fn sign_keychain_online_leaves_nonce_and_block_to_the_network() {
    let cli = CliSignKeychain { nonce: Some(42), block_hash: Some(block()), submit: None };
    assert_eq!(
        SignKeychain::from(
            cli,
            Some(ConnectionConfig::Testnet),
            "alice.test".to_string(),
            &KeyFile::Missing
        ),
        Ok(SignKeychain { nonce: None, block_hash: None, submit: None })
    );
}

#[test]
fn sign_keychain_offline_takes_nonce_and_block() {
    let cli =
        CliSignKeychain { nonce: Some(42), block_hash: Some(block()), submit: Some(Submit::Display) };
    assert_eq!(
        SignKeychain::from(cli, None, "alice.test".to_string(), &alice_key_file()),
        Ok(SignKeychain {
            nonce: Some(42),
            block_hash: Some(block()),
            submit: Some(Submit::Display)
        })
    );
}

#[test]
fn sign_keychain_offline_needs_the_key_file() {
    let cli = CliSignKeychain { nonce: Some(42), block_hash: Some(block()), submit: None };
    assert_eq!(
        SignKeychain::from(cli, None, "alice.test".to_string(), &KeyFile::Missing),
        Err(Error::KeyFileNotFound { path: ".near-credentials/alice.test.json".to_string() })
    );
    assert_eq!(
        SignKeychain::from(cli, None, "alice.test".to_string(), &KeyFile::Malformed),
        Err(Error::KeyFileMalformed { path: ".near-credentials/alice.test.json".to_string() })
    );
    assert_eq!(
        SignKeychain::from(cli, None, "bob.test".to_string(), &alice_key_file()),
        Err(Error::KeyFileMalformed { path: ".near-credentials/bob.test.json".to_string() })
    );
}

#[test]
fn sign_keychain_offline_asks_for_nonce_then_block() {
    let cli = CliSignKeychain { nonce: None, block_hash: None, submit: None };
    assert_eq!(
        SignKeychain::from(cli, None, "alice.test".to_string(), &alice_key_file()),
        Err(missing(Field::Nonce))
    );
    let cli = CliSignKeychain { nonce: Some(1), block_hash: None, submit: None };
    assert_eq!(
        SignKeychain::from(cli, None, "alice.test".to_string(), &alice_key_file()),
        Err(missing(Field::BlockHash))
    );
    let cli = CliSignKeychain { nonce: None, block_hash: Some(block()), submit: None };
    assert_eq!(
        SignKeychain::from(cli, None, "alice.test".to_string(), &alice_key_file()),
        Err(missing(Field::Nonce))
    );
}

#[test]
fn sign_private_key_asks_for_the_keys_first() {
    let cli = CliSignPrivateKey::default();
    assert_eq!(SignPrivateKey::from(cli, None), Err(missing(Field::SignerPublicKey)));
    let cli = CliSignPrivateKey {
        signer_public_key: Some(PUBLIC_KEY.to_string()),
        ..CliSignPrivateKey::default()
    };
    assert_eq!(
        SignPrivateKey::from(cli.clone(), None),
        Err(missing(Field::SignerPrivateKey))
    );
    assert_eq!(
        SignPrivateKey::from(cli, Some(ConnectionConfig::Mainnet)),
        Err(missing(Field::SignerPrivateKey))
    );
}

#[test]
fn sign_private_key_offline_asks_for_nonce_then_block() {
    let cli = CliSignPrivateKey {
        signer_public_key: Some(PUBLIC_KEY.to_string()),
        signer_private_key: Some(SECRET_KEY.to_string()),
        nonce: None,
        block_hash: None,
        submit: None,
    };
    assert_eq!(SignPrivateKey::from(cli.clone(), None), Err(missing(Field::Nonce)));
    let cli = CliSignPrivateKey { nonce: Some(3), ..cli };
    assert_eq!(SignPrivateKey::from(cli.clone(), None), Err(missing(Field::BlockHash)));
    let cli = CliSignPrivateKey { block_hash: Some(block()), ..cli };
    assert_eq!(
        SignPrivateKey::from(cli, None),
        Ok(SignPrivateKey {
            signer_public_key: PUBLIC_KEY.to_string(),
            signer_private_key: SECRET_KEY.to_string(),
            nonce: Some(3),
            block_hash: Some(block()),
            submit: None,
        })
    );
}

#[test]
fn sign_private_key_online_leaves_nonce_and_block_to_the_network() {
    let cli = CliSignPrivateKey {
        signer_public_key: Some(PUBLIC_KEY.to_string()),
        signer_private_key: Some(SECRET_KEY.to_string()),
        nonce: Some(3),
        block_hash: Some(block()),
        submit: Some(Submit::Send),
    };
    assert_eq!(
        SignPrivateKey::from(cli, Some(ConnectionConfig::Testnet)),
        Ok(SignPrivateKey {
            signer_public_key: PUBLIC_KEY.to_string(),
            signer_private_key: SECRET_KEY.to_string(),
            nonce: None,
            block_hash: None,
            submit: Some(Submit::Send),
        })
    );
}

#[test]
fn sender_asks_for_the_account_first() {
    assert_eq!(
        Sender::from(CliSender::default(), None, &accepting()),
        Err(missing(Field::SenderAccountId))
    );
    assert_eq!(
        Sender::from(CliSender::default(), Some(ConnectionConfig::Testnet), &nothing_found()),
        Err(missing(Field::SenderAccountId))
    );
}

#[test]
fn sender_unknown_to_the_network_is_refused() {
    let cli = CliSender { sender_account_id: Some("nobody.test".to_string()), sign_option: None };
    assert_eq!(
        Sender::from(cli, Some(ConnectionConfig::Testnet), &nothing_found()),
        Err(Error::AccountNotFound { account_id: "nobody.test".to_string() })
    );
}

#[test]
fn sender_fails_where_the_network_gave_no_answer() {
    let cli = CliSender { sender_account_id: Some("alice.test".to_string()), sign_option: None };
    let lookup = SenderLookup { account: AccountLookup::Failed, key_file: KeyFile::Missing };
    assert_eq!(
        Sender::from(cli.clone(), Some(ConnectionConfig::Testnet), &lookup),
        Err(Error::NetworkRequestFailed { operation: Operation::ViewAccount })
    );
    assert_eq!(Sender::from(cli, None, &lookup), Err(missing(Field::SignOption)));
}

#[test]
fn sender_is_not_looked_up_without_a_network() {
    let cli = CliSender { sender_account_id: Some("nobody.test".to_string()), sign_option: None };
    assert_eq!(Sender::from(cli, None, &nothing_found()), Err(missing(Field::SignOption)));
}

#[test]
fn sender_asks_for_the_way_to_sign() {
    let cli = CliSender { sender_account_id: Some("alice.test".to_string()), sign_option: None };
    assert_eq!(
        Sender::from(cli, Some(ConnectionConfig::Testnet), &accepting()),
        Err(missing(Field::SignOption))
    );
}

#[test]
fn choose_send_from_asks_for_the_signer() {
    assert_eq!(
        SendFrom::choose_send_from(Some(ConnectionConfig::Testnet), &accepting()),
        Err(missing(Field::SenderAccountId))
    );
    assert_eq!(SendFrom::choose_send_from(None, &accepting()), Err(missing(Field::SenderAccountId)));
}

#[test]
fn call_function_asks_for_fields_in_their_order() {
    let cli = CliCallFunctionAction::default();
    assert_eq!(CallFunctionAction::from(cli.clone(), None, &accepting()), Err(missing(Field::MethodName)));
    let cli = CliCallFunctionAction { method_name: Some("set".to_string()), ..cli };
    assert_eq!(CallFunctionAction::from(cli.clone(), None, &accepting()), Err(missing(Field::Args)));
    let cli = CliCallFunctionAction { args: Some("{}".to_string()), ..cli };
    assert_eq!(CallFunctionAction::from(cli.clone(), None, &accepting()), Err(missing(Field::Gas)));
    let cli = CliCallFunctionAction { gas: Some(NearGas { inner: 1 }), ..cli };
    assert_eq!(CallFunctionAction::from(cli.clone(), None, &accepting()), Err(missing(Field::Deposit)));
    let cli = CliCallFunctionAction { deposit: Some(NearBalance::from_yoctonear(0)), ..cli };
    assert_eq!(
        CallFunctionAction::from(cli, None, &accepting()),
        Err(missing(Field::SenderAccountId))
    );
}

#[test]
fn call_function_resolves_a_full_command_line() {
    let expected = CallFunctionAction {
        method_name: "set".to_string(),
        args: b"{}".to_vec(),
        gas: 5_000_000_000_000,
        deposit: 0,
        send_from: SendFrom::Signer(Sender {
            sender_account_id: "alice.test".to_string(),
            sign_option: SignTransaction::SignWithKeychain(SignKeychain {
                nonce: Some(42),
                block_hash: Some(block()),
                submit: Some(Submit::Send),
            }),
        }),
    };
    assert_eq!(CallFunctionAction::from(full_call(), None, &accepting()), Ok(expected));
}

#[test]
fn call_function_refuses_400_teragas_before_the_deposit() {
    let cli = CliCallFunctionAction {
        gas: Some(NearGas { inner: 400_000_000_000_000 }),
        deposit: None,
        send_from: None,
        ..full_call()
    };
    assert_eq!(
        CallFunctionAction::from(cli, Some(ConnectionConfig::Testnet), &accepting()),
        Err(Error::GasLimitExceeded { gas: 400_000_000_000_000 })
    );
    let cli = CliCallFunctionAction {
        gas: Some(NearGas { inner: 400_000_000_000_000 }),
        ..full_call()
    };
    assert_eq!(
        CallFunctionAction::from(cli, None, &accepting()),
        Err(Error::GasLimitExceeded { gas: 400_000_000_000_000 })
    );
}

#[test]
fn call_function_takes_gas_at_the_limit() {
    let cli = CliCallFunctionAction { gas: Some(NearGas { inner: MAX_GAS }), ..full_call() };
    let call = CallFunctionAction::from(cli, None, &accepting()).unwrap();
    assert_eq!(call.gas, 300_000_000_000_000);
    let cli = CliCallFunctionAction { gas: Some(NearGas { inner: MAX_GAS + 1 }), ..full_call() };
    assert_eq!(
        CallFunctionAction::from(cli, None, &accepting()),
        Err(Error::GasLimitExceeded { gas: MAX_GAS + 1 })
    );
}

#[test]
fn call_function_comes_back_from_its_cli_record() {
    for connection in [None, Some(ConnectionConfig::Testnet)] {
        let call = CallFunctionAction::from(full_call(), connection.clone(), &accepting()).unwrap();
        let cli = CliCallFunctionAction::from(call.clone());
        assert_eq!(CallFunctionAction::from(cli, connection, &accepting()), Ok(call));
    }
}

#[test]
fn call_function_with_private_key_comes_back_from_its_cli_record() {
    let call = CallFunctionAction {
        method_name: "ключ".to_string(),
        args: "{\"é\": 1}".as_bytes().to_vec(),
        gas: MAX_GAS,
        deposit: u128::MAX,
        send_from: SendFrom::Signer(Sender {
            sender_account_id: "alice.test".to_string(),
            sign_option: SignTransaction::SignPrivateKey(SignPrivateKey {
                signer_public_key: PUBLIC_KEY.to_string(),
                signer_private_key: SECRET_KEY.to_string(),
                nonce: Some(0),
                block_hash: Some(block()),
                submit: None,
            }),
        }),
    };
    let cli = CliCallFunctionAction::from(call.clone());
    assert_eq!(
        CallFunctionAction::from(cli, None, &SenderLookup { account: AccountLookup::NotFound, key_file: KeyFile::Missing }),
        Ok(call)
    );
}

#[test]
fn call_function_with_other_bytes_loses_its_arguments() {
    let call = CallFunctionAction {
        args: vec![0xff, 0xfe],
        ..CallFunctionAction::from(full_call(), None, &accepting()).unwrap()
    };
    let cli = CliCallFunctionAction::from(call.clone());
    assert_eq!(cli.args, Some(String::new()));
    let again = CallFunctionAction::from(cli, None, &accepting()).unwrap();
    assert_eq!(again.args, Vec::<u8>::new());
    assert_eq!(again.method_name, call.method_name);
}

#[test]
fn cli_records_of_resolved_records() {
    let sign = SignKeychain { nonce: Some(1), block_hash: Some(block()), submit: Some(Submit::Send) };
    assert_eq!(
        CliSignKeychain::from(sign),
        CliSignKeychain { nonce: Some(1), block_hash: Some(block()), submit: Some(Submit::Send) }
    );
    let sender = Sender {
        sender_account_id: "alice.test".to_string(),
        sign_option: SignTransaction::SignWithKeychain(sign),
    };
    assert_eq!(
        CliSendFrom::from(SendFrom::Signer(sender)),
        CliSendFrom::Signer(CliSender {
            sender_account_id: Some("alice.test".to_string()),
            sign_option: Some(CliSignTransaction::SignWithKeychain(CliSignKeychain {
                nonce: Some(1),
                block_hash: Some(block()),
                submit: Some(Submit::Send),
            })),
        })
    );
}

#[test]
fn send_to_asks_for_the_account() {
    assert_eq!(SendTo::send_to(), Err(missing(Field::AccountId)));
    assert_eq!(
        SendTo::from(CliSendTo::Account(CliAccount::default())),
        Err(missing(Field::AccountId))
    );
    assert_eq!(
        SendTo::from(CliSendTo::Account(CliAccount { account_id: Some("alice.test".to_string()) })),
        Ok(SendTo::Account(Account { account_id: "alice.test".to_string() }))
    );
}

#[test]
fn server_of_a_network_resolves_its_subcommand() {
    let cli = CliServer {
        send_to: Some(CliSendTo::Account(CliAccount {
            account_id: Some("alice.test".to_string()),
        })),
    };
    assert_eq!(
        cli.into_server(ConnectionConfig::Testnet),
        Ok(Server {
            connection_config: ConnectionConfig::Testnet,
            send_to: SendTo::Account(Account { account_id: "alice.test".to_string() }),
        })
    );
    assert_eq!(
        CliServer::default().into_server(ConnectionConfig::Mainnet),
        Err(missing(Field::AccountId))
    );
}

#[test]
fn custom_server_asks_for_the_url_first() {
    assert_eq!(CliCustomServer::default().into_server(), Err(missing(Field::Url)));
    let cli = CliCustomServer {
        url: Some(AvailableRpcServerUrl { inner: "http://localhost:3030/".to_string() }),
        send_to: None,
    };
    assert_eq!(cli.into_server(), Err(missing(Field::AccountId)));
}

#[test]
fn custom_server_resolves_to_the_given_url() {
    let cli = CliCustomServer {
        url: Some(AvailableRpcServerUrl { inner: "http://localhost:3030/".to_string() }),
        send_to: Some(CliSendTo::Account(CliAccount {
            account_id: Some("alice.test".to_string()),
        })),
    };
    assert_eq!(
        cli.into_server(),
        Ok(Server {
            connection_config: ConnectionConfig::Custom {
                url: "http://localhost:3030/".to_string()
            },
            send_to: SendTo::Account(Account { account_id: "alice.test".to_string() }),
        })
    );
}

#[test]
fn server_comes_back_from_its_cli_record() {
    let server = Server {
        connection_config: ConnectionConfig::Testnet,
        send_to: SendTo::Account(Account { account_id: "alice.test".to_string() }),
    };
    assert_eq!(
        CliServer::from(server.clone()).into_server(ConnectionConfig::Testnet),
        Ok(server)
    );
    let server = Server {
        connection_config: ConnectionConfig::Custom { url: "http://localhost:3030/".to_string() },
        send_to: SendTo::Account(Account { account_id: "alice.test".to_string() }),
    };
    assert_eq!(CliCustomServer::from(server.clone()).into_server(), Ok(server));
}

#[test]
fn server_of_a_known_network_comes_back_as_custom_from_its_url() {
    let server = Server {
        connection_config: ConnectionConfig::Testnet,
        send_to: SendTo::Account(Account { account_id: "alice.test".to_string() }),
    };
    assert_eq!(
        CliCustomServer::from(server).into_server(),
        Ok(Server {
            connection_config: ConnectionConfig::Custom {
                url: "https://rpc.testnet.near.org".to_string()
            },
            send_to: SendTo::Account(Account { account_id: "alice.test".to_string() }),
        })
    );
}

#[test]
fn server_process_asks_the_endpoint_about_the_account() {
    let server = Server {
        connection_config: ConnectionConfig::Mainnet,
        send_to: SendTo::Account(Account { account_id: "alice.near".to_string() }),
    };
    let request = server.process();
    assert_eq!(request.rpc_url, "https://rpc.mainnet.near.org");
    assert_eq!(request.account_id, "alice.near");
}

#[test]
fn missing_field_is_asked_for_without_spending_a_retry() {
    let mut retries = Retries { left: 2 };
    assert_eq!(retries.recover(missing(Field::Gas)), Recovery::Ask { field: Field::Gas });
    assert_eq!(retries, Retries { left: 2 });
    let mut retries = Retries { left: 0 };
    assert_eq!(retries.recover(missing(Field::Nonce)), Recovery::Ask { field: Field::Nonce });
    assert_eq!(retries, Retries { left: 0 });
}

#[test]
fn refused_value_is_asked_for_again_while_retries_are_left() {
    let mut retries = Retries { left: 2 };
    let unknown = Error::AccountNotFound { account_id: "nobody.test".to_string() };
    assert_eq!(
        retries.recover(unknown.clone()),
        Recovery::Ask { field: Field::SenderAccountId }
    );
    assert_eq!(retries, Retries { left: 1 });
    assert_eq!(
        retries.recover(Error::GasLimitExceeded { gas: 400_000_000_000_000 }),
        Recovery::Ask { field: Field::Gas }
    );
    assert_eq!(retries, Retries { left: 0 });
    assert_eq!(
        retries.recover(unknown),
        Recovery::GiveUp { error: missing(Field::SenderAccountId) }
    );
    assert_eq!(retries, Retries { left: 0 });
    assert_eq!(
        retries.recover(Error::GasLimitExceeded { gas: 400_000_000_000_000 }),
        Recovery::GiveUp { error: missing(Field::Gas) }
    );
}

#[test]
fn other_errors_end_the_command() {
    let errors = vec![
        Error::KeyFileNotFound { path: "a".to_string() },
        Error::KeyFileMalformed { path: "b".to_string() },
        Error::NoFullAccessKeyInKeychain { path: "c".to_string(), directory_readable: true },
        Error::NetworkRequestFailed { operation: Operation::ViewAccessKey },
        Error::OfflineFieldMissing { field: Field::Nonce },
    ];
    for error in errors {
        let mut retries = Retries { left: 5 };
        assert_eq!(retries.recover(error.clone()), Recovery::GiveUp { error });
        assert_eq!(retries, Retries { left: 5 });
    }
}
