//! How a transaction is signed, and what is done with it once it is.

use crate::answer::{Answer, AnswerModel, SignMethod};
use crate::common::{push_word, texts, ConnectionConfig, ConnectionConfigModel};
use crate::errors::{outcome, Error, ErrorModel};
use crate::field::Field;
use crate::keychain::{KeyFile, KeyFileModel};
use crate::sign_with_keychain::{CliSignKeychain, SignKeychain};
use crate::sign_with_private_key::{
    CliSignPrivateKey, CliSignPrivateKeyModel, SignPrivateKey, SignPrivateKeyModel,
};
use crate::signing::{Signing, SigningModel};
use crate::transaction::{UnsignedTransaction, UnsignedTransactionModel};
use std::collections::VecDeque;
use vstd::prelude::*;
use vstd::string::*;

verus! {

/// What is done with a signed transaction.
#[derive(Clone, Copy, Debug, PartialEq, Eq, Structural)]
pub enum Submit {
    /// It is sent to the network.
    Send,
    /// It is shown.
    Display,
}

impl Submit {
    /// The words of the choice on the command line.
    pub open spec fn cli_args(self) -> Seq<Seq<char>> {
        match self {
            Submit::Send => seq!["send"@],
            Submit::Display => seq!["display"@],
        }
    }

    /// The words of the choice on the command line.
    pub fn to_cli_args(&self) -> (args: VecDeque<String>)
        ensures
            texts(args@) == self.cli_args(),
    {
        let mut args: VecDeque<String> = VecDeque::new();
        match self {
            Submit::Send => args.push_front("send".to_owned()),
            Submit::Display => args.push_front("display".to_owned()),
        }
        assert(texts(args@) =~= self.cli_args());
        args
    }
}

/// The words of an optional choice on the command line.
pub open spec fn submit_args(submit: Option<Submit>) -> Seq<Seq<char>> {
    match submit {
        Some(choice) => choice.cli_args(),
        None => Seq::empty(),
    }
}

/// The words of an optional choice on the command line.
pub fn submit_to_cli_args(submit: &Option<Submit>) -> (args: VecDeque<String>)
    ensures
        texts(args@) == submit_args(*submit),
{
    match submit {
        Some(choice) => choice.to_cli_args(),
        None => {
            let args: VecDeque<String> = VecDeque::new();
            assert(texts(args@) =~= submit_args(*submit));
            args
        },
    }
}

/// How to sign, as far as the command line says it.
#[derive(Clone, Debug, PartialEq, Eq)]
pub enum CliSignTransaction {
    /// With a key pair that is given in plain text.
    SignPrivateKey(CliSignPrivateKey),
    /// With a key that is kept in a file.
    SignWithKeychain(CliSignKeychain),
}

/// Mathematical model of a [`CliSignTransaction`].
pub enum CliSignTransactionModel {
    SignPrivateKey(CliSignPrivateKeyModel),
    SignWithKeychain(CliSignKeychain),
}

impl View for CliSignTransaction {
    type V = CliSignTransactionModel;

    open spec fn view(&self) -> CliSignTransactionModel {
        match self {
            CliSignTransaction::SignPrivateKey(cli) => CliSignTransactionModel::SignPrivateKey(
                cli@,
            ),
            CliSignTransaction::SignWithKeychain(cli) => CliSignTransactionModel::SignWithKeychain(
                *cli,
            ),
        }
    }
}

/// The model of an optional way to sign.
pub open spec fn opt_sign(o: Option<CliSignTransaction>) -> Option<CliSignTransactionModel> {
    match o {
        Some(cli) => Some(cli@),
        None => None,
    }
}

/// How to sign.
#[derive(Clone, Debug, PartialEq, Eq)]
pub enum SignTransaction {
    /// With a key pair that is given in plain text.
    SignPrivateKey(SignPrivateKey),
    /// With a key that is kept in a file.
    SignWithKeychain(SignKeychain),
}

/// Mathematical model of a [`SignTransaction`].
pub enum SignTransactionModel {
    SignPrivateKey(SignPrivateKeyModel),
    SignWithKeychain(SignKeychain),
}

impl View for SignTransaction {
    type V = SignTransactionModel;

    open spec fn view(&self) -> SignTransactionModel {
        match self {
            SignTransaction::SignPrivateKey(sign) => SignTransactionModel::SignPrivateKey(sign@),
            SignTransaction::SignWithKeychain(sign) => SignTransactionModel::SignWithKeychain(
                *sign,
            ),
        }
    }
}

impl CliSignTransactionModel {
    /// The record of a way to sign of which nothing else is said.
    pub open spec fn of_method(method: SignMethod) -> CliSignTransactionModel {
        match method {
            SignMethod::PrivateKey => CliSignTransactionModel::SignPrivateKey(
                CliSignPrivateKeyModel {
                    signer_public_key: None,
                    signer_private_key: None,
                    nonce: None,
                    block_hash: None,
                    submit: None,
                },
            ),
            SignMethod::Keychain => CliSignTransactionModel::SignWithKeychain(
                CliSignKeychain { nonce: None, block_hash: None, submit: None },
            ),
        }
    }

    /// The record once the operator has answered for a field.
    pub open spec fn supplied(self, field: Field, answer: AnswerModel) -> CliSignTransactionModel {
        match self {
            CliSignTransactionModel::SignPrivateKey(cli) => CliSignTransactionModel::SignPrivateKey(
                cli.supplied(field, answer),
            ),
            CliSignTransactionModel::SignWithKeychain(cli) =>
                CliSignTransactionModel::SignWithKeychain(cli.supplied(field, answer)),
        }
    }

    /// The words of the record on the command line: the name of the way to
    /// sign, then the words of its own record.
    pub open spec fn cli_args(self) -> Seq<Seq<char>> {
        match self {
            CliSignTransactionModel::SignPrivateKey(cli) => seq!["sign-private-key"@]
                + cli.cli_args(),
            CliSignTransactionModel::SignWithKeychain(cli) => seq!["sign-with-keychain"@]
                + cli.cli_args(),
        }
    }

    /// The record that the words on the command line resolve to, or the
    /// reason why they do not.
    pub open spec fn resolve(
        self,
        online: bool,
        sender_account_id: Seq<char>,
        key_file: KeyFileModel,
    ) -> Result<SignTransactionModel, ErrorModel> {
        match self {
            CliSignTransactionModel::SignPrivateKey(cli) => match cli.resolve(online) {
                Ok(sign) => Ok(SignTransactionModel::SignPrivateKey(sign)),
                Err(error) => Err(error),
            },
            CliSignTransactionModel::SignWithKeychain(cli) => match cli.resolve(
                online,
                sender_account_id,
                key_file,
            ) {
                Ok(sign) => Ok(SignTransactionModel::SignWithKeychain(sign)),
                Err(error) => Err(error),
            },
        }
    }
}

impl SignTransactionModel {
    /// The record as the command line would give it.
    pub open spec fn to_cli(self) -> CliSignTransactionModel {
        match self {
            SignTransactionModel::SignPrivateKey(sign) => CliSignTransactionModel::SignPrivateKey(
                sign.to_cli(),
            ),
            SignTransactionModel::SignWithKeychain(sign) =>
                CliSignTransactionModel::SignWithKeychain(sign.to_cli()),
        }
    }

    /// The record is one that a resolution yields: without a network the
    /// nonce and the reference block are in it, with one neither is.
    pub open spec fn resolved_for(self, online: bool) -> bool {
        match self {
            SignTransactionModel::SignPrivateKey(sign) => sign.resolved_for(online),
            SignTransactionModel::SignWithKeychain(sign) => sign.resolved_for(online),
        }
    }

    /// The signing that the record begins for a transaction.
    pub open spec fn start(
        self,
        transaction: UnsignedTransactionModel,
        connection: Option<ConnectionConfigModel>,
    ) -> SigningModel {
        match self {
            SignTransactionModel::SignPrivateKey(sign) => sign.start(transaction, connection),
            SignTransactionModel::SignWithKeychain(sign) => sign.start(transaction, connection),
        }
    }
}

impl CliSignTransaction {
    /// The record of a way to sign of which nothing else is said.
    pub fn of_method(method: SignMethod) -> (cli: CliSignTransaction)
        ensures
            cli@ == CliSignTransactionModel::of_method(method),
    {
        match method {
            SignMethod::PrivateKey => CliSignTransaction::SignPrivateKey(
                CliSignPrivateKey {
                    signer_public_key: None,
                    signer_private_key: None,
                    nonce: None,
                    block_hash: None,
                    submit: None,
                },
            ),
            SignMethod::Keychain => CliSignTransaction::SignWithKeychain(
                CliSignKeychain { nonce: None, block_hash: None, submit: None },
            ),
        }
    }

    /// Puts the operator's answer for a field into the record.
    pub fn supply(self, field: Field, answer: Answer) -> (cli: CliSignTransaction)
        ensures
            cli@ == self@.supplied(field, answer@),
    {
        match self {
            CliSignTransaction::SignPrivateKey(cli) => CliSignTransaction::SignPrivateKey(
                cli.supply(field, answer),
            ),
            CliSignTransaction::SignWithKeychain(cli) => CliSignTransaction::SignWithKeychain(
                cli.supply(field, answer),
            ),
        }
    }

    /// The words of the record on the command line.
    pub fn to_cli_args(&self) -> (args: VecDeque<String>)
        ensures
            texts(args@) == self@.cli_args(),
    {
        match self {
            CliSignTransaction::SignPrivateKey(cli) => {
                let mut args = cli.to_cli_args();
                push_word(&mut args, "sign-private-key".to_owned());
                args
            },
            CliSignTransaction::SignWithKeychain(cli) => {
                let mut args = cli.to_cli_args();
                push_word(&mut args, "sign-with-keychain".to_owned());
                args
            },
        }
    }
}

impl From<SignTransaction> for CliSignTransaction {
    /// The record as the command line would give it.
    fn from(sign_transaction: SignTransaction) -> (cli: CliSignTransaction)
        ensures
            cli@ == sign_transaction@.to_cli(),
    {
        match sign_transaction {
            SignTransaction::SignPrivateKey(sign) => CliSignTransaction::SignPrivateKey(
                CliSignPrivateKey::from(sign),
            ),
            SignTransaction::SignWithKeychain(sign) => CliSignTransaction::SignWithKeychain(
                CliSignKeychain::from(sign),
            ),
        }
    }
}

/// The record that `from` returns is stated in the contract of `from`, over
/// the models: no more is known of a string than its text.
impl vstd::std_specs::convert::FromSpecImpl<SignTransaction> for CliSignTransaction {
    open spec fn obeys_from_spec() -> bool {
        false
    }

    open spec fn from_spec(sign_transaction: SignTransaction) -> CliSignTransaction {
        arbitrary()
    }
}

impl SignTransaction {
    /// Resolves what the command line says of the way to sign. Nothing is
    /// asked and nothing is read: `key_file` is what was found at the place
    /// of the sender's key file for use without a network, and a value that
    /// is missing comes back as the field to ask for.
    pub fn from(
        item: CliSignTransaction,
        connection_config: Option<ConnectionConfig>,
        sender_account_id: String,
        key_file: &KeyFile,
    ) -> (result: Result<SignTransaction, Error>)
        ensures
            outcome(result) == item@.resolve(
                connection_config is Some,
                sender_account_id@,
                key_file@,
            ),
    {
        match item {
            CliSignTransaction::SignPrivateKey(cli) => {
                match SignPrivateKey::from(cli, connection_config) {
                    Ok(sign) => Ok(SignTransaction::SignPrivateKey(sign)),
                    Err(error) => Err(error),
                }
            },
            CliSignTransaction::SignWithKeychain(cli) => {
                match SignKeychain::from(cli, connection_config, sender_account_id, key_file) {
                    Ok(sign) => Ok(SignTransaction::SignWithKeychain(sign)),
                    Err(error) => Err(error),
                }
            },
        }
    }

    /// Begins the signing of the transaction in the way that was chosen.
    pub fn process(
        self,
        prepopulated_unsigned_transaction: UnsignedTransaction,
        connection_config: Option<ConnectionConfig>,
    ) -> (signing: Signing)
        ensures
            signing@ == self@.start(
                prepopulated_unsigned_transaction@,
                crate::common::connection_model(connection_config),
            ),
    {
        match self {
            SignTransaction::SignPrivateKey(sign) => sign.process(
                prepopulated_unsigned_transaction,
                connection_config,
            ),
            SignTransaction::SignWithKeychain(sign) => sign.process(
                prepopulated_unsigned_transaction,
                connection_config,
            ),
        }
    }
}

/// A way to sign that a resolution yields comes back from its own words:
/// turned into what the command line would give and resolved again, it is the
/// same record.
pub proof fn sign_transaction_round_trip(
    sign_transaction: SignTransactionModel,
    online: bool,
    sender_account_id: Seq<char>,
    key_file: KeyFileModel,
)
    requires
        sign_transaction.resolved_for(online),
        !online && sign_transaction is SignWithKeychain ==> key_file.is_record_of(
            sender_account_id,
        ),
    ensures
        sign_transaction.to_cli().resolve(online, sender_account_id, key_file) == Ok::<
            SignTransactionModel,
            ErrorModel,
        >(sign_transaction),
{
}

/// An answer brings the resolution forward: once the operator has answered
/// for the field that was missing, the resolution does not ask for that field
/// again.
pub proof fn sign_transaction_answer_is_taken(
    cli: CliSignTransactionModel,
    field: Field,
    answer: AnswerModel,
    online: bool,
    sender_account_id: Seq<char>,
    key_file: KeyFileModel,
)
    requires
        cli.resolve(online, sender_account_id, key_file) == Err::<SignTransactionModel, ErrorModel>(
            ErrorModel::FieldResolutionFailed { field },
        ),
        answer.fits(field),
    ensures
        cli.supplied(field, answer).resolve(online, sender_account_id, key_file) != Err::<
            SignTransactionModel,
            ErrorModel,
        >(ErrorModel::FieldResolutionFailed { field }),
{
}

} // verus!
