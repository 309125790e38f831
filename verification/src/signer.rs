//! Who sends a transaction.

use crate::answer::{Answer, AnswerModel};
use crate::common::{
    connection_model, opt_text, positional_args, push_word, texts, ConnectionConfig,
    ConnectionConfigModel,
};
use crate::errors::{outcome, Error, ErrorModel, Operation};
use crate::field::Field;
use crate::keychain::{KeyFile, KeyFileModel};
use crate::sign_transaction::{
    opt_sign, CliSignTransaction, CliSignTransactionModel, SignTransaction, SignTransactionModel,
};
use crate::signing::{Signing, SigningModel};
use crate::transaction::{UnsignedTransaction, UnsignedTransactionModel};
use std::collections::VecDeque;
use vstd::prelude::*;
use vstd::string::*;

verus! {

/// What the network answered when it was asked for an account.
#[derive(Clone, Copy, Debug, PartialEq, Eq, Structural)]
pub enum AccountLookup {
    /// The account exists.
    Found,
    /// There is no such account.
    NotFound,
    /// The network did not answer.
    Failed,
}

/// What was found out, on the network and on disk, about the account that a
/// command names as its sender.
#[derive(Clone, Debug, PartialEq, Eq)]
pub struct SenderLookup {
    /// What the network answered about the account. It is not looked at
    /// without a network.
    pub account: AccountLookup,
    /// What was found at the place of the account's key file for use without
    /// a network. It is not looked at with a network.
    pub key_file: KeyFile,
}

/// Mathematical model of a [`SenderLookup`].
pub struct SenderLookupModel {
    pub account: AccountLookup,
    pub key_file: KeyFileModel,
}

impl View for SenderLookup {
    type V = SenderLookupModel;

    open spec fn view(&self) -> SenderLookupModel {
        SenderLookupModel { account: self.account, key_file: self.key_file@ }
    }
}

/// The sender of a transaction, as far as the command line says it.
#[derive(Clone, Debug, Default, PartialEq, Eq)]
pub struct CliSender {
    pub sender_account_id: Option<String>,
    pub sign_option: Option<CliSignTransaction>,
}

/// Mathematical model of a [`CliSender`].
pub struct CliSenderModel {
    pub sender_account_id: Option<Seq<char>>,
    pub sign_option: Option<CliSignTransactionModel>,
}

impl View for CliSender {
    type V = CliSenderModel;

    open spec fn view(&self) -> CliSenderModel {
        CliSenderModel {
            sender_account_id: opt_text(self.sender_account_id),
            sign_option: opt_sign(self.sign_option),
        }
    }
}

/// The sender of a transaction.
#[derive(Clone, Debug, PartialEq, Eq)]
pub struct Sender {
    pub sender_account_id: String,
    pub sign_option: SignTransaction,
}

/// Mathematical model of a [`Sender`].
pub struct SenderModel {
    pub sender_account_id: Seq<char>,
    pub sign_option: SignTransactionModel,
}

impl View for Sender {
    type V = SenderModel;

    open spec fn view(&self) -> SenderModel {
        SenderModel {
            sender_account_id: self.sender_account_id@,
            sign_option: self.sign_option@,
        }
    }
}

impl CliSenderModel {
    /// The record that says nothing.
    pub open spec fn empty() -> CliSenderModel {
        CliSenderModel { sender_account_id: None, sign_option: None }
    }

    /// The record once the operator has answered for a field: the account
    /// and the way to sign are the record's own, every other answer goes to
    /// the way to sign that was chosen.
    pub open spec fn supplied(self, field: Field, answer: AnswerModel) -> CliSenderModel {
        match field {
            Field::SenderAccountId => match answer {
                AnswerModel::Text(account_id) => CliSenderModel {
                    sender_account_id: Some(account_id),
                    ..self
                },
                _ => self,
            },
            Field::SignOption => match answer {
                AnswerModel::SignOption(method) => CliSenderModel {
                    sign_option: Some(CliSignTransactionModel::of_method(method)),
                    ..self
                },
                _ => self,
            },
            _ => match self.sign_option {
                Some(sign) => CliSenderModel {
                    sign_option: Some(sign.supplied(field, answer)),
                    ..self
                },
                None => self,
            },
        }
    }

    /// The words of the record on the command line: the account, then the
    /// way to sign.
    pub open spec fn cli_args(self) -> Seq<Seq<char>> {
        positional_args(self.sender_account_id) + match self.sign_option {
            Some(sign) => sign.cli_args(),
            None => Seq::empty(),
        }
    }

    /// The record that the words on the command line resolve to, or the
    /// reason why they do not. The fields are gone through in their order:
    /// the account, which the network has to know where there is one, then
    /// the way to sign. An account of which the network gave no answer ends
    /// the resolution; one that it does not know is refused.
    pub open spec fn resolve(self, online: bool, lookup: SenderLookupModel) -> Result<
        SenderModel,
        ErrorModel,
    > {
        match self.sender_account_id {
            None => Err(ErrorModel::FieldResolutionFailed { field: Field::SenderAccountId }),
            Some(account_id) => if online && lookup.account == AccountLookup::Failed {
                Err(ErrorModel::NetworkRequestFailed { operation: Operation::ViewAccount })
            } else if online && lookup.account == AccountLookup::NotFound {
                Err(ErrorModel::AccountNotFound { account_id })
            } else {
                match self.sign_option {
                    None => Err(ErrorModel::FieldResolutionFailed { field: Field::SignOption }),
                    Some(sign) => match sign.resolve(online, account_id, lookup.key_file) {
                        Ok(sign_option) => Ok(
                            SenderModel { sender_account_id: account_id, sign_option },
                        ),
                        Err(error) => Err(error),
                    },
                }
            },
        }
    }
}

impl SenderModel {
    /// The record as the command line would give it.
    pub open spec fn to_cli(self) -> CliSenderModel {
        CliSenderModel {
            sender_account_id: Some(self.sender_account_id),
            sign_option: Some(self.sign_option.to_cli()),
        }
    }

    /// The record is one that a resolution yields.
    pub open spec fn resolved_for(self, online: bool) -> bool {
        self.sign_option.resolved_for(online)
    }

    /// What was found out about the sender lets the record be resolved again:
    /// the network knows the account, and where the key comes from the
    /// keychain without a network the key file holds the sender's record.
    pub open spec fn accepted_by(self, online: bool, lookup: SenderLookupModel) -> bool {
        &&& online ==> lookup.account == AccountLookup::Found
        &&& !online && self.sign_option is SignWithKeychain ==> lookup.key_file.is_record_of(
            self.sender_account_id,
        )
    }

    /// The signing that the record begins for a transaction: the sender
    /// becomes its signer.
    pub open spec fn start(
        self,
        transaction: UnsignedTransactionModel,
        connection: Option<ConnectionConfigModel>,
    ) -> SigningModel {
        self.sign_option.start(transaction.with_signer(self.sender_account_id), connection)
    }
}

impl CliSender {
    /// Puts the operator's answer for a field into the record.
    pub fn supply(self, field: Field, answer: Answer) -> (cli: CliSender)
        ensures
            cli@ == self@.supplied(field, answer@),
    {
        match field {
            Field::SenderAccountId => match answer {
                Answer::Text(account_id) => CliSender {
                    sender_account_id: Some(account_id),
                    sign_option: self.sign_option,
                },
                _ => self,
            },
            Field::SignOption => match answer {
                Answer::SignOption(method) => CliSender {
                    sender_account_id: self.sender_account_id,
                    sign_option: Some(CliSignTransaction::of_method(method)),
                },
                _ => self,
            },
            _ => match self.sign_option {
                Some(sign) => CliSender {
                    sender_account_id: self.sender_account_id,
                    sign_option: Some(sign.supply(field, answer)),
                },
                None => CliSender {
                    sender_account_id: self.sender_account_id,
                    sign_option: None,
                },
            },
        }
    }

    /// The words of the record on the command line.
    pub fn to_cli_args(&self) -> (args: VecDeque<String>)
        ensures
            texts(args@) == self@.cli_args(),
    {
        let mut args = match &self.sign_option {
            Some(subcommand) => subcommand.to_cli_args(),
            None => VecDeque::new(),
        };
        if let Some(sender_account_id) = &self.sender_account_id {
            push_word(&mut args, sender_account_id.clone());
        }
        assert(texts(args@) =~= self@.cli_args());
        args
    }
}

impl From<Sender> for CliSender {
    /// The record as the command line would give it.
    fn from(sender: Sender) -> (cli: CliSender)
        ensures
            cli@ == sender@.to_cli(),
    {
        CliSender {
            sender_account_id: Some(sender.sender_account_id),
            sign_option: Some(CliSignTransaction::from(sender.sign_option)),
        }
    }
}

/// The record that `from` returns is stated in the contract of `from`, over
/// the models: no more is known of a string than its text.
impl vstd::std_specs::convert::FromSpecImpl<Sender> for CliSender {
    open spec fn obeys_from_spec() -> bool {
        false
    }

    open spec fn from_spec(sender: Sender) -> CliSender {
        arbitrary()
    }
}

impl Sender {
    /// Resolves what the command line says of the sender. Nothing is asked
    /// and nothing is sent: `lookup` is what was found out about the account,
    /// and a value that is missing comes back as the field to ask for.
    pub fn from(
        item: CliSender,
        connection_config: Option<ConnectionConfig>,
        lookup: &SenderLookup,
    ) -> (result: Result<Sender, Error>)
        ensures
            outcome(result) == item@.resolve(connection_config is Some, lookup@),
    {
        let sender_account_id: String = match item.sender_account_id {
            Some(cli_sender_account_id) => match &connection_config {
                Some(_) => match lookup.account {
                    AccountLookup::Found => cli_sender_account_id,
                    AccountLookup::NotFound => {
                        return Err(Error::AccountNotFound { account_id: cli_sender_account_id });
                    },
                    AccountLookup::Failed => {
                        return Err(
                            Error::NetworkRequestFailed { operation: Operation::ViewAccount },
                        );
                    },
                },
                None => cli_sender_account_id,
            },
            None => {
                return Err(Error::FieldResolutionFailed { field: Field::SenderAccountId });
            },
        };
        let sign_option = match item.sign_option {
            Some(cli_sign_transaction) => match SignTransaction::from(
                cli_sign_transaction,
                connection_config,
                sender_account_id.clone(),
                &lookup.key_file,
            ) {
                Ok(sign_option) => sign_option,
                Err(error) => {
                    return Err(error);
                },
            },
            None => {
                return Err(Error::FieldResolutionFailed { field: Field::SignOption });
            },
        };
        Ok(Sender { sender_account_id, sign_option })
    }

    /// Makes the sender the signer of the transaction and begins the signing
    /// in the way that the sender chose.
    pub fn process(
        self,
        prepopulated_unsigned_transaction: UnsignedTransaction,
        network_connection_config: Option<ConnectionConfig>,
    ) -> (signing: Signing)
        ensures
            signing@ == self@.start(
                prepopulated_unsigned_transaction@,
                connection_model(network_connection_config),
            ),
            network_connection_config is None ==> signing@.keeps_offline(),
    {
        let mut unsigned_transaction = prepopulated_unsigned_transaction;
        unsigned_transaction.signer_id = self.sender_account_id;
        self.sign_option.process(unsigned_transaction, network_connection_config)
    }
}

/// Where a transaction is sent from, as far as the command line says it.
#[derive(Clone, Debug, PartialEq, Eq)]
pub enum CliSendFrom {
    /// Specify a signer
    Signer(CliSender),
}

/// Mathematical model of a [`CliSendFrom`].
pub enum CliSendFromModel {
    Signer(CliSenderModel),
}

impl View for CliSendFrom {
    type V = CliSendFromModel;

    open spec fn view(&self) -> CliSendFromModel {
        match self {
            CliSendFrom::Signer(sender) => CliSendFromModel::Signer(sender@),
        }
    }
}

/// The model of an optional sender.
pub open spec fn opt_send_from(o: Option<CliSendFrom>) -> Option<CliSendFromModel> {
    match o {
        Some(cli) => Some(cli@),
        None => None,
    }
}

/// Where a transaction is sent from.
#[derive(Clone, Debug, PartialEq, Eq)]
pub enum SendFrom {
    Signer(Sender),
}

/// Mathematical model of a [`SendFrom`].
pub enum SendFromModel {
    Signer(SenderModel),
}

impl View for SendFrom {
    type V = SendFromModel;

    open spec fn view(&self) -> SendFromModel {
        match self {
            SendFrom::Signer(sender) => SendFromModel::Signer(sender@),
        }
    }
}

impl CliSendFromModel {
    /// The account that the record names as the sender, if it names one.
    pub open spec fn sender_account_id(self) -> Option<Seq<char>> {
        match self {
            CliSendFromModel::Signer(sender) => sender.sender_account_id,
        }
    }

    /// The record once the operator has answered for a field.
    pub open spec fn supplied(self, field: Field, answer: AnswerModel) -> CliSendFromModel {
        match self {
            CliSendFromModel::Signer(sender) => CliSendFromModel::Signer(
                sender.supplied(field, answer),
            ),
        }
    }

    /// The words of the record on the command line: the name of the
    /// subcommand, then the words of the sender.
    pub open spec fn cli_args(self) -> Seq<Seq<char>> {
        match self {
            CliSendFromModel::Signer(sender) => seq!["signer"@] + sender.cli_args(),
        }
    }

    /// The record that the words on the command line resolve to, or the
    /// reason why they do not.
    pub open spec fn resolve(self, online: bool, lookup: SenderLookupModel) -> Result<
        SendFromModel,
        ErrorModel,
    > {
        match self {
            CliSendFromModel::Signer(sender) => match sender.resolve(online, lookup) {
                Ok(sender) => Ok(SendFromModel::Signer(sender)),
                Err(error) => Err(error),
            },
        }
    }
}

impl SendFromModel {
    /// The record as the command line would give it.
    pub open spec fn to_cli(self) -> CliSendFromModel {
        match self {
            SendFromModel::Signer(sender) => CliSendFromModel::Signer(sender.to_cli()),
        }
    }

    /// The record is one that a resolution yields.
    pub open spec fn resolved_for(self, online: bool) -> bool {
        match self {
            SendFromModel::Signer(sender) => sender.resolved_for(online),
        }
    }

    /// What was found out about the sender lets the record be resolved again.
    pub open spec fn accepted_by(self, online: bool, lookup: SenderLookupModel) -> bool {
        match self {
            SendFromModel::Signer(sender) => sender.accepted_by(online, lookup),
        }
    }

    /// The signing that the record begins for a transaction.
    pub open spec fn start(
        self,
        transaction: UnsignedTransactionModel,
        connection: Option<ConnectionConfigModel>,
    ) -> SigningModel {
        match self {
            SendFromModel::Signer(sender) => sender.start(transaction, connection),
        }
    }
}

impl CliSendFrom {
    /// The account that the record names as the sender, if it names one: the
    /// account to look up before the record is resolved.
    pub fn sender_account_id(&self) -> (account_id: Option<String>)
        ensures
            opt_text(account_id) == self@.sender_account_id(),
    {
        match self {
            CliSendFrom::Signer(sender) => match &sender.sender_account_id {
                Some(account_id) => Some(account_id.clone()),
                None => None,
            },
        }
    }

    /// Puts the operator's answer for a field into the record.
    pub fn supply(self, field: Field, answer: Answer) -> (cli: CliSendFrom)
        ensures
            cli@ == self@.supplied(field, answer@),
    {
        match self {
            CliSendFrom::Signer(sender) => CliSendFrom::Signer(sender.supply(field, answer)),
        }
    }

    /// The words of the record on the command line.
    pub fn to_cli_args(&self) -> (args: VecDeque<String>)
        ensures
            texts(args@) == self@.cli_args(),
    {
        match self {
            Self::Signer(subcommand) => {
                let mut args = subcommand.to_cli_args();
                push_word(&mut args, "signer".to_owned());
                args
            },
        }
    }
}

impl From<SendFrom> for CliSendFrom {
    /// The record as the command line would give it.
    fn from(send_from: SendFrom) -> (cli: CliSendFrom)
        ensures
            cli@ == send_from@.to_cli(),
    {
        match send_from {
            SendFrom::Signer(sender) => CliSendFrom::Signer(CliSender::from(sender)),
        }
    }
}

/// The record that `from` returns is stated in the contract of `from`, over
/// the models: no more is known of a string than its text.
impl vstd::std_specs::convert::FromSpecImpl<SendFrom> for CliSendFrom {
    open spec fn obeys_from_spec() -> bool {
        false
    }

    open spec fn from_spec(send_from: SendFrom) -> CliSendFrom {
        arbitrary()
    }
}

impl SendFrom {
    /// Resolves what the command line says of where the transaction is sent
    /// from. Nothing is asked and nothing is sent.
    pub fn from(
        item: CliSendFrom,
        connection_config: Option<ConnectionConfig>,
        lookup: &SenderLookup,
    ) -> (result: Result<SendFrom, Error>)
        ensures
            outcome(result) == item@.resolve(connection_config is Some, lookup@),
    {
        match item {
            CliSendFrom::Signer(cli_sender) => {
                match Sender::from(cli_sender, connection_config, lookup) {
                    Ok(sender) => Ok(SendFrom::Signer(sender)),
                    Err(error) => Err(error),
                }
            },
        }
    }

    /// Resolves the one choice there is where the command line makes none: a
    /// signer of whom nothing is said yet.
    pub fn choose_send_from(
        connection_config: Option<ConnectionConfig>,
        lookup: &SenderLookup,
    ) -> (result: Result<SendFrom, Error>)
        ensures
            outcome(result) == CliSendFromModel::Signer(CliSenderModel::empty()).resolve(
                connection_config is Some,
                lookup@,
            ),
    {
        Self::from(
            CliSendFrom::Signer(CliSender { sender_account_id: None, sign_option: None }),
            connection_config,
            lookup,
        )
    }

    /// Begins the signing of the transaction for the sender.
    pub fn process(
        self,
        prepopulated_unsigned_transaction: UnsignedTransaction,
        network_connection_config: Option<ConnectionConfig>,
    ) -> (signing: Signing)
        ensures
            signing@ == self@.start(
                prepopulated_unsigned_transaction@,
                connection_model(network_connection_config),
            ),
            network_connection_config is None ==> signing@.keeps_offline(),
    {
        match self {
            SendFrom::Signer(sender) => sender.process(
                prepopulated_unsigned_transaction,
                network_connection_config,
            ),
        }
    }
}

/// A sender that a resolution yields comes back from its own words: turned
/// into what the command line would give and resolved again, with what was
/// found out about the account standing as before, it is the same record.
pub proof fn sender_round_trip(sender: SenderModel, online: bool, lookup: SenderLookupModel)
    requires
        sender.resolved_for(online),
        sender.accepted_by(online, lookup),
    ensures
        sender.to_cli().resolve(online, lookup) == Ok::<SenderModel, ErrorModel>(sender),
{
    crate::sign_transaction::sign_transaction_round_trip(
        sender.sign_option,
        online,
        sender.sender_account_id,
        lookup.key_file,
    );
}

/// The same of the record that says where a transaction is sent from.
pub proof fn send_from_round_trip(send_from: SendFromModel, online: bool, lookup: SenderLookupModel)
    requires
        send_from.resolved_for(online),
        send_from.accepted_by(online, lookup),
    ensures
        send_from.to_cli().resolve(online, lookup) == Ok::<SendFromModel, ErrorModel>(send_from),
{
    match send_from {
        SendFromModel::Signer(sender) => sender_round_trip(sender, online, lookup),
    }
}

/// An answer brings the resolution forward: once the operator has answered
/// for the field that was missing, the resolution does not ask for that field
/// again.
pub proof fn sender_answer_is_taken(
    cli: CliSenderModel,
    field: Field,
    answer: AnswerModel,
    online: bool,
    lookup: SenderLookupModel,
)
    requires
        cli.resolve(online, lookup) == Err::<SenderModel, ErrorModel>(
            ErrorModel::FieldResolutionFailed { field },
        ),
        answer.fits(field),
    ensures
        cli.supplied(field, answer).resolve(online, lookup) != Err::<SenderModel, ErrorModel>(
            ErrorModel::FieldResolutionFailed { field },
        ),
{
    if field != Field::SenderAccountId && field != Field::SignOption {
        crate::sign_transaction::sign_transaction_answer_is_taken(
            cli.sign_option->Some_0,
            field,
            answer,
            online,
            cli.sender_account_id->Some_0,
            lookup.key_file,
        );
    }
}

/// The same of the record that says where a transaction is sent from.
pub proof fn send_from_answer_is_taken(
    cli: CliSendFromModel,
    field: Field,
    answer: AnswerModel,
    online: bool,
    lookup: SenderLookupModel,
)
    requires
        cli.resolve(online, lookup) == Err::<SendFromModel, ErrorModel>(
            ErrorModel::FieldResolutionFailed { field },
        ),
        answer.fits(field),
    ensures
        cli.supplied(field, answer).resolve(online, lookup) != Err::<SendFromModel, ErrorModel>(
            ErrorModel::FieldResolutionFailed { field },
        ),
{
    match cli {
        CliSendFromModel::Signer(sender) => sender_answer_is_taken(
            sender,
            field,
            answer,
            online,
            lookup,
        ),
    }
}

} // verus!
