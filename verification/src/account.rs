//! The account whose access key a command asks the network about.

use crate::answer::{Answer, AnswerModel};
use crate::common::{opt_text, positional_args, push_word, texts, ConnectionConfig};
use crate::errors::{outcome, Error, ErrorModel};
use crate::field::Field;
use std::collections::VecDeque;
use vstd::prelude::*;
use vstd::string::*;

verus! {

/// An account, as far as the command line says it.
#[derive(Clone, Debug, Default, PartialEq, Eq)]
pub struct CliAccount {
    pub account_id: Option<String>,
}

/// An account.
#[derive(Clone, Debug, PartialEq, Eq)]
pub struct Account {
    pub account_id: String,
}

/// Where a question is sent to, as far as the command line says it.
#[derive(Clone, Debug, PartialEq, Eq)]
pub enum CliSendTo {
    /// Specify an account
    Account(CliAccount),
}

/// Mathematical model of a [`CliSendTo`].
pub enum CliSendToModel {
    Account { account_id: Option<Seq<char>> },
}

impl View for CliSendTo {
    type V = CliSendToModel;

    open spec fn view(&self) -> CliSendToModel {
        match self {
            CliSendTo::Account(account) => CliSendToModel::Account {
                account_id: opt_text(account.account_id),
            },
        }
    }
}

/// The model of an optional receiver of a question.
pub open spec fn opt_send_to(o: Option<CliSendTo>) -> Option<CliSendToModel> {
    match o {
        Some(cli) => Some(cli@),
        None => None,
    }
}

/// Where a question is sent to.
#[derive(Clone, Debug, PartialEq, Eq)]
pub enum SendTo {
    Account(Account),
}

/// Mathematical model of a [`SendTo`].
pub enum SendToModel {
    Account { account_id: Seq<char> },
}

impl View for SendTo {
    type V = SendToModel;

    open spec fn view(&self) -> SendToModel {
        match self {
            SendTo::Account(account) => SendToModel::Account { account_id: account.account_id@ },
        }
    }
}

/// The question for the nonce of an account's access key, ready to be put to
/// an RPC endpoint.
#[derive(Clone, Debug, PartialEq, Eq)]
pub struct ViewNonceRequest {
    pub rpc_url: String,
    pub account_id: String,
}

impl CliSendToModel {
    /// The record that says nothing.
    pub open spec fn empty() -> CliSendToModel {
        CliSendToModel::Account { account_id: None }
    }

    /// The record once the operator has answered for a field.
    pub open spec fn supplied(self, field: Field, answer: AnswerModel) -> CliSendToModel {
        match (field, answer) {
            (Field::AccountId, AnswerModel::Text(account_id)) => CliSendToModel::Account {
                account_id: Some(account_id),
            },
            _ => self,
        }
    }

    /// The words of the record on the command line: the name of the
    /// subcommand, then the account.
    pub open spec fn cli_args(self) -> Seq<Seq<char>> {
        match self {
            CliSendToModel::Account { account_id } => seq!["account"@] + positional_args(
                account_id,
            ),
        }
    }

    /// The record that the words on the command line resolve to, or the field
    /// that is missing.
    pub open spec fn resolve(self) -> Result<SendToModel, ErrorModel> {
        match self {
            CliSendToModel::Account { account_id } => match account_id {
                Some(account_id) => Ok(SendToModel::Account { account_id }),
                None => Err(ErrorModel::FieldResolutionFailed { field: Field::AccountId }),
            },
        }
    }
}

/// An optional record once the operator has answered for a field: where the
/// command line says nothing, the answer goes into the record that says
/// nothing.
pub open spec fn supplied_send_to(
    send_to: Option<CliSendToModel>,
    field: Field,
    answer: AnswerModel,
) -> Option<CliSendToModel> {
    match send_to {
        Some(cli) => Some(cli.supplied(field, answer)),
        None => Some(CliSendToModel::empty().supplied(field, answer)),
    }
}

/// What an optional record resolves to: where the command line says nothing,
/// the record that says nothing is resolved.
pub open spec fn resolve_send_to(send_to: Option<CliSendToModel>) -> Result<
    SendToModel,
    ErrorModel,
> {
    match send_to {
        Some(cli) => cli.resolve(),
        None => CliSendToModel::empty().resolve(),
    }
}

impl SendToModel {
    /// The record as the command line would give it.
    pub open spec fn to_cli(self) -> CliSendToModel {
        match self {
            SendToModel::Account { account_id } => CliSendToModel::Account {
                account_id: Some(account_id),
            },
        }
    }
}

impl CliSendTo {
    /// Puts the operator's answer for a field into the record.
    pub fn supply(self, field: Field, answer: Answer) -> (cli: CliSendTo)
        ensures
            cli@ == self@.supplied(field, answer@),
    {
        match (field, answer) {
            (Field::AccountId, Answer::Text(account_id)) => CliSendTo::Account(
                CliAccount { account_id: Some(account_id) },
            ),
            (_, _) => self,
        }
    }

    /// The words of the record on the command line.
    pub fn to_cli_args(&self) -> (args: VecDeque<String>)
        ensures
            texts(args@) == self@.cli_args(),
    {
        match self {
            CliSendTo::Account(account) => {
                let mut args: VecDeque<String> = VecDeque::new();
                if let Some(account_id) = &account.account_id {
                    push_word(&mut args, account_id.clone());
                }
                push_word(&mut args, "account".to_owned());
                assert(texts(args@) =~= self@.cli_args());
                args
            },
        }
    }
}

impl From<SendTo> for CliSendTo {
    /// The record as the command line would give it.
    fn from(send_to: SendTo) -> (cli: CliSendTo)
        ensures
            cli@ == send_to@.to_cli(),
    {
        match send_to {
            SendTo::Account(account) => CliSendTo::Account(
                CliAccount { account_id: Some(account.account_id) },
            ),
        }
    }
}

/// The record that `from` returns is stated in the contract of `from`, over
/// the models: no more is known of a string than its text.
impl vstd::std_specs::convert::FromSpecImpl<SendTo> for CliSendTo {
    open spec fn obeys_from_spec() -> bool {
        false
    }

    open spec fn from_spec(send_to: SendTo) -> CliSendTo {
        arbitrary()
    }
}

impl SendTo {
    /// Resolves what the command line says of the account. Nothing is asked:
    /// an account that is missing comes back as the field to ask for.
    pub fn from(item: CliSendTo) -> (result: Result<SendTo, Error>)
        ensures
            outcome(result) == item@.resolve(),
    {
        match item {
            CliSendTo::Account(cli_account) => match cli_account.account_id {
                Some(account_id) => Ok(SendTo::Account(Account { account_id })),
                None => Err(Error::FieldResolutionFailed { field: Field::AccountId }),
            },
        }
    }

    /// Resolves the one choice there is where the command line makes none: an
    /// account of which nothing is said yet.
    pub fn send_to() -> (result: Result<SendTo, Error>)
        ensures
            outcome(result) == CliSendToModel::empty().resolve(),
    {
        Self::from(CliSendTo::Account(CliAccount { account_id: None }))
    }

    /// The question for the nonce of the account, for the endpoint of the
    /// connection.
    pub fn process(self, connection_config: ConnectionConfig) -> (request: ViewNonceRequest)
        ensures
            request.rpc_url@ == connection_config@.rpc_url(),
            self@ == (SendToModel::Account { account_id: request.account_id@ }),
    {
        match self {
            SendTo::Account(account) => ViewNonceRequest {
                rpc_url: connection_config.rpc_url(),
                account_id: account.account_id,
            },
        }
    }
}

/// Puts the operator's answer for a field into an optional record.
pub fn supply_send_to(send_to: Option<CliSendTo>, field: Field, answer: Answer) -> (cli: Option<
    CliSendTo,
>)
    ensures
        opt_send_to(cli) == supplied_send_to(opt_send_to(send_to), field, answer@),
{
    match send_to {
        Some(cli) => Some(cli.supply(field, answer)),
        None => Some(CliSendTo::Account(CliAccount { account_id: None }).supply(field, answer)),
    }
}

/// An account that a resolution yields comes back from its own words.
pub proof fn send_to_round_trip(send_to: SendToModel)
    ensures
        send_to.to_cli().resolve() == Ok::<SendToModel, ErrorModel>(send_to),
{
}

} // verus!
