//! The RPC server that a command talks to: one of the known networks, or one
//! that is given by its URL.

use crate::account::{
    opt_send_to, resolve_send_to, supplied_send_to, supply_send_to, CliSendTo, CliSendToModel,
    SendTo, SendToModel, ViewNonceRequest,
};
use crate::answer::{Answer, AnswerModel};
use crate::common::{
    flag_args, opt_url, push_flag, texts, AvailableRpcServerUrl, ConnectionConfig,
    ConnectionConfigModel,
};
use crate::errors::{outcome, Error, ErrorModel};
use crate::field::Field;
use std::collections::VecDeque;
use vstd::prelude::*;
use vstd::string::*;

verus! {

/// A server of a known network, as far as the command line says it.
#[derive(Clone, Debug, Default, PartialEq, Eq)]
pub struct CliServer {
    pub send_to: Option<CliSendTo>,
}

/// Mathematical model of a [`CliServer`].
pub struct CliServerModel {
    pub send_to: Option<CliSendToModel>,
}

impl View for CliServer {
    type V = CliServerModel;

    open spec fn view(&self) -> CliServerModel {
        CliServerModel { send_to: opt_send_to(self.send_to) }
    }
}

/// A server that is given by its URL, as far as the command line says it.
#[derive(Clone, Debug, Default, PartialEq, Eq)]
pub struct CliCustomServer {
    pub url: Option<AvailableRpcServerUrl>,
    pub send_to: Option<CliSendTo>,
}

/// Mathematical model of a [`CliCustomServer`].
pub struct CliCustomServerModel {
    pub url: Option<Seq<char>>,
    pub send_to: Option<CliSendToModel>,
}

impl View for CliCustomServer {
    type V = CliCustomServerModel;

    open spec fn view(&self) -> CliCustomServerModel {
        CliCustomServerModel { url: opt_url(self.url), send_to: opt_send_to(self.send_to) }
    }
}

/// A server, and what it is asked about.
#[derive(Clone, Debug, PartialEq, Eq)]
pub struct Server {
    pub connection_config: ConnectionConfig,
    pub send_to: SendTo,
}

/// Mathematical model of a [`Server`].
pub struct ServerModel {
    pub connection_config: ConnectionConfigModel,
    pub send_to: SendToModel,
}

impl View for Server {
    type V = ServerModel;

    open spec fn view(&self) -> ServerModel {
        ServerModel { connection_config: self.connection_config@, send_to: self.send_to@ }
    }
}

/// The words of an optional subcommand on the command line.
pub open spec fn send_to_args(send_to: Option<CliSendToModel>) -> Seq<Seq<char>> {
    match send_to {
        Some(cli) => cli.cli_args(),
        None => Seq::empty(),
    }
}

impl CliServerModel {
    /// The record once the operator has answered for a field: every answer
    /// goes to the subcommand.
    pub open spec fn supplied(self, field: Field, answer: AnswerModel) -> CliServerModel {
        CliServerModel { send_to: supplied_send_to(self.send_to, field, answer) }
    }

    /// The words of the record on the command line: those of its subcommand.
    pub open spec fn cli_args(self) -> Seq<Seq<char>> {
        send_to_args(self.send_to)
    }

    /// The server that the words on the command line resolve to for the
    /// given network, or the field that is missing.
    pub open spec fn into_server(self, connection_config: ConnectionConfigModel) -> Result<
        ServerModel,
        ErrorModel,
    > {
        match resolve_send_to(self.send_to) {
            Ok(send_to) => Ok(ServerModel { connection_config, send_to }),
            Err(error) => Err(error),
        }
    }
}

impl CliCustomServerModel {
    /// The record once the operator has answered for a field: the URL is the
    /// record's own, every other answer goes to the subcommand.
    pub open spec fn supplied(self, field: Field, answer: AnswerModel) -> CliCustomServerModel {
        match field {
            Field::Url => match answer {
                AnswerModel::Text(url) => CliCustomServerModel { url: Some(url), ..self },
                _ => self,
            },
            _ => CliCustomServerModel {
                send_to: supplied_send_to(self.send_to, field, answer),
                ..self
            },
        }
    }

    /// The words of the record on the command line: the flag of the URL,
    /// then the subcommand.
    pub open spec fn cli_args(self) -> Seq<Seq<char>> {
        flag_args("--url"@, self.url) + send_to_args(self.send_to)
    }

    /// The server that the words on the command line resolve to, or the
    /// first field that is missing: the URL, then the account.
    pub open spec fn into_server(self) -> Result<ServerModel, ErrorModel> {
        match self.url {
            None => Err(ErrorModel::FieldResolutionFailed { field: Field::Url }),
            Some(url) => match resolve_send_to(self.send_to) {
                Ok(send_to) => Ok(
                    ServerModel {
                        connection_config: ConnectionConfigModel::Custom { url },
                        send_to,
                    },
                ),
                Err(error) => Err(error),
            },
        }
    }
}

impl ServerModel {
    /// The record as the command line would give it for a known network.
    pub open spec fn to_cli_server(self) -> CliServerModel {
        CliServerModel { send_to: Some(self.send_to.to_cli()) }
    }

    /// The record as the command line would give it for a server that is
    /// given by its URL.
    pub open spec fn to_cli_custom_server(self) -> CliCustomServerModel {
        CliCustomServerModel {
            url: Some(self.connection_config.rpc_url()),
            send_to: Some(self.send_to.to_cli()),
        }
    }
}

fn optional_send_to_args(send_to: &Option<CliSendTo>) -> (args: VecDeque<String>)
    ensures
        texts(args@) == send_to_args(opt_send_to(*send_to)),
{
    match send_to {
        Some(subcommand) => subcommand.to_cli_args(),
        None => {
            let args: VecDeque<String> = VecDeque::new();
            assert(texts(args@) =~= Seq::<Seq<char>>::empty());
            args
        },
    }
}

fn resolve_optional_send_to(send_to: Option<CliSendTo>) -> (result: Result<SendTo, Error>)
    ensures
        outcome(result) == resolve_send_to(opt_send_to(send_to)),
{
    match send_to {
        Some(cli_send_to) => SendTo::from(cli_send_to),
        None => SendTo::send_to(),
    }
}

impl CliCustomServer {
    /// Puts the operator's answer for a field into the record.
    pub fn supply(self, field: Field, answer: Answer) -> (cli: CliCustomServer)
        ensures
            cli@ == self@.supplied(field, answer@),
    {
        match field {
            Field::Url => match answer {
                Answer::Text(url) => CliCustomServer {
                    url: Some(AvailableRpcServerUrl { inner: url }),
                    send_to: self.send_to,
                },
                _ => self,
            },
            _ => CliCustomServer {
                url: self.url,
                send_to: supply_send_to(self.send_to, field, answer),
            },
        }
    }

    /// The words of the record on the command line.
    pub fn to_cli_args(&self) -> (args: VecDeque<String>)
        ensures
            texts(args@) == self@.cli_args(),
    {
        let mut args = optional_send_to_args(&self.send_to);
        if let Some(url) = &self.url {
            push_flag(&mut args, "--url", url.to_string());
        }
        assert(texts(args@) =~= self@.cli_args());
        args
    }

    /// Resolves what the command line says of a server given by its URL.
    /// Nothing is asked: a value that is missing comes back as the field to
    /// ask for.
    pub fn into_server(self) -> (result: Result<Server, Error>)
        ensures
            outcome(result) == self@.into_server(),
    {
        let url: AvailableRpcServerUrl = match self.url {
            Some(url) => url,
            None => {
                return Err(Error::FieldResolutionFailed { field: Field::Url });
            },
        };
        match resolve_optional_send_to(self.send_to) {
            Ok(send_to) => Ok(
                Server { connection_config: ConnectionConfig::Custom { url: url.inner }, send_to },
            ),
            Err(error) => Err(error),
        }
    }
}

impl From<Server> for CliCustomServer {
    /// The record as the command line would give it.
    fn from(server: Server) -> (cli: CliCustomServer)
        ensures
            cli@ == server@.to_cli_custom_server(),
    {
        CliCustomServer {
            url: Some(AvailableRpcServerUrl { inner: server.connection_config.rpc_url() }),
            send_to: Some(CliSendTo::from(server.send_to)),
        }
    }
}

/// The record that `from` returns is stated in the contract of `from`, over
/// the models: no more is known of a string than its text.
impl vstd::std_specs::convert::FromSpecImpl<Server> for CliCustomServer {
    open spec fn obeys_from_spec() -> bool {
        false
    }

    open spec fn from_spec(server: Server) -> CliCustomServer {
        arbitrary()
    }
}

impl CliServer {
    /// Puts the operator's answer for a field into the record.
    pub fn supply(self, field: Field, answer: Answer) -> (cli: CliServer)
        ensures
            cli@ == self@.supplied(field, answer@),
    {
        CliServer { send_to: supply_send_to(self.send_to, field, answer) }
    }

    /// The words of the record on the command line.
    pub fn to_cli_args(&self) -> (args: VecDeque<String>)
        ensures
            texts(args@) == self@.cli_args(),
    {
        optional_send_to_args(&self.send_to)
    }

    /// Resolves what the command line says of a server of the given network.
    /// Nothing is asked: a value that is missing comes back as the field to
    /// ask for.
    pub fn into_server(self, connection_config: ConnectionConfig) -> (result: Result<
        Server,
        Error,
    >)
        ensures
            outcome(result) == self@.into_server(connection_config@),
    {
        match resolve_optional_send_to(self.send_to) {
            Ok(send_to) => Ok(Server { connection_config, send_to }),
            Err(error) => Err(error),
        }
    }
}

impl From<Server> for CliServer {
    /// The record as the command line would give it.
    fn from(server: Server) -> (cli: CliServer)
        ensures
            cli@ == server@.to_cli_server(),
    {
        CliServer { send_to: Some(CliSendTo::from(server.send_to)) }
    }
}

/// The record that `from` returns is stated in the contract of `from`, over
/// the models: no more is known of a string than its text.
impl vstd::std_specs::convert::FromSpecImpl<Server> for CliServer {
    open spec fn obeys_from_spec() -> bool {
        false
    }

    open spec fn from_spec(server: Server) -> CliServer {
        arbitrary()
    }
}

impl Server {
    /// The question that the command puts to the server.
    pub fn process(self) -> (request: ViewNonceRequest)
        ensures
            request.rpc_url@ == self@.connection_config.rpc_url(),
            self@.send_to == (SendToModel::Account { account_id: request.account_id@ }),
    {
        self.send_to.process(self.connection_config)
    }
}

/// A server of a network comes back from its own words: turned into what the
/// command line would give and resolved again for the same network, it is the
/// same record.
pub proof fn server_round_trip(server: ServerModel)
    ensures
        server.to_cli_server().into_server(server.connection_config) == Ok::<
            ServerModel,
            ErrorModel,
        >(server),
{
}

/// A server that is given by its URL comes back from its own words.
pub proof fn custom_server_round_trip(server: ServerModel)
    requires
        server.connection_config is Custom,
    ensures
        server.to_cli_custom_server().into_server() == Ok::<ServerModel, ErrorModel>(server),
{
}

/// An answer brings the resolution forward: once the operator has answered
/// for the field that was missing, the resolution does not ask for that field
/// again.
pub proof fn server_answer_is_taken(
    cli: CliServerModel,
    connection_config: ConnectionConfigModel,
    field: Field,
    answer: AnswerModel,
)
    requires
        cli.into_server(connection_config) == Err::<ServerModel, ErrorModel>(
            ErrorModel::FieldResolutionFailed { field },
        ),
        answer.fits(field),
    ensures
        cli.supplied(field, answer).into_server(connection_config) != Err::<
            ServerModel,
            ErrorModel,
        >(ErrorModel::FieldResolutionFailed { field }),
{
}

/// The same of a server that is given by its URL.
pub proof fn custom_server_answer_is_taken(
    cli: CliCustomServerModel,
    field: Field,
    answer: AnswerModel,
)
    requires
        cli.into_server() == Err::<ServerModel, ErrorModel>(
            ErrorModel::FieldResolutionFailed { field },
        ),
        answer.fits(field),
    ensures
        cli.supplied(field, answer).into_server() != Err::<ServerModel, ErrorModel>(
            ErrorModel::FieldResolutionFailed { field },
        ),
{
}

/// Whatever the network, the words that name a server by its URL lead to the
/// same endpoint and the same question.
pub proof fn custom_server_keeps_endpoint(server: ServerModel)
    ensures
        server.to_cli_custom_server().into_server() matches Ok(again) && again.send_to
            == server.send_to && again.connection_config.rpc_url()
            == server.connection_config.rpc_url(),
{
}

} // verus!
