//! The call of a method of a contract.

use crate::answer::{Answer, AnswerModel};
use crate::common::{
    balance_text, connection_model, flag_args, gas_text, opt_text, positional_args, push_flag,
    push_word, texts, ConnectionConfig, NearBalance, NearGas, MAX_GAS,
};
use crate::errors::{outcome, Error, ErrorModel};
use crate::field::Field;
use crate::signer::{
    opt_send_from, CliSendFrom, CliSendFromModel, CliSender, CliSenderModel, SendFrom,
    SendFromModel, SenderLookup, SenderLookupModel,
};
use crate::signing::Signing;
use crate::text::{bytes_to_text, text_of_bytes};
use crate::transaction::{
    append_action, Action, ActionModel, FunctionCallAction, FunctionCallActionModel,
    UnsignedTransaction,
};
use std::collections::VecDeque;
use vstd::prelude::*;
use vstd::string::*;
use vstd::utf8::{decode_utf8_encode_utf8, encode_utf8, valid_utf8};

verus! {

/// The call of a method, as far as the command line says it.
#[derive(Clone, Debug, Default, PartialEq, Eq)]
pub struct CliCallFunctionAction {
    pub method_name: Option<String>,
    pub args: Option<String>,
    pub deposit: Option<NearBalance>,
    pub gas: Option<NearGas>,
    pub send_from: Option<CliSendFrom>,
}

/// Mathematical model of a [`CliCallFunctionAction`].
pub struct CliCallFunctionActionModel {
    pub method_name: Option<Seq<char>>,
    pub args: Option<Seq<char>>,
    pub deposit: Option<NearBalance>,
    pub gas: Option<NearGas>,
    pub send_from: Option<CliSendFromModel>,
}

impl View for CliCallFunctionAction {
    type V = CliCallFunctionActionModel;

    open spec fn view(&self) -> CliCallFunctionActionModel {
        CliCallFunctionActionModel {
            method_name: opt_text(self.method_name),
            args: opt_text(self.args),
            deposit: self.deposit,
            gas: self.gas,
            send_from: opt_send_from(self.send_from),
        }
    }
}

/// The call of a method.
#[derive(Clone, Debug, PartialEq, Eq)]
pub struct CallFunctionAction {
    pub method_name: String,
    /// The arguments, as the bytes that the contract receives.
    pub args: Vec<u8>,
    /// The gas that the call may use, in gas units.
    pub gas: u64,
    /// The tokens that go with the call, in yoctoNEAR.
    pub deposit: u128,
    pub send_from: SendFrom,
}

/// Mathematical model of a [`CallFunctionAction`].
pub struct CallFunctionActionModel {
    pub method_name: Seq<char>,
    pub args: Seq<u8>,
    pub gas: u64,
    pub deposit: u128,
    pub send_from: SendFromModel,
}

impl View for CallFunctionAction {
    type V = CallFunctionActionModel;

    open spec fn view(&self) -> CallFunctionActionModel {
        CallFunctionActionModel {
            method_name: self.method_name@,
            args: self.args@,
            gas: self.gas,
            deposit: self.deposit,
            send_from: self.send_from@,
        }
    }
}

/// The text of an optional amount of tokens.
pub open spec fn opt_balance_text(deposit: Option<NearBalance>) -> Option<Seq<char>> {
    match deposit {
        Some(balance) => Some(balance_text(balance.yoctonear_amount)),
        None => None,
    }
}

/// The text of an optional amount of gas.
pub open spec fn opt_gas_text(gas: Option<NearGas>) -> Option<Seq<char>> {
    match gas {
        Some(amount) => Some(gas_text(amount.inner)),
        None => None,
    }
}

impl CliCallFunctionActionModel {
    /// The sender of the record; where none is named, the signer of whom
    /// nothing is said yet.
    pub open spec fn sender(self) -> CliSendFromModel {
        match self.send_from {
            Some(cli) => cli,
            None => CliSendFromModel::Signer(CliSenderModel::empty()),
        }
    }

    /// The record once the operator has answered for a field: method name,
    /// arguments, gas and deposit are the record's own, every other answer
    /// goes to the sender.
    pub open spec fn supplied(
        self,
        field: Field,
        answer: AnswerModel,
    ) -> CliCallFunctionActionModel {
        match field {
            Field::MethodName => match answer {
                AnswerModel::Text(method_name) => CliCallFunctionActionModel {
                    method_name: Some(method_name),
                    ..self
                },
                _ => self,
            },
            Field::Args => match answer {
                AnswerModel::Text(args) => CliCallFunctionActionModel { args: Some(args), ..self },
                _ => self,
            },
            Field::Gas => match answer {
                AnswerModel::Gas(gas) => CliCallFunctionActionModel { gas: Some(gas), ..self },
                _ => self,
            },
            Field::Deposit => match answer {
                AnswerModel::Deposit(deposit) => CliCallFunctionActionModel {
                    deposit: Some(deposit),
                    ..self
                },
                _ => self,
            },
            _ => CliCallFunctionActionModel {
                send_from: Some(self.sender().supplied(field, answer)),
                ..self
            },
        }
    }

    /// The words of the record on the command line: the flags in the order
    /// of the fields, the positional values in the order of the fields, then
    /// the subcommand. A field without a value adds nothing.
    pub open spec fn cli_args(self) -> Seq<Seq<char>> {
        flag_args("--attached-deposit"@, opt_balance_text(self.deposit)) + flag_args(
            "--prepaid-gas"@,
            opt_gas_text(self.gas),
        ) + positional_args(self.method_name) + positional_args(self.args) + match self.send_from {
            Some(send_from) => send_from.cli_args(),
            None => Seq::empty(),
        }
    }

    /// The record that the words on the command line resolve to, or the
    /// reason why they do not. The fields are gone through in their order:
    /// method name, arguments, gas, deposit, sender. The first that is
    /// missing is the field to ask for. Gas above the limit of one call is
    /// refused where the gas is looked at, before the deposit and the sender.
    pub open spec fn resolve(self, online: bool, lookup: SenderLookupModel) -> Result<
        CallFunctionActionModel,
        ErrorModel,
    > {
        if self.method_name is None {
            Err(ErrorModel::FieldResolutionFailed { field: Field::MethodName })
        } else if self.args is None {
            Err(ErrorModel::FieldResolutionFailed { field: Field::Args })
        } else if self.gas is None {
            Err(ErrorModel::FieldResolutionFailed { field: Field::Gas })
        } else if self.gas->Some_0.inner > MAX_GAS {
            Err(ErrorModel::GasLimitExceeded { gas: self.gas->Some_0.inner })
        } else if self.deposit is None {
            Err(ErrorModel::FieldResolutionFailed { field: Field::Deposit })
        } else {
            match self.sender().resolve(online, lookup) {
                Ok(send_from) => Ok(
                    CallFunctionActionModel {
                        method_name: self.method_name->Some_0,
                        args: encode_utf8(self.args->Some_0),
                        gas: self.gas->Some_0.inner,
                        deposit: self.deposit->Some_0.yoctonear_amount,
                        send_from,
                    },
                ),
                Err(error) => Err(error),
            }
        }
    }
}

impl CallFunctionActionModel {
    /// The record as the command line would give it. Arguments that are no
    /// UTF-8 have no text: they are given as the empty text.
    pub open spec fn to_cli(self) -> CliCallFunctionActionModel {
        CliCallFunctionActionModel {
            method_name: Some(self.method_name),
            args: Some(text_of_bytes(self.args)),
            deposit: Some(NearBalance { yoctonear_amount: self.deposit }),
            gas: Some(NearGas { inner: self.gas }),
            send_from: Some(self.send_from.to_cli()),
        }
    }

    /// The record is one that a resolution yields: its gas is within the
    /// limit of one call, its arguments are UTF-8, and its sender is
    /// resolved.
    pub open spec fn resolved_for(self, online: bool) -> bool {
        &&& self.gas <= MAX_GAS
        &&& valid_utf8(self.args)
        &&& self.send_from.resolved_for(online)
    }

    /// The action that the record adds to a transaction.
    pub open spec fn action(self) -> ActionModel {
        ActionModel::FunctionCall(
            FunctionCallActionModel {
                method_name: self.method_name,
                args: self.args,
                gas: self.gas,
                deposit: self.deposit,
            },
        )
    }
}

impl CliCallFunctionAction {
    /// The account that the record names as the sender, if it names one: the
    /// account to look up before the record is resolved.
    pub fn sender_account_id(&self) -> (account_id: Option<String>)
        ensures
            opt_text(account_id) == self@.sender().sender_account_id(),
    {
        match &self.send_from {
            Some(send_from) => send_from.sender_account_id(),
            None => None,
        }
    }

    /// Puts the operator's answer for a field into the record.
    pub fn supply(self, field: Field, answer: Answer) -> (cli: CliCallFunctionAction)
        ensures
            cli@ == self@.supplied(field, answer@),
    {
        match field {
            Field::MethodName => match answer {
                Answer::Text(method_name) => CliCallFunctionAction {
                    method_name: Some(method_name),
                    args: self.args,
                    deposit: self.deposit,
                    gas: self.gas,
                    send_from: self.send_from,
                },
                _ => self,
            },
            Field::Args => match answer {
                Answer::Text(args) => CliCallFunctionAction {
                    method_name: self.method_name,
                    args: Some(args),
                    deposit: self.deposit,
                    gas: self.gas,
                    send_from: self.send_from,
                },
                _ => self,
            },
            Field::Gas => match answer {
                Answer::Gas(gas) => CliCallFunctionAction {
                    method_name: self.method_name,
                    args: self.args,
                    deposit: self.deposit,
                    gas: Some(gas),
                    send_from: self.send_from,
                },
                _ => self,
            },
            Field::Deposit => match answer {
                Answer::Deposit(deposit) => CliCallFunctionAction {
                    method_name: self.method_name,
                    args: self.args,
                    deposit: Some(deposit),
                    gas: self.gas,
                    send_from: self.send_from,
                },
                _ => self,
            },
            _ => {
                let sender = match self.send_from {
                    Some(cli) => cli,
                    None => CliSendFrom::Signer(
                        CliSender { sender_account_id: None, sign_option: None },
                    ),
                };
                CliCallFunctionAction {
                    method_name: self.method_name,
                    args: self.args,
                    deposit: self.deposit,
                    gas: self.gas,
                    send_from: Some(sender.supply(field, answer)),
                }
            },
        }
    }

    /// The words of the record on the command line.
    pub fn to_cli_args(&self) -> (args: VecDeque<String>)
        ensures
            texts(args@) == self@.cli_args(),
    {
        let mut args = match &self.send_from {
            Some(subcommand) => subcommand.to_cli_args(),
            None => VecDeque::new(),
        };
        if let Some(function_args) = &self.args {
            push_word(&mut args, function_args.clone());
        }
        if let Some(method_name) = &self.method_name {
            push_word(&mut args, method_name.clone());
        }
        if let Some(gas) = &self.gas {
            push_flag(&mut args, "--prepaid-gas", gas.to_string());
        }
        if let Some(deposit) = &self.deposit {
            push_flag(&mut args, "--attached-deposit", deposit.to_string());
        }
        assert(texts(args@) =~= self@.cli_args());
        args
    }
}

impl From<CallFunctionAction> for CliCallFunctionAction {
    /// The record as the command line would give it.
    fn from(call_function_action: CallFunctionAction) -> (cli: CliCallFunctionAction)
        ensures
            cli@ == call_function_action@.to_cli(),
    {
        CliCallFunctionAction {
            method_name: Some(call_function_action.method_name),
            args: Some(bytes_to_text(call_function_action.args)),
            gas: Some(NearGas { inner: call_function_action.gas }),
            deposit: Some(NearBalance::from_yoctonear(call_function_action.deposit)),
            send_from: Some(CliSendFrom::from(call_function_action.send_from)),
        }
    }
}

/// The record that `from` returns is stated in the contract of `from`, over
/// the models: no more is known of a string than its text.
impl vstd::std_specs::convert::FromSpecImpl<CallFunctionAction> for CliCallFunctionAction {
    open spec fn obeys_from_spec() -> bool {
        false
    }

    open spec fn from_spec(call_function_action: CallFunctionAction) -> CliCallFunctionAction {
        arbitrary()
    }
}

impl CallFunctionAction {
    /// Resolves what the command line says of the call. Nothing is asked and
    /// nothing is sent: `lookup` is what was found out about the sender, and
    /// a value that is missing comes back as the field to ask for.
    pub fn from(
        item: CliCallFunctionAction,
        connection_config: Option<ConnectionConfig>,
        lookup: &SenderLookup,
    ) -> (result: Result<CallFunctionAction, Error>)
        ensures
            outcome(result) == item@.resolve(connection_config is Some, lookup@),
    {
        let method_name: String = match item.method_name {
            Some(cli_method_name) => cli_method_name,
            None => {
                return Err(Error::FieldResolutionFailed { field: Field::MethodName });
            },
        };
        let args: Vec<u8> = match item.args {
            Some(cli_args) => cli_args.as_str().as_bytes_vec(),
            None => {
                return Err(Error::FieldResolutionFailed { field: Field::Args });
            },
        };
        let gas: u64 = match item.gas {
            Some(cli_gas) => cli_gas.inner,
            None => {
                return Err(Error::FieldResolutionFailed { field: Field::Gas });
            },
        };
        if gas > MAX_GAS {
            return Err(Error::GasLimitExceeded { gas });
        }
        let deposit: u128 = match item.deposit {
            Some(cli_deposit) => cli_deposit.to_yoctonear(),
            None => {
                return Err(Error::FieldResolutionFailed { field: Field::Deposit });
            },
        };
        let resolved = match item.send_from {
            Some(cli_send_from) => SendFrom::from(cli_send_from, connection_config, lookup),
            None => SendFrom::choose_send_from(connection_config, lookup),
        };
        match resolved {
            Ok(send_from) => Ok(CallFunctionAction { method_name, args, gas, deposit, send_from }),
            Err(error) => Err(error),
        }
    }

    /// Appends the call to the transaction and begins the signing for the
    /// sender. A call that asks for more gas than one call may be given is
    /// refused, and nothing is begun.
    pub fn process(
        self,
        prepopulated_unsigned_transaction: UnsignedTransaction,
        network_connection_config: Option<ConnectionConfig>,
    ) -> (result: Result<Signing, Error>)
        ensures
            self@.gas <= MAX_GAS ==> result is Ok && result->Ok_0@ == self@.send_from.start(
                prepopulated_unsigned_transaction@.with_action(self@.action()),
                connection_model(network_connection_config),
            ),
            self@.gas <= MAX_GAS && network_connection_config is None
                ==> result->Ok_0@.keeps_offline(),
            self@.gas > MAX_GAS ==> result is Err && result->Err_0@ == (
            ErrorModel::GasLimitExceeded { gas: self@.gas }),
    {
        let action = Action::FunctionCall(
            FunctionCallAction {
                method_name: self.method_name,
                args: self.args,
                gas: self.gas,
                deposit: self.deposit,
            },
        );
        let mut unsigned_transaction = prepopulated_unsigned_transaction;
        match append_action(&mut unsigned_transaction, action) {
            Ok(()) => Ok(self.send_from.process(unsigned_transaction, network_connection_config)),
            Err(error) => Err(error),
        }
    }
}

/// A call that a resolution yields comes back from its own words: turned into
/// what the command line would give and resolved again, with what was found
/// out about the sender standing as before, it is the same record.
pub proof fn call_function_round_trip(
    call: CallFunctionActionModel,
    online: bool,
    lookup: SenderLookupModel,
)
    requires
        call.resolved_for(online),
        call.send_from.accepted_by(online, lookup),
    ensures
        call.to_cli().resolve(online, lookup) == Ok::<CallFunctionActionModel, ErrorModel>(call),
{
    crate::signer::send_from_round_trip(call.send_from, online, lookup);
    decode_utf8_encode_utf8(call.args);
}

/// Gas above the limit of one call is refused before the deposit is looked
/// at: whether a deposit was given, and which sender, makes no difference.
pub proof fn gas_limit_precedes_deposit(
    call: CliCallFunctionActionModel,
    online: bool,
    lookup: SenderLookupModel,
)
    requires
        call.method_name is Some,
        call.args is Some,
        call.gas is Some,
        call.gas->Some_0.inner > MAX_GAS,
    ensures
        call.resolve(online, lookup) == Err::<CallFunctionActionModel, ErrorModel>(
            ErrorModel::GasLimitExceeded { gas: call.gas->Some_0.inner },
        ),
{
}

/// An answer brings the resolution forward: once the operator has answered
/// for the field that was missing, the resolution does not ask for that field
/// again.
pub proof fn call_function_answer_is_taken(
    call: CliCallFunctionActionModel,
    field: Field,
    answer: AnswerModel,
    online: bool,
    lookup: SenderLookupModel,
)
    requires
        call.resolve(online, lookup) == Err::<CallFunctionActionModel, ErrorModel>(
            ErrorModel::FieldResolutionFailed { field },
        ),
        answer.fits(field),
    ensures
        call.supplied(field, answer).resolve(online, lookup) != Err::<
            CallFunctionActionModel,
            ErrorModel,
        >(ErrorModel::FieldResolutionFailed { field }),
{
    if call.method_name is Some && call.args is Some && call.gas is Some && call.gas->Some_0.inner
        <= MAX_GAS && call.deposit is Some {
        crate::signer::send_from_answer_is_taken(call.sender(), field, answer, online, lookup);
    }
}

} // verus!
