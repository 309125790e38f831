//! The values that a command asks for.

use crate::common::{balance_text, gas_text, NearBalance, NearGas, DEFAULT_GAS};
use vstd::prelude::*;
use vstd::string::*;

verus! {

/// A value that a command needs. The names are those of the command line.
#[derive(Clone, Copy, Debug, PartialEq, Eq, Structural)]
pub enum Field {
    MethodName,
    Args,
    Gas,
    Deposit,
    SenderAccountId,
    SignOption,
    SignerPublicKey,
    SignerPrivateKey,
    Nonce,
    BlockHash,
    Submit,
    Url,
    AccountId,
}

impl Field {
    /// The name of the field on the command line.
    pub open spec fn name_text(self) -> Seq<char> {
        match self {
            Field::MethodName => "method-name"@,
            Field::Args => "args"@,
            Field::Gas => "prepaid-gas"@,
            Field::Deposit => "attached-deposit"@,
            Field::SenderAccountId => "sender-account-id"@,
            Field::SignOption => "sign-option"@,
            Field::SignerPublicKey => "signer-public-key"@,
            Field::SignerPrivateKey => "signer-private-key"@,
            Field::Nonce => "nonce"@,
            Field::BlockHash => "block-hash"@,
            Field::Submit => "submit"@,
            Field::Url => "url"@,
            Field::AccountId => "account-id"@,
        }
    }

    /// The text that is offered when the operator is asked for the field: the
    /// usual amount of gas, no deposit, and nothing for every other field.
    pub open spec fn initial_text_of(self) -> Seq<char> {
        match self {
            Field::Gas => gas_text(DEFAULT_GAS),
            Field::Deposit => balance_text(0),
            _ => Seq::empty(),
        }
    }

    /// The name of the field on the command line.
    pub fn name(&self) -> (name: &'static str)
        ensures
            name@ == self.name_text(),
    {
        match self {
            Field::MethodName => "method-name",
            Field::Args => "args",
            Field::Gas => "prepaid-gas",
            Field::Deposit => "attached-deposit",
            Field::SenderAccountId => "sender-account-id",
            Field::SignOption => "sign-option",
            Field::SignerPublicKey => "signer-public-key",
            Field::SignerPrivateKey => "signer-private-key",
            Field::Nonce => "nonce",
            Field::BlockHash => "block-hash",
            Field::Submit => "submit",
            Field::Url => "url",
            Field::AccountId => "account-id",
        }
    }

    /// The text that is offered when the operator is asked for the field.
    pub fn initial_text(&self) -> (text: String)
        ensures
            text@ == self.initial_text_of(),
    {
        match self {
            Field::Gas => NearGas { inner: DEFAULT_GAS }.to_string(),
            Field::Deposit => NearBalance::from_yoctonear(0).to_string(),
            _ => String::new(),
        }
    }
}

} // verus!
