//! What the operator answers when a command asks for a field.

use crate::common::{CryptoHash, NearBalance, NearGas};
use crate::field::Field;
use crate::sign_transaction::Submit;
use vstd::prelude::*;
use vstd::string::*;

verus! {

/// A way to sign, without its details.
#[derive(Clone, Copy, Debug, PartialEq, Eq, Structural)]
pub enum SignMethod {
    /// With a key pair that is given in plain text.
    PrivateKey,
    /// With a key that is kept in a file.
    Keychain,
}

/// The value that the operator gave for a field.
#[derive(Clone, Debug, PartialEq, Eq)]
pub enum Answer {
    Text(String),
    Gas(NearGas),
    Deposit(NearBalance),
    Nonce(u64),
    BlockHash(CryptoHash),
    SignOption(SignMethod),
    Submit(Submit),
}

/// Mathematical model of an [`Answer`].
pub enum AnswerModel {
    Text(Seq<char>),
    Gas(NearGas),
    Deposit(NearBalance),
    Nonce(u64),
    BlockHash(CryptoHash),
    SignOption(SignMethod),
    Submit(Submit),
}

impl View for Answer {
    type V = AnswerModel;

    open spec fn view(&self) -> AnswerModel {
        match self {
            Answer::Text(text) => AnswerModel::Text(text@),
            Answer::Gas(gas) => AnswerModel::Gas(*gas),
            Answer::Deposit(deposit) => AnswerModel::Deposit(*deposit),
            Answer::Nonce(nonce) => AnswerModel::Nonce(*nonce),
            Answer::BlockHash(block_hash) => AnswerModel::BlockHash(*block_hash),
            Answer::SignOption(method) => AnswerModel::SignOption(*method),
            Answer::Submit(submit) => AnswerModel::Submit(*submit),
        }
    }
}

impl AnswerModel {
    /// The answer is of the kind that the field takes.
    pub open spec fn fits(self, field: Field) -> bool {
        match field {
            Field::MethodName => self is Text,
            Field::Args => self is Text,
            Field::Gas => self is Gas,
            Field::Deposit => self is Deposit,
            Field::SenderAccountId => self is Text,
            Field::SignOption => self is SignOption,
            Field::SignerPublicKey => self is Text,
            Field::SignerPrivateKey => self is Text,
            Field::Nonce => self is Nonce,
            Field::BlockHash => self is BlockHash,
            Field::Submit => self is Submit,
            Field::Url => self is Text,
            Field::AccountId => self is Text,
        }
    }

    /// The text of the answer, if it is a text.
    pub open spec fn text(self) -> Option<Seq<char>> {
        match self {
            AnswerModel::Text(text) => Some(text),
            _ => None,
        }
    }
}

impl Answer {
    /// Says whether the answer is of the kind that the field takes.
    pub fn fits(&self, field: Field) -> (fits: bool)
        ensures
            fits == self@.fits(field),
    {
        match field {
            Field::MethodName
            | Field::Args
            | Field::SenderAccountId
            | Field::SignerPublicKey
            | Field::SignerPrivateKey
            | Field::Url
            | Field::AccountId => match self {
                Answer::Text(_) => true,
                _ => false,
            },
            Field::Gas => match self {
                Answer::Gas(_) => true,
                _ => false,
            },
            Field::Deposit => match self {
                Answer::Deposit(_) => true,
                _ => false,
            },
            Field::SignOption => match self {
                Answer::SignOption(_) => true,
                _ => false,
            },
            Field::Nonce => match self {
                Answer::Nonce(_) => true,
                _ => false,
            },
            Field::BlockHash => match self {
                Answer::BlockHash(_) => true,
                _ => false,
            },
            Field::Submit => match self {
                Answer::Submit(_) => true,
                _ => false,
            },
        }
    }
}

} // verus!
