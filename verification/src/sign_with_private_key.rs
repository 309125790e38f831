//! Signing with a key pair that the caller gives in plain text.

use crate::answer::{Answer, AnswerModel};
use crate::common::{
    flag_args, opt_text, push_flag, texts, ConnectionConfig, ConnectionConfigModel, CryptoHash,
};
use crate::errors::{outcome, Error, ErrorModel};
use crate::field::Field;
use crate::sign_transaction::{submit_args, submit_to_cli_args, Submit};
use crate::sign_with_keychain::{opt_hash_text, opt_nonce_text};
use crate::signing::{Request, RequestModel, Signing, SigningModel};
use crate::text::decimal_string;
use crate::transaction::{UnsignedTransaction, UnsignedTransactionModel};
use std::collections::VecDeque;
use vstd::prelude::*;
use vstd::string::*;

verus! {

/// Signing with a given key pair, as far as the command line says it.
#[derive(Clone, Debug, Default, PartialEq, Eq)]
pub struct CliSignPrivateKey {
    pub signer_public_key: Option<String>,
    pub signer_private_key: Option<String>,
    pub nonce: Option<u64>,
    pub block_hash: Option<CryptoHash>,
    pub submit: Option<Submit>,
}

/// Mathematical model of a [`CliSignPrivateKey`].
pub struct CliSignPrivateKeyModel {
    pub signer_public_key: Option<Seq<char>>,
    pub signer_private_key: Option<Seq<char>>,
    pub nonce: Option<u64>,
    pub block_hash: Option<CryptoHash>,
    pub submit: Option<Submit>,
}

impl View for CliSignPrivateKey {
    type V = CliSignPrivateKeyModel;

    open spec fn view(&self) -> CliSignPrivateKeyModel {
        CliSignPrivateKeyModel {
            signer_public_key: opt_text(self.signer_public_key),
            signer_private_key: opt_text(self.signer_private_key),
            nonce: self.nonce,
            block_hash: self.block_hash,
            submit: self.submit,
        }
    }
}

/// Signing with a given key pair.
#[derive(Clone, Debug, PartialEq, Eq)]
pub struct SignPrivateKey {
    pub signer_public_key: String,
    pub signer_private_key: String,
    pub nonce: Option<u64>,
    pub block_hash: Option<CryptoHash>,
    pub submit: Option<Submit>,
}

/// Mathematical model of a [`SignPrivateKey`].
pub struct SignPrivateKeyModel {
    pub signer_public_key: Seq<char>,
    pub signer_private_key: Seq<char>,
    pub nonce: Option<u64>,
    pub block_hash: Option<CryptoHash>,
    pub submit: Option<Submit>,
}

impl View for SignPrivateKey {
    type V = SignPrivateKeyModel;

    open spec fn view(&self) -> SignPrivateKeyModel {
        SignPrivateKeyModel {
            signer_public_key: self.signer_public_key@,
            signer_private_key: self.signer_private_key@,
            nonce: self.nonce,
            block_hash: self.block_hash,
            submit: self.submit,
        }
    }
}

impl CliSignPrivateKeyModel {
    /// The words of the record on the command line: the flags in the order
    /// of the fields, then the choice of what to do with the transaction.
    pub open spec fn cli_args(self) -> Seq<Seq<char>> {
        flag_args("--signer-public-key"@, self.signer_public_key) + flag_args(
            "--signer-private-key"@,
            self.signer_private_key,
        ) + flag_args("--nonce"@, opt_nonce_text(self.nonce)) + flag_args(
            "--block-hash"@,
            opt_hash_text(self.block_hash),
        ) + submit_args(self.submit)
    }

    /// The record once the operator has answered for a field. An answer
    /// for a field that the record does not have, or of another kind than the
    /// field takes, changes nothing.
    pub open spec fn supplied(self, field: Field, answer: AnswerModel) -> CliSignPrivateKeyModel {
        match (field, answer) {
            (Field::SignerPublicKey, AnswerModel::Text(key)) => CliSignPrivateKeyModel {
                signer_public_key: Some(key),
                ..self
            },
            (Field::SignerPrivateKey, AnswerModel::Text(key)) => CliSignPrivateKeyModel {
                signer_private_key: Some(key),
                ..self
            },
            (Field::Nonce, AnswerModel::Nonce(nonce)) => CliSignPrivateKeyModel {
                nonce: Some(nonce),
                ..self
            },
            (Field::BlockHash, AnswerModel::BlockHash(block_hash)) => CliSignPrivateKeyModel {
                block_hash: Some(block_hash),
                ..self
            },
            (Field::Submit, AnswerModel::Submit(submit)) => CliSignPrivateKeyModel {
                submit: Some(submit),
                ..self
            },
            _ => self,
        }
    }

    /// The record that the words on the command line resolve to, or the
    /// first field that is missing. With a network the nonce and the
    /// reference block are left to it; without one both have to be given.
    pub open spec fn resolve(self, online: bool) -> Result<SignPrivateKeyModel, ErrorModel> {
        if self.signer_public_key is None {
            Err(ErrorModel::FieldResolutionFailed { field: Field::SignerPublicKey })
        } else if self.signer_private_key is None {
            Err(ErrorModel::FieldResolutionFailed { field: Field::SignerPrivateKey })
        } else if online {
            Ok(
                SignPrivateKeyModel {
                    signer_public_key: self.signer_public_key->Some_0,
                    signer_private_key: self.signer_private_key->Some_0,
                    nonce: None,
                    block_hash: None,
                    submit: self.submit,
                },
            )
        } else if self.nonce is None {
            Err(ErrorModel::FieldResolutionFailed { field: Field::Nonce })
        } else if self.block_hash is None {
            Err(ErrorModel::FieldResolutionFailed { field: Field::BlockHash })
        } else {
            Ok(
                SignPrivateKeyModel {
                    signer_public_key: self.signer_public_key->Some_0,
                    signer_private_key: self.signer_private_key->Some_0,
                    nonce: self.nonce,
                    block_hash: self.block_hash,
                    submit: self.submit,
                },
            )
        }
    }
}

impl SignPrivateKeyModel {
    /// The record as the command line would give it.
    pub open spec fn to_cli(self) -> CliSignPrivateKeyModel {
        CliSignPrivateKeyModel {
            signer_public_key: Some(self.signer_public_key),
            signer_private_key: Some(self.signer_private_key),
            nonce: self.nonce,
            block_hash: self.block_hash,
            submit: self.submit,
        }
    }

    /// The record is one that a resolution yields: without a network the
    /// nonce and the reference block are in it, with one neither is.
    pub open spec fn resolved_for(self, online: bool) -> bool {
        if online {
            self.nonce is None && self.block_hash is None
        } else {
            self.nonce is Some && self.block_hash is Some
        }
    }

    /// The signing that the record begins for a transaction: the key is
    /// known, so nothing is read and no keychain is scanned.
    pub open spec fn start(
        self,
        transaction: UnsignedTransactionModel,
        connection: Option<ConnectionConfigModel>,
    ) -> SigningModel {
        (SigningModel {
            online: connection is Some,
            unsigned_transaction: transaction,
            private_key: Seq::empty(),
            nonce: self.nonce,
            block_hash: self.block_hash,
            submit: self.submit,
            scan_directory: None,
            pending: RequestModel::Sign,
        }).with_key(self.signer_public_key, self.signer_private_key)
    }
}

impl CliSignPrivateKey {
    /// Puts the operator's answer for a field into the record.
    pub fn supply(self, field: Field, answer: Answer) -> (cli: CliSignPrivateKey)
        ensures
            cli@ == self@.supplied(field, answer@),
    {
        match (field, answer) {
            (Field::SignerPublicKey, Answer::Text(key)) => CliSignPrivateKey {
                signer_public_key: Some(key),
                signer_private_key: self.signer_private_key,
                nonce: self.nonce,
                block_hash: self.block_hash,
                submit: self.submit,
            },
            (Field::SignerPrivateKey, Answer::Text(key)) => CliSignPrivateKey {
                signer_public_key: self.signer_public_key,
                signer_private_key: Some(key),
                nonce: self.nonce,
                block_hash: self.block_hash,
                submit: self.submit,
            },
            (Field::Nonce, Answer::Nonce(nonce)) => CliSignPrivateKey {
                signer_public_key: self.signer_public_key,
                signer_private_key: self.signer_private_key,
                nonce: Some(nonce),
                block_hash: self.block_hash,
                submit: self.submit,
            },
            (Field::BlockHash, Answer::BlockHash(block_hash)) => CliSignPrivateKey {
                signer_public_key: self.signer_public_key,
                signer_private_key: self.signer_private_key,
                nonce: self.nonce,
                block_hash: Some(block_hash),
                submit: self.submit,
            },
            (Field::Submit, Answer::Submit(submit)) => CliSignPrivateKey {
                signer_public_key: self.signer_public_key,
                signer_private_key: self.signer_private_key,
                nonce: self.nonce,
                block_hash: self.block_hash,
                submit: Some(submit),
            },
            (_, _) => self,
        }
    }

    /// The words of the record on the command line.
    pub fn to_cli_args(&self) -> (args: VecDeque<String>)
        ensures
            texts(args@) == self@.cli_args(),
    {
        let mut args = submit_to_cli_args(&self.submit);
        if let Some(block_hash) = &self.block_hash {
            push_flag(&mut args, "--block-hash", block_hash.to_string());
        }
        if let Some(nonce) = &self.nonce {
            push_flag(&mut args, "--nonce", decimal_string(*nonce as u128));
        }
        if let Some(signer_private_key) = &self.signer_private_key {
            push_flag(&mut args, "--signer-private-key", signer_private_key.clone());
        }
        if let Some(signer_public_key) = &self.signer_public_key {
            push_flag(&mut args, "--signer-public-key", signer_public_key.clone());
        }
        assert(texts(args@) =~= self@.cli_args());
        args
    }
}

impl From<SignPrivateKey> for CliSignPrivateKey {
    /// The record as the command line would give it.
    fn from(sign_private_key: SignPrivateKey) -> (cli: CliSignPrivateKey)
        ensures
            cli@ == sign_private_key@.to_cli(),
    {
        CliSignPrivateKey {
            signer_public_key: Some(sign_private_key.signer_public_key),
            signer_private_key: Some(sign_private_key.signer_private_key),
            nonce: sign_private_key.nonce,
            block_hash: sign_private_key.block_hash,
            submit: sign_private_key.submit,
        }
    }
}

/// The record that `from` returns is stated in the contract of `from`, over
/// the models: no more is known of a string than its text.
impl vstd::std_specs::convert::FromSpecImpl<SignPrivateKey> for CliSignPrivateKey {
    open spec fn obeys_from_spec() -> bool {
        false
    }

    open spec fn from_spec(sign_private_key: SignPrivateKey) -> CliSignPrivateKey {
        arbitrary()
    }
}

impl SignPrivateKey {
    /// Resolves what the command line says of signing with a given key
    /// pair. Nothing is asked: a value that is missing comes back as the
    /// field to ask for.
    pub fn from(item: CliSignPrivateKey, connection_config: Option<ConnectionConfig>) -> (result:
        Result<SignPrivateKey, Error>)
        ensures
            outcome(result) == item@.resolve(connection_config is Some),
    {
        let signer_public_key = match item.signer_public_key {
            Some(cli_public_key) => cli_public_key,
            None => {
                return Err(Error::FieldResolutionFailed { field: Field::SignerPublicKey });
            },
        };
        let signer_private_key = match item.signer_private_key {
            Some(cli_private_key) => cli_private_key,
            None => {
                return Err(Error::FieldResolutionFailed { field: Field::SignerPrivateKey });
            },
        };
        let submit: Option<Submit> = item.submit;
        match connection_config {
            Some(_) => Ok(
                SignPrivateKey {
                    signer_public_key,
                    signer_private_key,
                    nonce: None,
                    block_hash: None,
                    submit,
                },
            ),
            None => {
                let nonce: u64 = match item.nonce {
                    Some(cli_nonce) => cli_nonce,
                    None => {
                        return Err(Error::FieldResolutionFailed { field: Field::Nonce });
                    },
                };
                let block_hash = match item.block_hash {
                    Some(cli_block_hash) => cli_block_hash,
                    None => {
                        return Err(Error::FieldResolutionFailed { field: Field::BlockHash });
                    },
                };
                Ok(
                    SignPrivateKey {
                        signer_public_key,
                        signer_private_key,
                        nonce: Some(nonce),
                        block_hash: Some(block_hash),
                        submit,
                    },
                )
            },
        }
    }

    /// Begins the signing of the transaction with the given key pair.
    /// Nothing is looked up, on disk or on the network, to find the key.
    pub fn process(
        self,
        prepopulated_unsigned_transaction: UnsignedTransaction,
        connection_config: Option<ConnectionConfig>,
    ) -> (signing: Signing)
        ensures
            signing@ == self@.start(
                prepopulated_unsigned_transaction@,
                crate::common::connection_model(connection_config),
            ),
            connection_config is None ==> signing@.keeps_offline(),
    {
        let begun = Signing {
            online: connection_config.is_some(),
            unsigned_transaction: prepopulated_unsigned_transaction,
            private_key: String::new(),
            nonce: self.nonce,
            block_hash: self.block_hash,
            submit: self.submit,
            scan_directory: None,
            pending: Request::Sign,
        };
        begun.with_key(self.signer_public_key, self.signer_private_key)
    }
}

/// With a given key pair no key is looked for: the signing begins with the
/// key known, and asks for no key file and for no scan of a keychain.
pub proof fn given_key_pair_needs_no_lookup(
    sign_private_key: SignPrivateKeyModel,
    transaction: UnsignedTransactionModel,
    connection: Option<ConnectionConfigModel>,
)
    ensures
        sign_private_key.start(transaction, connection).phase().rank() >= 1,
        sign_private_key.start(transaction, connection).private_key
            == sign_private_key.signer_private_key,
        sign_private_key.start(transaction, connection).unsigned_transaction.public_key
            == sign_private_key.signer_public_key,
{
}

/// A record that a resolution yields comes back from its own words: turned
/// into what the command line would give and resolved again, it is the same
/// record.
pub proof fn sign_private_key_round_trip(sign_private_key: SignPrivateKeyModel, online: bool)
    requires
        sign_private_key.resolved_for(online),
    ensures
        sign_private_key.to_cli().resolve(online) == Ok::<SignPrivateKeyModel, ErrorModel>(
            sign_private_key,
        ),
{
}

/// An answer brings the resolution forward: once the operator has answered
/// for the field that was missing, the resolution does not ask for that field
/// again.
pub proof fn sign_private_key_answer_is_taken(
    cli: CliSignPrivateKeyModel,
    field: Field,
    answer: AnswerModel,
    online: bool,
)
    requires
        cli.resolve(online) == Err::<SignPrivateKeyModel, ErrorModel>(
            ErrorModel::FieldResolutionFailed { field },
        ),
        answer.fits(field),
    ensures
        cli.supplied(field, answer).resolve(online) != Err::<SignPrivateKeyModel, ErrorModel>(
            ErrorModel::FieldResolutionFailed { field },
        ),
{
}

} // verus!
