//! Signing with a key that is kept in a file of the keychain.

use crate::answer::{Answer, AnswerModel};
use crate::common::{
    account_key_dir, account_key_dir_of, base58_text, flag_args, network_key_file,
    network_key_file_of, offline_key_file, offline_key_file_of, push_flag, texts, ConnectionConfig,
    ConnectionConfigModel, CryptoHash,
};
use crate::errors::{plain_outcome, Error, ErrorModel};
use crate::field::Field;
use crate::keychain::{KeyFile, KeyFileModel};
use crate::sign_transaction::{submit_args, submit_to_cli_args, Submit};
use crate::signing::{Request, RequestModel, Signing, SigningModel};
use crate::text::{decimal_string, decimal_text};
use crate::transaction::{UnsignedTransaction, UnsignedTransactionModel};
use std::collections::VecDeque;
use vstd::prelude::*;
use vstd::string::*;

verus! {

/// Signing with a key from the keychain, as far as the command line says it.
#[derive(Clone, Copy, Debug, Default, PartialEq, Eq)]
pub struct CliSignKeychain {
    pub nonce: Option<u64>,
    pub block_hash: Option<CryptoHash>,
    pub submit: Option<Submit>,
}

/// Signing with a key from the keychain.
#[derive(Clone, Copy, Debug, PartialEq, Eq)]
pub struct SignKeychain {
    pub nonce: Option<u64>,
    pub block_hash: Option<CryptoHash>,
    pub submit: Option<Submit>,
}

/// The text of an optional nonce.
pub open spec fn opt_nonce_text(nonce: Option<u64>) -> Option<Seq<char>> {
    match nonce {
        Some(n) => Some(decimal_text(n as nat)),
        None => None,
    }
}

/// The text of an optional hash.
pub open spec fn opt_hash_text(hash: Option<CryptoHash>) -> Option<Seq<char>> {
    match hash {
        Some(h) => Some(base58_text(h.bytes@)),
        None => None,
    }
}

impl CliSignKeychain {
    /// The words of the record on the command line: the flags in the order
    /// of the fields, then the choice of what to do with the transaction.
    pub open spec fn cli_args(self) -> Seq<Seq<char>> {
        flag_args("--nonce"@, opt_nonce_text(self.nonce)) + flag_args(
            "--block-hash"@,
            opt_hash_text(self.block_hash),
        ) + submit_args(self.submit)
    }

    /// The record that the words on the command line resolve to, or the
    /// reason why they do not. With a network the nonce and the reference
    /// block are left to it. Without one the key file of the sender has to
    /// hold the sender's key, and both values have to be given.
    pub open spec fn resolve(
        self,
        online: bool,
        sender_account_id: Seq<char>,
        key_file: KeyFileModel,
    ) -> Result<SignKeychain, ErrorModel> {
        if online {
            Ok(SignKeychain { nonce: None, block_hash: None, submit: self.submit })
        } else {
            match key_file {
                KeyFileModel::Missing => Err(
                    ErrorModel::KeyFileNotFound { path: offline_key_file_of(sender_account_id) },
                ),
                KeyFileModel::Malformed => Err(
                    ErrorModel::KeyFileMalformed { path: offline_key_file_of(sender_account_id) },
                ),
                KeyFileModel::Entry(entry) => if !entry.is_key_of(sender_account_id) {
                    Err(
                        ErrorModel::KeyFileMalformed {
                            path: offline_key_file_of(sender_account_id),
                        },
                    )
                } else if self.nonce is None {
                    Err(ErrorModel::FieldResolutionFailed { field: Field::Nonce })
                } else if self.block_hash is None {
                    Err(ErrorModel::FieldResolutionFailed { field: Field::BlockHash })
                } else {
                    Ok(
                        SignKeychain {
                            nonce: self.nonce,
                            block_hash: self.block_hash,
                            submit: self.submit,
                        },
                    )
                },
            }
        }
    }

    /// The record once the operator has answered for a field. An answer
    /// for a field that the record does not have, or of another kind than the
    /// field takes, changes nothing.
    pub open spec fn supplied(self, field: Field, answer: AnswerModel) -> CliSignKeychain {
        match (field, answer) {
            (Field::Nonce, AnswerModel::Nonce(nonce)) => CliSignKeychain {
                nonce: Some(nonce),
                ..self
            },
            (Field::BlockHash, AnswerModel::BlockHash(block_hash)) => CliSignKeychain {
                block_hash: Some(block_hash),
                ..self
            },
            (Field::Submit, AnswerModel::Submit(submit)) => CliSignKeychain {
                submit: Some(submit),
                ..self
            },
            _ => self,
        }
    }

    /// Puts the operator's answer for a field into the record.
    pub fn supply(self, field: Field, answer: Answer) -> (cli: CliSignKeychain)
        ensures
            cli == self.supplied(field, answer@),
    {
        match (field, answer) {
            (Field::Nonce, Answer::Nonce(nonce)) => CliSignKeychain {
                nonce: Some(nonce),
                block_hash: self.block_hash,
                submit: self.submit,
            },
            (Field::BlockHash, Answer::BlockHash(block_hash)) => CliSignKeychain {
                nonce: self.nonce,
                block_hash: Some(block_hash),
                submit: self.submit,
            },
            (Field::Submit, Answer::Submit(submit)) => CliSignKeychain {
                nonce: self.nonce,
                block_hash: self.block_hash,
                submit: Some(submit),
            },
            _ => self,
        }
    }

    /// The words of the record on the command line.
    pub fn to_cli_args(&self) -> (args: VecDeque<String>)
        ensures
            texts(args@) == self.cli_args(),
    {
        let mut args = submit_to_cli_args(&self.submit);
        if let Some(block_hash) = &self.block_hash {
            push_flag(&mut args, "--block-hash", block_hash.to_string());
        }
        if let Some(nonce) = &self.nonce {
            push_flag(&mut args, "--nonce", decimal_string(*nonce as u128));
        }
        assert(texts(args@) =~= self.cli_args());
        args
    }
}

impl From<SignKeychain> for CliSignKeychain {
    /// The record as the command line would give it.
    fn from(sign_keychain: SignKeychain) -> (cli: CliSignKeychain)
        ensures
            cli == sign_keychain.to_cli(),
    {
        CliSignKeychain {
            nonce: sign_keychain.nonce,
            block_hash: sign_keychain.block_hash,
            submit: sign_keychain.submit,
        }
    }
}

impl vstd::std_specs::convert::FromSpecImpl<SignKeychain> for CliSignKeychain {
    open spec fn obeys_from_spec() -> bool {
        true
    }

    open spec fn from_spec(sign_keychain: SignKeychain) -> CliSignKeychain {
        sign_keychain.to_cli()
    }
}

impl SignKeychain {
    /// The record as the command line would give it.
    pub open spec fn to_cli(self) -> CliSignKeychain {
        CliSignKeychain { nonce: self.nonce, block_hash: self.block_hash, submit: self.submit }
    }

    /// The record is one that a resolution yields: without a network the
    /// nonce and the reference block are in it, with one neither is.
    pub open spec fn resolved_for(self, online: bool) -> bool {
        if online {
            self.nonce is None && self.block_hash is None
        } else {
            self.nonce is Some && self.block_hash is Some
        }
    }

    /// The signing that the record begins for a transaction: the key file of
    /// the signer is read first, that of the network where there is one, and
    /// only with a network is there a directory to scan if it is missing.
    pub open spec fn start(
        self,
        transaction: UnsignedTransactionModel,
        connection: Option<ConnectionConfigModel>,
    ) -> SigningModel {
        SigningModel {
            online: connection is Some,
            unsigned_transaction: transaction,
            private_key: Seq::empty(),
            nonce: self.nonce,
            block_hash: self.block_hash,
            submit: self.submit,
            scan_directory: match connection {
                Some(config) => Some(account_key_dir_of(config.dir_name(), transaction.signer_id)),
                None => None,
            },
            pending: RequestModel::ReadKeyFile {
                path: match connection {
                    Some(config) => network_key_file_of(config.dir_name(), transaction.signer_id),
                    None => offline_key_file_of(transaction.signer_id),
                },
            },
        }
    }

    /// Resolves what the command line says of signing with the keychain.
    /// Nothing is asked and nothing is read: `key_file` is what was found at
    /// the place of the sender's key file for use without a network (it is
    /// not looked at with a network), and a value that is missing comes back
    /// as the field to ask for.
    pub fn from(
        item: CliSignKeychain,
        connection_config: Option<ConnectionConfig>,
        sender_account_id: String,
        key_file: &KeyFile,
    ) -> (result: Result<SignKeychain, Error>)
        ensures
            plain_outcome(result) == item.resolve(
                connection_config is Some,
                sender_account_id@,
                key_file@,
            ),
    {
        let submit: Option<Submit> = item.submit;
        match connection_config {
            Some(_) => Ok(SignKeychain { nonce: None, block_hash: None, submit }),
            None => {
                match key_file {
                    KeyFile::Missing => {
                        return Err(
                            Error::KeyFileNotFound {
                                path: offline_key_file(sender_account_id.as_str()),
                            },
                        );
                    },
                    KeyFile::Malformed => {
                        return Err(
                            Error::KeyFileMalformed {
                                path: offline_key_file(sender_account_id.as_str()),
                            },
                        );
                    },
                    KeyFile::Entry(entry) => {
                        if !entry.is_key_of(&sender_account_id) {
                            return Err(
                                Error::KeyFileMalformed {
                                    path: offline_key_file(sender_account_id.as_str()),
                                },
                            );
                        }
                    },
                }
                let nonce: u64 = match item.nonce {
                    Some(cli_nonce) => cli_nonce,
                    None => {
                        return Err(Error::FieldResolutionFailed { field: Field::Nonce });
                    },
                };
                let block_hash = match item.block_hash {
                    Some(cli_block_hash) => cli_block_hash,
                    None => {
                        return Err(Error::FieldResolutionFailed { field: Field::BlockHash });
                    },
                };
                Ok(SignKeychain { nonce: Some(nonce), block_hash: Some(block_hash), submit })
            },
        }
    }

    /// Begins the signing of the transaction with a key from the keychain:
    /// the first request is for the key file of the signer.
    pub fn process(
        self,
        prepopulated_unsigned_transaction: UnsignedTransaction,
        connection_config: Option<ConnectionConfig>,
    ) -> (signing: Signing)
        ensures
            signing@ == self.start(
                prepopulated_unsigned_transaction@,
                crate::common::connection_model(connection_config),
            ),
            connection_config is None ==> signing@.keeps_offline(),
    {
        let signer_id = prepopulated_unsigned_transaction.signer_id.clone();
        let (path, scan_directory, online) = match &connection_config {
            None => (offline_key_file(signer_id.as_str()), None, false),
            Some(network_connection_config) => (
                network_key_file(network_connection_config, signer_id.as_str()),
                Some(account_key_dir(network_connection_config, signer_id.as_str())),
                true,
            ),
        };
        Signing {
            online,
            unsigned_transaction: prepopulated_unsigned_transaction,
            private_key: String::new(),
            nonce: self.nonce,
            block_hash: self.block_hash,
            submit: self.submit,
            scan_directory,
            pending: Request::ReadKeyFile { path },
        }
    }
}

/// A record that a resolution yields comes back from its own words: turned
/// into what the command line would give and resolved again, with the key
/// file of the sender in its place, it is the same record.
pub proof fn sign_keychain_round_trip(
    sign_keychain: SignKeychain,
    online: bool,
    sender_account_id: Seq<char>,
    key_file: KeyFileModel,
)
    requires
        sign_keychain.resolved_for(online),
        !online ==> key_file.is_record_of(sender_account_id),
    ensures
        sign_keychain.to_cli().resolve(online, sender_account_id, key_file) == Ok::<
            SignKeychain,
            ErrorModel,
        >(sign_keychain),
{
}

/// An answer brings the resolution forward: once the operator has answered
/// for the field that was missing, the resolution does not ask for that field
/// again.
pub proof fn sign_keychain_answer_is_taken(
    cli: CliSignKeychain,
    field: Field,
    answer: AnswerModel,
    online: bool,
    sender_account_id: Seq<char>,
    key_file: KeyFileModel,
)
    requires
        cli.resolve(online, sender_account_id, key_file) == Err::<SignKeychain, ErrorModel>(
            ErrorModel::FieldResolutionFailed { field },
        ),
        answer.fits(field),
    ensures
        cli.supplied(field, answer).resolve(online, sender_account_id, key_file) != Err::<
            SignKeychain,
            ErrorModel,
        >(ErrorModel::FieldResolutionFailed { field }),
{
}

} // verus!
