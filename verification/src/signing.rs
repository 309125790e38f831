//! The way from an assembled transaction to its end: the key is found, the
//! transaction is signed, and it is sent or shown.
//!
//! The steps that need the disk, the network, the signer or the operator are
//! not taken here. A [`Signing`] names the one request that it waits for; the
//! caller carries it out and hands the reply to [`Signing::step`].

use crate::common::{file_in_dir, join_path, opt_text, texts, CryptoHash};
use crate::errors::{Error, ErrorModel, Operation};
use crate::field::Field;
use crate::keychain::{
    access_key_models, select_key_file, selected_file, AccessKey, AccessKeyModel, KeyFile,
    KeyFileModel,
};
use crate::sign_transaction::Submit;
use crate::transaction::{
    set_identity, set_validity, UnsignedTransaction, UnsignedTransactionModel,
};
use vstd::prelude::*;
use vstd::string::*;

verus! {

/// A signed transaction of `near_primitives`. Nothing here looks into it.
#[verifier::external_type_specification]
#[verifier::external_body]
pub struct ExSignedTransaction(near_primitives::transaction::SignedTransaction);

/// The final outcome of a transaction, as `near_primitives` holds what the
/// network reports. Nothing here looks into it.
#[verifier::external_type_specification]
#[verifier::external_body]
pub struct ExFinalExecutionOutcomeView(near_primitives::views::FinalExecutionOutcomeView);

/// What the network answered when a transaction was sent.
#[derive(Debug, PartialEq)]
pub enum Outcome {
    /// The transaction was taken in; its execution was not waited for.
    Accepted { transaction_hash: CryptoHash },
    /// The execution has come to its end.
    Final(near_primitives::views::FinalExecutionOutcomeView),
}

/// The nonce of an access key and the latest final block, as the network
/// reports them.
#[derive(Clone, Copy, Debug, PartialEq, Eq)]
pub struct AccessKeyState {
    pub nonce: u64,
    pub block_hash: CryptoHash,
}

/// What the caller is asked to do.
#[derive(Debug, PartialEq)]
pub enum Request {
    /// Read the key file at the path, which is relative to the home directory.
    ReadKeyFile { path: String },
    /// Ask the network for the access keys of the signer, and list the names
    /// of the files in the directory, which is relative to the home directory.
    ScanKeychain { directory: String },
    /// Ask the network for the nonce of the signer's access key and for the
    /// latest final block.
    ViewAccessKey,
    /// Sign the transaction with the private key.
    Sign,
    /// Ask the operator whether the transaction is to be sent.
    ChooseSubmit { signed_transaction: near_primitives::transaction::SignedTransaction },
    /// Send the transaction to the network.
    Broadcast { signed_transaction: near_primitives::transaction::SignedTransaction },
    /// Show the transaction in place of sending it.
    Display { signed_transaction: near_primitives::transaction::SignedTransaction },
    /// Nothing more: the outcome, if the transaction was sent.
    Finish { outcome: Option<Outcome> },
    /// Nothing more: the command has failed.
    Abort { error: Error },
}

/// Mathematical model of a [`Request`].
pub enum RequestModel {
    ReadKeyFile { path: Seq<char> },
    ScanKeychain { directory: Seq<char> },
    ViewAccessKey,
    Sign,
    ChooseSubmit { signed_transaction: near_primitives::transaction::SignedTransaction },
    Broadcast { signed_transaction: near_primitives::transaction::SignedTransaction },
    Display { signed_transaction: near_primitives::transaction::SignedTransaction },
    Finish { outcome: Option<Outcome> },
    Abort { error: ErrorModel },
}

impl View for Request {
    type V = RequestModel;

    open spec fn view(&self) -> RequestModel {
        match self {
            Request::ReadKeyFile { path } => RequestModel::ReadKeyFile { path: path@ },
            Request::ScanKeychain { directory } => RequestModel::ScanKeychain {
                directory: directory@,
            },
            Request::ViewAccessKey => RequestModel::ViewAccessKey,
            Request::Sign => RequestModel::Sign,
            Request::ChooseSubmit { signed_transaction } => RequestModel::ChooseSubmit {
                signed_transaction: *signed_transaction,
            },
            Request::Broadcast { signed_transaction } => RequestModel::Broadcast {
                signed_transaction: *signed_transaction,
            },
            Request::Display { signed_transaction } => RequestModel::Display {
                signed_transaction: *signed_transaction,
            },
            Request::Finish { outcome } => RequestModel::Finish { outcome: *outcome },
            Request::Abort { error } => RequestModel::Abort { error: error@ },
        }
    }
}

impl RequestModel {
    /// The request cannot be met without the network.
    pub open spec fn uses_network(self) -> bool {
        self is ScanKeychain || self is ViewAccessKey || self is Broadcast
    }

    /// The request ends the signing.
    pub open spec fn is_terminal(self) -> bool {
        self is Finish || self is Abort
    }
}

/// What the caller reports of a request that it has carried out.
#[derive(Debug, PartialEq)]
pub enum Reply {
    /// What came of reading the key file.
    KeyFile(KeyFile),
    /// The access keys of the signer, unless the network failed; the names of
    /// the files in the directory, unless it cannot be read.
    Keychain { access_keys: Option<Vec<AccessKey>>, file_names: Option<Vec<String>> },
    /// The state of the signer's access key, unless the network failed.
    AccessKey(Option<AccessKeyState>),
    /// The signed transaction.
    Signed(near_primitives::transaction::SignedTransaction),
    /// What the operator chose.
    SubmitChosen(Submit),
    /// What the network answered, unless it failed.
    Broadcast(Option<Outcome>),
    /// The transaction was shown.
    Displayed,
}

/// Mathematical model of a [`Reply`].
pub enum ReplyModel {
    KeyFile(KeyFileModel),
    Keychain { access_keys: Option<Seq<AccessKeyModel>>, file_names: Option<Seq<Seq<char>>> },
    AccessKey(Option<AccessKeyState>),
    Signed(near_primitives::transaction::SignedTransaction),
    SubmitChosen(Submit),
    Broadcast(Option<Outcome>),
    Displayed,
}

impl View for Reply {
    type V = ReplyModel;

    open spec fn view(&self) -> ReplyModel {
        match self {
            Reply::KeyFile(file) => ReplyModel::KeyFile(file@),
            Reply::Keychain { access_keys, file_names } => ReplyModel::Keychain {
                access_keys: match access_keys {
                    Some(keys) => Some(access_key_models(keys@)),
                    None => None,
                },
                file_names: match file_names {
                    Some(names) => Some(texts(names@)),
                    None => None,
                },
            },
            Reply::AccessKey(state) => ReplyModel::AccessKey(*state),
            Reply::Signed(signed_transaction) => ReplyModel::Signed(*signed_transaction),
            Reply::SubmitChosen(choice) => ReplyModel::SubmitChosen(*choice),
            Reply::Broadcast(outcome) => ReplyModel::Broadcast(*outcome),
            Reply::Displayed => ReplyModel::Displayed,
        }
    }
}

/// How far a signing has come.
#[derive(Clone, Copy, Debug, PartialEq, Eq, Structural)]
pub enum Phase {
    /// The key of the signer is looked for.
    Assembling,
    /// The key is known; the transaction is completed and signed.
    KeyResolved,
    /// The transaction is signed.
    Signed,
    /// The transaction was sent.
    Submitted,
    /// Without a network the signed transaction was handed out.
    Saved,
    /// The signed transaction was shown and not sent.
    DryRun,
    /// The command has failed.
    Failed,
}

impl Phase {
    /// The place of the phase on the way: a step never leads to a lower one.
    pub open spec fn rank(self) -> int {
        match self {
            Phase::Assembling => 0,
            Phase::KeyResolved => 1,
            Phase::Signed => 2,
            Phase::Submitted => 3,
            Phase::Saved => 3,
            Phase::DryRun => 3,
            Phase::Failed => 3,
        }
    }
}

/// A signing on its way.
#[derive(Debug, PartialEq)]
pub struct Signing {
    /// Whether a network is used.
    pub online: bool,
    pub unsigned_transaction: UnsignedTransaction,
    /// The private key of the signer, as text; empty until the key is known.
    pub private_key: String,
    /// The nonce, where it was given.
    pub nonce: Option<u64>,
    /// The reference block, where it was given.
    pub block_hash: Option<CryptoHash>,
    /// Whether to send the transaction, where that was chosen.
    pub submit: Option<Submit>,
    /// The directory to scan if the key file that is read first is missing.
    pub scan_directory: Option<String>,
    /// What the caller is asked to do now.
    pub pending: Request,
}

/// Mathematical model of a [`Signing`].
pub struct SigningModel {
    pub online: bool,
    pub unsigned_transaction: UnsignedTransactionModel,
    pub private_key: Seq<char>,
    pub nonce: Option<u64>,
    pub block_hash: Option<CryptoHash>,
    pub submit: Option<Submit>,
    pub scan_directory: Option<Seq<char>>,
    pub pending: RequestModel,
}

impl View for Signing {
    type V = SigningModel;

    open spec fn view(&self) -> SigningModel {
        SigningModel {
            online: self.online,
            unsigned_transaction: self.unsigned_transaction@,
            private_key: self.private_key@,
            nonce: self.nonce,
            block_hash: self.block_hash,
            submit: self.submit,
            scan_directory: opt_text(self.scan_directory),
            pending: self.pending@,
        }
    }
}

impl SigningModel {
    /// The signing with another request.
    pub open spec fn asking(self, pending: RequestModel) -> SigningModel {
        SigningModel { pending, ..self }
    }

    /// The signing, failed.
    pub open spec fn failed(self, error: ErrorModel) -> SigningModel {
        self.asking(RequestModel::Abort { error })
    }

    /// How far the signing has come.
    pub open spec fn phase(self) -> Phase {
        match self.pending {
            RequestModel::ReadKeyFile { .. } => Phase::Assembling,
            RequestModel::ScanKeychain { .. } => Phase::Assembling,
            RequestModel::ViewAccessKey => Phase::KeyResolved,
            RequestModel::Sign => Phase::KeyResolved,
            RequestModel::ChooseSubmit { .. } => Phase::Signed,
            RequestModel::Broadcast { .. } => Phase::Signed,
            RequestModel::Display { .. } => Phase::Signed,
            RequestModel::Finish { outcome } => if outcome is Some {
                Phase::Submitted
            } else if self.online {
                Phase::DryRun
            } else {
                Phase::Saved
            },
            RequestModel::Abort { .. } => Phase::Failed,
        }
    }

    /// No network is used, and nothing of the signing leads to it.
    pub open spec fn keeps_offline(self) -> bool {
        !self.online && self.scan_directory is None && !self.pending.uses_network()
    }

    /// The signing once the key is known and the transaction carries it: with
    /// a nonce and a reference block the transaction is ready for the
    /// signature; with a network they are asked for; without one the command
    /// fails on the first of the two that is missing.
    pub open spec fn completing(self) -> SigningModel {
        if self.nonce is Some && self.block_hash is Some {
            SigningModel {
                unsigned_transaction: self.unsigned_transaction.with_validity(
                    self.nonce->Some_0,
                    self.block_hash->Some_0,
                ),
                pending: RequestModel::Sign,
                ..self
            }
        } else if self.online {
            self.asking(RequestModel::ViewAccessKey)
        } else if self.nonce is None {
            self.failed(ErrorModel::OfflineFieldMissing { field: Field::Nonce })
        } else {
            self.failed(ErrorModel::OfflineFieldMissing { field: Field::BlockHash })
        }
    }

    /// The signing once the key pair is known.
    pub open spec fn with_key(self, public_key: Seq<char>, private_key: Seq<char>) -> SigningModel {
        (SigningModel {
            unsigned_transaction: self.unsigned_transaction.with_identity(
                self.unsigned_transaction.signer_id,
                public_key,
            ),
            private_key,
            ..self
        }).completing()
    }

    /// The signing once the network has told the state of the access key: a
    /// nonce that was not given is the one after the key's, a reference block
    /// that was not given is the latest final block.
    pub open spec fn with_access_key_state(self, state: AccessKeyState) -> SigningModel {
        if state.nonce == u64::MAX {
            self.failed(ErrorModel::NetworkRequestFailed { operation: Operation::ViewAccessKey })
        } else {
            let nonce = if self.nonce is Some {
                self.nonce->Some_0
            } else {
                (state.nonce + 1) as u64
            };
            let block_hash = if self.block_hash is Some {
                self.block_hash->Some_0
            } else {
                state.block_hash
            };
            SigningModel {
                unsigned_transaction: self.unsigned_transaction.with_validity(nonce, block_hash),
                pending: RequestModel::Sign,
                ..self
            }
        }
    }

    /// The signing once the transaction is signed: without a network it is
    /// shown; with one it is sent or shown as was chosen, and the operator is
    /// asked where nothing was chosen.
    pub open spec fn with_signature(
        self,
        signed_transaction: near_primitives::transaction::SignedTransaction,
    ) -> SigningModel {
        if !self.online {
            self.asking(RequestModel::Display { signed_transaction })
        } else {
            match self.submit {
                None => self.asking(RequestModel::ChooseSubmit { signed_transaction }),
                Some(Submit::Send) => self.asking(RequestModel::Broadcast { signed_transaction }),
                Some(Submit::Display) => self.asking(RequestModel::Display { signed_transaction }),
            }
        }
    }

    /// The signing once a key file was read. A record that is not the key of
    /// the signer is no key file; a file that is missing sends the search on
    /// to the directory of the account, where there is one to scan.
    pub open spec fn with_key_file(self, path: Seq<char>, file: KeyFileModel) -> SigningModel {
        match file {
            KeyFileModel::Entry(entry) => if entry.is_key_of(self.unsigned_transaction.signer_id) {
                self.with_key(entry.public_key, entry.private_key)
            } else {
                self.failed(ErrorModel::KeyFileMalformed { path })
            },
            KeyFileModel::Malformed => self.failed(ErrorModel::KeyFileMalformed { path }),
            KeyFileModel::Missing => match self.scan_directory {
                Some(directory) => SigningModel {
                    scan_directory: None,
                    pending: RequestModel::ScanKeychain { directory },
                    ..self
                },
                None => self.failed(ErrorModel::KeyFileNotFound { path }),
            },
        }
    }

    /// The signing once the keychain of the account was scanned.
    pub open spec fn with_keychain(
        self,
        directory: Seq<char>,
        access_keys: Option<Seq<AccessKeyModel>>,
        file_names: Option<Seq<Seq<char>>>,
    ) -> SigningModel {
        match access_keys {
            None => self.failed(
                ErrorModel::NetworkRequestFailed { operation: Operation::ViewAccessKeyList },
            ),
            Some(keys) => match file_names {
                None => self.failed(
                    ErrorModel::NoFullAccessKeyInKeychain {
                        path: directory,
                        directory_readable: false,
                    },
                ),
                Some(names) => match selected_file(keys, names) {
                    None => self.failed(
                        ErrorModel::NoFullAccessKeyInKeychain {
                            path: directory,
                            directory_readable: true,
                        },
                    ),
                    Some(j) => self.asking(
                        RequestModel::ReadKeyFile { path: file_in_dir(directory, names[j]) },
                    ),
                },
            },
        }
    }

    /// The signing after the reply to its request. A reply that does not
    /// answer the request changes nothing.
    pub open spec fn step(self, reply: ReplyModel) -> SigningModel {
        match (self.pending, reply) {
            (RequestModel::ReadKeyFile { path }, ReplyModel::KeyFile(file)) => self.with_key_file(
                path,
                file,
            ),
            (
                RequestModel::ScanKeychain { directory },
                ReplyModel::Keychain { access_keys, file_names },
            ) => self.with_keychain(directory, access_keys, file_names),
            (RequestModel::ViewAccessKey, ReplyModel::AccessKey(state)) => match state {
                None => self.failed(
                    ErrorModel::NetworkRequestFailed { operation: Operation::ViewAccessKey },
                ),
                Some(state) => self.with_access_key_state(state),
            },
            (RequestModel::Sign, ReplyModel::Signed(signed_transaction)) => self.with_signature(
                signed_transaction,
            ),
            (
                RequestModel::ChooseSubmit { signed_transaction },
                ReplyModel::SubmitChosen(choice),
            ) => (SigningModel { submit: Some(choice), ..self }).with_signature(signed_transaction),
            (RequestModel::Broadcast { .. }, ReplyModel::Broadcast(result)) => match result {
                None => self.failed(
                    ErrorModel::NetworkRequestFailed { operation: Operation::BroadcastTransaction },
                ),
                Some(outcome) => self.asking(RequestModel::Finish { outcome: Some(outcome) }),
            },
            (RequestModel::Display { .. }, ReplyModel::Displayed) => self.asking(
                RequestModel::Finish { outcome: None },
            ),
            _ => self,
        }
    }
}

impl Signing {
    /// What the caller is asked to do now.
    pub fn request(&self) -> (request: &Request)
        ensures
            *request == self.pending,
    {
        &self.pending
    }

    /// How far the signing has come.
    pub fn phase(&self) -> (phase: Phase)
        ensures
            phase == self@.phase(),
    {
        match &self.pending {
            Request::ReadKeyFile { .. } => Phase::Assembling,
            Request::ScanKeychain { .. } => Phase::Assembling,
            Request::ViewAccessKey => Phase::KeyResolved,
            Request::Sign => Phase::KeyResolved,
            Request::ChooseSubmit { .. } => Phase::Signed,
            Request::Broadcast { .. } => Phase::Signed,
            Request::Display { .. } => Phase::Signed,
            Request::Finish { outcome } => if outcome.is_some() {
                Phase::Submitted
            } else if self.online {
                Phase::DryRun
            } else {
                Phase::Saved
            },
            Request::Abort { .. } => Phase::Failed,
        }
    }

    /// The signing, failed.
    fn failed(self, error: Error) -> (next: Signing)
        ensures
            next@ == self@.failed(error@),
    {
        Signing {
            online: self.online,
            unsigned_transaction: self.unsigned_transaction,
            private_key: self.private_key,
            nonce: self.nonce,
            block_hash: self.block_hash,
            submit: self.submit,
            scan_directory: self.scan_directory,
            pending: Request::Abort { error },
        }
    }

    /// The signing with another request.
    fn asking(self, pending: Request) -> (next: Signing)
        ensures
            next@ == self@.asking(pending@),
    {
        Signing {
            online: self.online,
            unsigned_transaction: self.unsigned_transaction,
            private_key: self.private_key,
            nonce: self.nonce,
            block_hash: self.block_hash,
            submit: self.submit,
            scan_directory: self.scan_directory,
            pending,
        }
    }

    /// Goes on once the key is known and the transaction carries it.
    fn completing(self) -> (next: Signing)
        ensures
            next@ == self@.completing(),
    {
        match (self.nonce, self.block_hash) {
            (Some(nonce), Some(block_hash)) => {
                let mut unsigned_transaction = self.unsigned_transaction;
                set_validity(&mut unsigned_transaction, nonce, block_hash);
                Signing {
                    online: self.online,
                    unsigned_transaction,
                    private_key: self.private_key,
                    nonce: self.nonce,
                    block_hash: self.block_hash,
                    submit: self.submit,
                    scan_directory: self.scan_directory,
                    pending: Request::Sign,
                }
            },
            (None, _) => {
                if self.online {
                    self.asking(Request::ViewAccessKey)
                } else {
                    self.failed(Error::OfflineFieldMissing { field: Field::Nonce })
                }
            },
            (Some(_), None) => {
                if self.online {
                    self.asking(Request::ViewAccessKey)
                } else {
                    self.failed(Error::OfflineFieldMissing { field: Field::BlockHash })
                }
            },
        }
    }

    /// Goes on once the key pair is known.
    pub fn with_key(self, public_key: String, private_key: String) -> (next: Signing)
        ensures
            next@ == self@.with_key(public_key@, private_key@),
    {
        let mut unsigned_transaction = self.unsigned_transaction;
        let signer_id = unsigned_transaction.signer_id.clone();
        set_identity(&mut unsigned_transaction, signer_id, public_key);
        let known = Signing {
            online: self.online,
            unsigned_transaction,
            private_key,
            nonce: self.nonce,
            block_hash: self.block_hash,
            submit: self.submit,
            scan_directory: self.scan_directory,
            pending: self.pending,
        };
        known.completing()
    }

    /// Goes on once the network has told the state of the access key.
    fn with_access_key_state(self, state: AccessKeyState) -> (next: Signing)
        ensures
            next@ == self@.with_access_key_state(state),
    {
        if state.nonce == u64::MAX {
            return self.failed(
                Error::NetworkRequestFailed { operation: Operation::ViewAccessKey },
            );
        }
        let nonce: u64 = match self.nonce {
            Some(given) => given,
            None => state.nonce + 1,
        };
        let block_hash = match self.block_hash {
            Some(given) => given,
            None => state.block_hash,
        };
        let mut unsigned_transaction = self.unsigned_transaction;
        set_validity(&mut unsigned_transaction, nonce, block_hash);
        Signing {
            online: self.online,
            unsigned_transaction,
            private_key: self.private_key,
            nonce: self.nonce,
            block_hash: self.block_hash,
            submit: self.submit,
            scan_directory: self.scan_directory,
            pending: Request::Sign,
        }
    }

    /// Goes on once the transaction is signed.
    fn with_signature(
        self,
        signed_transaction: near_primitives::transaction::SignedTransaction,
    ) -> (next: Signing)
        ensures
            next@ == self@.with_signature(signed_transaction),
    {
        if !self.online {
            self.asking(Request::Display { signed_transaction })
        } else {
            match self.submit {
                None => self.asking(Request::ChooseSubmit { signed_transaction }),
                Some(Submit::Send) => self.asking(Request::Broadcast { signed_transaction }),
                Some(Submit::Display) => self.asking(Request::Display { signed_transaction }),
            }
        }
    }

    /// Goes on once a key file was read.
    fn with_key_file(self, path: String, file: KeyFile) -> (next: Signing)
        ensures
            next@ == self@.with_key_file(path@, file@),
    {
        match file {
            KeyFile::Entry(entry) => {
                if entry.is_key_of(&self.unsigned_transaction.signer_id) {
                    self.with_key(entry.public_key, entry.private_key)
                } else {
                    self.failed(Error::KeyFileMalformed { path })
                }
            },
            KeyFile::Malformed => self.failed(Error::KeyFileMalformed { path }),
            KeyFile::Missing => match self.scan_directory {
                Some(directory) => Signing {
                    online: self.online,
                    unsigned_transaction: self.unsigned_transaction,
                    private_key: self.private_key,
                    nonce: self.nonce,
                    block_hash: self.block_hash,
                    submit: self.submit,
                    scan_directory: None,
                    pending: Request::ScanKeychain { directory },
                },
                None => self.failed(Error::KeyFileNotFound { path }),
            },
        }
    }

    /// Goes on once the keychain of the account was scanned.
    fn with_keychain(
        self,
        directory: String,
        access_keys: Option<Vec<AccessKey>>,
        file_names: Option<Vec<String>>,
    ) -> (next: Signing)
        ensures
            next@ == self@.with_keychain(
                directory@,
                match access_keys {
                    Some(keys) => Some(access_key_models(keys@)),
                    None => None,
                },
                match file_names {
                    Some(names) => Some(texts(names@)),
                    None => None,
                },
            ),
    {
        let keys = match access_keys {
            Some(keys) => keys,
            None => {
                return self.failed(
                    Error::NetworkRequestFailed { operation: Operation::ViewAccessKeyList },
                );
            },
        };
        let names = match file_names {
            Some(names) => names,
            None => {
                return self.failed(
                    Error::NoFullAccessKeyInKeychain { path: directory, directory_readable: false },
                );
            },
        };
        match select_key_file(&keys, &names) {
            None => self.failed(
                Error::NoFullAccessKeyInKeychain { path: directory, directory_readable: true },
            ),
            Some(j) => {
                let path = join_path(directory.as_str(), names[j].as_str());
                self.asking(Request::ReadKeyFile { path })
            },
        }
    }

    /// Takes the reply to the pending request and goes on to the next
    /// request. A reply that does not answer the request changes nothing.
    pub fn step(self, reply: Reply) -> (next: Signing)
        ensures
            next@ == self@.step(reply@),
    {
        let Signing {
            online,
            unsigned_transaction,
            private_key,
            nonce,
            block_hash,
            submit,
            scan_directory,
            pending,
        } = self;
        match (pending, reply) {
            (Request::ReadKeyFile { path }, Reply::KeyFile(file)) => {
                let waiting = Signing {
                    online,
                    unsigned_transaction,
                    private_key,
                    nonce,
                    block_hash,
                    submit,
                    scan_directory,
                    pending: Request::Sign,
                };
                waiting.with_key_file(path, file)
            },
            (Request::ScanKeychain { directory }, Reply::Keychain { access_keys, file_names }) => {
                let waiting = Signing {
                    online,
                    unsigned_transaction,
                    private_key,
                    nonce,
                    block_hash,
                    submit,
                    scan_directory,
                    pending: Request::Sign,
                };
                waiting.with_keychain(directory, access_keys, file_names)
            },
            (Request::ViewAccessKey, Reply::AccessKey(state)) => {
                let waiting = Signing {
                    online,
                    unsigned_transaction,
                    private_key,
                    nonce,
                    block_hash,
                    submit,
                    scan_directory,
                    pending: Request::ViewAccessKey,
                };
                match state {
                    None => waiting.failed(
                        Error::NetworkRequestFailed { operation: Operation::ViewAccessKey },
                    ),
                    Some(state) => waiting.with_access_key_state(state),
                }
            },
            (Request::Sign, Reply::Signed(signed_transaction)) => {
                let waiting = Signing {
                    online,
                    unsigned_transaction,
                    private_key,
                    nonce,
                    block_hash,
                    submit,
                    scan_directory,
                    pending: Request::Sign,
                };
                waiting.with_signature(signed_transaction)
            },
            (Request::ChooseSubmit { signed_transaction }, Reply::SubmitChosen(choice)) => {
                let waiting = Signing {
                    online,
                    unsigned_transaction,
                    private_key,
                    nonce,
                    block_hash,
                    submit: Some(choice),
                    scan_directory,
                    pending: Request::Sign,
                };
                waiting.with_signature(signed_transaction)
            },
            (Request::Broadcast { signed_transaction }, Reply::Broadcast(result)) => {
                let pending = match result {
                    None => Request::Abort {
                        error: Error::NetworkRequestFailed {
                            operation: Operation::BroadcastTransaction,
                        },
                    },
                    Some(outcome) => Request::Finish { outcome: Some(outcome) },
                };
                Signing {
                    online,
                    unsigned_transaction,
                    private_key,
                    nonce,
                    block_hash,
                    submit,
                    scan_directory,
                    pending,
                }
            },
            (Request::Display { signed_transaction }, Reply::Displayed) => Signing {
                online,
                unsigned_transaction,
                private_key,
                nonce,
                block_hash,
                submit,
                scan_directory,
                pending: Request::Finish { outcome: None },
            },
            (pending, _) => Signing {
                online,
                unsigned_transaction,
                private_key,
                nonce,
                block_hash,
                submit,
                scan_directory,
                pending,
            },
        }
    }
}

/// Without a network no step leads to a request that needs one.
pub proof fn offline_signing_stays_offline(signing: SigningModel, reply: ReplyModel)
    requires
        signing.keeps_offline(),
    ensures
        signing.step(reply).keeps_offline(),
{
}

/// Without a network a signing whose key file holds the signer's record fails
/// where the nonce is missing, and where the reference block is missing, and
/// names the first of the two that is.
pub proof fn offline_signing_needs_nonce_and_block_hash(
    signing: SigningModel,
    path: Seq<char>,
    file: KeyFileModel,
)
    requires
        !signing.online,
        signing.pending == (RequestModel::ReadKeyFile { path }),
        file.is_record_of(signing.unsigned_transaction.signer_id),
    ensures
        signing.nonce is None ==> signing.step(ReplyModel::KeyFile(file)).pending == (
        RequestModel::Abort { error: ErrorModel::OfflineFieldMissing { field: Field::Nonce } }),
        signing.nonce is Some && signing.block_hash is None ==> signing.step(
            ReplyModel::KeyFile(file),
        ).pending == (RequestModel::Abort {
            error: ErrorModel::OfflineFieldMissing { field: Field::BlockHash },
        }),
        signing.nonce is Some && signing.block_hash is Some ==> signing.step(
            ReplyModel::KeyFile(file),
        ).pending == RequestModel::Sign,
{
}

/// Where one file alone of the account's directory matches a key that the
/// network lists with full access, that file is read next, whatever else the
/// directory holds.
pub proof fn keychain_scan_reads_the_lone_match(
    signing: SigningModel,
    directory: Seq<char>,
    access_keys: Seq<AccessKeyModel>,
    file_names: Seq<Seq<char>>,
    j: int,
)
    requires
        signing.pending == (RequestModel::ScanKeychain { directory }),
        0 <= j < file_names.len(),
        exists|i: int|
            0 <= i < access_keys.len() && crate::keychain::key_matches_file(
                #[trigger] access_keys[i],
                file_names[j],
            ),
        forall|i: int, b: int|
            0 <= i < access_keys.len() && 0 <= b < file_names.len() && b != j
                ==> !crate::keychain::key_matches_file(
                #[trigger] access_keys[i],
                #[trigger] file_names[b],
            ),
    ensures
        signing.step(
            ReplyModel::Keychain { access_keys: Some(access_keys), file_names: Some(file_names) },
        ).pending == (RequestModel::ReadKeyFile { path: file_in_dir(directory, file_names[j]) }),
{
    crate::keychain::lone_match_is_selected(access_keys, file_names, j);
}

/// Where no file of the account's directory matches a key that the network
/// lists with full access, the signing fails and says that the keychain holds
/// no such key.
pub proof fn keychain_scan_fails_without_match(
    signing: SigningModel,
    directory: Seq<char>,
    access_keys: Seq<AccessKeyModel>,
    file_names: Seq<Seq<char>>,
)
    requires
        signing.pending == (RequestModel::ScanKeychain { directory }),
        forall|i: int, j: int|
            0 <= i < access_keys.len() && 0 <= j < file_names.len()
                ==> !crate::keychain::key_matches_file(
                #[trigger] access_keys[i],
                #[trigger] file_names[j],
            ),
    ensures
        signing.step(
            ReplyModel::Keychain { access_keys: Some(access_keys), file_names: Some(file_names) },
        ).pending == (RequestModel::Abort {
            error: ErrorModel::NoFullAccessKeyInKeychain {
                path: directory,
                directory_readable: true,
            },
        }),
{
    crate::keychain::no_match_selects_nothing(access_keys, file_names);
}

/// No step changes what was assembled before the signing began: the signer,
/// the receiver and the actions of the transaction stay as they were, and a
/// nonce, a reference block or a public key that the transaction carries is
/// only ever written by the step that resolves it.
pub proof fn signing_keeps_what_was_assembled(signing: SigningModel, reply: ReplyModel)
    ensures
        signing.step(reply).unsigned_transaction.signer_id
            == signing.unsigned_transaction.signer_id,
        signing.step(reply).unsigned_transaction.receiver_id
            == signing.unsigned_transaction.receiver_id,
        signing.step(reply).unsigned_transaction.actions == signing.unsigned_transaction.actions,
        signing.step(reply).online == signing.online,
        signing.phase().rank() >= 1 ==> signing.step(reply).unsigned_transaction.public_key
            == signing.unsigned_transaction.public_key,
        signing.phase().rank() >= 2 ==> signing.step(reply).unsigned_transaction
            == signing.unsigned_transaction,
{
}

/// A step never leads back: the phase after it stands no lower than the one
/// before, and where nothing more is asked nothing changes.
pub proof fn signing_only_advances(signing: SigningModel, reply: ReplyModel)
    ensures
        signing.phase().rank() <= signing.step(reply).phase().rank(),
        signing.pending.is_terminal() ==> signing.step(reply) == signing,
{
}

} // verus!
