//! What can go wrong while a command is resolved, signed and sent.

use crate::field::Field;
use vstd::prelude::*;
use vstd::string::*;

verus! {

/// Begins the message of a keychain that holds no matching key.
pub const NO_MATCHING_KEY: &'static str =
    "There is no file for a full-access key of the signer account in the keychain: ";

/// Begins the message of a keychain that cannot be read.
pub const LOG_IN_FIRST: &'static str =
    "There are no access keys found in the keychain for the signer account. Log in before signing transactions with keychain: ";

/// A request that is made to the network.
#[derive(Clone, Copy, Debug, PartialEq, Eq, Structural)]
pub enum Operation {
    /// Does the account exist?
    ViewAccount,
    /// The access keys of an account.
    ViewAccessKeyList,
    /// The nonce of one access key, and the latest final block.
    ViewAccessKey,
    /// Sending a signed transaction.
    BroadcastTransaction,
}

impl Operation {
    /// The name of the request.
    pub open spec fn name_text(self) -> Seq<char> {
        match self {
            Operation::ViewAccount => "view account"@,
            Operation::ViewAccessKeyList => "view access key list"@,
            Operation::ViewAccessKey => "view access key"@,
            Operation::BroadcastTransaction => "broadcast transaction"@,
        }
    }

    /// The name of the request.
    pub fn name(&self) -> (name: &'static str)
        ensures
            name@ == self.name_text(),
    {
        match self {
            Operation::ViewAccount => "view account",
            Operation::ViewAccessKeyList => "view access key list",
            Operation::ViewAccessKey => "view access key",
            Operation::BroadcastTransaction => "broadcast transaction",
        }
    }
}

/// Why a command could not be carried out.
#[derive(Clone, Debug, PartialEq, Eq)]
pub enum Error {
    /// No value is at hand for the field; the operator has to be asked.
    FieldResolutionFailed { field: Field },
    /// No key file is at the path.
    KeyFileNotFound { path: String },
    /// The file at the path is no key record of the signer.
    KeyFileMalformed { path: String },
    /// The directory at the path holds no file for a full-access key of the
    /// account, or cannot be read.
    NoFullAccessKeyInKeychain { path: String, directory_readable: bool },
    /// The network does not know the account.
    AccountNotFound { account_id: String },
    /// The network did not answer the request.
    NetworkRequestFailed { operation: Operation },
    /// More gas was asked for than one function call may be given.
    GasLimitExceeded { gas: u64 },
    /// Without a network the field has to be given.
    OfflineFieldMissing { field: Field },
}

/// Mathematical model of an [`Error`].
pub enum ErrorModel {
    FieldResolutionFailed { field: Field },
    KeyFileNotFound { path: Seq<char> },
    KeyFileMalformed { path: Seq<char> },
    NoFullAccessKeyInKeychain { path: Seq<char>, directory_readable: bool },
    AccountNotFound { account_id: Seq<char> },
    NetworkRequestFailed { operation: Operation },
    GasLimitExceeded { gas: u64 },
    OfflineFieldMissing { field: Field },
}

impl View for Error {
    type V = ErrorModel;

    open spec fn view(&self) -> ErrorModel {
        match self {
            Error::FieldResolutionFailed { field } => ErrorModel::FieldResolutionFailed {
                field: *field,
            },
            Error::KeyFileNotFound { path } => ErrorModel::KeyFileNotFound { path: path@ },
            Error::KeyFileMalformed { path } => ErrorModel::KeyFileMalformed { path: path@ },
            Error::NoFullAccessKeyInKeychain {
                path,
                directory_readable,
            } => ErrorModel::NoFullAccessKeyInKeychain {
                path: path@,
                directory_readable: *directory_readable,
            },
            Error::AccountNotFound { account_id } => ErrorModel::AccountNotFound {
                account_id: account_id@,
            },
            Error::NetworkRequestFailed { operation } => ErrorModel::NetworkRequestFailed {
                operation: *operation,
            },
            Error::GasLimitExceeded { gas } => ErrorModel::GasLimitExceeded { gas: *gas },
            Error::OfflineFieldMissing { field } => ErrorModel::OfflineFieldMissing {
                field: *field,
            },
        }
    }
}

/// The model of a result whose error is an [`Error`].
pub open spec fn outcome<T: View>(r: Result<T, Error>) -> Result<T::V, ErrorModel> {
    match r {
        Ok(value) => Ok(value@),
        Err(error) => Err(error@),
    }
}

/// The model of a result whose value is its own model.
pub open spec fn plain_outcome<T>(r: Result<T, Error>) -> Result<T, ErrorModel> {
    match r {
        Ok(value) => Ok(value),
        Err(error) => Err(error@),
    }
}

impl ErrorModel {
    /// The message for the operator. It names the field, the path, the account
    /// or the request that the error is about.
    pub open spec fn message(self) -> Seq<char> {
        match self {
            ErrorModel::FieldResolutionFailed { field } => "No value was given for <"@
                + field.name_text() + ">"@,
            ErrorModel::KeyFileNotFound { path } => "Access key file not found: "@ + path,
            ErrorModel::KeyFileMalformed { path } =>
                "Data for the access key was not found in the file: "@ + path,
            ErrorModel::NoFullAccessKeyInKeychain { path, directory_readable } =>
                if directory_readable {
                    NO_MATCHING_KEY@ + path
                } else {
                    LOG_IN_FIRST@ + path
                },
            ErrorModel::AccountNotFound { account_id } => "Account <"@ + account_id
                + "> doesn't exist"@,
            ErrorModel::NetworkRequestFailed { operation } => "Failed to fetch query for "@
                + operation.name_text(),
            ErrorModel::GasLimitExceeded { gas } =>
                "You need to enter a value of no more than 300 TERAGAS for <prepaid-gas>"@,
            ErrorModel::OfflineFieldMissing { field } => "<"@ + field.name_text()
                + "> is required in offline mode"@,
        }
    }
}

impl Error {
    /// The message for the operator.
    pub fn message(&self) -> (text: String)
        ensures
            text@ == self@.message(),
    {
        match self {
            Error::FieldResolutionFailed { field } => {
                let mut text = "No value was given for <".to_owned();
                text.append(field.name());
                text.append(">");
                text
            },
            Error::KeyFileNotFound { path } => {
                let mut text = "Access key file not found: ".to_owned();
                text.append(path.as_str());
                text
            },
            Error::KeyFileMalformed { path } => {
                let mut text = "Data for the access key was not found in the file: ".to_owned();
                text.append(path.as_str());
                text
            },
            Error::NoFullAccessKeyInKeychain { path, directory_readable } => {
                let mut text = if *directory_readable {
                    NO_MATCHING_KEY.to_owned()
                } else {
                    LOG_IN_FIRST.to_owned()
                };
                text.append(path.as_str());
                text
            },
            Error::AccountNotFound { account_id } => {
                let mut text = "Account <".to_owned();
                text.append(account_id.as_str());
                text.append("> doesn't exist");
                text
            },
            Error::NetworkRequestFailed { operation } => {
                let mut text = "Failed to fetch query for ".to_owned();
                text.append(operation.name());
                text
            },
            Error::GasLimitExceeded { .. } => {
                "You need to enter a value of no more than 300 TERAGAS for <prepaid-gas>".to_owned()
            },
            Error::OfflineFieldMissing { field } => {
                let mut text = "<".to_owned();
                text.append(field.name());
                text.append("> is required in offline mode");
                text
            },
        }
    }

}

} // verus!
