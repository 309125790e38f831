//! What to do when a command cannot be resolved yet: ask the operator, or
//! give up.

use crate::errors::{Error, ErrorModel};
use crate::field::Field;
use vstd::prelude::*;
use vstd::string::*;

verus! {

/// What follows a resolution that did not yield a record.
#[derive(Clone, Debug, PartialEq, Eq)]
pub enum Recovery {
    /// The operator is asked for the field, and the command is resolved again.
    Ask { field: Field },
    /// The command ends with the error.
    GiveUp { error: Error },
}

/// Mathematical model of a [`Recovery`].
pub enum RecoveryModel {
    Ask { field: Field },
    GiveUp { error: ErrorModel },
}

impl View for Recovery {
    type V = RecoveryModel;

    open spec fn view(&self) -> RecoveryModel {
        match self {
            Recovery::Ask { field } => RecoveryModel::Ask { field: *field },
            Recovery::GiveUp { error } => RecoveryModel::GiveUp { error: error@ },
        }
    }
}

/// The field whose value the error refuses, if the error is one that a new
/// value for a single field can mend.
pub open spec fn refused_field(error: ErrorModel) -> Option<Field> {
    match error {
        ErrorModel::AccountNotFound { .. } => Some(Field::SenderAccountId),
        ErrorModel::GasLimitExceeded { .. } => Some(Field::Gas),
        _ => None,
    }
}

/// What follows the error with `retries` new tries left. A field that has no
/// value yet is asked for. A value that was refused is asked for again while
/// tries are left, which takes one of them; with none left the command ends
/// with the error that names the field. Every other error ends the command
/// as it is.
pub open spec fn recovery_of(error: ErrorModel, retries: u32) -> (RecoveryModel, u32) {
    match error {
        ErrorModel::FieldResolutionFailed { field } => (RecoveryModel::Ask { field }, retries),
        _ => match refused_field(error) {
            Some(field) => if retries > 0 {
                (RecoveryModel::Ask { field }, (retries - 1) as u32)
            } else {
                (
                    RecoveryModel::GiveUp { error: ErrorModel::FieldResolutionFailed { field } },
                    retries,
                )
            },
            None => (RecoveryModel::GiveUp { error }, retries),
        },
    }
}

/// The new tries that are left for values that were refused.
#[derive(Clone, Copy, Debug, PartialEq, Eq, Structural)]
pub struct Retries {
    pub left: u32,
}

impl Retries {
    /// Decides what follows a resolution that ended with `error`, and takes
    /// one try where a refused value is asked for again.
    pub fn recover(&mut self, error: Error) -> (recovery: Recovery)
        ensures
            recovery@ == recovery_of(error@, old(self).left).0,
            final(self).left == recovery_of(error@, old(self).left).1,
    {
        let field = match &error {
            Error::FieldResolutionFailed { field } => {
                return Recovery::Ask { field: *field };
            },
            Error::AccountNotFound { .. } => Field::SenderAccountId,
            Error::GasLimitExceeded { .. } => Field::Gas,
            _ => {
                return Recovery::GiveUp { error };
            },
        };
        if self.left > 0 {
            self.left = self.left - 1;
            Recovery::Ask { field }
        } else {
            Recovery::GiveUp { error: Error::FieldResolutionFailed { field } }
        }
    }
}

/// A refused value is asked for again only as often as tries were granted:
/// each such question leaves one try less, and no answer adds one.
pub proof fn retries_never_grow(error: ErrorModel, retries: u32)
    ensures
        recovery_of(error, retries).1 <= retries,
        refused_field(error) is Some && recovery_of(error, retries).0 is Ask ==> recovery_of(
            error,
            retries,
        ).1 < retries,
        refused_field(error) is Some && retries == 0 ==> recovery_of(error, retries).0
            is GiveUp,
{
}

} // verus!
