//! The transaction that a command builds up before it is signed.

use crate::common::{CryptoHash, MAX_GAS};
use crate::errors::{Error, ErrorModel};
use vstd::prelude::*;
use vstd::string::*;

verus! {

/// A call of a method of a contract.
#[derive(Clone, Debug, PartialEq, Eq)]
pub struct FunctionCallAction {
    pub method_name: String,
    /// The arguments, as the bytes that the contract receives.
    pub args: Vec<u8>,
    /// The gas that the call may use, in gas units.
    pub gas: u64,
    /// The tokens that go with the call, in yoctoNEAR.
    pub deposit: u128,
}

/// Mathematical model of a [`FunctionCallAction`].
pub struct FunctionCallActionModel {
    pub method_name: Seq<char>,
    pub args: Seq<u8>,
    pub gas: u64,
    pub deposit: u128,
}

impl View for FunctionCallAction {
    type V = FunctionCallActionModel;

    open spec fn view(&self) -> FunctionCallActionModel {
        FunctionCallActionModel {
            method_name: self.method_name@,
            args: self.args@,
            gas: self.gas,
            deposit: self.deposit,
        }
    }
}

/// One thing that a transaction does.
#[derive(Clone, Debug, PartialEq, Eq)]
pub enum Action {
    FunctionCall(FunctionCallAction),
}

/// Mathematical model of an [`Action`].
pub enum ActionModel {
    FunctionCall(FunctionCallActionModel),
}

impl View for Action {
    type V = ActionModel;

    open spec fn view(&self) -> ActionModel {
        match self {
            Action::FunctionCall(call) => ActionModel::FunctionCall(call@),
        }
    }
}

impl ActionModel {
    /// The gas that the action asks for.
    pub open spec fn gas(self) -> u64 {
        match self {
            ActionModel::FunctionCall(call) => call.gas,
        }
    }
}

impl Action {
    /// The gas that the action asks for.
    pub fn gas(&self) -> (gas: u64)
        ensures
            gas == self@.gas(),
    {
        match self {
            Action::FunctionCall(call) => call.gas,
        }
    }
}

/// The models of a sequence of actions.
pub open spec fn action_models(actions: Seq<Action>) -> Seq<ActionModel> {
    Seq::new(actions.len(), |i: int| actions[i]@)
}

/// A transaction that is not signed yet. It starts with a receiver and
/// placeholders, and is completed on the way to the signature.
#[derive(Clone, Debug, PartialEq, Eq)]
pub struct UnsignedTransaction {
    pub signer_id: String,
    /// The public key of the signer, as text; empty until a key is chosen.
    pub public_key: String,
    pub nonce: u64,
    pub receiver_id: String,
    pub block_hash: CryptoHash,
    pub actions: Vec<Action>,
}

/// Mathematical model of an [`UnsignedTransaction`].
pub struct UnsignedTransactionModel {
    pub signer_id: Seq<char>,
    pub public_key: Seq<char>,
    pub nonce: u64,
    pub receiver_id: Seq<char>,
    pub block_hash: CryptoHash,
    pub actions: Seq<ActionModel>,
}

impl View for UnsignedTransaction {
    type V = UnsignedTransactionModel;

    open spec fn view(&self) -> UnsignedTransactionModel {
        UnsignedTransactionModel {
            signer_id: self.signer_id@,
            public_key: self.public_key@,
            nonce: self.nonce,
            receiver_id: self.receiver_id@,
            block_hash: self.block_hash,
            actions: action_models(self.actions@),
        }
    }
}

impl UnsignedTransactionModel {
    /// The transaction with one more action at the end.
    pub open spec fn with_action(self, action: ActionModel) -> UnsignedTransactionModel {
        UnsignedTransactionModel { actions: self.actions.push(action), ..self }
    }

    /// The transaction with another signer.
    pub open spec fn with_signer(self, signer_id: Seq<char>) -> UnsignedTransactionModel {
        UnsignedTransactionModel { signer_id, ..self }
    }

    /// The transaction with another signer and public key.
    pub open spec fn with_identity(
        self,
        signer_id: Seq<char>,
        public_key: Seq<char>,
    ) -> UnsignedTransactionModel {
        UnsignedTransactionModel { signer_id, public_key, ..self }
    }

    /// The transaction with another nonce and reference block.
    pub open spec fn with_validity(
        self,
        nonce: u64,
        block_hash: CryptoHash,
    ) -> UnsignedTransactionModel {
        UnsignedTransactionModel { nonce, block_hash, ..self }
    }
}

impl UnsignedTransaction {
    /// A transaction to `receiver_id` with no action, no signer, no key,
    /// nonce 0 and the hash of zeros.
    pub fn new(receiver_id: String) -> (transaction: UnsignedTransaction)
        ensures
            transaction@.signer_id == Seq::<char>::empty(),
            transaction@.public_key == Seq::<char>::empty(),
            transaction@.nonce == 0,
            transaction@.receiver_id == receiver_id@,
            transaction@.block_hash.is_zero(),
            transaction@.actions == Seq::<ActionModel>::empty(),
    {
        let transaction = UnsignedTransaction {
            signer_id: String::new(),
            public_key: String::new(),
            nonce: 0,
            receiver_id,
            block_hash: CryptoHash::zero(),
            actions: Vec::new(),
        };
        assert(action_models(transaction.actions@) =~= Seq::empty());
        transaction
    }
}

/// Appends `action` to the transaction, unless it asks for more gas than one
/// call may be given: then the error says so and the transaction stays as it
/// was.
pub fn append_action(unsigned_tx: &mut UnsignedTransaction, action: Action) -> (result: Result<
    (),
    Error,
>)
    ensures
        action@.gas() <= MAX_GAS ==> result is Ok && final(unsigned_tx)@ == old(
            unsigned_tx,
        )@.with_action(action@),
        action@.gas() > MAX_GAS ==> result is Err && result->Err_0@ == (
        ErrorModel::GasLimitExceeded { gas: action@.gas() }) && final(unsigned_tx)@ == old(
            unsigned_tx,
        )@,
{
    let gas = action.gas();
    if gas > MAX_GAS {
        return Err(Error::GasLimitExceeded { gas });
    }
    unsigned_tx.actions.push(action);
    assert(action_models(unsigned_tx.actions@) =~= action_models(old(unsigned_tx).actions@).push(
        action@,
    ));
    Ok(())
}

/// Names the signer of the transaction and the public key that it signs with.
/// Nothing else changes.
pub fn set_identity(unsigned_tx: &mut UnsignedTransaction, signer_id: String, public_key: String)
    ensures
        final(unsigned_tx)@ == old(unsigned_tx)@.with_identity(signer_id@, public_key@),
{
    unsigned_tx.signer_id = signer_id;
    unsigned_tx.public_key = public_key;
}

/// Sets the nonce and the reference block of the transaction. Nothing else
/// changes.
pub fn set_validity(unsigned_tx: &mut UnsignedTransaction, nonce: u64, block_hash: CryptoHash)
    ensures
        final(unsigned_tx)@ == old(unsigned_tx)@.with_validity(nonce, block_hash),
{
    unsigned_tx.nonce = nonce;
    unsigned_tx.block_hash = block_hash;
}

} // verus!
