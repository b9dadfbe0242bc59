//! Plain-data model of the parts of a transaction that the estimator reads.

use vstd::prelude::*;

verus! {

/// Mathematical value of an [`Instruction`].
pub struct InstructionModel {
    /// Index of the targeted program in the static account keys.
    pub program: nat,
    /// The instruction's payload.
    pub data: Seq<u8>,
}

/// One instruction of a transaction: the program it addresses, by its index in
/// the static account keys, and an opaque payload.
#[derive(Clone, Debug)]
pub struct Instruction {
    pub program_id_index: u8,
    pub data: Vec<u8>,
}

impl View for Instruction {
    type V = InstructionModel;

    open spec fn view(&self) -> InstructionModel {
        InstructionModel { program: self.program_id_index as nat, data: self.data@ }
    }
}

/// The account keys as byte sequences.
pub open spec fn key_seqs(keys: Seq<[u8; 32]>) -> Seq<Seq<u8>> {
    keys.map_values(|k: [u8; 32]| k@)
}

/// Mathematical value of a [`Transaction`].
pub struct TransactionModel {
    pub signatures: Seq<Seq<u8>>,
    pub required_signatures: nat,
    pub account_keys: Seq<Seq<u8>>,
    pub instructions: Seq<InstructionModel>,
}

/// The decoded transaction as far as the estimator is concerned.
///
/// The first signature identifies the transaction.
#[derive(Clone, Debug)]
pub struct Transaction {
    pub signatures: Vec<[u8; 64]>,
    pub num_required_signatures: u8,
    pub account_keys: Vec<[u8; 32]>,
    pub instructions: Vec<Instruction>,
}

impl View for Transaction {
    type V = TransactionModel;

    open spec fn view(&self) -> TransactionModel {
        TransactionModel {
            signatures: self.signatures@.map_values(|s: [u8; 64]| s@),
            required_signatures: self.num_required_signatures as nat,
            account_keys: key_seqs(self.account_keys@),
            instructions: self.instructions@.map_values(|ix: Instruction| ix@),
        }
    }
}

} // verus!
