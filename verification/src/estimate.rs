//! The scan over a transaction's instructions and the fee derived from it.

use crate::budget::{decode_op, op_of, BudgetOp};
use crate::model::{key_seqs, Instruction, InstructionModel, Transaction, TransactionModel};
use crate::program::{budget_program_id, budget_program_key};
use vstd::prelude::*;

verus! {

/// Compute units assumed for each instruction when no limit is requested.
pub const DEFAULT_UNITS_PER_INSTRUCTION: u32 = 200_000;

/// Upper bound on the compute units of one transaction.
pub const MAX_COMPUTE_UNITS: u32 = 1_400_000;

/// Microlamports in one lamport.
pub const MICROLAMPORTS_PER_LAMPORT: u64 = 1_000_000;

/// Base fee per required signature, in lamports.
pub const LAMPORTS_PER_SIGNATURE: u64 = 5_000;

/// The fee-relevant figures of one transaction.
#[derive(Clone, Copy, Debug, PartialEq, Eq, Structural)]
pub struct FeeEstimate {
    /// Compute units the transaction may use, never above [`MAX_COMPUTE_UNITS`].
    pub compute_units: u32,
    /// Price of one compute unit, in microlamports.
    pub compute_unit_price: u64,
    /// Estimated fee, in lamports.
    pub fee: u128,
}

/// Mathematical value of a [`FeeEstimate`].
pub struct EstimateModel {
    pub compute_units: nat,
    pub compute_unit_price: nat,
    pub fee: nat,
}

impl View for FeeEstimate {
    type V = EstimateModel;

    open spec fn view(&self) -> EstimateModel {
        EstimateModel {
            compute_units: self.compute_units as nat,
            compute_unit_price: self.compute_unit_price as nat,
            fee: self.fee as nat,
        }
    }
}

/// `at` is the first place in `keys` that holds `key`.
pub open spec fn first_at(keys: Seq<Seq<u8>>, key: Seq<u8>, at: int) -> bool {
    &&& 0 <= at < keys.len()
    &&& keys[at] == key
    &&& forall|j: int| 0 <= j < at ==> keys[j] != key
}

/// The instruction addresses `program`: its program index is the first place
/// of `program` among the account keys.
pub open spec fn targets(keys: Seq<Seq<u8>>, program: Seq<u8>, ix: InstructionModel) -> bool {
    first_at(keys, program, ix.program as int)
}

/// Number of instructions that do not address `program`.
pub open spec fn other_count(
    keys: Seq<Seq<u8>>,
    program: Seq<u8>,
    ixs: Seq<InstructionModel>,
) -> nat
    decreases ixs.len(),
{
    if ixs.len() == 0 {
        0
    } else if targets(keys, program, ixs.last()) {
        other_count(keys, program, ixs.drop_last())
    } else {
        other_count(keys, program, ixs.drop_last()) + 1
    }
}

/// The limit of the last limit request addressed to `program`, 0 without one.
pub open spec fn requested_limit(
    keys: Seq<Seq<u8>>,
    program: Seq<u8>,
    ixs: Seq<InstructionModel>,
) -> u32
    decreases ixs.len(),
{
    if ixs.len() == 0 {
        0
    } else {
        match op_of(ixs.last().data) {
            BudgetOp::SetLimit(limit) if targets(keys, program, ixs.last()) => limit,
            _ => requested_limit(keys, program, ixs.drop_last()),
        }
    }
}

/// The price of the last price request addressed to `program`, 0 without one.
pub open spec fn requested_price(
    keys: Seq<Seq<u8>>,
    program: Seq<u8>,
    ixs: Seq<InstructionModel>,
) -> u64
    decreases ixs.len(),
{
    if ixs.len() == 0 {
        0
    } else {
        match op_of(ixs.last().data) {
            BudgetOp::SetPrice(price) if targets(keys, program, ixs.last()) => price,
            _ => requested_price(keys, program, ixs.drop_last()),
        }
    }
}

/// Compute units of a transaction: the requested limit, or, where that is 0,
/// the default for each of the `others` instructions; at most
/// [`MAX_COMPUTE_UNITS`] either way. Being a natural number it is never
/// below 0, so the lower bound of the range needs no clamp.
pub open spec fn units_of(limit: nat, others: nat) -> nat {
    let raw = if limit == 0 {
        others * 200_000
    } else {
        limit
    };
    if raw > 1_400_000 {
        1_400_000
    } else {
        raw
    }
}

/// The fee in lamports: the price of the compute units, rounded up to a whole
/// lamport, plus the base fee of each required signature.
pub open spec fn fee_of(units: nat, price: nat, signatures: nat) -> nat {
    (units * price + 999_999) / 1_000_000 + signatures * 5_000
}

/// The estimate of a transaction whose compute-budget program has the key
/// `program`.
pub open spec fn estimate_of(
    keys: Seq<Seq<u8>>,
    program: Seq<u8>,
    ixs: Seq<InstructionModel>,
    signatures: nat,
) -> EstimateModel {
    let units = units_of(
        requested_limit(keys, program, ixs) as nat,
        other_count(keys, program, ixs),
    );
    let price = requested_price(keys, program, ixs) as nat;
    EstimateModel {
        compute_units: units,
        compute_unit_price: price,
        fee: fee_of(units, price, signatures),
    }
}

/// The estimate of a transaction: [`estimate_of`] with the key of the
/// compute-budget program.
pub open spec fn transaction_estimate(tx: TransactionModel) -> EstimateModel {
    estimate_of(tx.account_keys, budget_program_id(), tx.instructions, tx.required_signatures)
}

/// Whether two account keys are the same.
pub fn same_key(a: &[u8; 32], b: &[u8; 32]) -> (same: bool)
    ensures
        same == (a@ == b@),
{
    let mut i: usize = 0;
    while i < 32
        invariant
            i <= 32,
            forall|j: int| 0 <= j < i ==> a@[j] == b@[j],
        decreases 32 - i,
    {
        if a[i] != b[i] {
            return false;
        }
        i += 1;
    }
    assert(a@ =~= b@);
    true
}

/// The first place of `key` among `keys`, if it occurs.
pub fn find_key(keys: &Vec<[u8; 32]>, key: &[u8; 32]) -> (found: Option<usize>)
    ensures
        match found {
            Some(at) => first_at(key_seqs(keys@), key@, at as int),
            None => forall|j: int| 0 <= j < keys@.len() ==> key_seqs(keys@)[j] != key@,
        },
{
    let n: usize = keys.len();
    let mut i: usize = 0;
    while i < n
        invariant
            i <= n,
            n == keys@.len(),
            forall|j: int| 0 <= j < i ==> key_seqs(keys@)[j] != key@,
        decreases n - i,
    {
        if same_key(&keys[i], key) {
            return Some(i);
        }
        i += 1;
    }
    None
}

/// Compute units for a requested limit and a number of other instructions.
pub fn resolve_units(limit: u32, others: usize) -> (units: u32)
    ensures
        units == units_of(limit as nat, others as nat),
        units <= MAX_COMPUTE_UNITS,
{
    if limit == 0 {
        if others >= 7 {
            MAX_COMPUTE_UNITS
        } else {
            (others as u32) * DEFAULT_UNITS_PER_INSTRUCTION
        }
    } else if limit > MAX_COMPUTE_UNITS {
        MAX_COMPUTE_UNITS
    } else {
        limit
    }
}

/// The fee for `units` compute units at `price` microlamports each and
/// `signatures` required signatures.
///
/// The sum is formed in 128 bits, so it is exact for every input.
pub fn compute_fee(units: u32, price: u64, signatures: u8) -> (fee: u128)
    ensures
        fee == fee_of(units as nat, price as nat, signatures as nat),
{
    assert((units as nat) * (price as nat) <= 0xFFFF_FFFF * 0xFFFF_FFFF_FFFF_FFFF)
        by (nonlinear_arith)
        requires
            units <= 0xFFFF_FFFF,
            price <= 0xFFFF_FFFF_FFFF_FFFF,
    ;
    let per_lamport: u128 = MICROLAMPORTS_PER_LAMPORT as u128;
    let cost: u128 = (units as u128) * (price as u128);
    let rounded: u128 = (cost + (per_lamport - 1)) / per_lamport;
    rounded + (signatures as u128) * (LAMPORTS_PER_SIGNATURE as u128)
}

/// Estimates a transaction whose compute-budget program has the key `program`.
///
/// Instructions that address `program` are left out of the default count;
/// of the limit and price requests among them, the last of each kind decides.
pub fn estimate_for(tx: &Transaction, program: &[u8; 32]) -> (est: FeeEstimate)
    ensures
        est@ == estimate_of(
            tx@.account_keys,
            program@,
            tx@.instructions,
            tx@.required_signatures,
        ),
        est.compute_units <= MAX_COMPUTE_UNITS,
{
    let found = find_key(&tx.account_keys, program);
    let n: usize = tx.instructions.len();
    let ghost keys = tx@.account_keys;
    let ghost ixs = tx@.instructions;
    let mut others: usize = 0;
    let mut limit: u32 = 0;
    let mut price: u64 = 0;
    let mut i: usize = 0;
    while i < n
        invariant
            i <= n,
            n == tx.instructions@.len(),
            keys == tx@.account_keys,
            ixs == tx@.instructions,
            match found {
                Some(at) => first_at(keys, program@, at as int),
                None => forall|j: int| 0 <= j < keys.len() ==> keys[j] != program@,
            },
            others <= i,
            others == other_count(keys, program@, ixs.take(i as int)),
            limit == requested_limit(keys, program@, ixs.take(i as int)),
            price == requested_price(keys, program@, ixs.take(i as int)),
        decreases n - i,
    {
        let ix: &Instruction = &tx.instructions[i];
        let addressed: bool = match found {
            Some(at) => ix.program_id_index as usize == at,
            None => false,
        };
        proof {
            assert(ixs.take(i + 1).drop_last() =~= ixs.take(i as int));
            assert(ixs.take(i + 1).last() == ix@);
            assert(addressed == targets(keys, program@, ix@));
        }
        if addressed {
            match decode_op(ix.data.as_slice()) {
                BudgetOp::SetLimit(value) => {
                    limit = value;
                },
                BudgetOp::SetPrice(value) => {
                    price = value;
                },
                BudgetOp::Other => {},
            }
        } else {
            others += 1;
        }
        i += 1;
    }
    proof {
        assert(ixs.take(n as int) =~= ixs);
    }
    let units: u32 = resolve_units(limit, others);
    let fee: u128 = compute_fee(units, price, tx.num_required_signatures);
    FeeEstimate { compute_units: units, compute_unit_price: price, fee }
}

/// Estimates compute units, compute-unit price and fee of a transaction.
pub fn estimate(tx: &Transaction) -> (est: FeeEstimate)
    ensures
        est@ == transaction_estimate(tx@),
        est.compute_units <= MAX_COMPUTE_UNITS,
{
    let program: [u8; 32] = budget_program_key();
    estimate_for(tx, &program)
}

} // verus!
