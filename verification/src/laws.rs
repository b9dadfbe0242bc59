//! Laws of the estimate, stated over the models that the contracts use.

use crate::budget::{le_u32, le_u64, op_of, BudgetOp};
use crate::estimate::{
    estimate_of, other_count, requested_limit, requested_price, targets, transaction_estimate,
    units_of, FeeEstimate,
};
use crate::model::{InstructionModel, Transaction};
use crate::record::record_text;
use crate::text::base58_text;
use vstd::prelude::*;

verus! {

/// Among the first `m` instructions of a list none of which addresses
/// `program`, nothing is requested and every instruction counts.
proof fn lemma_plain_prefix(
    keys: Seq<Seq<u8>>,
    program: Seq<u8>,
    ixs: Seq<InstructionModel>,
    m: int,
)
    requires
        0 <= m <= ixs.len(),
        forall|i: int| 0 <= i < ixs.len() ==> !targets(keys, program, #[trigger] ixs[i]),
    ensures
        other_count(keys, program, ixs.take(m)) == m,
        requested_limit(keys, program, ixs.take(m)) == 0,
        requested_price(keys, program, ixs.take(m)) == 0,
    decreases m,
{
    if m > 0 {
        lemma_plain_prefix(keys, program, ixs, m - 1);
        assert(ixs.take(m).drop_last() =~= ixs.take(m - 1));
        assert(ixs.take(m).last() == ixs[m - 1]);
    }
}

/// Among the first `m` instructions of a list in which only the one at `k`
/// addresses `program`, that one alone decides what is requested, and every
/// other instruction counts.
proof fn lemma_single_prefix(
    keys: Seq<Seq<u8>>,
    program: Seq<u8>,
    ixs: Seq<InstructionModel>,
    k: int,
    m: int,
)
    requires
        0 <= k < ixs.len(),
        0 <= m <= ixs.len(),
        forall|i: int|
            0 <= i < ixs.len() ==> (targets(keys, program, #[trigger] ixs[i]) <==> i == k),
    ensures
        other_count(keys, program, ixs.take(m)) == (if m > k {
            m - 1
        } else {
            m
        }),
        requested_limit(keys, program, ixs.take(m)) == (match op_of(ixs[k].data) {
            BudgetOp::SetLimit(limit) if m > k => limit,
            _ => 0,
        }),
        requested_price(keys, program, ixs.take(m)) == (match op_of(ixs[k].data) {
            BudgetOp::SetPrice(price) if m > k => price,
            _ => 0,
        }),
    decreases m,
{
    if m > 0 {
        lemma_single_prefix(keys, program, ixs, k, m - 1);
        assert(ixs.take(m).drop_last() =~= ixs.take(m - 1));
        assert(ixs.take(m).last() == ixs[m - 1]);
    }
}

/// A transaction without an instruction for the compute-budget program gets
/// the default of 200,000 compute units for each instruction, at most
/// 1,400,000, and the price 0.
pub proof fn lemma_no_budget_instruction(
    keys: Seq<Seq<u8>>,
    program: Seq<u8>,
    ixs: Seq<InstructionModel>,
    signatures: nat,
)
    requires
        forall|i: int| 0 <= i < ixs.len() ==> !targets(keys, program, #[trigger] ixs[i]),
    ensures
        estimate_of(keys, program, ixs, signatures).compute_units == (if ixs.len() * 200_000
            > 1_400_000 {
            1_400_000
        } else {
            ixs.len() * 200_000
        }),
        estimate_of(keys, program, ixs, signatures).compute_unit_price == 0,
{
    lemma_plain_prefix(keys, program, ixs, ixs.len() as int);
    assert(ixs.take(ixs.len() as int) =~= ixs);
}

/// A transaction whose only compute-budget instruction is a limit request
/// for `limit` units gets `limit` compute units, at most 1,400,000.
///
/// A request for 0 units counts as no request, so the law speaks of it only
/// where the transaction has no other instruction.
pub proof fn lemma_single_limit_request(
    keys: Seq<Seq<u8>>,
    program: Seq<u8>,
    ixs: Seq<InstructionModel>,
    k: int,
    limit: u32,
    signatures: nat,
)
    requires
        0 <= k < ixs.len(),
        forall|i: int|
            0 <= i < ixs.len() ==> (targets(keys, program, #[trigger] ixs[i]) <==> i == k),
        ixs[k].data.len() >= 5,
        ixs[k].data[0] == 2,
        le_u32(ixs[k].data.subrange(1, 5)) == limit,
        limit != 0 || ixs.len() == 1,
    ensures
        estimate_of(keys, program, ixs, signatures).compute_units == (if limit > 1_400_000 {
            1_400_000nat
        } else {
            limit as nat
        }),
        estimate_of(keys, program, ixs, signatures).compute_unit_price == 0,
{
    lemma_single_prefix(keys, program, ixs, k, ixs.len() as int);
    assert(ixs.take(ixs.len() as int) =~= ixs);
}

/// A transaction whose only compute-budget instruction is a price request
/// for `price` microlamports has that compute-unit price, and the default
/// compute units of its other instructions.
pub proof fn lemma_single_price_request(
    keys: Seq<Seq<u8>>,
    program: Seq<u8>,
    ixs: Seq<InstructionModel>,
    k: int,
    price: u64,
    signatures: nat,
)
    requires
        0 <= k < ixs.len(),
        forall|i: int|
            0 <= i < ixs.len() ==> (targets(keys, program, #[trigger] ixs[i]) <==> i == k),
        ixs[k].data.len() >= 9,
        ixs[k].data[0] == 3,
        le_u64(ixs[k].data.subrange(1, 9)) == price,
    ensures
        estimate_of(keys, program, ixs, signatures).compute_unit_price == price,
        estimate_of(keys, program, ixs, signatures).compute_units == units_of(
            0,
            (ixs.len() - 1) as nat,
        ),
{
    lemma_single_prefix(keys, program, ixs, k, ixs.len() as int);
    assert(ixs.take(ixs.len() as int) =~= ixs);
}

/// A payload too short for its opcode requests nothing: a limit request
/// needs four bytes after the opcode, a price request eight.
pub proof fn lemma_short_payload_ignored(data: Seq<u8>)
    requires
        data.len() < 5 || (data.len() < 9 && data[0] != 2),
    ensures
        op_of(data) == BudgetOp::Other,
{
}

/// An instruction that requests nothing leaves limit and price as the
/// instructions before it set them, whatever program it addresses.
pub proof fn lemma_other_keeps_requests(
    keys: Seq<Seq<u8>>,
    program: Seq<u8>,
    ixs: Seq<InstructionModel>,
    ix: InstructionModel,
)
    requires
        op_of(ix.data) == BudgetOp::Other,
    ensures
        requested_limit(keys, program, ixs.push(ix)) == requested_limit(keys, program, ixs),
        requested_price(keys, program, ixs.push(ix)) == requested_price(keys, program, ixs),
{
    assert(ixs.push(ix).drop_last() =~= ixs);
}

/// The last limit request addressed to `program` decides the limit, whatever
/// came before it.
pub proof fn lemma_last_limit_request_wins(
    keys: Seq<Seq<u8>>,
    program: Seq<u8>,
    ixs: Seq<InstructionModel>,
    ix: InstructionModel,
    limit: u32,
)
    requires
        targets(keys, program, ix),
        op_of(ix.data) == BudgetOp::SetLimit(limit),
    ensures
        requested_limit(keys, program, ixs.push(ix)) == limit,
        requested_price(keys, program, ixs.push(ix)) == requested_price(keys, program, ixs),
        other_count(keys, program, ixs.push(ix)) == other_count(keys, program, ixs),
{
    assert(ixs.push(ix).drop_last() =~= ixs);
}

/// The last price request addressed to `program` decides the price, whatever
/// came before it.
pub proof fn lemma_last_price_request_wins(
    keys: Seq<Seq<u8>>,
    program: Seq<u8>,
    ixs: Seq<InstructionModel>,
    ix: InstructionModel,
    price: u64,
)
    requires
        targets(keys, program, ix),
        op_of(ix.data) == BudgetOp::SetPrice(price),
    ensures
        requested_price(keys, program, ixs.push(ix)) == price,
        requested_limit(keys, program, ixs.push(ix)) == requested_limit(keys, program, ixs),
        other_count(keys, program, ixs.push(ix)) == other_count(keys, program, ixs),
{
    assert(ixs.push(ix).drop_last() =~= ixs);
}

/// The compute units of an estimate never exceed 1,400,000.
pub proof fn lemma_units_bounded(limit: nat, others: nat)
    ensures
        0 <= units_of(limit, others) <= 1_400_000,
{
}

/// Estimating the same transaction twice gives the same figures: any two
/// results that meet the estimator's contract agree field by field.
pub proof fn lemma_estimate_repeatable(tx: Transaction, first: FeeEstimate, second: FeeEstimate)
    requires
        first@ == transaction_estimate(tx@),
        second@ == transaction_estimate(tx@),
    ensures
        first == second,
{
}

/// Two transactions of the same value, logged from the same address, give
/// the same estimate and the same record: both are functions of the input.
pub proof fn lemma_same_input_same_record(addr: Seq<char>, a: Transaction, b: Transaction)
    requires
        a@ == b@,
    ensures
        transaction_estimate(a@) == transaction_estimate(b@),
        record_text(addr, base58_text(a@.signatures[0]), transaction_estimate(a@)) == record_text(
            addr,
            base58_text(b@.signatures[0]),
            transaction_estimate(b@),
        ),
{
}

} // verus!
