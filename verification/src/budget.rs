//! Decoding of compute-budget instruction payloads.

use vstd::prelude::*;

verus! {

/// Opcode of the "set compute unit limit" operation.
pub const OP_SET_LIMIT: u8 = 2;

/// Opcode of the "set compute unit price" operation.
pub const OP_SET_PRICE: u8 = 3;

/// What a compute-budget payload asks for.
///
/// Every payload that is not a complete limit or price request is `Other`
/// and leaves the running values untouched.
#[derive(Clone, Copy, Debug, PartialEq, Eq, Structural)]
pub enum BudgetOp {
    /// Set the compute-unit limit of the transaction.
    SetLimit(u32),
    /// Set the price of a compute unit, in microlamports.
    SetPrice(u64),
    /// Unknown opcode, empty payload, or a payload too short for its opcode.
    Other,
}

/// The number that four bytes spell in little-endian order.
pub open spec fn le_u32(b: Seq<u8>) -> nat
    recommends
        b.len() == 4,
{
    (b[0] as nat) + (b[1] as nat) * 0x100 + (b[2] as nat) * 0x1_0000 + (b[3] as nat) * 0x100_0000
}

/// The number that eight bytes spell in little-endian order.
pub open spec fn le_u64(b: Seq<u8>) -> nat
    recommends
        b.len() == 8,
{
    le_u32(b.subrange(0, 4)) + le_u32(b.subrange(4, 8)) * 0x1_0000_0000
}

/// The operation that a payload encodes.
pub open spec fn op_of(data: Seq<u8>) -> BudgetOp {
    if data.len() >= 5 && data[0] == OP_SET_LIMIT {
        BudgetOp::SetLimit(le_u32(data.subrange(1, 5)) as u32)
    } else if data.len() >= 9 && data[0] == OP_SET_PRICE {
        BudgetOp::SetPrice(le_u64(data.subrange(1, 9)) as u64)
    } else {
        BudgetOp::Other
    }
}

/// Four bytes always spell a number that fits 32 bits.
pub proof fn lemma_le_u32_fits(b: Seq<u8>)
    requires
        b.len() == 4,
    ensures
        le_u32(b) <= u32::MAX,
{
}

/// Eight bytes always spell a number that fits 64 bits.
pub proof fn lemma_le_u64_fits(b: Seq<u8>)
    requires
        b.len() == 8,
    ensures
        le_u64(b) <= u64::MAX,
{
    lemma_le_u32_fits(b.subrange(0, 4));
    lemma_le_u32_fits(b.subrange(4, 8));
}

/// Reads the little-endian 32-bit number at `data[at..at + 4]`.
pub fn read_le_u32(data: &[u8], at: usize) -> (v: u32)
    requires
        at + 4 <= data@.len(),
    ensures
        v == le_u32(data@.subrange(at as int, at + 4)),
{
    let len: usize = data.len();
    assert(at + 4 <= len);
    let b0: u32 = data[at] as u32;
    let b1: u32 = data[at + 1] as u32;
    let b2: u32 = data[at + 2] as u32;
    let b3: u32 = data[at + 3] as u32;
    b0 + b1 * 0x100 + b2 * 0x1_0000 + b3 * 0x100_0000
}

/// Reads the little-endian 64-bit number at `data[at..at + 8]`.
pub fn read_le_u64(data: &[u8], at: usize) -> (v: u64)
    requires
        at + 8 <= data@.len(),
    ensures
        v == le_u64(data@.subrange(at as int, at + 8)),
{
    let len: usize = data.len();
    assert(at + 8 <= len);
    let low: u64 = read_le_u32(data, at) as u64;
    let high: u64 = read_le_u32(data, at + 4) as u64;
    proof {
        let b = data@.subrange(at as int, at + 8);
        assert(b.subrange(0, 4) =~= data@.subrange(at as int, at + 4));
        assert(b.subrange(4, 8) =~= data@.subrange(at + 4, at + 8));
    }
    low + high * 0x1_0000_0000
}

/// Decodes one compute-budget payload.
///
/// A limit request is opcode 2 followed by at least four bytes, a price
/// request opcode 3 followed by at least eight; bytes beyond those are
/// ignored. Anything else decodes to [`BudgetOp::Other`].
pub fn decode_op(data: &[u8]) -> (op: BudgetOp)
    ensures
        op == op_of(data@),
{
    let len: usize = data.len();
    if len == 0 {
        return BudgetOp::Other;
    }
    let opcode: u8 = data[0];
    if opcode == OP_SET_LIMIT {
        if len >= 5 {
            proof {
                lemma_le_u32_fits(data@.subrange(1, 5));
            }
            BudgetOp::SetLimit(read_le_u32(data, 1))
        } else {
            BudgetOp::Other
        }
    } else if opcode == OP_SET_PRICE {
        if len >= 9 {
            proof {
                lemma_le_u64_fits(data@.subrange(1, 9));
            }
            BudgetOp::SetPrice(read_le_u64(data, 1))
        } else {
            BudgetOp::Other
        }
    } else {
        BudgetOp::Other
    }
}

} // verus!
