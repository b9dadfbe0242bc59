//! The key of the compute-budget program.

use vstd::prelude::*;

verus! {

/// The 32 bytes of the compute-budget program's key, whose base-58 text is
/// `ComputeBudget111111111111111111111111111111`.
pub open spec fn budget_program_id() -> Seq<u8> {
    seq![
        3u8, 6, 70, 111, 229, 33, 23, 50,
        255, 236, 173, 186, 114, 195, 155, 231,
        188, 140, 229, 187, 197, 247, 18, 107,
        44, 67, 155, 58, 64, 0, 0, 0,
    ]
}

/// The compute-budget program's key as `solana_sdk::compute_budget::id()`
/// gives it.
///
/// Trusted: the bytes of that key are taken to be [`budget_program_id`].
#[verifier::external_body]
pub(crate) fn budget_program_key() -> (key: [u8; 32])
    ensures
        key@ == budget_program_id(),
{
    solana_sdk::compute_budget::id().to_bytes()
}

} // verus!
