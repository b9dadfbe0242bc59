//! The record line that is logged for each transaction.

use crate::estimate::{estimate, transaction_estimate, EstimateModel, FeeEstimate};
use crate::model::Transaction;
use crate::text::{base58_text, decimal, decimal_string, signature_text};
use vstd::prelude::*;

verus! {

/// The tag that every record starts with.
pub open spec fn record_tag() -> Seq<char> {
    seq!['t', 'x', 'l', 'o', 'g']
}

/// A record: the tag and five fields, each preceded by one space. The fields
/// are the source address, the identifying signature, the compute units, the
/// compute-unit price and the fee.
pub open spec fn record_text(addr: Seq<char>, signature: Seq<char>, est: EstimateModel) -> Seq<
    char,
> {
    record_tag() + seq![' '] + addr + seq![' '] + signature + seq![' '] + decimal(
        est.compute_units,
    ) + seq![' '] + decimal(est.compute_unit_price) + seq![' '] + decimal(est.fee)
}

/// Renders the record of a transaction from the texts of its source address
/// and identifying signature and from its estimate.
pub fn format_record(addr: &str, signature: &str, est: &FeeEstimate) -> (line: String)
    ensures
        line@ == record_text(addr@, signature@, est@),
{
    proof {
        reveal_strlit("txlog ");
        reveal_strlit(" ");
    }
    let units: String = decimal_string(est.compute_units as u128);
    let price: String = decimal_string(est.compute_unit_price as u128);
    let fee: String = decimal_string(est.fee);
    let mut line: String = String::from_str("txlog ");
    line.append(addr);
    line.append(" ");
    line.append(signature);
    line.append(" ");
    line.append(units.as_str());
    line.append(" ");
    line.append(price.as_str());
    line.append(" ");
    line.append(fee.as_str());
    assert(line@ =~= record_text(addr@, signature@, est@));
    line
}

/// The record line of a transaction that arrived from the address whose text
/// is `addr`.
///
/// The first signature identifies the transaction, so there has to be one.
pub fn log_tx(addr: &str, tx: &Transaction) -> (line: String)
    requires
        tx.signatures@.len() > 0,
    ensures
        line@ == record_text(addr@, base58_text(tx@.signatures[0]), transaction_estimate(tx@)),
{
    let est: FeeEstimate = estimate(tx);
    let signature: String = signature_text(&tx.signatures[0]);
    format_record(addr, signature.as_str(), &est)
}

} // verus!
