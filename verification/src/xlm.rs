use vstd::prelude::*;

verus! {

/// One XLM expressed in stroops, the ledger's smallest unit.
pub const ONE_XLM: i128 = 10_000_000;

/// A whole number of XLM as an amount in stroops.
pub fn to_stroops(num: u64) -> (r: i128)
    ensures
        r == num * (ONE_XLM as int),
{
    (num as i128) * ONE_XLM
}

} // verus!
