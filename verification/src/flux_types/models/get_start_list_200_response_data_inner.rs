use vstd::prelude::*;

verus! {

/// A Flux node start transaction that waits for its confirmation.
#[derive(Clone, Debug, PartialEq)]
pub struct GetStartList200ResponseDataInner {
    /// Collateral transaction hash
    pub collateral: Option<String>,
    /// Height the fluxnode start transaction was added to the chain
    pub added_height: Option<i32>,
    /// The payment address associated with the fluxnode
    pub payment_address: Option<String>,
    /// The amount of blocks before the start transaction expires, unless a
    /// confirmation transaction is added to a block
    pub expires_in: Option<i32>,
    /// The amount of collateral associated with the fluxnode
    pub amount: Option<String>,
}

impl GetStartList200ResponseDataInner {
    /// A value with no field set.
    pub fn new() -> (value: GetStartList200ResponseDataInner)
        ensures
            value == (GetStartList200ResponseDataInner {
                collateral: None,
                added_height: None,
                payment_address: None,
                expires_in: None,
                amount: None,
            }),
    {
        GetStartList200ResponseDataInner {
            collateral: None,
            added_height: None,
            payment_address: None,
            expires_in: None,
            amount: None,
        }
    }
}

} // verus!
