use vstd::prelude::*;

verus! {

/// A Flux node transaction.
#[derive(Clone, Debug, PartialEq)]
pub struct GetFilteredFluxNodeTxs200ResponseData {
    /// The transaction id
    pub txid: Option<String>,
    /// Version number
    pub version: Option<i32>,
    /// Type of transaction
    pub type_: Option<String>,
    /// Update type number
    pub update_type: Option<i32>,
    /// Ip of fluxnode's server
    pub ip: Option<String>,
    /// Fluxnode tier
    pub bench_tier: Option<String>,
    /// Collateral tx hash
    pub collateral_hash: Option<String>,
    /// Collateral tx output index
    pub collateral_index: Option<i32>,
    /// Flux address
    pub flux_address: Option<String>,
    /// Locked amount in satoshi value
    pub locked_amount: Option<i32>,
    /// Block height tx was included in
    pub height: Option<i32>,
}

impl GetFilteredFluxNodeTxs200ResponseData {
    /// A value with no field set.
    pub fn new() -> (value: GetFilteredFluxNodeTxs200ResponseData)
        ensures
            value == (GetFilteredFluxNodeTxs200ResponseData {
                txid: None,
                version: None,
                type_: None,
                update_type: None,
                ip: None,
                bench_tier: None,
                collateral_hash: None,
                collateral_index: None,
                flux_address: None,
                locked_amount: None,
                height: None,
            }),
    {
        GetFilteredFluxNodeTxs200ResponseData {
            txid: None,
            version: None,
            type_: None,
            update_type: None,
            ip: None,
            bench_tier: None,
            collateral_hash: None,
            collateral_index: None,
            flux_address: None,
            locked_amount: None,
            height: None,
        }
    }
}

} // verus!
