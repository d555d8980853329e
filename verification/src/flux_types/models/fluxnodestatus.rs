use vstd::prelude::*;

verus! {

/// The status of a Flux node.
#[derive(Clone, Debug, PartialEq)]
pub struct Fluxnodestatus {
    /// FluxNode status
    pub status: Option<String>,
    /// Collateral transaction
    pub collateral: Option<String>,
    /// Collateral transaction hash
    pub txhash: Option<String>,
    /// Collateral transaction output index number
    pub outidx: Option<i32>,
    /// FluxNode network address
    pub ip: Option<String>,
    /// Network type (IPv4, IPv6, onion)
    pub network: Option<String>,
    /// Block height when FluxNode was added
    pub added_height: Option<i32>,
    /// Block height when FluxNode was confirmed
    pub confirmed_height: Option<i32>,
    /// Last block height when FluxNode was confirmed
    pub last_confirmed_height: Option<i32>,
    /// Last block height when FluxNode was paid
    pub last_paid_height: Option<i32>,
    /// Tier (CUMULUS/NIMMBUS/STRATUS)
    pub tier: Option<String>,
    /// FLUX address for FluxNode payments
    pub payment_address: Option<String>,
    /// FluxNode public key used for message broadcasting
    pub pubkey: Option<String>,
    /// The time in seconds since epoch (Jan 1 1970 GMT) FluxNode has been active
    pub activesince: Option<String>,
    /// The time in seconds since epoch (Jan 1 1970 GMT) FluxNode was last paid
    pub lastpaid: Option<String>,
    /// Locked collateral amount
    pub amount: Option<String>,
}

impl Fluxnodestatus {
    /// A value with no field set.
    pub fn new() -> (value: Fluxnodestatus)
        ensures
            value == (Fluxnodestatus {
                status: None,
                collateral: None,
                txhash: None,
                outidx: None,
                ip: None,
                network: None,
                added_height: None,
                confirmed_height: None,
                last_confirmed_height: None,
                last_paid_height: None,
                tier: None,
                payment_address: None,
                pubkey: None,
                activesince: None,
                lastpaid: None,
                amount: None,
            }),
    {
        Fluxnodestatus {
            status: None,
            collateral: None,
            txhash: None,
            outidx: None,
            ip: None,
            network: None,
            added_height: None,
            confirmed_height: None,
            last_confirmed_height: None,
            last_paid_height: None,
            tier: None,
            payment_address: None,
            pubkey: None,
            activesince: None,
            lastpaid: None,
            amount: None,
        }
    }
}

} // verus!
