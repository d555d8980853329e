use vstd::prelude::*;
use crate::flux_types::models::appspecification::Appspecification;

verus! {

/// A message about an application that the network keeps for good.
#[derive(Clone, Debug, PartialEq)]
pub struct GetAppsPermanentMessages200ResponseDataInner {
    /// Message type ```fluxappregister``` or ```fluxappupdate```
    pub type_: Option<String>,
    /// Application specification message version, current 1
    pub version: Option<i32>,
    pub app_specification: Option<Box<Appspecification>>,
    /// Message hash
    pub hash: Option<String>,
    /// Timestamp of message in epoch/unix
    pub timestamp: Option<i32>,
    /// Signature from signed message
    pub signature: Option<String>,
    /// Transction ID of app payment
    pub txid: Option<String>,
    /// Block height of transaction
    pub height: Option<i32>,
    /// Flux sat value of payment amount
    pub value_sat: Option<i32>,
}

impl GetAppsPermanentMessages200ResponseDataInner {
    /// A value with no field set.
    pub fn new() -> (value: GetAppsPermanentMessages200ResponseDataInner)
        ensures
            value == (GetAppsPermanentMessages200ResponseDataInner {
                type_: None,
                version: None,
                app_specification: None,
                hash: None,
                timestamp: None,
                signature: None,
                txid: None,
                height: None,
                value_sat: None,
            }),
    {
        GetAppsPermanentMessages200ResponseDataInner {
            type_: None,
            version: None,
            app_specification: None,
            hash: None,
            timestamp: None,
            signature: None,
            txid: None,
            height: None,
            value_sat: None,
        }
    }
}

} // verus!
