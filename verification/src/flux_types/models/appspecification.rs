use vstd::prelude::*;
use crate::flux_types::models::get_app_price_request_compose_inner::GetAppPriceRequestComposeInner;

verus! {

/// The specification of an application, as its price is asked for and as
/// it is registered.
#[derive(Clone, Debug, PartialEq)]
pub struct Appspecification {
    /// Version of the specification
    pub version: Option<i32>,
    /// Name of the application
    pub name: Option<String>,
    /// Description of the application
    pub description: Option<String>,
    /// ZelID of the owner
    pub owner: Option<String>,
    /// The components of the application
    pub compose: Option<Vec<GetAppPriceRequestComposeInner>>,
    /// On how many nodes the application runs
    pub instances: Option<i32>,
    /// Whom to contact about the application
    pub contacts: Option<Vec<String>>,
    /// Where the application may run
    pub geolocation: Option<Vec<String>>,
    /// For how many blocks the application is valid
    pub expire: Option<i32>,
    /// The nodes that the application may run on
    pub nodes: Option<Vec<String>>,
    /// Whether the application has a static IP address
    pub staticip: Option<bool>,
}

impl Appspecification {
    /// A value with no field set.
    pub fn new() -> (value: Appspecification)
        ensures
            value == (Appspecification {
                version: None,
                name: None,
                description: None,
                owner: None,
                compose: None,
                instances: None,
                contacts: None,
                geolocation: None,
                expire: None,
                nodes: None,
                staticip: None,
            }),
    {
        Appspecification {
            version: None,
            name: None,
            description: None,
            owner: None,
            compose: None,
            instances: None,
            contacts: None,
            geolocation: None,
            expire: None,
            nodes: None,
            staticip: None,
        }
    }
}

/// What the price of an application is asked with.
pub type GetAppPriceRequest = Appspecification;

} // verus!
