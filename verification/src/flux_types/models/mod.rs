//! One module for each type of data.

pub mod appspecification;
pub mod fluxnodestatus;
pub mod get_app_price_request_compose_inner;
pub mod get_apps_permanent_messages_200_response_data_inner;
pub mod get_filtered_flux_node_txs_200_response_data;
pub mod get_start_list_200_response_data_inner;
pub mod mounts_inner;

pub use appspecification::{Appspecification, GetAppPriceRequest};
pub use fluxnodestatus::Fluxnodestatus;
pub use get_app_price_request_compose_inner::{GetAppPriceRequestComposeInner, Status};
pub use get_apps_permanent_messages_200_response_data_inner::GetAppsPermanentMessages200ResponseDataInner;
pub use get_filtered_flux_node_txs_200_response_data::GetFilteredFluxNodeTxs200ResponseData;
pub use get_start_list_200_response_data_inner::GetStartList200ResponseDataInner;
pub use mounts_inner::{MountsInner, Propagation, Type};
