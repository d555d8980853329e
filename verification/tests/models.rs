use http_over_ws::flux_types::models::{
    Appspecification, Fluxnodestatus, GetAppPriceRequestComposeInner,
    GetAppsPermanentMessages200ResponseDataInner, GetFilteredFluxNodeTxs200ResponseData,
    GetStartList200ResponseDataInner, MountsInner, Propagation, Status, Type,
};

#[test]
fn a_new_fluxnodestatus_has_no_field_set() {
    assert_eq!(
        Fluxnodestatus::new(),
        Fluxnodestatus {
            status: None,
            collateral: None,
            txhash: None,
            outidx: None,
            ip: None,
            network: None,
            added_height: None,
            confirmed_height: None,
            last_confirmed_height: None,
            last_paid_height: None,
            tier: None,
            payment_address: None,
            pubkey: None,
            activesince: None,
            lastpaid: None,
            amount: None,
        }
    );
}

#[test]
fn a_new_flux_node_transaction_has_no_field_set() {
    assert_eq!(
        GetFilteredFluxNodeTxs200ResponseData::new(),
        GetFilteredFluxNodeTxs200ResponseData {
            txid: None,
            version: None,
            type_: None,
            update_type: None,
            ip: None,
            bench_tier: None,
            collateral_hash: None,
            collateral_index: None,
            flux_address: None,
            locked_amount: None,
            height: None,
        }
    );
}

#[test]
fn a_new_start_transaction_has_no_field_set() {
    assert_eq!(
        GetStartList200ResponseDataInner::new(),
        GetStartList200ResponseDataInner {
            collateral: None,
            added_height: None,
            payment_address: None,
            expires_in: None,
            amount: None,
        }
    );
}

#[test]
fn a_new_mount_has_no_field_set() {
    assert_eq!(
        MountsInner::new(),
        MountsInner {
            type_: None,
            source: None,
            destination: None,
            mode: None,
            rw: None,
            propagation: None,
        }
    );
}

#[test]
fn a_new_component_has_no_field_set() {
    let compose = GetAppPriceRequestComposeInner::new();
    assert_eq!(compose.name, None);
    assert_eq!(compose.ports, None);
    assert_eq!(compose.cpu, None);
    assert_eq!(compose.tiered, None);
    assert_eq!(compose, GetAppPriceRequestComposeInner::new());
}

#[test]
fn the_defaults_are_the_first_variants() {
    assert_eq!(Type::default(), Type::Bind);
    assert_eq!(Propagation::default(), Propagation::Private);
    assert_eq!(Status::default(), Status::Success);
    assert!(Type::Bind < Type::Npipe);
    assert!(Propagation::Private < Propagation::Rslave);
}

#[test]
fn a_new_permanent_message_has_no_field_set() {
    assert_eq!(
        GetAppsPermanentMessages200ResponseDataInner::new(),
        GetAppsPermanentMessages200ResponseDataInner {
            type_: None,
            version: None,
            app_specification: None,
            hash: None,
            timestamp: None,
            signature: None,
            txid: None,
            height: None,
            value_sat: None,
        }
    );
    let mut message = GetAppsPermanentMessages200ResponseDataInner::new();
    message.app_specification = Some(Box::new(Appspecification::new()));
    assert_ne!(message, GetAppsPermanentMessages200ResponseDataInner::new());
}

#[test]
fn a_new_specification_has_no_field_set() {
    assert_eq!(
        Appspecification::new(),
        Appspecification {
            version: None,
            name: None,
            description: None,
            owner: None,
            compose: None,
            instances: None,
            contacts: None,
            geolocation: None,
            expire: None,
            nodes: None,
            staticip: None,
        }
    );
}
