//! The ECDSA key that the host signs with: its name, which depends on the
//! network, and the public key once it has been fetched.

use vstd::prelude::*;
use vstd::string::StringSliceAdditionalSpecFns;
use vstd::utf8::encode_utf8;
use crate::flux::{
    base58_text,
    p2pkh_address_bytes,
    public_key_to_p2pkh_address,
    FluxNetwork,
    P2PKHAddress,
};
use crate::types::{body_view, clone_bytes};

verus! {

/// The name of the key to use on a network.
pub open spec fn ecdsa_key_name(network: FluxNetwork) -> Seq<char> {
    match network {
        FluxNetwork::Local => "dfx_test_key"@,
        FluxNetwork::Testnet => "test_key_1"@,
        FluxNetwork::Mainnet => "key_1"@,
    }
}

pub struct EcdsaStateView {
    pub key_name: Seq<char>,
    pub public_key: Option<Seq<u8>>,
}

pub struct EcdsaState {
    key_name: String,
    canister_ecdsa_public_key: Option<Vec<u8>>,
}

impl View for EcdsaState {
    type V = EcdsaStateView;

    closed spec fn view(&self) -> EcdsaStateView {
        EcdsaStateView {
            key_name: self.key_name@,
            public_key: body_view(self.canister_ecdsa_public_key),
        }
    }
}

impl EcdsaState {
    /// No key name and no public key yet.
    pub fn new() -> (state: Self)
        ensures
            state@.key_name == Seq::<char>::empty(),
            state@.public_key is None,
    {
        EcdsaState { key_name: String::new(), canister_ecdsa_public_key: None }
    }
}

/// Sets the key name to the one of `network`, and returns it.
pub fn set_ecdsa_key_name(state: &mut EcdsaState, network: FluxNetwork) -> (key_name: String)
    ensures
        key_name@ == ecdsa_key_name(network),
        final(state)@.key_name == ecdsa_key_name(network),
        final(state)@.public_key == old(state)@.public_key,
{
    let key_name = match network {
        // local development uses the test key of the local replica
        FluxNetwork::Local => "dfx_test_key",
        FluxNetwork::Testnet => "test_key_1",
        FluxNetwork::Mainnet => "key_1",
    }.to_owned();
    state.key_name = key_name.clone();
    key_name
}

pub fn get_ecdsa_key_name(state: &EcdsaState) -> (key_name: String)
    ensures
        key_name@ == state@.key_name,
{
    state.key_name.clone()
}

/// Keeps the public key that was fetched for this canister.
pub fn set_canister_ecdsa_public_key(state: &mut EcdsaState, public_key: Vec<u8>)
    ensures
        final(state)@.public_key == Some(public_key@),
        final(state)@.key_name == old(state)@.key_name,
{
    state.canister_ecdsa_public_key = Some(public_key);
}

/// Whether the public key has been set.
pub fn has_canister_ecdsa_public_key(state: &EcdsaState) -> (set: bool)
    ensures
        set == (state@.public_key is Some),
{
    state.canister_ecdsa_public_key.is_some()
}

/// The public key. It must have been set.
pub fn get_canister_ecdsa_public_key(state: &EcdsaState) -> (public_key: Vec<u8>)
    requires
        state@.public_key is Some,
    ensures
        Some(public_key@) == state@.public_key,
{
    match &state.canister_ecdsa_public_key {
        Some(pk) => clone_bytes(pk),
        None => Vec::new(),
    }
}

/// The P2PKH address of this canister. The public key must have been set.
pub fn get_p2pkh_address(
    state: &EcdsaState,
    network: FluxNetwork,
    address_type: P2PKHAddress,
) -> (address: String)
    requires
        state@.public_key is Some,
    ensures
        address@ == base58_text(
            p2pkh_address_bytes(network, address_type, state@.public_key->0),
        ),
{
    let public_key = get_canister_ecdsa_public_key(state);
    public_key_to_p2pkh_address(network, address_type, public_key.as_slice())
}

/// The addresses of this canister on `network`: the one for funds first,
/// then the one to log in with. The public key must have been set.
pub fn get_addresses(state: &EcdsaState, network: FluxNetwork) -> (addresses: (String, String))
    requires
        state@.public_key is Some,
    ensures
        addresses.0@ == base58_text(
            p2pkh_address_bytes(network, P2PKHAddress::ZCash, state@.public_key->0),
        ),
        addresses.1@ == base58_text(
            p2pkh_address_bytes(network, P2PKHAddress::ZelId, state@.public_key->0),
        ),
{
    (
        get_p2pkh_address(state, network, P2PKHAddress::ZCash),
        get_p2pkh_address(state, network, P2PKHAddress::ZelId),
    )
}

/// The path under which a key is derived: empty, or the one step that the
/// given text spells.
pub fn derivation_path_of(derivation_path: Option<String>) -> (path: Vec<Vec<u8>>)
    ensures
        derivation_path is None ==> path@.len() == 0,
        derivation_path matches Some(dp) ==> path@.len() == 1 && path@[0]@ == encode_utf8(dp@),
{
    let mut path: Vec<Vec<u8>> = Vec::new();
    if let Some(dp) = derivation_path {
        path.push(vstd::slice::slice_to_vec(dp.as_str().as_bytes()));
    }
    path
}

} // verus!
