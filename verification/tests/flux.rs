use http_over_ws::ecdsa_api::{
    derivation_path_of, get_addresses, get_canister_ecdsa_public_key, get_ecdsa_key_name,
    get_p2pkh_address, has_canister_ecdsa_public_key, set_canister_ecdsa_public_key,
    set_ecdsa_key_name, EcdsaState,
};
use http_over_ws::flux::{
    address_prefix_bytes, encode_signature, encode_signature_base64, encode_varuint,
    encoding_length, extended_with, get_message_magic_bytes, get_message_magic_hash, hash256,
    public_key_to_p2pkh_address, FluxNetwork, P2PKHAddress,
};

/// The compressed public key of the private key 1.
const PUBLIC_KEY: [u8; 33] = [
    0x02, 0x79, 0xbe, 0x66, 0x7e, 0xf9, 0xdc, 0xbb, 0xac, 0x55, 0xa0, 0x62, 0x95, 0xce, 0x87,
    0x0b, 0x07, 0x02, 0x9b, 0xfc, 0xdb, 0x2d, 0xce, 0x28, 0xd9, 0x59, 0xf2, 0x81, 0x5b, 0x16,
    0xf8, 0x17, 0x98,
];

fn hex(bytes: &[u8]) -> String {
    bytes.iter().map(|b| format!("{:02x}", b)).collect()
}

#[test]
fn small_numbers_take_one_byte() {
    assert_eq!(encode_varuint(0), vec![0]);
    assert_eq!(encode_varuint(1), vec![1]);
    assert_eq!(encode_varuint(0xfc), vec![0xfc]);
    assert_eq!(encoding_length(0), 1);
    assert_eq!(encoding_length(0xfc), 1);
}

#[test]
fn larger_numbers_take_a_marker_and_their_low_bytes_first() {
    assert_eq!(encode_varuint(0xfd), vec![0xfd, 0xfd, 0x00]);
    assert_eq!(encode_varuint(0x1234), vec![0xfd, 0x34, 0x12]);
    assert_eq!(encode_varuint(0xffff), vec![0xfd, 0xff, 0xff]);
    assert_eq!(encode_varuint(0x1_0000), vec![0xfe, 0x00, 0x00, 0x01, 0x00]);
    assert_eq!(
        encode_varuint(0x1234_5678),
        vec![0xfe, 0x78, 0x56, 0x34, 0x12]
    );
    assert_eq!(
        encode_varuint(0xffff_ffff),
        vec![0xfe, 0xff, 0xff, 0xff, 0xff]
    );
    assert_eq!(encoding_length(0xfd), 3);
    assert_eq!(encoding_length(0xffff), 3);
    assert_eq!(encoding_length(0x1_0000), 5);
    assert_eq!(encoding_length(0xffff_ffff), 5);
}

#[test]
fn numbers_beyond_four_bytes_take_eight() {
    let number: u64 = 0x0102_0304_0506_0708;
    if let Ok(number) = usize::try_from(number) {
        assert_eq!(
            encode_varuint(number),
            vec![0xff, 0x08, 0x07, 0x06, 0x05, 0x04, 0x03, 0x02, 0x01]
        );
        assert_eq!(encoding_length(number), 9);
        assert_eq!(
            encode_varuint(0x1_0000_0000),
            vec![0xff, 0x00, 0x00, 0x00, 0x00, 0x01, 0x00, 0x00, 0x00]
        );
    }
}

#[test]
fn the_length_is_that_of_the_encoding() {
    for number in [0, 1, 0xfc, 0xfd, 0xfe, 0xff, 0x100, 0xffff, 0x1_0000, 0xff_ffff, 0xffff_ffff] {
        assert_eq!(encoding_length(number), encode_varuint(number).len());
    }
}

#[test]
fn a_message_is_hashed_behind_the_prefix_and_its_length() {
    let bytes = get_message_magic_bytes("hello");
    let mut expected = b"\x18Bitcoin Signed Message:\n".to_vec();
    expected.push(5);
    expected.extend(b"hello");
    assert_eq!(bytes, expected);

    let long = "x".repeat(300);
    let bytes = get_message_magic_bytes(&long);
    let mut expected = b"\x18Bitcoin Signed Message:\n".to_vec();
    expected.extend([0xfd, 0x2c, 0x01]);
    expected.extend(long.as_bytes());
    assert_eq!(bytes, expected);

    // the length counts bytes, not characters
    let bytes = get_message_magic_bytes("\u{e9}");
    assert_eq!(bytes[25], 2);
    assert_eq!(&bytes[26..], &[0xc3, 0xa9]);
}

#[test]
fn the_magic_hash_is_the_double_sha256() {
    assert_eq!(
        get_message_magic_hash(String::from("hello")),
        vec![
            207, 4, 71, 236, 133, 240, 206, 113, 80, 162, 87, 219, 50, 235, 252, 183, 82, 61,
            174, 23, 195, 109, 189, 27, 229, 152, 119, 159, 236, 4, 132, 244
        ]
    );
}

#[test]
fn hash256_of_nothing() {
    assert_eq!(
        hex(&hash256(&[])),
        "5df6e0e2761359d30a8275058e299fcc0381534545f55cf43e41983f5d4c9456"
    );
}

#[test]
fn a_signature_follows_its_flag_byte() {
    assert_eq!(encode_signature(&[]), vec![32]);
    assert_eq!(encode_signature(&[1, 2, 3]), vec![32, 1, 2, 3]);
    assert_eq!(encode_signature_base64(&[1, 2, 3]), "IAECAw==");
    let signature: Vec<u8> = (1..=64).collect();
    assert_eq!(
        encode_signature_base64(&signature),
        "IAECAwQFBgcICQoLDA0ODxAREhMUFRYXGBkaGxwdHh8gISIjJCUmJygpKissLS4vMDEyMzQ1Njc4OTo7PD0+P0A="
    );
}

#[test]
fn every_address_has_its_prefix() {
    assert_eq!(
        address_prefix_bytes(FluxNetwork::Local, P2PKHAddress::ZelId),
        vec![0x6f]
    );
    assert_eq!(
        address_prefix_bytes(FluxNetwork::Testnet, P2PKHAddress::ZelId),
        vec![0x6f]
    );
    assert_eq!(
        address_prefix_bytes(FluxNetwork::Mainnet, P2PKHAddress::ZelId),
        vec![0x00]
    );
    assert_eq!(
        address_prefix_bytes(FluxNetwork::Local, P2PKHAddress::ZCash),
        vec![0x1d, 0x25]
    );
    assert_eq!(
        address_prefix_bytes(FluxNetwork::Testnet, P2PKHAddress::ZCash),
        vec![0x1d, 0x25]
    );
    assert_eq!(
        address_prefix_bytes(FluxNetwork::Mainnet, P2PKHAddress::ZCash),
        vec![0x1c, 0xb8]
    );
}

#[test]
fn extending_takes_the_first_bytes_of_the_tail() {
    assert_eq!(extended_with(vec![1], &[2, 3, 4], 0), vec![1]);
    assert_eq!(extended_with(vec![1], &[2, 3, 4], 2), vec![1, 2, 3]);
    assert_eq!(extended_with(vec![], &[2, 3, 4], 3), vec![2, 3, 4]);
}

#[test]
fn the_addresses_of_a_known_key() {
    assert_eq!(
        public_key_to_p2pkh_address(FluxNetwork::Mainnet, P2PKHAddress::ZelId, &PUBLIC_KEY),
        "1BgGZ9tcN4rm9KBzDn7KprQz87SZ26SAMH"
    );
    assert_eq!(
        public_key_to_p2pkh_address(FluxNetwork::Mainnet, P2PKHAddress::ZCash, &PUBLIC_KEY),
        "t1UYsZVJkLPeMjxEtACvSxfWuNmddpWfxzs"
    );
    assert_eq!(
        public_key_to_p2pkh_address(FluxNetwork::Testnet, P2PKHAddress::ZelId, &PUBLIC_KEY),
        "mrCDrCybB6J1vRfbwM5hemdJz73FwDBC8r"
    );
    assert_eq!(
        public_key_to_p2pkh_address(FluxNetwork::Local, P2PKHAddress::ZCash, &PUBLIC_KEY),
        "tmLPctKo9j49rtCSKpwEBpLBeykiTGomGQs"
    );
}

#[test]
fn the_key_name_follows_the_network() {
    let mut state = EcdsaState::new();
    assert_eq!(get_ecdsa_key_name(&state), "");
    assert_eq!(
        set_ecdsa_key_name(&mut state, FluxNetwork::Local),
        "dfx_test_key"
    );
    assert_eq!(get_ecdsa_key_name(&state), "dfx_test_key");
    assert_eq!(
        set_ecdsa_key_name(&mut state, FluxNetwork::Testnet),
        "test_key_1"
    );
    assert_eq!(get_ecdsa_key_name(&state), "test_key_1");
    assert_eq!(set_ecdsa_key_name(&mut state, FluxNetwork::Mainnet), "key_1");
    assert_eq!(get_ecdsa_key_name(&state), "key_1");
}

#[test]
fn the_public_key_is_kept() {
    let mut state = EcdsaState::new();
    assert!(!has_canister_ecdsa_public_key(&state));
    set_ecdsa_key_name(&mut state, FluxNetwork::Mainnet);
    set_canister_ecdsa_public_key(&mut state, PUBLIC_KEY.to_vec());
    assert!(has_canister_ecdsa_public_key(&state));
    assert_eq!(get_canister_ecdsa_public_key(&state), PUBLIC_KEY.to_vec());
    assert_eq!(get_ecdsa_key_name(&state), "key_1");
    assert_eq!(
        get_p2pkh_address(&state, FluxNetwork::Mainnet, P2PKHAddress::ZelId),
        "1BgGZ9tcN4rm9KBzDn7KprQz87SZ26SAMH"
    );
    assert_eq!(
        get_addresses(&state, FluxNetwork::Mainnet),
        (
            String::from("t1UYsZVJkLPeMjxEtACvSxfWuNmddpWfxzs"),
            String::from("1BgGZ9tcN4rm9KBzDn7KprQz87SZ26SAMH")
        )
    );
}

#[test]
fn a_derivation_path_has_at_most_one_step() {
    assert_eq!(derivation_path_of(None), Vec::<Vec<u8>>::new());
    assert_eq!(
        derivation_path_of(Some(String::from("ab"))),
        vec![vec![b'a', b'b']]
    );
    assert_eq!(derivation_path_of(Some(String::new())), vec![Vec::<u8>::new()]);
}
