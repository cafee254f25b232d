//! Destination hashes and link ids as bytes and as text.

use socks5_reticulum_proxy::ids::{has_address_digits, DestinationHash, LinkId};

const README_HASH: &str = "ffbaa173393b55617485bbcfb248d14c";

#[test]
fn a_hash_keeps_its_bytes() {
    let bytes: [u8; 16] = [
        0xff, 0xba, 0xa1, 0x73, 0x39, 0x3b, 0x55, 0x61, 0x74, 0x85, 0xbb, 0xcf, 0xb2, 0x48, 0xd1,
        0x4c,
    ];
    let hash = DestinationHash::from_bytes(&bytes);
    assert_eq!(hash.id, 0xffbaa173393b55617485bbcfb248d14c);
    assert_eq!(hash.to_bytes(), bytes);
    assert_eq!(hash.to_hex_string(), README_HASH);
    assert_eq!(hash.to_bytes(), hash.id.to_be_bytes());
}

#[test]
fn small_numbers_have_leading_zeros() {
    let hash = DestinationHash { id: 0x0a01 };
    assert_eq!(hash.to_bytes(), [0, 0, 0, 0, 0, 0, 0, 0, 0, 0, 0, 0, 0, 0, 10, 1]);
    assert_eq!(hash.to_hex_string(), "00000000000000000000000000000a01");
    let all = DestinationHash { id: u128::MAX };
    assert_eq!(all.to_bytes(), [255; 16]);
    assert_eq!(all.to_hex_string(), "f".repeat(32));
}

#[test]
fn the_text_of_a_hash_gives_it_back() {
    for id in [0, 1, 255, 256, 0xffbaa173393b55617485bbcfb248d14c, u128::MAX] {
        let hash = DestinationHash { id };
        let text = hash.to_hex_string();
        assert!(has_address_digits(&text));
        assert_eq!(DestinationHash::new_from_hex_string(&text), Some(hash));
        assert_eq!(DestinationHash::from_bytes(&hash.to_bytes()), hash);
    }
}

#[test]
fn digits_of_either_case_are_read() {
    let upper = README_HASH.to_uppercase();
    assert_eq!(
        DestinationHash::new_from_hex_string(&upper),
        DestinationHash::new_from_hex_string(README_HASH)
    );
}

#[test]
fn what_follows_a_hash_is_not_looked_at() {
    let hash = DestinationHash { id: 0xffbaa173393b55617485bbcfb248d14c };
    for rest in ["0", "zz", "é", ".example"] {
        let text = format!("{}{}", README_HASH, rest);
        assert_eq!(DestinationHash::new_from_hex_string(&text), Some(hash));
    }
}

#[test]
fn a_short_text_names_no_hash() {
    assert_eq!(DestinationHash::new_from_hex_string(""), None);
    assert_eq!(DestinationHash::new_from_hex_string("test"), None);
    assert_eq!(DestinationHash::new_from_hex_string(&README_HASH[..31]), None);
    assert_eq!(DestinationHash::new_from_hex_string("not hexadecimal at all"), None);
}

#[test]
fn a_plus_sign_may_stand_before_a_digit() {
    let text = "+1".repeat(16);
    assert!(has_address_digits(&text));
    assert_eq!(
        DestinationHash::new_from_hex_string(&text),
        Some(DestinationHash::from_bytes(&[1; 16]))
    );
    assert!(!has_address_digits(&"1+".repeat(16)));
}

#[test]
fn other_characters_are_no_digits() {
    assert!(!has_address_digits(&"g".repeat(32)));
    assert!(!has_address_digits(&format!("{}x", &README_HASH[..31])));
    assert!(!has_address_digits(&"é".repeat(16)));
    assert!(!has_address_digits(&README_HASH[..31]));
    assert!(has_address_digits(README_HASH));
}

#[test]
fn a_link_id_keeps_its_bytes() {
    let bytes: [u8; 16] = [1, 2, 3, 4, 5, 6, 7, 8, 9, 10, 11, 12, 13, 14, 15, 16];
    let link = LinkId::from_bytes(&bytes);
    assert_eq!(link.id, 0x0102030405060708090a0b0c0d0e0f10);
    assert_eq!(link.to_bytes(), bytes);
    assert_eq!(link.to_hex_string(), "0102030405060708090a0b0c0d0e0f10");
}
