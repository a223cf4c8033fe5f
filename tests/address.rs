use bookshelf::address::{
    address_belongs_to_stake_address, get_address_stake_key, stake_key_matches, AddressError,
};

const BASE_MAINNET: &str = "addr1qx2fxv2umyhttkxyxp8x0dlpdt3k6cwng5pxj3jhsydzer3jcu5d8ps7zex2k2xt3uqxgjqnnj83ws8lhrn648jjxtwqfjkjv7";
const STAKE_MAINNET: &str = "stake1uyevw2xnsc0pvn9t9r9c7qryfqfeerchgrlm3ea2nefr9hqxdekzz";
const BASE_TESTNET: &str = "addr_test1qz2fxv2umyhttkxyxp8x0dlpdt3k6cwng5pxj3jhsydzer3jcu5d8ps7zex2k2xt3uqxgjqnnj83ws8lhrn648jjxtwq2ytjqp";
const STAKE_TESTNET: &str = "stake_test1uqevw2xnsc0pvn9t9r9c7qryfqfeerchgrlm3ea2nefr9hqp8n5xl";
const ENTERPRISE_MAINNET: &str = "addr1vx2fxv2umyhttkxyxp8x0dlpdt3k6cwng5pxj3jhsydzers66hrl8";

#[test]
fn base_address_yields_its_reward_address() {
    assert_eq!(get_address_stake_key(BASE_MAINNET), Ok(Some(STAKE_MAINNET.to_string())));
}

#[test]
fn testnet_base_address_yields_testnet_reward_address() {
    assert_eq!(get_address_stake_key(BASE_TESTNET), Ok(Some(STAKE_TESTNET.to_string())));
}

#[test]
fn derivation_is_deterministic() {
    assert_eq!(get_address_stake_key(BASE_MAINNET), get_address_stake_key(BASE_MAINNET));
    assert_eq!(get_address_stake_key("junk"), get_address_stake_key("junk"));
}

#[test]
fn enterprise_address_has_no_stake_key() {
    assert_eq!(get_address_stake_key(ENTERPRISE_MAINNET), Ok(None));
}

#[test]
fn undecodable_address_is_malformed() {
    assert_eq!(get_address_stake_key("not an address"), Err(AddressError::Malformed));
    assert_eq!(get_address_stake_key(""), Err(AddressError::Malformed));
    assert_eq!(get_address_stake_key("addr1qqqqq"), Err(AddressError::Malformed));
}

#[test]
fn checksum_only_text_is_malformed() {
    assert_eq!(get_address_stake_key("addr1mykd6t"), Err(AddressError::Malformed));
    assert!(!address_belongs_to_stake_address("addr1mykd6t", STAKE_MAINNET));
}

#[test]
fn belongs_when_stake_keys_match() {
    assert!(address_belongs_to_stake_address(BASE_MAINNET, STAKE_MAINNET));
    assert!(!address_belongs_to_stake_address(BASE_MAINNET, STAKE_TESTNET));
    assert!(!address_belongs_to_stake_address(ENTERPRISE_MAINNET, STAKE_MAINNET));
    assert!(!address_belongs_to_stake_address("garbage", STAKE_MAINNET));
}

#[test]
fn derived_stake_address_has_no_stake_key() {
    assert_eq!(get_address_stake_key(STAKE_MAINNET), Ok(None));
}

#[test]
fn key_match_folds_failures_into_false() {
    assert!(stake_key_matches(&Ok(Some("s".to_string())), "s"));
    assert!(!stake_key_matches(&Ok(Some("s".to_string())), "t"));
    assert!(!stake_key_matches(&Ok(None), "s"));
    assert!(!stake_key_matches(&Err(AddressError::Malformed), "s"));
    assert!(!stake_key_matches(&Err(AddressError::Unencodable), "s"));
}
