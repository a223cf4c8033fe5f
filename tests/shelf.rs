use bookshelf::bookshelf::Bookshelf;
use bookshelf::model::{Asset, BookListItem};

const BASE_MAINNET: &str = "addr1qx2fxv2umyhttkxyxp8x0dlpdt3k6cwng5pxj3jhsydzer3jcu5d8ps7zex2k2xt3uqxgjqnnj83ws8lhrn648jjxtwqfjkjv7";
const STAKE_MAINNET: &str = "stake1uyevw2xnsc0pvn9t9r9c7qryfqfeerchgrlm3ea2nefr9hqxdekzz";
const ENTERPRISE_MAINNET: &str = "addr1vx2fxv2umyhttkxyxp8x0dlpdt3k6cwng5pxj3jhsydzers66hrl8";

fn asset(policy: &str, name: &str, quantity: i64) -> Asset {
    Asset {
        policy_id: policy.to_string(),
        asset_name: name.to_string(),
        fingerprint: format!("asset1{name}"),
        quantity,
    }
}

fn ids(list: &[&str]) -> Vec<String> {
    list.iter().map(|s| s.to_string()).collect()
}

fn summary(books: &[BookListItem]) -> Vec<(String, String, String)> {
    books
        .iter()
        .map(|b| (b.id.policy_id.clone(), b.id.asset_name_hex.clone(), b.token_name.clone()))
        .collect()
}

fn shelf() -> Bookshelf {
    Bookshelf::new(STAKE_MAINNET.to_string())
}

#[test]
fn one_matching_asset_becomes_one_book() {
    let books = shelf().get_books(&ids(&["p1"]), &vec![vec![asset("p1", "n1", 1)]]);
    assert_eq!(books.len(), 1);
    assert_eq!(books[0].id.policy_id, "p1");
    assert_eq!(books[0].id.asset_name_hex, "6e31");
    assert_eq!(books[0].token_name, "n1");
}

#[test]
fn empty_filter_gives_no_books() {
    let holdings = vec![vec![asset("p1", "n1", 1), asset("p2", "n2", 1)], vec![asset("p3", "x", 5)]];
    assert!(shelf().get_books(&ids(&[]), &holdings).is_empty());
}

#[test]
fn only_listed_policies_are_kept() {
    let holdings = vec![
        vec![asset("p1", "a", 1), asset("p9", "b", 1)],
        vec![asset("p2", "c", 1), asset("p1", "d", 3)],
    ];
    let books = shelf().get_books(&ids(&["p1", "p2"]), &holdings);
    assert_eq!(
        summary(&books),
        vec![
            ("p1".to_string(), "61".to_string(), "a".to_string()),
            ("p2".to_string(), "63".to_string(), "c".to_string()),
            ("p1".to_string(), "64".to_string(), "d".to_string()),
        ]
    );
    assert!(books.iter().all(|b| b.id.policy_id == "p1" || b.id.policy_id == "p2"));
}

#[test]
fn same_asset_at_two_addresses_is_listed_twice() {
    let holdings = vec![vec![asset("p1", "n1", 1)], vec![asset("p1", "n1", 1)]];
    assert_eq!(shelf().get_books(&ids(&["p1"]), &holdings).len(), 2);
}

#[test]
fn no_addresses_give_no_books() {
    assert!(shelf().get_books(&ids(&["p1"]), &vec![]).is_empty());
}

#[test]
fn name_hex_covers_utf8_bytes() {
    let books = shelf().get_books(&ids(&["p"]), &vec![vec![asset("p", "é", 1), asset("p", "", 1)]]);
    assert_eq!(books[0].id.asset_name_hex, "c3a9");
    assert_eq!(books[1].id.asset_name_hex, "");
}

#[test]
fn two_holders_is_not_ownership() {
    assert!(!shelf().has_book(&ids(&["addrA", "addrB"])));
}

#[test]
fn no_holder_is_not_ownership() {
    assert!(!shelf().has_book(&ids(&[])));
}

#[test]
fn sole_holder_of_this_stake_owns() {
    assert!(shelf().has_book(&ids(&[BASE_MAINNET])));
}

#[test]
fn sole_holder_without_matching_key_does_not_own() {
    assert!(!shelf().has_book(&ids(&[ENTERPRISE_MAINNET])));
    assert!(!shelf().has_book(&ids(&["addrA"])));
    let other = Bookshelf::new("stake1other".to_string());
    assert!(!other.has_book(&ids(&[BASE_MAINNET])));
}

#[test]
fn sole_holder_with_empty_payload_does_not_own() {
    assert!(!shelf().has_book(&ids(&["addr1mykd6t"])));
}

#[test]
fn shelf_keeps_its_stake_address() {
    assert_eq!(shelf().stake_address(), STAKE_MAINNET);
}
