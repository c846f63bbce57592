use std::str::FromStr;

use ctf_contracts::account::valid_account_str;
use ctf_contracts::account::AccountId;

#[test]
fn well_formed_names_are_accepted() {
    for name in [
        "alice",
        "bob",
        "a1",
        "ok",
        "nonexistent-contract.near",
        "sub.account.near",
        "a-b_c.d-e",
        "0x1234",
        "1234567890123456789012345678901234567890123456789012345678901234", // 64 chars
    ] {
        assert!(valid_account_str(name), "{name} should be accepted");
        assert!(AccountId::new(name.to_string()).is_ok());
    }
}

#[test]
fn malformed_names_are_rejected() {
    for name in [
        "",
        "a",                     // too short
        "Alice",                 // upper case
        "alice!",                // bad character
        "-alice",                // leading separator
        "alice-",                // trailing separator
        "a--b",                  // doubled separator
        "a.-b",                  // doubled mixed separator
        "a..b",                  // doubled dot
        "has space",             // space
        "12345678901234567890123456789012345678901234567890123456789012345", // 65 chars
    ] {
        assert!(!valid_account_str(name), "{name} should be rejected");
        assert!(AccountId::new(name.to_string()).is_err());
    }
}

#[test]
fn validation_agrees_with_the_host_account_rules() {
    // The same names, checked against the NEAR account-id parser.
    for name in [
        "alice",
        "a",
        "ok",
        "Alice",
        "nonexistent-contract.near",
        "sub.account.near",
        "a-b_c.d-e",
        "-alice",
        "alice-",
        "a--b",
        "a._b",
        "a_.b",
        "b-.c",
        "0x1234",
        "x.y",
        "x..y",
        "has space",
        "ALL-CAPS",
        "caf\u{e9}.near",
        "\u{e9}",
        "1234567890123456789012345678901234567890123456789012345678901234",
        "12345678901234567890123456789012345678901234567890123456789012345",
    ] {
        let host = near_sdk::AccountId::from_str(name).is_ok();
        assert_eq!(
            valid_account_str(name),
            host,
            "{name}: model and host disagree"
        );
    }
}

#[test]
fn an_account_id_keeps_its_text() {
    let a = AccountId::new("alice.near".to_string()).unwrap();
    assert_eq!(a.as_str(), "alice.near");
    let b = a.clone();
    assert_eq!(a, b);
    assert!(a.eq_id(&b));
    let c = AccountId::new("bob".to_string()).unwrap();
    assert!(!a.eq_id(&c));
}
