use near_fpo::{AccountId, ParseAccountIdError};

#[test]
fn parse_accepts_valid_account_ids() {
    for id in [
        "aa",
        "a-a",
        "a-aa",
        "100",
        "0o",
        "com",
        "near",
        "bowen",
        "b-o_w_e-n",
        "b.owen",
        "bro.wen",
        "a.ha",
        "a.b-a.ra",
        "system",
        "over.9000",
        "google.com",
        "illia.cheapaccounts.near",
        "0o0ooo00oo00o",
        "alex-skidanov",
        "10-4.8-2",
        "no_lols",
        "0123456789012345678901234567890123456789012345678901234567890123",
        "near.a",
        "a.a",
    ] {
        let account = AccountId::parse(id);
        assert!(account.is_ok(), "{} should be valid", id);
        assert_eq!(account.unwrap().as_str(), id);
    }
}

#[test]
fn parse_refuses_invalid_account_ids() {
    for id in [
        "",
        "a",
        "A",
        "Abc",
        "-near",
        "near-",
        "-near-",
        "near.",
        ".near",
        "near_",
        "_near",
        "a..b",
        "a-_b",
        "a__b",
        "alice near",
        "near@",
        "01234567890123456789012345678901234567890123456789012345678901234",
        "ünïcode",
    ] {
        assert_eq!(AccountId::parse(id), Err(ParseAccountIdError {}), "{} should be invalid", id);
    }
}

#[test]
fn from_str_agrees_with_parse() {
    let alice: AccountId = "alice.near".parse().unwrap();
    assert_eq!(alice.as_str(), "alice.near");
    assert!("invalid.".parse::<AccountId>().is_err());
}

#[test]
fn parse_error_message() {
    assert_eq!(ParseAccountIdError {}.message(), "the account ID is invalid".to_string());
}

#[test]
fn clone_and_eq_follow_the_text() {
    let alice: AccountId = "alice.near".parse().unwrap();
    let bob: AccountId = "bob.near".parse().unwrap();
    assert_eq!(alice.clone(), alice);
    assert!(alice != bob);
}
