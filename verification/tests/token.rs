use redditing_buddy::OAuthToken;

#[test]
fn expired_exactly_when_elapsed_reaches_ttl() {
    let t = OAuthToken::new(String::from("tok"), 1000, 60);
    assert!(!t.is_expired(1000));
    assert!(!t.is_expired(1059));
    assert!(t.is_expired(1060));
    assert!(t.is_expired(5000));
    // A clock that moved backwards counts as no time elapsed.
    assert!(!t.is_expired(999));
}

#[test]
fn never_issued_token_is_always_expired() {
    let t = OAuthToken::never_issued();
    assert!(t.is_expired(0));
    assert!(t.is_expired(1));
    assert!(t.is_expired(u64::MAX));
    assert_eq!(t.bearer().as_str(), "");
}

#[test]
fn zero_ttl_token_is_expired_at_issue() {
    let t = OAuthToken::new(String::from("tok"), 500, 0);
    assert!(t.is_expired(500));
    assert!(t.is_expired(499));
}
