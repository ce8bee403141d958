use ryu_recipes::guard::{bearer_ok, ct_eq, presented_token, require_recipes_token, Refusal};

#[test]
fn bearer_ok_matches_only_exact_nonempty_token() {
    assert!(bearer_ok(Some("secret"), Some("secret")));
    assert!(!bearer_ok(Some("secret"), Some("other")));
    assert!(!bearer_ok(Some("secre"), Some("secret")));
    assert!(!bearer_ok(None, Some("secret")));
}

#[test]
fn bearer_ok_is_fail_closed_without_expected() {
    // No configured token, or an empty one: everything is turned away.
    assert!(!bearer_ok(Some("secret"), None));
    assert!(!bearer_ok(Some(""), Some("")));
    assert!(!bearer_ok(None, None));
}

#[test]
fn ct_eq_compares_bytes_constant_time_semantics() {
    assert!(ct_eq(b"abc", b"abc"));
    assert!(!ct_eq(b"abc", b"abd"));
    assert!(!ct_eq(b"abc", b"ab")); // length mismatch
    assert!(ct_eq(b"", b"")); // both empty compare equal
}

#[test]
fn ct_eq_tells_runs_of_different_lengths_apart() {
    assert!(!ct_eq(b"ab", b"abc"));
    assert!(!ct_eq(b"", b"a"));
    assert!(!ct_eq(b"a", b""));
    // A missing byte is no zero byte.
    assert!(!ct_eq(b"ab", b"ab\0"));
    assert!(!ct_eq(b"\0", b""));
    let long = vec![7u8; 300];
    assert!(ct_eq(&long, &long.clone()));
    // The lengths differ by a multiple of 256.
    assert!(!ct_eq(&long, &long[..44]));
}

#[test]
fn presented_token_follows_the_bearer_word() {
    assert_eq!(presented_token(Some(b"Bearer tok")).as_deref(), Some("tok"));
    assert_eq!(presented_token(Some(b"Bearer ")).as_deref(), Some(""));
    assert_eq!(presented_token(Some(b"Bearer  tok")).as_deref(), Some(" tok"));
    assert_eq!(presented_token(Some(b"bearer tok")), None);
    assert_eq!(presented_token(Some(b"Bearer")), None);
    assert_eq!(presented_token(Some(b"tok")), None);
    assert_eq!(presented_token(None), None);
}

#[test]
fn presented_token_needs_visible_bytes() {
    assert_eq!(presented_token(Some(b"Bearer a\tb")).as_deref(), Some("a\tb"));
    assert_eq!(presented_token(Some(b"Bearer a\x7fb")), None);
    assert_eq!(presented_token(Some("Bearer \u{e9}".as_bytes())), None);
}

#[test]
fn header_bytes_are_read_as_axum_reads_them() {
    for b in 32..=255u8 {
        let bytes = [b'B', b'e', b'a', b'r', b'e', b'r', b' ', b];
        if let Ok(value) = axum::http::HeaderValue::from_bytes(&bytes) {
            let theirs = value.to_str().ok().and_then(|v| v.strip_prefix("Bearer "));
            assert_eq!(presented_token(Some(&bytes)).as_deref(), theirs);
        }
    }
}

#[test]
fn require_recipes_token_turns_away_all_but_the_token() {
    assert_eq!(require_recipes_token(Some(b"Bearer tok"), Some("tok")), Ok(()));
    let refusal = Refusal {
        status: 401,
        text: "unauthorized".to_string(),
    };
    for (header, expected) in [
        (Some(&b"Bearer tok"[..]), Some("other")),
        (Some(&b"Bearer tok"[..]), Some("")),
        (Some(&b"Bearer tok"[..]), None),
        (Some(&b"Bearer "[..]), Some("")),
        (Some(&b"tok"[..]), Some("tok")),
        (None, Some("tok")),
        (None, None),
    ] {
        assert_eq!(require_recipes_token(header, expected).unwrap_err(), refusal);
    }
}
