use base64::Engine;
use sha2::Digest;

#[test]
fn derive_is_deterministic() {
    let a = wikcli::safety::derive("/docs/old", "/docs/new");
    let b = wikcli::safety::derive("/docs/old", "/docs/new");
    assert_eq!(a, b);
}

#[test]
fn derive_has_fixed_length() {
    assert_eq!(wikcli::safety::derive("", "").len(), 32);
    assert_eq!(wikcli::safety::derive("/docs/old", "/docs/new").len(), 32);
    assert_eq!(wikcli::safety::derive("a", "b").len(), 32);
}

#[test]
fn derive_matches_truncated_digest_encoding() {
    // the tag is the URL-safe no-padding base64 of SHA-256(prefix ++ destination),
    // cut to 32 characters
    let digest = sha2::Sha256::digest(b"/docs/old/docs/new");
    let encoded = base64::engine::general_purpose::URL_SAFE_NO_PAD.encode(digest);
    let expected: String = encoded.chars().take(32).collect();
    assert_eq!(wikcli::safety::derive("/docs/old", "/docs/new"), expected);
}

#[test]
fn derive_distinct_inputs_distinct_tags() {
    let mut seen: Vec<String> = Vec::new();
    for i in 0..200 {
        let prefix = format!("/prefix/{}", i);
        let destination = format!("/destination/{}", i);
        let tag = wikcli::safety::derive(&prefix, &destination);
        assert!(!seen.contains(&tag));
        seen.push(tag);
    }
}

#[test]
fn derive_depends_on_both_inputs() {
    let base = wikcli::safety::derive("/p", "/d");
    assert_ne!(base, wikcli::safety::derive("/p", "/e"));
    assert_ne!(base, wikcli::safety::derive("/q", "/d"));
}

#[test]
fn derive_concatenates_without_separator() {
    // pairs that split the same character sequence differently alias on
    // purpose: the digest input carries no separator between the two parts
    assert_eq!(wikcli::safety::derive("a", "bc"), wikcli::safety::derive("ab", "c"));
}

#[test]
fn derive_tag_is_url_safe() {
    let tag = wikcli::safety::derive("/docs/old", "/docs/new");
    assert!(tag.chars().all(|c| c.is_ascii_alphanumeric() || c == '-' || c == '_'));
}
