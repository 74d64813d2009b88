use phony::signer::sign_payload;

#[test]
fn test_sign_payload() {
    let cases: Vec<(&[u8], &[u8])> = vec![
        (b"test1", b"my secret and secure key"),
        (b"test2", b"my secret and secure key"),
    ];

    for (payload, key) in cases {
        assert!(sign_payload(payload, key).contains("sha1="))
    }
}

#[test]
fn known_vector() {
    // HMAC-SHA1("test1") under "my secret and secure key", from a reference
    // implementation.
    assert_eq!(
        sign_payload(b"test1", b"my secret and secure key"),
        "sha1=164249bb9c17f2594ded14815e8f6d566cebef84"
    );
}

#[test]
fn known_vector_second() {
    assert_eq!(
        sign_payload(b"test2", b"my secret and secure key"),
        "sha1=d732e1a00cae7d6916761cdb9dfe1dcf2071c7d5"
    );
}

#[test]
fn known_vector_empty() {
    assert_eq!(
        sign_payload(b"", b""),
        "sha1=fbdb1d1b18aa6c08324b7d64b71fb76370690e1d"
    );
}

#[test]
fn deterministic() {
    let a = sign_payload(b"some payload", b"some key");
    let b = sign_payload(b"some payload", b"some key");
    assert_eq!(a, b);
}

#[test]
fn prefix_and_shape() {
    let s = sign_payload(b"anything at all", b"whatever key");
    assert!(s.starts_with("sha1="));
    assert_eq!(s.len(), 45);
    let hex_part = &s[5..];
    assert_eq!(hex_part.len(), 40);
    assert!(hex_part
        .chars()
        .all(|c| c.is_ascii_hexdigit() && !c.is_ascii_uppercase()));
}

#[test]
fn key_sensitivity() {
    let p: &[u8] = b"fixed payload";
    let s1 = sign_payload(p, b"key-one");
    let s2 = sign_payload(p, b"key-two");
    assert_ne!(s1, s2);
}
