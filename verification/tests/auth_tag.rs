use keylime_agent::error::AgentError;
use keylime_agent::auth_tag::{
    auth_tag_text, compute_auth_tag, derive_mac_key, secret_is_usable, MAX_SECRET_LEN,
};

#[test]
fn mac_key_is_the_base64_text_of_the_secret() {
    assert_eq!(derive_mac_key(b"hello world"), b"aGVsbG8gd29ybGQ=".to_vec());
    assert_eq!(derive_mac_key(b""), Vec::<u8>::new());
    assert_eq!(derive_mac_key(b"a"), b"YQ==".to_vec());
    assert_eq!(derive_mac_key(b"ab"), b"YWI=".to_vec());
    assert_eq!(derive_mac_key(b"abc"), b"YWJj".to_vec());
    assert_eq!(derive_mac_key(&[0xfb, 0xff]), b"+/8=".to_vec());
}

#[test]
fn mac_key_has_four_characters_for_every_three_bytes_begun() {
    for n in 0..20usize {
        let secret = vec![7u8; n];
        assert_eq!(derive_mac_key(&secret).len(), 4 * ((n + 2) / 3));
    }
}

#[test]
fn tag_text_is_lower_case_hexadecimal() {
    assert_eq!(auth_tag_text(&[]), "");
    assert_eq!(auth_tag_text(&[0x00, 0x0f, 0xa0, 0xff]), "000fa0ff");
    assert_eq!(auth_tag_text(&[1, 2, 3, 15, 16]), "0102030f10");
    assert_eq!(auth_tag_text(b"Hello world!"), "48656c6c6f20776f726c6421");
}

#[test]
fn tag_over_a_configured_identifier() {
    assert_eq!(
        compute_auth_tag("d432fbb3-d2f1-4a97-9ef7-75bd81c00000", b"secret"),
        Ok(String::from(
            "1e0a1d65ff767a4c2ca0365cd9eb1694cf3b506eca72bc8d6b12c3c47276e43d9ced330b989e4f30abd9a0cb298d82f4"
        ))
    );
}

#[test]
fn tag_with_an_empty_secret_is_the_tag_or_a_crypto_failure() {
    match compute_auth_tag("openstack", b"") {
        Ok(tag) => assert_eq!(
            tag,
            "410d3ca8258efccf2267a5c64a8a12dc072b346a893f038933cc67691362824df3170b6a2d554a2b0d120c009033b2bf"
        ),
        Err(error) => assert_eq!(error, AgentError::CryptoFailure),
    }
}

#[test]
fn tag_with_a_binary_secret() {
    let secret: Vec<u8> = (0u8..32).collect();
    assert_eq!(
        compute_auth_tag("openstack", &secret),
        Ok(String::from(
            "84274d667944b90880ad36254bf64d55c6a4f77860c7b3b0876874cb979f3e0c8f551817644089943b791eb20137804a"
        ))
    );
}

#[test]
fn tag_is_the_same_when_computed_again() {
    let first = compute_auth_tag("d432fbb3-d2f1-4a97-9ef7-75bd81c00000", b"secret");
    let second = compute_auth_tag("d432fbb3-d2f1-4a97-9ef7-75bd81c00000", b"secret");
    assert!(first.is_ok());
    assert_eq!(first, second);
}

#[test]
fn tag_changes_with_one_character_of_the_identifier() {
    let tag = compute_auth_tag("d432fbb3-d2f1-4a97-9ef7-75bd81c00001", b"secret");
    assert_eq!(
        tag,
        Ok(String::from(
            "9b5f3ef060fe491af1b561af34a048b53d560deea7d07bd2401e835f8295542b7b069c38fc7f829019dbebe64fd87b68"
        ))
    );
    assert_ne!(tag, compute_auth_tag("d432fbb3-d2f1-4a97-9ef7-75bd81c00000", b"secret"));
}

#[test]
fn tag_changes_with_the_secret() {
    assert_ne!(compute_auth_tag("openstack", b"secret"), compute_auth_tag("openstack", b"secreu"));
}

#[test]
fn tag_has_96_digits() {
    assert_eq!(compute_auth_tag("openstack", b"s").unwrap().len(), 96);
}

#[test]
fn usable_secret_lengths() {
    assert!(secret_is_usable(0));
    assert!(secret_is_usable(32));
    assert!(secret_is_usable(MAX_SECRET_LEN));
    assert!(!secret_is_usable(MAX_SECRET_LEN + 1));
    assert_eq!(MAX_SECRET_LEN, 1_610_612_733);
    assert!(4 * ((MAX_SECRET_LEN as u64 + 2) / 3) <= 0x7fff_ffff);
    assert!(4 * ((MAX_SECRET_LEN as u64 + 1 + 2) / 3) > 0x7fff_ffff);
}
