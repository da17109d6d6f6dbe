use keylime_agent::identifier::{
    get_uuid, identifier_for, identifier_policy, resolve_with, IdentifierPolicy,
};
use uuid::Uuid;

const FRESH: [u8; 16] = [
    0x46, 0xeb, 0xd0, 0xee, 0x0e, 0x6d, 0x43, 0xc9, 0xb9, 0x0d, 0xcc, 0xc3, 0x5a, 0x91, 0x3f, 0x3e,
];

const CONFIGURED: [u8; 16] = [
    0xd4, 0x32, 0xfb, 0xb3, 0xd2, 0xf1, 0x4a, 0x97, 0x9e, 0xf7, 0x75, 0xbd, 0x81, 0xc0, 0x00, 0x00,
];

#[test]
fn test_get_uuid() {
    assert_eq!(get_uuid("openstack"), "openstack");
    assert_eq!(get_uuid("hash_ek"), "hash_ek");
    let _ = Uuid::parse_str(&get_uuid("generate")).unwrap();
    assert_eq!(
        get_uuid("D432FBB3-D2F1-4A97-9EF7-75BD81C00000"),
        "d432fbb3-d2f1-4a97-9ef7-75bd81c00000"
    );
    assert_ne!(
        get_uuid("D432FBB3-D2F1-4A97-9EF7-75BD81C0000X"),
        "d432fbb3-d2f1-4a97-9ef7-75bd81c0000X"
    );
    let _ = Uuid::parse_str(&get_uuid("D432FBB3-D2F1-4A97-9EF7-75BD81C0000X")).unwrap();
}

#[test]
fn every_policy_gives_a_non_empty_identifier() {
    for config in [
        "openstack",
        "hash_ek",
        "generate",
        "D432FBB3-D2F1-4A97-9EF7-75BD81C00000",
        "not an identifier",
        "",
    ] {
        assert!(!get_uuid(config).is_empty());
    }
}

#[test]
fn generated_identifier_is_version_4_in_canonical_text() {
    let id = get_uuid("generate");
    assert_eq!(id.len(), 36);
    assert_eq!(id, id.to_lowercase());
    let parsed = Uuid::parse_str(&id).unwrap();
    assert_eq!(parsed.get_version_num(), 4);
    assert_eq!(parsed.as_bytes()[8] >> 6, 2);
    assert_eq!(parsed.to_string(), id);
}

#[test]
fn generated_identifiers_differ() {
    assert_ne!(get_uuid("generate"), get_uuid("generate"));
}

#[test]
fn malformed_value_falls_back_to_a_fresh_identifier() {
    let config = "D432FBB3-D2F1-4A97-9EF7-75BD81C0000X";
    let id = get_uuid(config);
    let parsed = Uuid::parse_str(&id).unwrap();
    assert_eq!(parsed.get_version_num(), 4);
    assert_ne!(id.to_lowercase(), config.to_lowercase());
    assert_ne!(get_uuid(config), id);
}

#[test]
fn keywords_resolve_to_the_same_literal_every_time() {
    assert_eq!(get_uuid("openstack"), get_uuid("openstack"));
    assert_eq!(get_uuid("openstack"), "openstack");
    assert_eq!(get_uuid("hash_ek"), get_uuid("hash_ek"));
}

#[test]
fn configured_identifier_resolves_the_same_every_time() {
    let config = "D432FBB3-D2F1-4A97-9EF7-75BD81C00000";
    assert_eq!(get_uuid(config), get_uuid(config));
}

#[test]
fn simple_form_resolves_to_canonical_text() {
    assert_eq!(
        get_uuid("D432FBB3D2F14A979EF775BD81C00000"),
        "d432fbb3-d2f1-4a97-9ef7-75bd81c00000"
    );
}

#[test]
fn urn_form_resolves_to_canonical_text() {
    assert_eq!(
        get_uuid("urn:uuid:D432FBB3-D2F1-4A97-9EF7-75BD81C00000"),
        "d432fbb3-d2f1-4a97-9ef7-75bd81c00000"
    );
}

#[test]
fn policy_of_each_kind_of_value() {
    assert_eq!(identifier_policy("openstack"), IdentifierPolicy::Openstack);
    assert_eq!(identifier_policy("hash_ek"), IdentifierPolicy::HashEk);
    assert_eq!(identifier_policy("generate"), IdentifierPolicy::Generate);
    assert_eq!(
        identifier_policy("D432FBB3-D2F1-4A97-9EF7-75BD81C00000"),
        IdentifierPolicy::Configured(CONFIGURED)
    );
    assert_eq!(
        identifier_policy("d432fbb3d2f14a979ef775bd81c00000"),
        IdentifierPolicy::Configured(CONFIGURED)
    );
    assert_eq!(
        identifier_policy("urn:uuid:d432fbb3-d2f1-4a97-9ef7-75bd81c00000"),
        IdentifierPolicy::Configured(CONFIGURED)
    );
}

#[test]
fn policy_falls_back_on_values_that_are_no_identifier() {
    for config in [
        "",
        "OPENSTACK",
        "Generate",
        "openstack ",
        "D432FBB3-D2F1-4A97-9EF7-75BD81C0000X",
        "D432FBB3-D2F1-4A97-9EF7-75BD81C0000",
        "D432FBB3-D2F1-4A97-9EF7-75BD81C000000",
        "D432FBB3D-2F1-4A97-9EF7-75BD81C00000",
        "D432FBB3-D2F14A97-9EF7-75BD81C000000",
        "urn:uuid:d432fbb3d2f14a979ef775bd81c00000",
        "URN:UUID:d432fbb3-d2f1-4a97-9ef7-75bd81c00000",
        "{d432fbb3-d2f1-4a97-9ef7-75bd81c00000}",
        "d432fbb3-d2f1-4a97-9ef7-75bd81c0000\u{e9}",
    ] {
        assert_eq!(identifier_policy(config), IdentifierPolicy::Fallback);
    }
}

#[test]
fn identifier_for_each_policy() {
    assert_eq!(identifier_for(&IdentifierPolicy::Openstack, &FRESH), "openstack");
    assert_eq!(identifier_for(&IdentifierPolicy::HashEk, &FRESH), "hash_ek");
    assert_eq!(
        identifier_for(&IdentifierPolicy::Generate, &FRESH),
        "46ebd0ee-0e6d-43c9-b90d-ccc35a913f3e"
    );
    assert_eq!(
        identifier_for(&IdentifierPolicy::Fallback, &FRESH),
        "46ebd0ee-0e6d-43c9-b90d-ccc35a913f3e"
    );
    assert_eq!(
        identifier_for(&IdentifierPolicy::Configured(CONFIGURED), &FRESH),
        "d432fbb3-d2f1-4a97-9ef7-75bd81c00000"
    );
}

#[test]
fn resolve_with_uses_the_fresh_identifier_only_where_the_policy_is_random() {
    assert_eq!(resolve_with("openstack", &FRESH), "openstack");
    assert_eq!(resolve_with("hash_ek", &FRESH), "hash_ek");
    assert_eq!(resolve_with("generate", &FRESH), "46ebd0ee-0e6d-43c9-b90d-ccc35a913f3e");
    assert_eq!(resolve_with("no identifier", &FRESH), "46ebd0ee-0e6d-43c9-b90d-ccc35a913f3e");
    assert_eq!(
        resolve_with("D432FBB3-D2F1-4A97-9EF7-75BD81C00000", &FRESH),
        "d432fbb3-d2f1-4a97-9ef7-75bd81c00000"
    );
}

#[test]
fn canonical_text_writes_every_digit() {
    let bytes: [u8; 16] = [
        0x01, 0x23, 0x45, 0x67, 0x89, 0xab, 0xcd, 0xef, 0xfe, 0xdc, 0xba, 0x98, 0x76, 0x54, 0x32,
        0x10,
    ];
    assert_eq!(
        identifier_for(&IdentifierPolicy::Configured(bytes), &FRESH),
        "01234567-89ab-cdef-fedc-ba9876543210"
    );
    assert_eq!(
        identifier_policy("01234567-89AB-cdef-FEDC-ba9876543210"),
        IdentifierPolicy::Configured(bytes)
    );
}
