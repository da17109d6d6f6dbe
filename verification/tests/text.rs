use keylime_agent::text::str_eq;

#[test]
fn equal_strings() {
    assert!(str_eq("", ""));
    assert!(str_eq("openstack", "openstack"));
    assert!(str_eq("gr\u{fc}n", "gr\u{fc}n"));
}

#[test]
fn unequal_strings() {
    assert!(!str_eq("openstack", "openstac"));
    assert!(!str_eq("openstack", "openstacK"));
    assert!(!str_eq("", "a"));
    assert!(!str_eq("gr\u{fc}n", "grun"));
    assert!(!str_eq("\u{e9}", "\u{e8}"));
}
