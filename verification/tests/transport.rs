use meshcorrode::transport::ble::BleFilter;

#[test]
fn any_meshcore_matches_name_prefix() {
    let f = BleFilter::AnyMeshCore;
    assert!(f.matches(Some("MeshCore-1234"), "00:00:00:00:00:00"));
    assert!(f.matches(Some("MeshCore"), ""));
    assert!(!f.matches(Some("meshcore-1234"), ""));
    assert!(!f.matches(Some("My MeshCore"), ""));
    assert!(!f.matches(None, ""));
}

#[test]
fn name_contains_matches_substring() {
    let f = BleFilter::NameContains("Core-12".to_string());
    assert!(f.matches(Some("MeshCore-1234"), ""));
    assert!(!f.matches(Some("MeshCore-99"), ""));
    assert!(!f.matches(None, ""));
    assert!(BleFilter::NameContains(String::new()).matches(Some(""), ""));
}

#[test]
fn address_matches_ignoring_case() {
    let f = BleFilter::Address("DE:AD:BE:EF:CA:FE".to_string());
    assert!(f.matches(None, "de:ad:be:ef:ca:fe"));
    assert!(f.matches(Some("anything"), "DE:AD:BE:EF:CA:FE"));
    assert!(!f.matches(None, "DE:AD:BE:EF:CA:FF"));
    assert!(!f.matches(None, "DE:AD:BE:EF:CA"));
}
