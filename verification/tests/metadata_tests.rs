use spotted_arms::metadata::{zone_from_path, zone_to_region};

#[test]
fn test_zone_to_region_standard_zones() {
    // Test standard GCP zone naming convention
    assert_eq!(zone_to_region("us-central1-a".to_string()), "us-central1");
    assert_eq!(zone_to_region("us-central1-b".to_string()), "us-central1");
    assert_eq!(zone_to_region("us-central1-c".to_string()), "us-central1");
    assert_eq!(zone_to_region("us-central1-f".to_string()), "us-central1");

    assert_eq!(zone_to_region("us-east1-a".to_string()), "us-east1");
    assert_eq!(zone_to_region("us-west1-b".to_string()), "us-west1");
    assert_eq!(zone_to_region("europe-west1-c".to_string()), "europe-west1");
    assert_eq!(
        zone_to_region("asia-southeast1-a".to_string()),
        "asia-southeast1"
    );
}

#[test]
fn test_zone_to_region_edge_cases() {
    // Test zone names without hyphens (should return the original string)
    assert_eq!(zone_to_region("invalid".to_string()), "invalid");
    assert_eq!(zone_to_region("region".to_string()), "region");

    // Test empty string
    assert_eq!(zone_to_region("".to_string()), "");

    // Test single character
    assert_eq!(zone_to_region("a".to_string()), "a");
}

#[test]
fn test_zone_to_region_multiple_hyphens() {
    // Test zones with multiple hyphens (should split on the last one)
    assert_eq!(
        zone_to_region("us-central1-special-a".to_string()),
        "us-central1-special"
    );
    assert_eq!(
        zone_to_region("europe-west1-custom-zone-b".to_string()),
        "europe-west1-custom-zone"
    );
    assert_eq!(
        zone_to_region("multi-part-region-name-c".to_string()),
        "multi-part-region-name"
    );
}

#[test]
fn test_zone_to_region_numeric_suffixes() {
    // Test zones with numeric suffixes
    assert_eq!(zone_to_region("us-central1-1".to_string()), "us-central1");
    assert_eq!(
        zone_to_region("europe-west2-123".to_string()),
        "europe-west2"
    );
}

#[test]
fn test_zone_to_region_single_hyphen() {
    // Test zone with only one hyphen
    assert_eq!(zone_to_region("region-a".to_string()), "region");
    assert_eq!(zone_to_region("us-1".to_string()), "us");
}

#[test]
fn test_zone_to_region_trailing_hyphen() {
    // Test zone ending with hyphen (edge case)
    assert_eq!(zone_to_region("us-central1-".to_string()), "us-central1");
    assert_eq!(zone_to_region("region-".to_string()), "region");
}

#[test]
fn zone_to_region_counts_characters_not_bytes() {
    assert_eq!(zone_to_region("zürich-ost-ä".to_string()), "zürich-ost");
    assert_eq!(zone_to_region("-".to_string()), "");
    assert_eq!(zone_to_region("--".to_string()), "-");
}

#[test]
fn zone_from_path_takes_last_segment() {
    assert_eq!(
        zone_from_path("projects/123/zones/us-central1-f"),
        Some("us-central1-f".to_string())
    );
    assert_eq!(zone_from_path("us-central1-f"), Some("us-central1-f".to_string()));
    assert_eq!(zone_from_path("/a"), Some("a".to_string()));
}

#[test]
fn zone_from_path_rejects_empty_segment() {
    assert_eq!(zone_from_path(""), None);
    assert_eq!(zone_from_path("/"), None);
    assert_eq!(zone_from_path("projects/123/zones/"), None);
}

#[test]
fn region_of_discovered_zone() {
    let zone = zone_from_path("projects/123/zones/us-central1-f").unwrap();
    assert_eq!(zone_to_region(zone), "us-central1");
}
