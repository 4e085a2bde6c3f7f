use modbus_reader::types::AddressRange;

#[test]
fn test_address_range_with_data_type() {
    let range = AddressRange::new_with_type(0, 4, "float32");
    assert_eq!(range.start, 0);
    assert_eq!(range.count, 4);
    assert_eq!(range.data_type, "float32");
    assert!(range.is_valid());
}

#[test]
fn test_address_range_default_data_type() {
    let range = AddressRange::new(0, 2);
    assert_eq!(range.data_type, "uint16");
}

#[test]
fn mod_test_address_range_validation() {
    let valid_range = AddressRange::new(0, 10);
    assert!(valid_range.is_valid());

    let invalid_range1 = AddressRange::new(0, 0);
    assert!(!invalid_range1.is_valid());

    let invalid_range2 = AddressRange::new(0, 126);
    assert!(!invalid_range2.is_valid());

    let invalid_range3 = AddressRange::new(65535, 1);
    assert!(!invalid_range3.is_valid());
}

#[test]
fn modbus_tests_test_address_range_validation() {
    let valid_range = AddressRange::new(0, 10);
    assert!(valid_range.is_valid());

    let invalid_range1 = AddressRange::new(0, 0);
    assert!(!invalid_range1.is_valid());

    let invalid_range2 = AddressRange::new(0, 126);
    assert!(!invalid_range2.is_valid());

    let invalid_range3 = AddressRange::new(65535, 2);
    assert!(!invalid_range3.is_valid());

    let boundary_range = AddressRange::new(65534, 1);
    assert!(boundary_range.is_valid());
}

#[test]
fn test_detailed_read_request_validation() {
    let valid_range = AddressRange::new(0, 10);
    assert!(valid_range.is_valid());

    let invalid_range = AddressRange::new(0, 0);
    assert!(!invalid_range.is_valid());

    let too_large_range = AddressRange::new(0, 126);
    assert!(!too_large_range.is_valid());
}

#[test]
fn range_validity_boundaries() {
    assert!(AddressRange::new(0, 1).is_valid());
    assert!(AddressRange::new(0, 125).is_valid());
    assert!(!AddressRange::new(0, 0).is_valid());
    assert!(!AddressRange::new(1, 126).is_valid());
    assert!(AddressRange::new(65534, 1).is_valid());
    assert!(!AddressRange::new(65535, 1).is_valid());
    assert!(!AddressRange::new(65535, 2).is_valid());
}
