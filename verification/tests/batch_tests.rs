use modbus_reader::batch::assemble_batch;
use modbus_reader::batch::multi_read_collect_step;
use modbus_reader::client::ModbusClient;
use modbus_reader::errors::ModbusError;
use modbus_reader::types::AddressRange;
use modbus_reader::types::ReadResult;

fn render(bits: u32) -> String {
    f32::from_bits(bits).to_string()
}

#[test]
fn failed_range_yields_one_entry_per_address() {
    let ranges = vec![AddressRange::new(100, 5)];
    let outcomes: Vec<Result<Vec<u16>, ModbusError>> = vec![Err(ModbusError::Timeout)];
    let batch = assemble_batch(
        &ranges,
        &outcomes,
        None,
        "2024-01-01T00:00:00Z".to_string(),
        12,
        render,
    );

    assert_eq!(batch.total_count, 5);
    assert_eq!(batch.failed_count, 5);
    assert_eq!(batch.success_count, 0);
    assert_eq!(batch.results.len(), 5);
    let expected = ModbusError::Timeout.user_friendly_message();
    for (i, entry) in batch.results.iter().enumerate() {
        assert_eq!(entry.address, 100 + i as u16);
        assert!(!entry.success);
        assert_eq!(entry.raw_value, 0);
        assert_eq!(entry.error.as_deref(), Some(expected.as_str()));
        assert_eq!(entry.data_type, "uint16");
    }
}

#[test]
fn batch_total_matches_count_sum_on_success() {
    let ranges = vec![AddressRange::new(0, 2), AddressRange::new(10, 3)];
    let outcomes: Vec<Result<Vec<u16>, ModbusError>> = vec![
        Ok(vec![5, 6]),
        Ok(vec![7, 8, 9]),
    ];
    let batch = assemble_batch(
        &ranges,
        &outcomes,
        None,
        "2024-01-01T00:00:00Z".to_string(),
        3,
        render,
    );
    assert_eq!(batch.total_count, 5);
    assert_eq!(batch.success_count, 5);
    assert_eq!(batch.failed_count, 0);
    let addresses: Vec<u16> = batch.results.iter().map(|e| e.address).collect();
    assert_eq!(addresses, vec![0, 1, 10, 11, 12]);
    let values: Vec<String> = batch.results.iter().map(|e| e.parsed_value.clone()).collect();
    assert_eq!(values, vec!["5", "6", "7", "8", "9"]);
}

#[test]
fn batch_total_matches_count_sum_on_mixed_failure() {
    let ranges = vec![AddressRange::new(0, 2), AddressRange::new(10, 3)];
    let outcomes: Vec<Result<Vec<u16>, ModbusError>> = vec![
        Ok(vec![5, 6]),
        Err(ModbusError::NotConnected),
    ];
    let batch = assemble_batch(
        &ranges,
        &outcomes,
        None,
        "2024-01-01T00:00:00Z".to_string(),
        3,
        render,
    );
    assert_eq!(batch.total_count, 5);
    assert_eq!(batch.success_count, 2);
    assert_eq!(batch.failed_count, 3);
    assert_eq!(batch.timestamp, "2024-01-01T00:00:00Z");
    assert_eq!(batch.duration_ms, 3);
}

#[test]
fn float32_ranges_decode_in_pairs() {
    let ranges = vec![AddressRange::new_with_type(0, 4, "float32")];
    let outcomes: Vec<Result<Vec<u16>, ModbusError>> = vec![
        Ok(vec![0x4228, 0x0000, 0xC048, 0xF5C3]),
    ];
    let batch = assemble_batch(
        &ranges,
        &outcomes,
        None,
        "2024-01-01T00:00:00Z".to_string(),
        1,
        render,
    );
    assert_eq!(batch.total_count, 2);
    assert_eq!(batch.success_count, 2);
    assert_eq!(batch.results[0].address, 0);
    assert_eq!(batch.results[0].raw_value, 0x42280000);
    assert_eq!(batch.results[0].parsed_value, "42");
    assert_eq!(batch.results[0].data_type, "float32");
    assert_eq!(batch.results[1].address, 2);
    assert_eq!(batch.results[1].raw_value, 0xC048F5C3);
    let neg: f32 = batch.results[1].parsed_value.parse().unwrap();
    assert!((neg + 3.14).abs() < 0.01);
}

#[test]
fn odd_tail_of_32bit_range_is_a_failed_uint16_entry() {
    let ranges = vec![AddressRange::new_with_type(0, 3, "uint32")];
    let outcomes: Vec<Result<Vec<u16>, ModbusError>> = vec![Ok(vec![0x0001, 0x0001, 0x4228])];
    let batch = assemble_batch(
        &ranges,
        &outcomes,
        None,
        "2024-01-01T00:00:00Z".to_string(),
        1,
        render,
    );
    assert_eq!(batch.total_count, 2);
    assert_eq!(batch.success_count, 1);
    assert_eq!(batch.failed_count, 1);

    assert_eq!(batch.results[0].parsed_value, "65537");
    assert_eq!(batch.results[0].data_type, "uint32");

    let tail = &batch.results[1];
    assert_eq!(tail.address, 2);
    assert!(!tail.success);
    assert_eq!(tail.data_type, "uint16");
    assert_eq!(tail.parsed_value, "16936");
    assert_eq!(tail.error.as_deref(), Some("uint32 需要偶数个寄存器"));
}

#[test]
fn int32_range_decodes_signed() {
    let ranges = vec![AddressRange::new_with_type(4, 2, "int32")];
    let outcomes: Vec<Result<Vec<u16>, ModbusError>> = vec![Ok(vec![0xFFFF, 0xFFFF])];
    let batch = assemble_batch(
        &ranges,
        &outcomes,
        None,
        "2024-01-01T00:00:00Z".to_string(),
        1,
        render,
    );
    assert_eq!(batch.total_count, 1);
    assert_eq!(batch.results[0].raw_value, 0xFFFFFFFF);
    assert_eq!(batch.results[0].parsed_value, "-1");
    assert_eq!(batch.results[0].data_type, "int32");
}

#[test]
fn batch_honours_display_format() {
    let ranges = vec![AddressRange::new(0, 1)];
    let outcomes: Vec<Result<Vec<u16>, ModbusError>> = vec![Ok(vec![1234])];
    let batch = assemble_batch(
        &ranges,
        &outcomes,
        Some("hex".to_string()),
        "2024-01-01T00:00:00Z".to_string(),
        1,
        render,
    );
    assert_eq!(batch.results[0].parsed_value, "0x04D2");
}

#[test]
fn failed_range_preserves_requested_type() {
    let ranges = vec![AddressRange::new_with_type(0, 2, "float32")];
    let outcomes: Vec<Result<Vec<u16>, ModbusError>> = vec![Err(ModbusError::Timeout)];
    let batch = assemble_batch(
        &ranges,
        &outcomes,
        None,
        "2024-01-01T00:00:00Z".to_string(),
        1,
        render,
    );
    assert_eq!(batch.results[0].data_type, "float32");
    assert_eq!(batch.results[1].data_type, "float32");
    assert_eq!(batch.failed_count, 2);
}

#[test]
fn fail_fast_multi_read_stops_at_first_error() {
    // Two ranges: A valid and already read, B invalid. The fail-fast read
    // validates B before any network work, so the collection keeps no entry
    // for B and the caller gets B's validation error.
    let range_a = AddressRange::new(0, 2);
    let range_b = AddressRange::new(0, 0);
    assert!(range_a.is_valid());
    assert!(!range_b.is_valid());

    let mut results: Vec<ReadResult> = Vec::new();

    let a_result = ModbusClient::make_read_result(
        range_a,
        vec![1, 2],
        "2024-01-01T00:00:00Z".to_string(),
    );
    assert!(multi_read_collect_step(&mut results, Ok(a_result)).is_none());
    assert_eq!(results.len(), 1);

    let client = ModbusClient::new();
    let b_error = client.read_precheck(&range_b).unwrap_err();
    let stop = multi_read_collect_step(&mut results, Err(b_error));
    match stop {
        Some(ModbusError::InvalidAddressRange { start, count }) => {
            assert_eq!(start, 0);
            assert_eq!(count, 0);
        },
        other => panic!("expected InvalidAddressRange, got {:?}", other),
    }
    assert_eq!(results.len(), 1);
    assert_eq!(results[0].address_range.start, 0);
    assert_eq!(results[0].address_range.count, 2);
}
