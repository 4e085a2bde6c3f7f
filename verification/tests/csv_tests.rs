use modbus_reader::csv::export_csv_text;
use modbus_reader::csv::generate_csv_header;
use modbus_reader::csv::generate_csv_line;
use modbus_reader::csv::parse_timestamp;
use modbus_reader::requests::validate_ranges_request;
use modbus_reader::types::AddressRange;
use modbus_reader::types::AddressReadResult;
use modbus_reader::types::BatchReadResult;
use modbus_reader::types::ManagedAddressRange;

fn entry(address: u16, raw: u32, parsed: &str, success: bool, error: Option<&str>, data_type: &str)
    -> AddressReadResult {
    AddressReadResult {
        address,
        raw_value: raw,
        parsed_value: parsed.to_string(),
        timestamp: "2024-01-01T12:00:00".to_string(),
        success,
        error: error.map(|e| e.to_string()),
        data_type: data_type.to_string(),
    }
}

#[test]
fn test_generate_csv_header() {
    let ranges = vec![ManagedAddressRange {
        id: "test1".to_string(),
        name: Some("Test Range 1".to_string()),
        start_address: 0,
        length: 3,
        data_type: "uint16".to_string(),
        description: None,
        enabled: Some(true),
    }];

    let header = generate_csv_header(&ranges);
    assert_eq!(header, "采集时间,地址_0,地址_1,地址_2");
}

#[test]
fn test_generate_csv_line() {
    let data = BatchReadResult {
        results: vec![
            entry(0, 100, "100", true, None, "uint16"),
            entry(1, 0, "", false, Some("连接失败"), "uint16"),
        ],
        total_count: 2,
        success_count: 1,
        failed_count: 1,
        timestamp: "2024-01-01T12:00:00".to_string(),
        duration_ms: 100,
    };

    let line = generate_csv_line(&data).unwrap();
    assert!(line.contains("100,ERROR"));
}

#[test]
fn test_generate_csv_line_with_float32() {
    let data = BatchReadResult {
        results: vec![
            entry(0, 0x42280000, "42", true, None, "float32"),
            entry(2, 0x40400000, "3", true, None, "float32"),
        ],
        total_count: 2,
        success_count: 2,
        failed_count: 0,
        timestamp: "2024-01-01T12:00:00".to_string(),
        duration_ms: 100,
    };

    let line = generate_csv_line(&data).unwrap();
    assert!(line.contains("42,3"));
    assert!(!line.contains("1109393408"));
}

#[test]
fn test_parse_timestamp() {
    let timestamp = "2024-01-01T12:00:00.123";
    let result = parse_timestamp(timestamp);
    assert!(result.is_ok());

    let invalid_timestamp = "invalid-timestamp";
    let result = parse_timestamp(invalid_timestamp);
    assert!(result.is_ok());
}

#[test]
fn header_covers_every_range_in_order() {
    let ranges = vec![
        ManagedAddressRange {
            id: "a".to_string(),
            name: None,
            start_address: 5,
            length: 2,
            data_type: "uint16".to_string(),
            description: None,
            enabled: None,
        },
        ManagedAddressRange {
            id: "b".to_string(),
            name: None,
            start_address: 100,
            length: 1,
            data_type: "int16".to_string(),
            description: None,
            enabled: None,
        },
    ];
    assert_eq!(generate_csv_header(&ranges), "采集时间,地址_5,地址_6,地址_100");
}

#[test]
fn export_text_lists_header_and_rows() {
    let batch1 = BatchReadResult {
        results: vec![
            entry(0, 100, "100", true, None, "uint16"),
            entry(1, 0, "", false, Some("设备错误: x"), "uint16"),
        ],
        total_count: 2,
        success_count: 1,
        failed_count: 1,
        timestamp: "t1".to_string(),
        duration_ms: 9,
    };
    let batch2 = BatchReadResult {
        results: vec![
            entry(0, 7, "7", true, None, "uint16"),
            entry(1, 0, "", false, None, "uint16"),
        ],
        total_count: 2,
        success_count: 1,
        failed_count: 1,
        timestamp: "t2".to_string(),
        duration_ms: 11,
    };
    let text = export_csv_text(&vec![batch1, batch2]).unwrap();
    let expected = "Timestamp,Success_Count,Failed_Count,Duration_ms,Addr_0_Raw,Addr_0_Parsed,Addr_1_Raw,Addr_1_Parsed\n\
t1,1,1,9,100,100,ERROR,设备错误: x\n\
t2,1,1,11,7,7,ERROR,ERROR\n";
    assert_eq!(text, expected);
}

#[test]
fn export_of_nothing_is_rejected() {
    let empty: Vec<BatchReadResult> = Vec::new();
    match export_csv_text(&empty) {
        Err(m) => assert_eq!(m, "没有数据可导出"),
        Ok(_) => panic!("expected an error for an empty export"),
    }
}

#[test]
fn ranges_request_validation_messages() {
    let none: Vec<AddressRange> = Vec::new();
    match validate_ranges_request(&none) {
        Err(m) => assert_eq!(m, "至少需要指定一个地址范围"),
        Ok(_) => panic!("expected an error for an empty request"),
    }

    let ranges = vec![AddressRange::new(0, 5), AddressRange::new(9, 0)];
    match validate_ranges_request(&ranges) {
        Err(m) => assert_eq!(m, "地址范围 2 无效: 起始地址=9, 数量=0"),
        Ok(_) => panic!("expected an error for an invalid range"),
    }

    let good = vec![AddressRange::new(0, 5), AddressRange::new(9, 1)];
    assert!(validate_ranges_request(&good).is_ok());
}
