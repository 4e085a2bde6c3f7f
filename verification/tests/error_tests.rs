use modbus_reader::errors::ModbusError;
use modbus_reader::types::ConnectionState;

#[test]
fn mod_test_error_user_friendly_messages() {
    let error1 = ModbusError::NotConnected;
    let friendly_msg1 = error1.user_friendly_message();
    assert!(friendly_msg1.contains("设备未连接"));

    let error2 = ModbusError::InvalidAddressRange { start: 0, count: 0 };
    let friendly_msg2 = error2.user_friendly_message();
    assert!(friendly_msg2.contains("不能为0"));

    let error3 = ModbusError::Timeout;
    let friendly_msg3 = error3.user_friendly_message();
    assert!(friendly_msg3.contains("超时"));
}

#[test]
fn modbus_tests_test_error_user_friendly_messages() {
    let error1 = ModbusError::NotConnected;
    let msg1 = error1.user_friendly_message();
    assert!(msg1.contains("设备未连接"));
    assert!(!msg1.is_empty());

    let error2 = ModbusError::InvalidAddressRange { start: 0, count: 0 };
    let msg2 = error2.user_friendly_message();
    assert!(msg2.contains("地址范围") || msg2.contains("数量"));
    assert!(!msg2.is_empty());

    let error3 = ModbusError::Timeout;
    let msg3 = error3.user_friendly_message();
    assert!(msg3.contains("超时"));
    assert!(!msg3.is_empty());

    let error4 = ModbusError::ConnectionFailed("test error".to_string());
    let msg4 = error4.user_friendly_message();
    assert!(msg4.contains("连接失败"));
    assert!(!msg4.is_empty());
}

#[test]
fn test_connection_state() {
    let state1 = ConnectionState::Disconnected;
    let state2 = ConnectionState::Connected;
    let state3 = ConnectionState::Connecting;
    let state4 = ConnectionState::Error("test error".to_string());

    assert_ne!(state1, state2);
    assert_ne!(state2, state3);
    assert_ne!(state3, state4);
}

#[test]
fn test_connection_state_transitions() {
    let state1 = ConnectionState::Disconnected;
    let state2 = ConnectionState::Connecting;
    let state3 = ConnectionState::Connected;
    let state4 = ConnectionState::Error("test error".to_string());

    assert_ne!(state1, state2);
    assert_ne!(state2, state3);
    assert_ne!(state3, state4);
    assert_ne!(state4, state1);

    let state1_clone = state1.clone();
    assert_eq!(state1, state1_clone);

    let debug_str = format!("{:?}", state4);
    assert!(debug_str.contains("Error"));
    assert!(debug_str.contains("test error"));
}

#[test]
fn connection_failed_substring_classification() {
    let refused = ModbusError::ConnectionFailed("Connection refused (os error 111)".to_string());
    assert_eq!(
        refused.user_friendly_message(),
        "连接被拒绝，请检查设备IP地址和端口是否正确，设备是否在线"
    );

    let timed_out = ModbusError::ConnectionFailed("connect timeout".to_string());
    assert_eq!(timed_out.user_friendly_message(), "连接超时，请检查网络连接和设备状态");

    let timed_out_upper = ModbusError::ConnectionFailed("Timeout while connecting".to_string());
    assert_eq!(timed_out_upper.user_friendly_message(), "连接超时，请检查网络连接和设备状态");

    let bad_addr = ModbusError::ConnectionFailed("Invalid address: bad ip".to_string());
    assert_eq!(bad_addr.user_friendly_message(), "IP地址格式错误，请检查输入的地址格式");

    let other = ModbusError::ConnectionFailed("socket closed".to_string());
    assert_eq!(other.user_friendly_message(), "连接失败: socket closed");
}

#[test]
fn device_error_substring_classification() {
    let bad_addr = ModbusError::DeviceError("Modbus exception: Illegal data address".to_string());
    assert_eq!(bad_addr.user_friendly_message(), "设备中不存在指定的寄存器地址");

    let bad_fn = ModbusError::DeviceError("Illegal function".to_string());
    assert_eq!(bad_fn.user_friendly_message(), "设备不支持此功能");

    let exc2 = ModbusError::DeviceError("device exception code 0x02".to_string());
    assert_eq!(exc2.user_friendly_message(), "非法数据地址 - 请检查寄存器地址是否正确");

    let exc3 = ModbusError::DeviceError("device exception code 0x03".to_string());
    assert_eq!(exc3.user_friendly_message(), "非法数据值 - 设备无法处理请求的数据");

    let other = ModbusError::DeviceError("garbled frame".to_string());
    assert_eq!(other.user_friendly_message(), "设备错误: garbled frame");
}

#[test]
fn invalid_range_message_subcases() {
    let zero = ModbusError::InvalidAddressRange { start: 10, count: 0 };
    assert_eq!(zero.user_friendly_message(), "寄存器数量不能为0");

    let too_many = ModbusError::InvalidAddressRange { start: 10, count: 126 };
    assert_eq!(too_many.user_friendly_message(), "单次读取的寄存器数量不能超过125个");

    let overflow = ModbusError::InvalidAddressRange { start: 65535, count: 5 };
    assert_eq!(overflow.user_friendly_message(), "地址范围溢出，请调整起始地址或寄存器数量");

    let generic = ModbusError::InvalidAddressRange { start: 10, count: 5 };
    assert_eq!(generic.user_friendly_message(), "地址范围无效 (起始: 10, 数量: 5)");
}

#[test]
fn machine_messages_are_fixed() {
    assert_eq!(
        ModbusError::ConnectionFailed("x".to_string()).to_string(),
        "无法连接到 Modbus 设备: x"
    );
    assert_eq!(ModbusError::NotConnected.to_string(), "设备未连接，请先建立连接");
    assert_eq!(
        ModbusError::InvalidAddressRange { start: 7, count: 0 }.to_string(),
        "地址范围无效: 起始地址=7, 寄存器数量=0。请检查地址范围是否在有效范围内"
    );
    assert_eq!(ModbusError::Timeout.to_string(), "操作超时，设备可能无响应或网络延迟过高");
    assert_eq!(ModbusError::DeviceError("d".to_string()).to_string(), "设备响应错误: d");
    assert_eq!(ModbusError::IoError("io".to_string()).to_string(), "网络或IO错误: io");
    assert_eq!(ModbusError::ProtocolError("p".to_string()).to_string(), "Modbus协议错误: p");
    assert_eq!(ModbusError::ConfigError("c".to_string()).to_string(), "配置错误: c");
    assert_eq!(ModbusError::InternalError("i".to_string()).to_string(), "内部错误: i");
}

#[test]
fn remaining_user_messages() {
    assert_eq!(
        ModbusError::Timeout.user_friendly_message(),
        "操作超时，设备可能繁忙或网络延迟过高，请稍后重试"
    );
    assert_eq!(
        ModbusError::NotConnected.user_friendly_message(),
        "设备未连接，请先点击'连接'按钮建立连接"
    );
    assert_eq!(ModbusError::IoError("io".to_string()).user_friendly_message(), "网络错误: io");
    assert_eq!(
        ModbusError::ProtocolError("p".to_string()).user_friendly_message(),
        "协议错误: p"
    );
    assert_eq!(ModbusError::ConfigError("c".to_string()).user_friendly_message(), "配置错误: c");
    assert_eq!(
        ModbusError::InternalError("i".to_string()).user_friendly_message(),
        "内部错误: i"
    );
}
