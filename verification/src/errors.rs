//! Error taxonomy: a closed set of failure kinds, each with a fixed
//! machine-readable message and a separate user-facing translation that
//! classifies several kinds further by substrings of their detail text.

use vstd::prelude::*;
use vstd::string::StringExecFns;

use crate::text::contains_substring;
use crate::text::spec_contains;
use crate::text::spec_dec;
use crate::text::u64_to_dec;
use crate::types::spec_sat_add16;

verus! {

/// The closed set of failure kinds of the engine.
#[derive(Debug, Clone, PartialEq)]
pub enum ModbusError {
    /// The transport could not be opened, or the address did not resolve.
    ConnectionFailed(String),
    /// An operation needed a live connection and none was present.
    NotConnected,
    /// A register range failed validation before any request was issued.
    InvalidAddressRange { start: u16, count: u16 },
    /// The configured timeout elapsed before the device answered.
    Timeout,
    /// The device answered with a protocol exception, or the transport
    /// failed mid-request.
    DeviceError(String),
    /// A network or I/O failure outside a request.
    IoError(String),
    /// A malformed protocol exchange.
    ProtocolError(String),
    /// An invalid connection configuration.
    ConfigError(String),
    /// A failure of the engine itself.
    InternalError(String),
}

/// The fixed machine-readable message of each error kind.
pub open spec fn spec_machine_message(e: ModbusError) -> Seq<char> {
    match e {
        ModbusError::ConnectionFailed(m) => "无法连接到 Modbus 设备: "@ + m@,
        ModbusError::NotConnected => "设备未连接，请先建立连接"@,
        ModbusError::InvalidAddressRange { start, count } => "地址范围无效: 起始地址="@ + spec_dec(
            start as nat,
        ) + ", 寄存器数量="@ + spec_dec(count as nat) + "。请检查地址范围是否在有效范围内"@,
        ModbusError::Timeout => "操作超时，设备可能无响应或网络延迟过高"@,
        ModbusError::DeviceError(m) => "设备响应错误: "@ + m@,
        ModbusError::IoError(m) => "网络或IO错误: "@ + m@,
        ModbusError::ProtocolError(m) => "Modbus协议错误: "@ + m@,
        ModbusError::ConfigError(m) => "配置错误: "@ + m@,
        ModbusError::InternalError(m) => "内部错误: "@ + m@,
    }
}

/// The user-facing translation of each error kind. For connection and
/// device failures the detail text is classified by substring, so that a
/// refused connection, a timed-out connection, an unparseable address, an
/// unknown register address and an unsupported function each get their own
/// explanation.
pub open spec fn spec_user_message(e: ModbusError) -> Seq<char> {
    match e {
        ModbusError::ConnectionFailed(m) => if spec_contains(m@, "Connection refused"@) {
            "连接被拒绝，请检查设备IP地址和端口是否正确，设备是否在线"@
        } else if spec_contains(m@, "timeout"@) || spec_contains(m@, "Timeout"@) {
            "连接超时，请检查网络连接和设备状态"@
        } else if spec_contains(m@, "Invalid address"@) {
            "IP地址格式错误，请检查输入的地址格式"@
        } else {
            "连接失败: "@ + m@
        },
        ModbusError::NotConnected => "设备未连接，请先点击'连接'按钮建立连接"@,
        ModbusError::InvalidAddressRange { start, count } => if count == 0 {
            "寄存器数量不能为0"@
        } else if count > 125 {
            "单次读取的寄存器数量不能超过125个"@
        } else if spec_sat_add16(start, count) <= start {
            "地址范围溢出，请调整起始地址或寄存器数量"@
        } else {
            "地址范围无效 (起始: "@ + spec_dec(start as nat) + ", 数量: "@ + spec_dec(count as nat)
                + ")"@
        },
        ModbusError::Timeout => "操作超时，设备可能繁忙或网络延迟过高，请稍后重试"@,
        ModbusError::DeviceError(m) => if spec_contains(m@, "Illegal data address"@) {
            "设备中不存在指定的寄存器地址"@
        } else if spec_contains(m@, "Illegal function"@) {
            "设备不支持此功能"@
        } else if spec_contains(m@, "exception"@) && spec_contains(m@, "0x02"@) {
            "非法数据地址 - 请检查寄存器地址是否正确"@
        } else if spec_contains(m@, "exception"@) && spec_contains(m@, "0x03"@) {
            "非法数据值 - 设备无法处理请求的数据"@
        } else {
            "设备错误: "@ + m@
        },
        ModbusError::IoError(m) => "网络错误: "@ + m@,
        ModbusError::ProtocolError(m) => "协议错误: "@ + m@,
        ModbusError::ConfigError(m) => "配置错误: "@ + m@,
        ModbusError::InternalError(m) => "内部错误: "@ + m@,
    }
}

impl ModbusError {
    /// The fixed machine-readable message of this error.
    pub fn to_string(&self) -> (r: String)
        ensures
            r@ == spec_machine_message(*self),
    {
        match self {
            ModbusError::ConnectionFailed(m) => {
                let mut s = String::from_str("无法连接到 Modbus 设备: ");
                s.append(m.as_str());
                s
            },
            ModbusError::NotConnected => String::from_str("设备未连接，请先建立连接"),
            ModbusError::InvalidAddressRange { start, count } => {
                let mut s = String::from_str("地址范围无效: 起始地址=");
                s.append(u64_to_dec(*start as u64).as_str());
                s.append(", 寄存器数量=");
                s.append(u64_to_dec(*count as u64).as_str());
                s.append("。请检查地址范围是否在有效范围内");
                s
            },
            ModbusError::Timeout => String::from_str("操作超时，设备可能无响应或网络延迟过高"),
            ModbusError::DeviceError(m) => {
                let mut s = String::from_str("设备响应错误: ");
                s.append(m.as_str());
                s
            },
            ModbusError::IoError(m) => {
                let mut s = String::from_str("网络或IO错误: ");
                s.append(m.as_str());
                s
            },
            ModbusError::ProtocolError(m) => {
                let mut s = String::from_str("Modbus协议错误: ");
                s.append(m.as_str());
                s
            },
            ModbusError::ConfigError(m) => {
                let mut s = String::from_str("配置错误: ");
                s.append(m.as_str());
                s
            },
            ModbusError::InternalError(m) => {
                let mut s = String::from_str("内部错误: ");
                s.append(m.as_str());
                s
            },
        }
    }

    /// The user-facing explanation of this error, classifying connection
    /// and device failures further by substrings of their detail text.
    pub fn user_friendly_message(&self) -> (r: String)
        ensures
            r@ == spec_user_message(*self),
    {
        match self {
            ModbusError::ConnectionFailed(m) => {
                if contains_substring(m.as_str(), "Connection refused") {
                    String::from_str("连接被拒绝，请检查设备IP地址和端口是否正确，设备是否在线")
                } else if contains_substring(m.as_str(), "timeout") || contains_substring(
                    m.as_str(),
                    "Timeout",
                ) {
                    String::from_str("连接超时，请检查网络连接和设备状态")
                } else if contains_substring(m.as_str(), "Invalid address") {
                    String::from_str("IP地址格式错误，请检查输入的地址格式")
                } else {
                    let mut s = String::from_str("连接失败: ");
                    s.append(m.as_str());
                    s
                }
            },
            ModbusError::NotConnected => String::from_str("设备未连接，请先点击'连接'按钮建立连接"),
            ModbusError::InvalidAddressRange { start, count } => {
                if *count == 0 {
                    String::from_str("寄存器数量不能为0")
                } else if *count > 125 {
                    String::from_str("单次读取的寄存器数量不能超过125个")
                } else if start.saturating_add(*count) <= *start {
                    String::from_str("地址范围溢出，请调整起始地址或寄存器数量")
                } else {
                    let mut s = String::from_str("地址范围无效 (起始: ");
                    s.append(u64_to_dec(*start as u64).as_str());
                    s.append(", 数量: ");
                    s.append(u64_to_dec(*count as u64).as_str());
                    s.append(")");
                    s
                }
            },
            ModbusError::Timeout => String::from_str(
                "操作超时，设备可能繁忙或网络延迟过高，请稍后重试",
            ),
            ModbusError::DeviceError(m) => {
                if contains_substring(m.as_str(), "Illegal data address") {
                    String::from_str("设备中不存在指定的寄存器地址")
                } else if contains_substring(m.as_str(), "Illegal function") {
                    String::from_str("设备不支持此功能")
                } else if contains_substring(m.as_str(), "exception") && contains_substring(
                    m.as_str(),
                    "0x02",
                ) {
                    String::from_str("非法数据地址 - 请检查寄存器地址是否正确")
                } else if contains_substring(m.as_str(), "exception") && contains_substring(
                    m.as_str(),
                    "0x03",
                ) {
                    String::from_str("非法数据值 - 设备无法处理请求的数据")
                } else {
                    let mut s = String::from_str("设备错误: ");
                    s.append(m.as_str());
                    s
                }
            },
            ModbusError::IoError(m) => {
                let mut s = String::from_str("网络错误: ");
                s.append(m.as_str());
                s
            },
            ModbusError::ProtocolError(m) => {
                let mut s = String::from_str("协议错误: ");
                s.append(m.as_str());
                s
            },
            ModbusError::ConfigError(m) => {
                let mut s = String::from_str("配置错误: ");
                s.append(m.as_str());
                s
            },
            ModbusError::InternalError(m) => {
                let mut s = String::from_str("内部错误: ");
                s.append(m.as_str());
                s
            },
        }
    }
}

} // verus!
