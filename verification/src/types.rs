//! Core data model: connection configuration, connection state, register
//! ranges, and the result records that reads produce.

use vstd::prelude::*;
use vstd::string::StringExecFns;

verus! {

/// Connection configuration for one Modbus TCP device.
#[derive(Debug, Clone)]
pub struct ModbusConfig {
    pub ip: String,
    pub port: u16,
    pub timeout_ms: u32,
    pub slave_id: u8,
}

impl Default for ModbusConfig {
    /// The configuration used until the caller supplies one.
    fn default() -> (r: ModbusConfig)
        ensures
            r.ip@ == "192.168.1.199"@,
            r.port == 502,
            r.timeout_ms == 3000,
            r.slave_id == 1,
    {
        ModbusConfig {
            ip: String::from_str("192.168.1.199"),
            port: 502,
            timeout_ms: 3000,
            slave_id: 1,
        }
    }
}

/// The connection state of a session. Exactly one state holds at a time.
#[derive(Debug, Clone, PartialEq)]
pub enum ConnectionState {
    Disconnected,
    Connecting,
    Connected,
    Error(String),
}

/// A contiguous block of holding registers to read, with the data type
/// requested for decoding.
#[derive(Debug, Clone)]
pub struct AddressRange {
    pub start: u16,
    pub count: u16,
    pub data_type: String,
}

/// `u16` addition saturating at the top of the 16-bit address space.
pub open spec fn spec_sat_add16(a: u16, b: u16) -> u16 {
    if a + b > 0xFFFF {
        0xFFFF
    } else {
        (a + b) as u16
    }
}

/// A range is valid iff its count is nonzero, at most 125, and the
/// saturating sum of start and count still exceeds the start address.
pub open spec fn spec_range_valid(start: u16, count: u16) -> bool {
    count > 0 && count <= 125 && spec_sat_add16(start, count) > start
}

impl AddressRange {
    /// A range with the default `uint16` data type.
    pub fn new(start: u16, count: u16) -> (r: AddressRange)
        ensures
            r.start == start,
            r.count == count,
            r.data_type@ == "uint16"@,
    {
        AddressRange { start, count, data_type: String::from_str("uint16") }
    }

    /// A range with an explicit data type.
    pub fn new_with_type(start: u16, count: u16, data_type: &str) -> (r: AddressRange)
        ensures
            r.start == start,
            r.count == count,
            r.data_type@ == data_type@,
    {
        AddressRange { start, count, data_type: String::from_str(data_type) }
    }

    /// Whether the range may be read: nonzero count, at most 125 registers,
    /// and no overflow of the 16-bit address space under the saturating check.
    pub fn is_valid(&self) -> (r: bool)
        ensures
            r == spec_range_valid(self.start, self.count),
    {
        self.count > 0 && self.count <= 125 && self.start.saturating_add(self.count) > self.start
    }
}

/// Every range with `0 < count <= 125` whose end stays inside the 16-bit
/// address space is valid; a zero count, a count above 125, and a start at
/// the very top of the address space (where any nonzero count overflows)
/// are each invalid.
pub proof fn lemma_range_validity(start: u16, count: u16)
    ensures
        0 < count <= 125 && start + count <= 0xFFFF ==> spec_range_valid(start, count),
        count == 0 ==> !spec_range_valid(start, count),
        count > 125 ==> !spec_range_valid(start, count),
        start == 0xFFFF && count > 0 ==> !spec_range_valid(start, count),
{
}

/// The outcome of one successful raw range read.
#[derive(Debug, Clone)]
pub struct ReadResult {
    pub success: bool,
    pub data: Vec<u16>,
    pub address_range: AddressRange,
    pub timestamp: String,
    pub message: String,
}

/// One decoded register address inside a batch read.
#[derive(Debug, Clone)]
pub struct AddressReadResult {
    pub address: u16,
    pub raw_value: u32,
    pub parsed_value: String,
    pub timestamp: String,
    pub success: bool,
    pub error: Option<String>,
    pub data_type: String,
}

/// The aggregated outcome of one decoded batch read over several ranges.
#[derive(Debug, Clone)]
pub struct BatchReadResult {
    pub results: Vec<AddressReadResult>,
    pub total_count: usize,
    pub success_count: usize,
    pub failed_count: usize,
    pub timestamp: String,
    pub duration_ms: u64,
}

/// A named, managed register range as the surrounding shell stores it.
#[derive(Debug, Clone)]
pub struct ManagedAddressRange {
    pub id: String,
    pub name: Option<String>,
    pub start_address: u16,
    pub length: u16,
    pub data_type: String,
    pub description: Option<String>,
    pub enabled: Option<bool>,
}

} // verus!
