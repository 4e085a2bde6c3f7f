//! The plain request and status records that the surrounding shell
//! exchanges with the engine: read requests, export requests, connection
//! probes, and collection bookkeeping.

use vstd::prelude::*;
use vstd::string::StringExecFns;

use crate::errors::ModbusError;
use crate::text::spec_dec;
use crate::text::u64_to_dec;
use crate::types::AddressRange;
use crate::types::BatchReadResult;
use crate::types::spec_range_valid;

verus! {

/// The target of a connection probe.
#[derive(Debug, Clone)]
pub struct ConnectionConfig {
    pub ip: String,
    pub port: u16,
}

/// The outcome of a connection probe, for display.
#[derive(Debug, Clone)]
pub struct ConnectionResult {
    pub success: bool,
    pub message: String,
}

/// A one-shot read request: connect to the given device if needed, then
/// read its first range.
#[derive(Debug, Clone)]
pub struct ReadRequest {
    pub ip: String,
    pub port: u16,
    pub ranges: Vec<AddressRange>,
}

/// A decoded batch read request over several ranges, with an optional
/// display format (`dec`, `hex` or `bin`).
#[derive(Debug, Clone)]
pub struct DetailedReadRequest {
    pub ranges: Vec<AddressRange>,
    pub format: Option<String>,
}

/// A request to export collected batches to a file.
#[derive(Debug, Clone)]
pub struct ExportRequest {
    pub file_path: String,
    pub data: Vec<BatchReadResult>,
}

/// One collected sample of one address.
#[derive(Debug, Clone)]
pub struct DataPoint {
    pub timestamp: String,
    pub address: u16,
    pub value: u32,
}

/// The state of a periodic collection run.
#[derive(Debug, Clone)]
pub struct CollectionStatus {
    pub is_running: bool,
    pub interval_ms: u64,
    pub data_count: usize,
}

/// The validation a detailed read request passes before any network work:
/// at least one range, and every range valid, reported with its one-based
/// position.
#[verifier::loop_isolation(false)]
pub fn validate_ranges_request(ranges: &Vec<AddressRange>) -> (r: Result<(), String>)
    ensures
        r is Ok <==> (ranges@.len() > 0 && (forall|k: int|
            0 <= k < ranges@.len() ==> spec_range_valid(
                #[trigger] ranges@[k].start,
                ranges@[k].count,
            ))),
        ranges@.len() == 0 ==> (r matches Err(m) && m@ == "至少需要指定一个地址范围"@),
        forall|j: int|
            (0 <= j < ranges@.len() && !spec_range_valid(
                #[trigger] ranges@[j].start,
                ranges@[j].count,
            ) && (forall|l: int| 0 <= l < j ==> spec_range_valid(ranges@[l].start, ranges@[l].count)))
                ==> (r matches Err(m) && m@ == "地址范围 "@ + spec_dec((j + 1) as nat)
                + " 无效: 起始地址="@ + spec_dec(ranges@[j].start as nat) + ", 数量="@ + spec_dec(
                ranges@[j].count as nat,
            )),
{
    if ranges.len() == 0 {
        return Err(String::from_str("至少需要指定一个地址范围"));
    }
    let mut k: usize = 0;
    while k < ranges.len()
        invariant
            k <= ranges@.len(),
            forall|l: int| 0 <= l < k ==> spec_range_valid(
                #[trigger] ranges@[l].start,
                ranges@[l].count,
            ),
        decreases ranges@.len() - k,
    {
        if !ranges[k].is_valid() {
            let mut m = String::from_str("地址范围 ");
            m.append(u64_to_dec((k as u64) + 1).as_str());
            m.append(" 无效: 起始地址=");
            m.append(u64_to_dec(ranges[k].start as u64).as_str());
            m.append(", 数量=");
            m.append(u64_to_dec(ranges[k].count as u64).as_str());
            return Err(m);
        }
        k = k + 1;
    }
    Ok(())
}

/// The display record of a connection probe: connected and answering,
/// connected but silent, or failed with the probe's error.
pub fn connection_probe_result(probe: &Result<bool, ModbusError>, ip: &str, port: u16) -> (r:
    ConnectionResult)
    ensures
        *probe == Ok::<bool, ModbusError>(true) ==> (r.success && r.message@
            == "Successfully connected to "@ + ip@ + ":"@ + spec_dec(port as nat)),
        *probe == Ok::<bool, ModbusError>(false) ==> (!r.success && r.message@
            == "Connected but device not responding"@),
        *probe matches Err(e) ==> (!r.success && r.message@ == "Connection test failed: "@
            + crate::errors::spec_machine_message(e)),
{
    match probe {
        Ok(true) => {
            let mut m = String::from_str("Successfully connected to ");
            m.append(ip);
            m.append(":");
            m.append(u64_to_dec(port as u64).as_str());
            ConnectionResult { success: true, message: m }
        },
        Ok(false) => ConnectionResult {
            success: false,
            message: String::from_str("Connected but device not responding"),
        },
        Err(e) => {
            let mut m = String::from_str("Connection test failed: ");
            m.append(e.to_string().as_str());
            ConnectionResult { success: false, message: m }
        },
    }
}

/// The display record of a connection attempt that failed outright.
pub fn connection_failed_result(e: &ModbusError) -> (r: ConnectionResult)
    ensures
        !r.success,
        r.message@ == "Connection failed: "@ + crate::errors::spec_machine_message(*e),
{
    let mut m = String::from_str("Connection failed: ");
    m.append(e.to_string().as_str());
    ConnectionResult { success: false, message: m }
}

} // verus!
