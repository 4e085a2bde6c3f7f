//! The values that the surrounding shell writes to its CSV log: the header
//! row naming one column per tracked address, and one data row per batch,
//! each cell holding the decoded text or the literal token `ERROR`.
//!
//! Timestamp parsing and formatting is the work of the `chrono` crate; the
//! row layout around it is verified.

use vstd::prelude::*;
use vstd::string::StringExecFns;

use crate::text::spec_dec;
use crate::text::u64_to_dec;
use crate::types::AddressReadResult;
use crate::types::BatchReadResult;
use crate::types::ManagedAddressRange;

verus! {

broadcast use vstd::string::group_string_axioms;

/// One instant in the machine's time zone, carried opaquely through the
/// verified row-building code. Verus refuses chrono's `DateTime` in a
/// signature (its generic parameter is bound by an outside trait), so this
/// wrapper holds it in a hidden field instead.
#[verifier::external_body]
pub struct LocalTimestamp {
    inner: chrono::DateTime<chrono::Local>,
}

/// Relies on chrono's `Utc::now` and `DateTime::to_rfc3339`: the current
/// instant as an RFC3339 timestamp. The result depends on the clock, so
/// nothing is stated of it.
#[verifier::external_body]
pub fn now_rfc3339() -> String {
    chrono::Utc::now().to_rfc3339()
}

/// Relies on chrono's `Local::now`: the current instant in the machine's
/// time zone. The result depends on the clock, so nothing is stated of it.
#[verifier::external_body]
fn now_local() -> LocalTimestamp {
    LocalTimestamp { inner: chrono::Local::now() }
}

/// Relies on chrono's `DateTime::parse_from_str` (for a format that names
/// an offset) and `DateTime::with_timezone`: the parsed instant in the
/// machine's time zone, or nothing when the text does not match the format.
/// The result depends on the machine's time zone, so nothing is stated of
/// it.
#[verifier::external_body]
fn parse_ts_with_zone(s: &str, fmt: &str) -> Option<LocalTimestamp> {
    chrono::DateTime::parse_from_str(s, fmt).ok().map(
        |dt| LocalTimestamp { inner: dt.with_timezone(&chrono::Local) },
    )
}

/// Relies on chrono's `NaiveDateTime::parse_from_str` and
/// `Local.from_local_datetime`: nothing when the text does not match the
/// format; otherwise the parsed wall-clock time resolved in the machine's
/// time zone, which the zone may leave ambiguous or nonexistent (the inner
/// `None`). The result depends on the machine, so nothing is stated of it.
#[verifier::external_body]
fn parse_ts_local(s: &str, fmt: &str) -> Option<Option<LocalTimestamp>> {
    chrono::NaiveDateTime::parse_from_str(s, fmt).ok().map(
        |n| chrono::TimeZone::from_local_datetime(&chrono::Local, &n).single().map(
            |dt| LocalTimestamp { inner: dt },
        ),
    )
}

/// Relies on chrono's `DateTime::format`: the instant rendered under the
/// batch-row format. chrono reports a malformed format only when the text
/// is rendered, by a panic, so only the one format the row builder uses is
/// admitted here. The instant is opaque, so nothing is stated of the text.
#[verifier::external_body]
fn format_local(dt: &LocalTimestamp, fmt: &str) -> String
    requires
        fmt@ == "%Y-%m-%d %H:%M:%S%.3f"@,
{
    dt.inner.format(fmt).to_string()
}

/// One attempt at a timestamp format: first with a trailing zone offset,
/// then as a bare local wall-clock time.
fn try_timestamp_format(s: &str, fmt: &str) -> Option<LocalTimestamp> {
    let mut with_zone = String::from_str(fmt);
    with_zone.append("%:z");
    match parse_ts_with_zone(s, with_zone.as_str()) {
        Some(dt) => Some(dt),
        None => match parse_ts_local(s, fmt) {
            Some(Some(dt)) => Some(dt),
            // A wall-clock time the zone cannot resolve uniquely falls back
            // to the current instant.
            Some(None) => Some(now_local()),
            None => None,
        },
    }
}

/// Parses a timestamp string under the formats a batch may carry, most
/// precise first; a string that matches none of them yields the current
/// instant rather than an error.
pub fn parse_timestamp(timestamp_str: &str) -> (r: Result<LocalTimestamp, String>)
    ensures
        r is Ok,
{
    if let Some(dt) = try_timestamp_format(timestamp_str, "%Y-%m-%dT%H:%M:%S%.3f") {
        return Ok(dt);
    }
    if let Some(dt) = try_timestamp_format(timestamp_str, "%Y-%m-%dT%H:%M:%S") {
        return Ok(dt);
    }
    if let Some(dt) = try_timestamp_format(timestamp_str, "%Y-%m-%d %H:%M:%S%.3f") {
        return Ok(dt);
    }
    if let Some(dt) = try_timestamp_format(timestamp_str, "%Y-%m-%d %H:%M:%S") {
        return Ok(dt);
    }
    Ok(now_local())
}

/// The header cells of one managed range: one `,地址_<addr>` cell per
/// address, in ascending order.
pub open spec fn spec_header_cells_range(start: int, len: nat) -> Seq<char>
    decreases len,
{
    if len == 0 {
        Seq::empty()
    } else {
        ",地址_"@ + spec_dec(start as nat) + spec_header_cells_range(start + 1, (len - 1) as nat)
    }
}

/// The header cells of the first `k` managed ranges.
pub open spec fn spec_header_cells(rs: Seq<ManagedAddressRange>, k: int) -> Seq<char>
    decreases k,
{
    if k <= 0 {
        Seq::empty()
    } else {
        spec_header_cells(rs, k - 1) + spec_header_cells_range(
            rs[k - 1].start_address as int,
            rs[k - 1].length as nat,
        )
    }
}

/// Extending a run of header cells by its next address appends one cell.
proof fn lemma_header_cells_range_snoc(start: int, len: nat)
    ensures
        spec_header_cells_range(start, len + 1) == spec_header_cells_range(start, len) + ",地址_"@
            + spec_dec((start + len) as nat),
    decreases len,
{
    if len == 0 {
        assert(spec_header_cells_range(start + 1, 0) == Seq::<char>::empty());
        assert(spec_header_cells_range(start, 0) == Seq::<char>::empty());
        assert(spec_header_cells_range(start, 1) =~= spec_header_cells_range(start, 0) + ",地址_"@
            + spec_dec(start as nat));
    } else {
        lemma_header_cells_range_snoc(start + 1, (len - 1) as nat);
        assert(spec_header_cells_range(start, len + 1) =~= spec_header_cells_range(start, len)
            + ",地址_"@ + spec_dec((start + len) as nat));
    }
}

/// The CSV header row: the capture-time column, then one column per
/// address of each managed range, in range order.
#[verifier::loop_isolation(false)]
pub fn generate_csv_header(address_ranges: &Vec<ManagedAddressRange>) -> (r: String)
    requires
        forall|k: int|
            0 <= k < address_ranges@.len() ==> (#[trigger] address_ranges@[k].start_address as int)
                + address_ranges@[k].length <= 0x10000,
    ensures
        r@ == "采集时间"@ + spec_header_cells(address_ranges@, address_ranges@.len() as int),
{
    let mut s = String::from_str("采集时间");
    let mut k: usize = 0;
    while k < address_ranges.len()
        invariant
            k <= address_ranges@.len(),
            s@ == "采集时间"@ + spec_header_cells(address_ranges@, k as int),
        decreases address_ranges@.len() - k,
    {
        let range = &address_ranges[k];
        let mut i: u16 = 0;
        while i < range.length
            invariant
                i <= range.length,
                range == address_ranges@[k as int],
                s@ == "采集时间"@ + spec_header_cells(address_ranges@, k as int)
                    + spec_header_cells_range(range.start_address as int, i as nat),
            decreases range.length - i,
        {
            let addr = range.start_address + i;
            s.append(",地址_");
            s.append(u64_to_dec(addr as u64).as_str());
            proof {
                lemma_header_cells_range_snoc(range.start_address as int, i as nat);
            }
            i = i + 1;
        }
        k = k + 1;
    }
    s
}

/// The data cells of the first `k` entries of a batch: one `,<text>` cell
/// per entry, the decoded text for a success and the token `ERROR` for a
/// failure.
pub open spec fn spec_csv_cells(rs: Seq<AddressReadResult>, k: int) -> Seq<char>
    decreases k,
{
    if k <= 0 {
        Seq::empty()
    } else {
        spec_csv_cells(rs, k - 1) + ","@ + (if rs[k - 1].success {
            rs[k - 1].parsed_value@
        } else {
            "ERROR"@
        })
    }
}

/// One CSV data row for a batch: the batch timestamp reformatted for the
/// log, then one cell per entry in order — the decoded text for a success,
/// `ERROR` for a failure. The timestamp text comes from the clock and the
/// machine's time zone, so the row is pinned down up to that prefix.
#[verifier::loop_isolation(false)]
pub fn generate_csv_line(data: &BatchReadResult) -> (r: Result<String, String>)
    ensures
        r is Ok,
        r matches Ok(line) ==> {
            let cells = spec_csv_cells(data.results@, data.results@.len() as int);
            &&& line@.len() >= cells.len()
            &&& line@.subrange(line@.len() - cells.len(), line@.len() as int) == cells
        },
{
    let dt = match parse_timestamp(data.timestamp.as_str()) {
        Ok(dt) => dt,
        Err(e) => {
            return Err(e);
        },
    };
    let mut line = format_local(&dt, "%Y-%m-%d %H:%M:%S%.3f");
    let ghost prefix = line@;
    let mut i: usize = 0;
    while i < data.results.len()
        invariant
            i <= data.results@.len(),
            line@ == prefix + spec_csv_cells(data.results@, i as int),
        decreases data.results@.len() - i,
    {
        line.append(",");
        if data.results[i].success {
            line.append(data.results[i].parsed_value.as_str());
        } else {
            line.append("ERROR");
        }
        i = i + 1;
    }
    proof {
        let cells = spec_csv_cells(data.results@, data.results@.len() as int);
        assert(line@.subrange(line@.len() - cells.len(), line@.len() as int) =~= cells);
    }
    Ok(line)
}

/// The export header cells of the first `k` entries of a batch: a raw and
/// a parsed column per address.
pub open spec fn spec_export_header_cells(rs: Seq<AddressReadResult>, k: int) -> Seq<char>
    decreases k,
{
    if k <= 0 {
        Seq::empty()
    } else {
        spec_export_header_cells(rs, k - 1) + ",Addr_"@ + spec_dec(rs[k - 1].address as nat)
            + "_Raw,Addr_"@ + spec_dec(rs[k - 1].address as nat) + "_Parsed"@
    }
}

/// The export header row of a batch.
pub open spec fn spec_export_header(first: BatchReadResult) -> Seq<char> {
    "Timestamp,Success_Count,Failed_Count,Duration_ms"@ + spec_export_header_cells(
        first.results@,
        first.results@.len() as int,
    )
}

/// The export data cells of the first `k` entries of a batch: raw value and
/// decoded text for a success; the token `ERROR` and the entry's error text
/// (or `ERROR` again when none was recorded) for a failure.
pub open spec fn spec_export_row_cells(rs: Seq<AddressReadResult>, k: int) -> Seq<char>
    decreases k,
{
    if k <= 0 {
        Seq::empty()
    } else {
        spec_export_row_cells(rs, k - 1) + (if rs[k - 1].success {
            ","@ + spec_dec(rs[k - 1].raw_value as nat) + ","@ + rs[k - 1].parsed_value@
        } else {
            ",ERROR,"@ + (match rs[k - 1].error {
                Some(m) => m@,
                None => "ERROR"@,
            })
        })
    }
}

/// The export data row of one batch.
pub open spec fn spec_export_row(b: BatchReadResult) -> Seq<char> {
    b.timestamp@ + ","@ + spec_dec(b.success_count as nat) + ","@ + spec_dec(b.failed_count as nat)
        + ","@ + spec_dec(b.duration_ms as nat) + spec_export_row_cells(
        b.results@,
        b.results@.len() as int,
    )
}

/// The export rows of the first `k` batches, each ended by a newline.
pub open spec fn spec_export_rows(data: Seq<BatchReadResult>, k: int) -> Seq<char>
    decreases k,
{
    if k <= 0 {
        Seq::empty()
    } else {
        spec_export_rows(data, k - 1) + spec_export_row(data[k - 1]) + "\n"@
    }
}

/// The export header row of a batch, naming a raw and a parsed column for
/// each of its addresses.
#[verifier::loop_isolation(false)]
fn export_header(first: &BatchReadResult) -> (r: String)
    ensures
        r@ == spec_export_header(*first),
{
    let mut s = String::from_str("Timestamp,Success_Count,Failed_Count,Duration_ms");
    let mut i: usize = 0;
    while i < first.results.len()
        invariant
            i <= first.results@.len(),
            s@ == "Timestamp,Success_Count,Failed_Count,Duration_ms"@ + spec_export_header_cells(
                first.results@,
                i as int,
            ),
        decreases first.results@.len() - i,
    {
        let addr = first.results[i].address;
        s.append(",Addr_");
        s.append(u64_to_dec(addr as u64).as_str());
        s.append("_Raw,Addr_");
        s.append(u64_to_dec(addr as u64).as_str());
        s.append("_Parsed");
        i = i + 1;
    }
    s
}

/// The export data row of one batch.
#[verifier::loop_isolation(false)]
fn export_row(b: &BatchReadResult) -> (r: String)
    ensures
        r@ == spec_export_row(*b),
{
    let mut s = b.timestamp.clone();
    s.append(",");
    s.append(u64_to_dec(b.success_count as u64).as_str());
    s.append(",");
    s.append(u64_to_dec(b.failed_count as u64).as_str());
    s.append(",");
    s.append(u64_to_dec(b.duration_ms).as_str());
    let ghost head = s@;
    let mut i: usize = 0;
    while i < b.results.len()
        invariant
            i <= b.results@.len(),
            s@ == head + spec_export_row_cells(b.results@, i as int),
        decreases b.results@.len() - i,
    {
        if b.results[i].success {
            s.append(",");
            s.append(u64_to_dec(b.results[i].raw_value as u64).as_str());
            s.append(",");
            s.append(b.results[i].parsed_value.as_str());
        } else {
            s.append(",ERROR,");
            match &b.results[i].error {
                Some(m) => s.append(m.as_str()),
                None => s.append("ERROR"),
            }
        }
        i = i + 1;
    }
    s
}

/// The full text of a CSV export: the header row of the first batch, then
/// one row per batch, each line ended by a newline. An empty export is
/// rejected.
#[verifier::loop_isolation(false)]
pub fn export_csv_text(data: &Vec<BatchReadResult>) -> (r: Result<String, String>)
    ensures
        data@.len() == 0 ==> (r matches Err(m) && m@ == "没有数据可导出"@),
        data@.len() > 0 ==> (r matches Ok(text) && text@ == spec_export_header(data@[0]) + "\n"@
            + spec_export_rows(data@, data@.len() as int)),
{
    if data.len() == 0 {
        return Err(String::from_str("没有数据可导出"));
    }
    let mut text = export_header(&data[0]);
    text.append("\n");
    let ghost head = text@;
    let mut k: usize = 0;
    while k < data.len()
        invariant
            k <= data@.len(),
            text@ == head + spec_export_rows(data@, k as int),
        decreases data@.len() - k,
    {
        text.append(export_row(&data[k]).as_str());
        text.append("\n");
        k = k + 1;
    }
    Ok(text)
}

} // verus!
