//! Batch orchestration: turning the raw outcomes of several range reads
//! into one aggregated report of per-address decoded results.
//!
//! A decoded batch never fails as a whole: a range that could not be read
//! contributes one failed entry per address in it, so the report always
//! covers every requested address. The sequential fail-fast read of several
//! ranges, by contrast, stops at the first error; its per-step decision
//! stands here too.

use vstd::prelude::*;
use vstd::string::StringExecFns;

use crate::client::ModbusClient;
use crate::client::spec_format_value;
use crate::client::spec_i16_text;
use crate::client::spec_i32_text;
use crate::client::spec_raw32;
use crate::errors::ModbusError;
use crate::errors::spec_user_message;
use crate::text::spec_dec;
use crate::text::str_eq;
use crate::types::AddressRange;
use crate::types::AddressReadResult;
use crate::types::BatchReadResult;
use crate::types::ReadResult;

verus! {

broadcast use vstd::string::group_string_axioms;

/// Whether a requested data type consumes register pairs.
pub open spec fn spec_is_32bit(t: Seq<char>) -> bool {
    t == "float32"@ || t == "uint32"@ || t == "int32"@
}

/// The display format a batch read uses: the caller's, or decimal.
pub open spec fn spec_fmt(format: Option<String>) -> Seq<char> {
    match format {
        Some(s) => s@,
        None => "dec"@,
    }
}

/// How many entries one range contributes to the report: one per register
/// pair (an odd tail included) for a successfully read 32-bit range, one
/// per register for any other successful read, and one per declared
/// address when the read failed.
pub open spec fn spec_block_len(range: AddressRange, outcome: Result<Vec<u16>, ModbusError>) -> nat {
    match outcome {
        Ok(d) => if spec_is_32bit(range.data_type@) {
            ((d@.len() + 1) / 2) as nat
        } else {
            d@.len()
        },
        Err(_) => range.count as nat,
    }
}

/// How many of a range's entries count as successes.
pub open spec fn spec_block_succ(range: AddressRange, outcome: Result<Vec<u16>, ModbusError>) -> nat {
    match outcome {
        Ok(d) => if spec_is_32bit(range.data_type@) {
            (d@.len() / 2) as nat
        } else {
            d@.len()
        },
        Err(_) => 0,
    }
}

/// How many of a range's entries count as failures.
pub open spec fn spec_block_fail(range: AddressRange, outcome: Result<Vec<u16>, ModbusError>) -> nat {
    match outcome {
        Ok(d) => if spec_is_32bit(range.data_type@) {
            (d@.len() % 2) as nat
        } else {
            0
        },
        Err(_) => range.count as nat,
    }
}

/// The number of entries the first `k` ranges contribute.
pub open spec fn spec_prefix_len(
    rs: Seq<AddressRange>,
    os: Seq<Result<Vec<u16>, ModbusError>>,
    k: int,
) -> nat
    decreases k,
{
    if k <= 0 {
        0
    } else {
        spec_prefix_len(rs, os, k - 1) + spec_block_len(rs[k - 1], os[k - 1])
    }
}

/// The number of successes among the entries of the first `k` ranges.
pub open spec fn spec_prefix_succ(
    rs: Seq<AddressRange>,
    os: Seq<Result<Vec<u16>, ModbusError>>,
    k: int,
) -> nat
    decreases k,
{
    if k <= 0 {
        0
    } else {
        spec_prefix_succ(rs, os, k - 1) + spec_block_succ(rs[k - 1], os[k - 1])
    }
}

/// The number of failures among the entries of the first `k` ranges.
pub open spec fn spec_prefix_fail(
    rs: Seq<AddressRange>,
    os: Seq<Result<Vec<u16>, ModbusError>>,
    k: int,
) -> nat
    decreases k,
{
    if k <= 0 {
        0
    } else {
        spec_prefix_fail(rs, os, k - 1) + spec_block_fail(rs[k - 1], os[k - 1])
    }
}

/// The sum of the declared counts of the first `k` ranges.
pub open spec fn spec_count_sum(rs: Seq<AddressRange>, k: int) -> nat
    decreases k,
{
    if k <= 0 {
        0
    } else {
        spec_count_sum(rs, k - 1) + rs[k - 1].count as nat
    }
}

/// What the `j`-th entry of the block of one range holds, given the range's
/// read outcome, the display format in use and the shared batch timestamp.
/// The text of an IEEE-754 pair is whatever the caller's renderer returned
/// for its raw value, stated through the renderer's own postcondition.
pub open spec fn spec_block_entry<F: Fn(u32) -> String>(
    f: F,
    range: AddressRange,
    outcome: Result<Vec<u16>, ModbusError>,
    fmt: Seq<char>,
    ts: Seq<char>,
    j: int,
    e: AddressReadResult,
) -> bool {
    match outcome {
        Ok(d) => if spec_is_32bit(range.data_type@) {
            if 2 * j + 1 < d@.len() {
                &&& e.address == range.start + 2 * j
                &&& e.raw_value == spec_raw32(d@[2 * j], d@[2 * j + 1])
                &&& e.success
                &&& e.error is None
                &&& e.timestamp@ == ts
                &&& e.data_type@ == range.data_type@
                &&& (range.data_type@ == "float32"@ ==> call_ensures(
                    f,
                    (spec_raw32(d@[2 * j], d@[2 * j + 1]),),
                    e.parsed_value,
                ))
                &&& (range.data_type@ == "uint32"@ ==> e.parsed_value@ == spec_dec(
                    spec_raw32(d@[2 * j], d@[2 * j + 1]) as nat,
                ))
                &&& (range.data_type@ == "int32"@ ==> e.parsed_value@ == spec_i32_text(
                    spec_raw32(d@[2 * j], d@[2 * j + 1]),
                ))
            } else {
                &&& e.address == range.start + 2 * j
                &&& e.raw_value == d@[2 * j]
                &&& !e.success
                &&& (e.error matches Some(m) && m@ == range.data_type@ + " 需要偶数个寄存器"@)
                &&& e.timestamp@ == ts
                &&& e.data_type@ == "uint16"@
                &&& e.parsed_value@ == spec_format_value(d@[2 * j], fmt)
            }
        } else {
            &&& e.address == range.start + j
            &&& e.raw_value == d@[j]
            &&& e.success
            &&& e.error is None
            &&& e.timestamp@ == ts
            &&& (range.data_type@ == "int16"@ ==> (e.parsed_value@ == spec_i16_text(d@[j])
                && e.data_type@ == "int16"@))
            &&& (range.data_type@ != "int16"@ ==> (e.parsed_value@ == spec_format_value(d@[j], fmt)
                && e.data_type@ == range.data_type@))
        },
        Err(err) => {
            &&& e.address == range.start + j
            &&& e.raw_value == 0
            &&& !e.success
            &&& (e.error matches Some(m) && m@ == spec_user_message(err))
            &&& e.timestamp@ == ts
            &&& e.data_type@ == range.data_type@
            &&& e.parsed_value@ == (if range.data_type@ == "int16"@ {
                spec_i16_text(0)
            } else {
                spec_format_value(0, fmt)
            })
        },
    }
}

/// A later prefix of a batch never holds fewer entries than an earlier one.
proof fn lemma_prefix_len_mono(
    rs: Seq<AddressRange>,
    os: Seq<Result<Vec<u16>, ModbusError>>,
    a: int,
    b: int,
)
    requires
        0 <= a <= b,
    ensures
        spec_prefix_len(rs, os, a) <= spec_prefix_len(rs, os, b),
    decreases b,
{
    if a < b {
        lemma_prefix_len_mono(rs, os, a, b - 1);
    }
}

/// Decodes the outcome of one range read into its block of entries, with
/// its success and failure counts.
#[verifier::loop_isolation(false)]
fn decode_range<F: Fn(u32) -> String + Copy>(
    range: &AddressRange,
    outcome: &Result<Vec<u16>, ModbusError>,
    format: &str,
    timestamp: &str,
    render_float: F,
) -> (r: (Vec<AddressReadResult>, usize, usize))
    requires
        forall|bits: u32| call_requires(render_float, (bits,)),
        outcome matches Ok(d) ==> range.start + d@.len() <= 0x10000,
        outcome is Err ==> range.start + range.count <= 0x10000,
    ensures
        r.0@.len() == spec_block_len(*range, *outcome),
        r.1 == spec_block_succ(*range, *outcome),
        r.2 == spec_block_fail(*range, *outcome),
        r.1 + r.2 == r.0@.len(),
        forall|j: int|
            0 <= j < r.0@.len() ==> spec_block_entry(
                render_float,
                *range,
                *outcome,
                format@,
                timestamp@,
                j,
                #[trigger] r.0@[j],
            ),
{
    proof {
        reveal_strlit("float32");
        reveal_strlit("uint32");
        reveal_strlit("int32");
        reveal_strlit("int16");
        reveal_strlit("uint16");
        assert("float32"@.len() == 7 && "uint32"@.len() == 6 && "int32"@.len() == 5
            && "int16"@.len() == 5 && "uint16"@.len() == 6);
        assert("uint32"@[0] == 'u' && "int32"@[0] == 'i' && "int16"@[0] == 'i' && "uint16"@[0]
            == 'u');
        assert("uint32"@[4] == '3' && "uint16"@[4] == '1');
        assert("int32"@[3] == '3' && "int16"@[3] == '1');
        assert("uint16"@ != "float32"@ && "uint16"@ != "uint32"@ && "uint16"@ != "int32"@
            && "uint16"@ != "int16"@);
        assert(!spec_is_32bit("uint16"@));
    }
    let mut entries: Vec<AddressReadResult> = Vec::new();
    let mut succ: usize = 0;
    let mut fail: usize = 0;
    match outcome {
        Ok(d) => {
            let is_32bit = str_eq(range.data_type.as_str(), "float32") || str_eq(
                range.data_type.as_str(),
                "uint32",
            ) || str_eq(range.data_type.as_str(), "int32");
            if is_32bit {
                let mut i: usize = 0;
                while i < d.len()
                    invariant
                        forall|bits: u32| call_requires(render_float, (bits,)),
                        spec_is_32bit(range.data_type@),
                        range.start + d@.len() <= 0x10000,
                        i % 2 == 0,
                        i <= d@.len() + 1,
                        entries@.len() == i / 2,
                        i <= d@.len() ==> (succ == i / 2 && fail == 0),
                        i > d@.len() ==> (succ == d@.len() / 2 && fail == d@.len() % 2 && i == d@.len()
                            + 1),
                        forall|j: int|
                            0 <= j < entries@.len() ==> spec_block_entry(
                                render_float,
                                *range,
                                Ok::<Vec<u16>, ModbusError>(*d),
                                format@,
                                timestamp@,
                                j,
                                #[trigger] entries@[j],
                            ),
                    decreases d@.len() + 1 - i,
                {
                    let ghost prev = entries@;
                    let ghost jn: int = i as int / 2;
                    proof {
                        assert(2 * jn == i) by {
                            assert(i % 2 == 0);
                        };
                    }
                    let addr = range.start + (i as u16);
                    if i + 1 < d.len() {
                        let e = ModbusClient::create_address_result(
                            addr,
                            d[i],
                            format,
                            timestamp,
                            None,
                            range.data_type.as_str(),
                            Some(d[i + 1]),
                            render_float,
                        );
                        entries.push(e);
                        proof {
                            assert(spec_block_entry(
                                render_float,
                                *range,
                                Ok::<Vec<u16>, ModbusError>(*d),
                                format@,
                                timestamp@,
                                jn,
                                e,
                            ));
                            assert(forall|j: int|
                                0 <= j < prev.len() ==> entries@[j] == #[trigger] prev[j]);
                        }
                        succ = succ + 1;
                    } else {
                        let mut msg = range.data_type.clone();
                        msg.append(" 需要偶数个寄存器");
                        let e = ModbusClient::create_address_result(
                            addr,
                            d[i],
                            format,
                            timestamp,
                            Some(msg),
                            "uint16",
                            None,
                            render_float,
                        );
                        entries.push(e);
                        proof {
                            assert(spec_block_entry(
                                render_float,
                                *range,
                                Ok::<Vec<u16>, ModbusError>(*d),
                                format@,
                                timestamp@,
                                jn,
                                e,
                            ));
                            assert(forall|j: int|
                                0 <= j < prev.len() ==> entries@[j] == #[trigger] prev[j]);
                        }
                        fail = fail + 1;
                    }
                    i = i + 2;
                }
            } else {
                let mut i: usize = 0;
                while i < d.len()
                    invariant
                        forall|bits: u32| call_requires(render_float, (bits,)),
                        !spec_is_32bit(range.data_type@),
                        range.start + d@.len() <= 0x10000,
                        i <= d@.len(),
                        entries@.len() == i,
                        succ == i,
                        fail == 0,
                        forall|j: int|
                            0 <= j < entries@.len() ==> spec_block_entry(
                                render_float,
                                *range,
                                Ok::<Vec<u16>, ModbusError>(*d),
                                format@,
                                timestamp@,
                                j,
                                #[trigger] entries@[j],
                            ),
                    decreases d@.len() - i,
                {
                    let addr = range.start + (i as u16);
                    let e = ModbusClient::create_address_result(
                        addr,
                        d[i],
                        format,
                        timestamp,
                        None,
                        range.data_type.as_str(),
                        None,
                        render_float,
                    );
                    entries.push(e);
                    succ = succ + 1;
                    i = i + 1;
                }
            }
        },
        Err(err) => {
            let msg = err.user_friendly_message();
            let mut i: u16 = 0;
            while i < range.count
                invariant
                    forall|bits: u32| call_requires(render_float, (bits,)),
                    range.start + range.count <= 0x10000,
                    msg@ == spec_user_message(*err),
                    i <= range.count,
                    entries@.len() == i,
                    succ == 0,
                    fail == i,
                    forall|j: int|
                        0 <= j < entries@.len() ==> spec_block_entry(
                            render_float,
                            *range,
                            Err::<Vec<u16>, ModbusError>(*err),
                            format@,
                            timestamp@,
                            j,
                            #[trigger] entries@[j],
                        ),
                decreases range.count - i,
            {
                let addr = range.start + i;
                let mut e = ModbusClient::create_address_result(
                    addr,
                    0,
                    format,
                    timestamp,
                    Some(msg.clone()),
                    range.data_type.as_str(),
                    None,
                    render_float,
                );
                e.data_type = range.data_type.clone();
                entries.push(e);
                fail = fail + 1;
                i = i + 1;
            }
        },
    }
    (entries, succ, fail)
}

/// Assembles the report of one decoded batch read from the per-range raw
/// outcomes, in input order: successful ranges are decoded under their
/// requested type, failed ranges contribute one failed entry per declared
/// address carrying the translated error, and the counters add up over the
/// blocks. The batch timestamp and the elapsed duration are recorded as
/// given.
pub fn assemble_batch<F: Fn(u32) -> String + Copy>(
    ranges: &Vec<AddressRange>,
    outcomes: &Vec<Result<Vec<u16>, ModbusError>>,
    format: Option<String>,
    timestamp: String,
    duration_ms: u64,
    render_float: F,
) -> (r: BatchReadResult)
    requires
        outcomes@.len() == ranges@.len(),
        forall|bits: u32| call_requires(render_float, (bits,)),
        forall|k: int|
            0 <= k < ranges@.len() ==> (#[trigger] outcomes@[k] matches Ok(d) ==> ranges@[k].start
                + d@.len() <= 0x10000),
        forall|k: int|
            0 <= k < ranges@.len() ==> (#[trigger] outcomes@[k] is Err ==> ranges@[k].start
                + ranges@[k].count <= 0x10000),
    ensures
        r.results@.len() == spec_prefix_len(ranges@, outcomes@, ranges@.len() as int),
        r.total_count == r.results@.len(),
        r.success_count == spec_prefix_succ(ranges@, outcomes@, ranges@.len() as int),
        r.failed_count == spec_prefix_fail(ranges@, outcomes@, ranges@.len() as int),
        r.success_count + r.failed_count == r.total_count,
        r.timestamp == timestamp,
        r.duration_ms == duration_ms,
        forall|k: int, j: int|
            0 <= k < ranges@.len() && 0 <= j < spec_block_len(ranges@[k], outcomes@[k])
                ==> spec_block_entry(
                render_float,
                ranges@[k],
                outcomes@[k],
                spec_fmt(format),
                timestamp@,
                j,
                #[trigger] r.results@[spec_prefix_len(ranges@, outcomes@, k) + j],
            ),
{
    let fmt: String = match format {
        Some(s) => s,
        None => String::from_str("dec"),
    };
    let mut results: Vec<AddressReadResult> = Vec::new();
    let mut success_count: usize = 0;
    let mut failed_count: usize = 0;
    let mut k: usize = 0;
    while k < ranges.len()
        invariant
            outcomes@.len() == ranges@.len(),
            forall|bits: u32| call_requires(render_float, (bits,)),
            forall|kk: int|
                0 <= kk < ranges@.len() ==> (#[trigger] outcomes@[kk] matches Ok(d)
                    ==> ranges@[kk].start + d@.len() <= 0x10000),
            forall|kk: int|
                0 <= kk < ranges@.len() ==> (#[trigger] outcomes@[kk] is Err ==> ranges@[kk].start
                    + ranges@[kk].count <= 0x10000),
            fmt@ == spec_fmt(format),
            k <= ranges@.len(),
            results@.len() == spec_prefix_len(ranges@, outcomes@, k as int),
            success_count == spec_prefix_succ(ranges@, outcomes@, k as int),
            failed_count == spec_prefix_fail(ranges@, outcomes@, k as int),
            success_count + failed_count == results@.len(),
            forall|kk: int, j: int|
                0 <= kk < k && 0 <= j < spec_block_len(ranges@[kk], outcomes@[kk])
                    ==> spec_block_entry(
                    render_float,
                    ranges@[kk],
                    outcomes@[kk],
                    spec_fmt(format),
                    timestamp@,
                    j,
                    #[trigger] results@[spec_prefix_len(ranges@, outcomes@, kk) + j],
                ),
        decreases ranges@.len() - k,
    {
        let (mut block, bs, bf) = decode_range(
            &ranges[k],
            &outcomes[k],
            fmt.as_str(),
            timestamp.as_str(),
            render_float,
        );
        let ghost old_results = results@;
        let ghost block_view = block@;
        results.append(&mut block);
        let len_now = results.len();
        proof {
            assert(spec_prefix_len(ranges@, outcomes@, k + 1) == spec_prefix_len(
                ranges@,
                outcomes@,
                k as int,
            ) + spec_block_len(ranges@[k as int], outcomes@[k as int]));
            assert(success_count + bs + failed_count + bf == len_now);
            assert forall|kk: int, j: int|
                0 <= kk < k + 1 && 0 <= j < spec_block_len(
                    ranges@[kk],
                    outcomes@[kk],
                ) implies spec_block_entry(
                render_float,
                ranges@[kk],
                outcomes@[kk],
                spec_fmt(format),
                timestamp@,
                j,
                #[trigger] results@[spec_prefix_len(ranges@, outcomes@, kk) + j],
            ) by {
                if kk < k {
                    lemma_prefix_len_mono(ranges@, outcomes@, kk + 1, k as int);
                    assert(spec_prefix_len(ranges@, outcomes@, kk) + j < old_results.len());
                    assert(results@[spec_prefix_len(ranges@, outcomes@, kk) + j]
                        == old_results[spec_prefix_len(ranges@, outcomes@, kk) + j]);
                } else {
                    assert(results@[spec_prefix_len(ranges@, outcomes@, kk) + j]
                        == block_view[j]);
                }
            }
        }
        success_count = success_count + bs;
        failed_count = failed_count + bf;
        k = k + 1;
    }
    BatchReadResult {
        total_count: results.len(),
        success_count,
        failed_count,
        results,
        timestamp,
        duration_ms,
    }
}

/// In a batch whose successful reads returned exactly one word per declared
/// address and whose ranges request no 32-bit type, the report holds
/// exactly one entry per declared address: its total is the sum of the
/// ranges' counts, whether each range succeeded or failed.
pub proof fn lemma_batch_total_is_count_sum(
    rs: Seq<AddressRange>,
    os: Seq<Result<Vec<u16>, ModbusError>>,
    k: int,
)
    requires
        os.len() == rs.len(),
        0 <= k <= rs.len(),
        forall|i: int|
            0 <= i < rs.len() ==> (#[trigger] os[i] matches Ok(d) ==> (d@.len() == rs[i].count
                && !spec_is_32bit(rs[i].data_type@))),
    ensures
        spec_prefix_len(rs, os, k) == spec_count_sum(rs, k),
    decreases k,
{
    if k > 0 {
        lemma_batch_total_is_count_sum(rs, os, k - 1);
    }
}

/// Every entry of a batch report is a success or a failure, never both:
/// the two counters always add up to the total, range by range.
pub proof fn lemma_batch_counts_partition(
    rs: Seq<AddressRange>,
    os: Seq<Result<Vec<u16>, ModbusError>>,
    k: int,
)
    requires
        os.len() == rs.len(),
        0 <= k <= rs.len(),
    ensures
        spec_prefix_succ(rs, os, k) + spec_prefix_fail(rs, os, k) == spec_prefix_len(rs, os, k),
    decreases k,
{
    if k > 0 {
        lemma_batch_counts_partition(rs, os, k - 1);
    }
}

/// The per-step decision of the sequential fail-fast multi-range read: a
/// successful range read joins the collected results and the loop goes on;
/// the first error leaves the collection untouched and ends the loop with
/// that error, so no entry of a later range ever appears.
pub fn multi_read_collect_step(results: &mut Vec<ReadResult>, outcome: Result<
    ReadResult,
    ModbusError,
>) -> (r: Option<ModbusError>)
    ensures
        outcome matches Ok(rr) ==> (r is None && final(results)@ == old(results)@ + seq![rr]),
        outcome matches Err(e) ==> (r == Some(e) && final(results)@ == old(results)@),
{
    match outcome {
        Ok(rr) => {
            results.push(rr);
            None
        },
        Err(e) => Some(e),
    }
}

} // verus!
