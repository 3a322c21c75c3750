//! Data reports: the fixed-size byte arrays that carry the UART byte stream.
//!
//! Byte 0 of a data report says how many payload bytes follow it; the bytes
//! after the payload are padding. A report is modelled as a `Seq<u8>` of
//! `INTERRUPT_REPORT_LENGTH` bytes, a byte stream as a `Seq<u8>` of any length.

use vstd::math::min;
use vstd::prelude::*;

verus! {

/// Size of a data report, length byte included.
pub const INTERRUPT_REPORT_LENGTH: usize = 64;

/// The most payload bytes that one data report carries: all but the length
/// byte.
pub const MAX_PAYLOAD: usize = 63;

/// The data report that carries `bytes`: their number, the bytes, then zeros.
pub open spec fn data_report(bytes: Seq<u8>) -> Seq<u8>
    recommends
        bytes.len() <= MAX_PAYLOAD,
{
    Seq::new(
        INTERRUPT_REPORT_LENGTH as nat,
        |i: int|
            if i == 0 {
                bytes.len() as u8
            } else if i <= bytes.len() {
                bytes[i - 1]
            } else {
                0u8
            },
    )
}

/// The payload that a data report carries.
pub open spec fn payload(report: Seq<u8>) -> Seq<u8>
    recommends
        report.len() == INTERRUPT_REPORT_LENGTH,
        report[0] <= MAX_PAYLOAD,
{
    report.subrange(1, 1 + report[0])
}

/// How many data reports it takes to carry `len` bytes.
pub open spec fn report_count(len: nat) -> nat {
    (len + MAX_PAYLOAD - 1) as nat / (MAX_PAYLOAD as nat)
}

/// The part of `data` that report number `index` carries, counting from 0:
/// `MAX_PAYLOAD` bytes, or what is left of `data` in the last report.
pub open spec fn chunk(data: Seq<u8>, index: int) -> Seq<u8>
    recommends
        0 <= index < report_count(data.len()),
{
    let from = index * MAX_PAYLOAD;
    let to = if from + MAX_PAYLOAD <= data.len() {
        from + MAX_PAYLOAD
    } else {
        data.len() as int
    };
    data.subrange(from, to)
}

/// The data reports that carry `data`, in the order in which they are sent.
pub open spec fn data_reports(data: Seq<u8>) -> Seq<Seq<u8>> {
    Seq::new(report_count(data.len()), |index: int| data_report(chunk(data, index)))
}

/// Builds the data report that carries `bytes`.
pub fn encode_data(bytes: &[u8]) -> (report: [u8; INTERRUPT_REPORT_LENGTH])
    requires
        bytes@.len() <= MAX_PAYLOAD,
    ensures
        report@ == data_report(bytes@),
{
    let mut report: [u8; INTERRUPT_REPORT_LENGTH] = [0; INTERRUPT_REPORT_LENGTH];
    report[0] = bytes.len() as u8;
    let mut i: usize = 0;
    while i < bytes.len()
        invariant
            i <= bytes@.len() <= MAX_PAYLOAD,
            report@[0] == bytes@.len(),
            forall|j: int| 0 <= j < i ==> report@[j + 1] == bytes@[j],
            forall|j: int| i < j < INTERRUPT_REPORT_LENGTH ==> report@[j] == 0,
        decreases bytes@.len() - i,
    {
        report[i + 1] = bytes[i];
        i += 1;
    }
    report
}

/// Says how many data reports it takes to carry `len` bytes.
pub fn count_reports(len: usize) -> (count: usize)
    ensures
        count == report_count(len as nat),
        count * MAX_PAYLOAD >= len,
        count > 0 ==> (count - 1) * MAX_PAYLOAD < len,
{
    if len % MAX_PAYLOAD == 0 {
        len / MAX_PAYLOAD
    } else {
        len / MAX_PAYLOAD + 1
    }
}

/// Builds data report number `index` of those that carry `data`.
pub fn encode_chunk(data: &[u8], index: usize) -> (report: [u8; INTERRUPT_REPORT_LENGTH])
    requires
        index < report_count(data@.len()),
    ensures
        report@ == data_reports(data@)[index as int],
{
    let len: usize = data.len();
    let from: usize = index * MAX_PAYLOAD;
    let to: usize = if len - from >= MAX_PAYLOAD {
        from + MAX_PAYLOAD
    } else {
        len
    };
    encode_data(vstd::slice::slice_subrange(data, from, to))
}

/// Cutting `k * MAX_PAYLOAD + r` bytes, with `0 < r < MAX_PAYLOAD`, gives
/// `k + 1` data reports, all full but the last, whose length byte is `r`.
pub proof fn lemma_chunking(data: Seq<u8>, k: nat, r: nat)
    requires
        data.len() == k * MAX_PAYLOAD + r,
        0 < r < MAX_PAYLOAD,
    ensures
        data_reports(data).len() == k + 1,
        data_reports(data).last()[0] == r,
        forall|i: int| 0 <= i < k ==> (#[trigger] data_reports(data)[i])[0] == MAX_PAYLOAD,
{
}

/// The payloads of a row of data reports, one behind the other.
pub open spec fn payloads(reports: Seq<Seq<u8>>) -> Seq<u8>
    decreases reports.len(),
{
    if reports.len() == 0 {
        Seq::empty()
    } else {
        payloads(reports.drop_last()) + payload(reports.last())
    }
}

/// A data report gives back the payload it was built from.
pub proof fn lemma_payload_of_data_report(bytes: Seq<u8>)
    requires
        bytes.len() <= MAX_PAYLOAD,
    ensures
        payload(data_report(bytes)) == bytes,
{
}

proof fn lemma_payloads_of_first_reports(data: Seq<u8>, count: nat)
    requires
        count <= report_count(data.len()),
    ensures
        payloads(data_reports(data).take(count as int)) == data.take(
            min(count * MAX_PAYLOAD, data.len() as int),
        ),
    decreases count,
{
    if count > 0 {
        let reports = data_reports(data);
        lemma_payloads_of_first_reports(data, (count - 1) as nat);
        assert(reports.take(count as int).drop_last() =~= reports.take(count - 1));
        lemma_payload_of_data_report(chunk(data, count - 1));
    }
}

/// Cutting loses nothing: the payloads of the data reports that carry `data`,
/// put one behind the other, are `data`.
pub proof fn lemma_reports_carry_the_data(data: Seq<u8>)
    ensures
        payloads(data_reports(data)) == data,
{
    let reports = data_reports(data);
    lemma_payloads_of_first_reports(data, reports.len());
    assert(reports.take(reports.len() as int) =~= reports);
}

} // verus!
