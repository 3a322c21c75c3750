//! Whole writes and reads, as a driver carries them out step by step.
//!
//! Nothing here runs. The functions say what the steps of the stream adapter
//! add up to when a driver follows them against a device that behaves in a
//! given way, and the proofs say what can be relied on then.

use crate::error::Error;
use crate::frame::{
    data_reports, lemma_chunking, lemma_reports_carry_the_data, payload, payloads, report_count,
    INTERRUPT_REPORT_LENGTH, MAX_PAYLOAD,
};
use crate::time::TimeSpan;
use crate::uart::{read_fetched, read_start, write_step, ReadProgress};
use vstd::prelude::*;

verus! {

/// How a write ended.
#[verifier::ext_equal]
pub struct WriteRun {
    /// The data reports that were sent, in order.
    pub sent: Seq<Seq<u8>>,
    /// Whether the write succeeded.
    pub result: Result<(), Error>,
}

/// A write of `data` from the point where the reports `sent` have gone out,
/// against a device that takes every report. `clock[i]` is the time since the
/// write began, read after report number `i` was sent.
pub open spec fn write_run_from(
    data: Seq<u8>,
    timeout: TimeSpan,
    clock: Seq<TimeSpan>,
    sent: Seq<Seq<u8>>,
) -> WriteRun
    recommends
        clock.len() >= report_count(data.len()),
    decreases report_count(data.len()) - sent.len(),
{
    let elapsed = if sent.len() == 0 {
        TimeSpan { nanos: 0 }
    } else {
        clock[sent.len() - 1]
    };
    match write_step(data, sent.len(), elapsed, timeout) {
        Err(error) => WriteRun { sent, result: Err(error) },
        Ok(None) => WriteRun { sent, result: Ok(()) },
        Ok(Some(report)) => write_run_from(data, timeout, clock, sent.push(report)),
    }
}

/// A write from its start.
pub open spec fn write_run(data: Seq<u8>, timeout: TimeSpan, clock: Seq<TimeSpan>) -> WriteRun {
    write_run_from(data, timeout, clock, Seq::empty())
}

proof fn lemma_write_run_from(data: Seq<u8>, timeout: TimeSpan, clock: Seq<TimeSpan>, from: nat)
    requires
        from <= report_count(data.len()),
        forall|i: int| 0 <= i < from - 1 ==> (#[trigger] clock[i]).nanos <= timeout.nanos,
    ensures
        ({
            let run = write_run_from(data, timeout, clock, data_reports(data).take(from as int));
            let count = report_count(data.len());
            &&& (forall|i: int| 0 <= i < count ==> (#[trigger] clock[i]).nanos <= timeout.nanos)
                ==> run == (WriteRun { sent: data_reports(data), result: Ok(()) })
            &&& forall|late: int|
                #![trigger clock[late]]
                0 <= late < count && clock[late].nanos > timeout.nanos && (forall|i: int|
                    0 <= i < late ==> (#[trigger] clock[i]).nanos <= timeout.nanos) ==> run == (
                WriteRun {
                    sent: data_reports(data).take(late + 1),
                    result: Err(Error::WriteTimeout),
                })
        }),
    decreases report_count(data.len()) - from,
{
    let reports = data_reports(data);
    let late = from > 0 && clock[from - 1].nanos > timeout.nanos;
    if !late && from < report_count(data.len()) {
        assert(reports.take(from as int).push(reports[from as int]) =~= reports.take(
            from as int + 1,
        ));
        lemma_write_run_from(data, timeout, clock, from + 1);
    }
}

/// A write that is never late sends every data report of `data`, in order,
/// and succeeds.
pub proof fn lemma_write_in_time(data: Seq<u8>, timeout: TimeSpan, clock: Seq<TimeSpan>)
    requires
        forall|i: int|
            0 <= i < report_count(data.len()) ==> (#[trigger] clock[i]).nanos <= timeout.nanos,
    ensures
        write_run(data, timeout, clock) == (WriteRun { sent: data_reports(data), result: Ok(()) }),
{
    assert(data_reports(data).take(0) =~= Seq::<Seq<u8>>::empty());
    lemma_write_run_from(data, timeout, clock, 0);
}

/// A write fails with `WriteTimeout` as soon as the clock, read after a data
/// report has gone out, is past the deadline. The reports up to that one have
/// been sent by then, so at least one has, and none after it is.
pub proof fn lemma_write_late(data: Seq<u8>, timeout: TimeSpan, clock: Seq<TimeSpan>, late: nat)
    requires
        late < report_count(data.len()),
        clock[late as int].nanos > timeout.nanos,
        forall|i: int| 0 <= i < late ==> (#[trigger] clock[i]).nanos <= timeout.nanos,
    ensures
        write_run(data, timeout, clock) == (WriteRun {
            sent: data_reports(data).take(late as int + 1),
            result: Err(Error::WriteTimeout),
        }),
        1 <= write_run(data, timeout, clock).sent.len() <= report_count(data.len()),
{
    assert(data_reports(data).take(0) =~= Seq::<Seq<u8>>::empty());
    lemma_write_run_from(data, timeout, clock, 0);
}

/// A write of `k * MAX_PAYLOAD + r` bytes, with `0 < r < MAX_PAYLOAD`, that is
/// never late sends `k + 1` data reports, the last with length byte `r`.
pub proof fn lemma_write_chunking(
    data: Seq<u8>,
    timeout: TimeSpan,
    clock: Seq<TimeSpan>,
    k: nat,
    r: nat,
)
    requires
        data.len() == k * MAX_PAYLOAD + r,
        0 < r < MAX_PAYLOAD,
        forall|i: int| 0 <= i <= k ==> (#[trigger] clock[i]).nanos <= timeout.nanos,
    ensures
        write_run(data, timeout, clock).result is Ok,
        write_run(data, timeout, clock).sent.len() == k + 1,
        write_run(data, timeout, clock).sent.last()[0] == r,
{
    lemma_chunking(data, k, r);
    lemma_write_in_time(data, timeout, clock);
}

/// What one attempt to fetch a data report brought.
pub struct Fetched {
    /// The buffer that was handed to the transport.
    pub report: Seq<u8>,
    /// How many bytes the transport said it put there; 0 when nothing came.
    pub received: nat,
    /// The time since the read began, read after the attempt.
    pub elapsed: TimeSpan,
}

impl Fetched {
    /// The buffer has the size of a data report, and the length byte of a
    /// report that came leaves its payload inside the report.
    pub open spec fn wf(self) -> bool {
        &&& self.report.len() == INTERRUPT_REPORT_LENGTH
        &&& self.received != 0 ==> self.report[0] <= MAX_PAYLOAD
    }

    /// The bytes of the stream that the attempt brought.
    pub open spec fn payload(self) -> Seq<u8> {
        if self.received == 0 {
            Seq::empty()
        } else {
            payload(self.report)
        }
    }
}

/// The bytes that a row of attempts brought, in order.
pub open spec fn arrived(fetches: Seq<Fetched>) -> Seq<u8>
    decreases fetches.len(),
{
    if fetches.len() == 0 {
        Seq::empty()
    } else {
        arrived(fetches.drop_last()) + fetches.last().payload()
    }
}

/// How far a read got.
#[verifier::ext_equal]
pub struct ReadRun {
    /// The read after its last step.
    pub progress: ReadProgress,
    /// How many attempts to fetch it made.
    pub fetches: nat,
}

/// A read from the point `progress`, against a device whose answers to the
/// attempts to fetch are `fetches`, in order. The run stops when the read is
/// over, or when `fetches` says no more about the device.
pub open spec fn read_run_from(
    progress: ReadProgress,
    timeout: TimeSpan,
    fetches: Seq<Fetched>,
) -> ReadRun
    decreases fetches.len(),
{
    if progress.done || fetches.len() == 0 {
        ReadRun { progress, fetches: 0 }
    } else {
        let first = fetches[0];
        let next = read_fetched(
            progress.data,
            progress.leftover,
            progress.filled,
            first.report,
            first.received,
            first.elapsed.nanos > timeout.nanos,
        );
        let rest = read_run_from(next, timeout, fetches.skip(1));
        ReadRun { progress: rest.progress, fetches: rest.fetches + 1 }
    }
}

/// A read into `data` from its start, while `leftover` waits.
pub open spec fn read_run(
    data: Seq<u8>,
    leftover: Seq<u8>,
    timeout: TimeSpan,
    fetches: Seq<Fetched>,
) -> ReadRun {
    read_run_from(read_start(data, leftover), timeout, fetches)
}

impl ReadProgress {
    /// The bytes that the read has delivered, followed by those that wait.
    pub open spec fn stream(self) -> Seq<u8> {
        self.data.take(self.filled as int) + self.leftover
    }

    /// No more is filled than the destination holds, and nothing waits while
    /// the read goes on.
    pub open spec fn wf(self) -> bool {
        &&& self.filled <= self.data.len()
        &&& !self.done ==> self.leftover.len() == 0
    }
}

proof fn lemma_arrived_first(fetches: Seq<Fetched>)
    requires
        fetches.len() > 0,
    ensures
        arrived(fetches) == fetches[0].payload() + arrived(fetches.skip(1)),
    decreases fetches.len(),
{
    if fetches.len() == 1 {
        assert(fetches.drop_last() =~= Seq::<Fetched>::empty());
        assert(fetches.skip(1) =~= Seq::<Fetched>::empty());
    } else {
        lemma_arrived_first(fetches.drop_last());
        assert(fetches.drop_last().skip(1) =~= fetches.skip(1).drop_last());
    }
}

proof fn lemma_read_run_from(progress: ReadProgress, timeout: TimeSpan, fetches: Seq<Fetched>)
    requires
        progress.wf(),
        forall|i: int| 0 <= i < fetches.len() ==> (#[trigger] fetches[i]).wf(),
    ensures
        ({
            let run = read_run_from(progress, timeout, fetches);
            &&& run.fetches <= fetches.len()
            &&& run.progress.wf()
            &&& run.progress.data.len() == progress.data.len()
            &&& run.progress.filled >= progress.filled
            &&& run.progress.stream() == progress.stream() + arrived(
                fetches.take(run.fetches as int),
            )
            &&& run.progress.data.skip(run.progress.filled as int) == progress.data.skip(
                run.progress.filled as int,
            )
        }),
    decreases fetches.len(),
{
    let run = read_run_from(progress, timeout, fetches);
    if !progress.done && fetches.len() > 0 {
        let first = fetches[0];
        let next = read_fetched(
            progress.data,
            progress.leftover,
            progress.filled,
            first.report,
            first.received,
            first.elapsed.nanos > timeout.nanos,
        );
        assert(next.stream() =~= progress.stream() + first.payload());
        assert(next.data.skip(next.filled as int) =~= progress.data.skip(next.filled as int));
        let rest = fetches.skip(1);
        lemma_read_run_from(next, timeout, rest);
        let used = fetches.take(run.fetches as int);
        lemma_arrived_first(used);
        assert(used.skip(1) =~= rest.take(run.fetches - 1));
    }
}

/// No byte is lost, doubled or moved out of order: however far a read gets,
/// the bytes it has put into `data` followed by the bytes that wait for the
/// next read are the bytes that waited before followed by what the attempts
/// to fetch brought. It writes to `data` from the front without a gap and
/// leaves the rest of it alone, and it fetches only once nothing waits.
pub proof fn lemma_read_keeps_the_stream(
    data: Seq<u8>,
    leftover: Seq<u8>,
    timeout: TimeSpan,
    fetches: Seq<Fetched>,
)
    requires
        forall|i: int| 0 <= i < fetches.len() ==> (#[trigger] fetches[i]).wf(),
    ensures
        ({
            let run = read_run(data, leftover, timeout, fetches);
            let count = run.progress.filled as int;
            &&& run.fetches <= fetches.len()
            &&& count <= data.len() == run.progress.data.len()
            &&& run.progress.data.take(count) + run.progress.leftover == leftover + arrived(
                fetches.take(run.fetches as int),
            )
            &&& run.progress.data.skip(count) == data.skip(count)
            &&& run.fetches > 0 ==> leftover.len() < data.len()
        }),
{
    let start = read_start(data, leftover);
    lemma_read_run_from(start, timeout, fetches);
    let count = read_run(data, leftover, timeout, fetches).progress.filled as int;
    assert(start.data.skip(count) == data.skip(count));
}

proof fn lemma_read_run_ends(
    progress: ReadProgress,
    timeout: TimeSpan,
    fetches: Seq<Fetched>,
    late: nat,
)
    requires
        late < fetches.len(),
        fetches[late as int].elapsed.nanos > timeout.nanos,
    ensures
        read_run_from(progress, timeout, fetches).progress.done,
        read_run_from(progress, timeout, fetches).fetches <= late + 1,
    decreases fetches.len(),
{
    if !progress.done {
        let first = fetches[0];
        let next = read_fetched(
            progress.data,
            progress.leftover,
            progress.filled,
            first.report,
            first.received,
            first.elapsed.nanos > timeout.nanos,
        );
        if late == 0 {
            assert(read_run_from(next, timeout, fetches.skip(1)).fetches == 0);
        } else {
            lemma_read_run_ends(next, timeout, fetches.skip(1), (late - 1) as nat);
        }
    }
}

/// A read does not outlive its deadline: once the clock, read after an
/// attempt to fetch, is past it, the read is over, whether or not anything
/// came, and no further attempt is made. It has then delivered what it had,
/// be it nothing.
pub proof fn lemma_read_ends_at_the_deadline(
    data: Seq<u8>,
    leftover: Seq<u8>,
    timeout: TimeSpan,
    fetches: Seq<Fetched>,
    late: nat,
)
    requires
        late < fetches.len(),
        fetches[late as int].elapsed.nanos > timeout.nanos,
    ensures
        read_run(data, leftover, timeout, fetches).progress.done,
        read_run(data, leftover, timeout, fetches).fetches <= late + 1,
{
    lemma_read_run_ends(read_start(data, leftover), timeout, fetches, late);
}

proof fn lemma_arrived_reports(reports: Seq<Seq<u8>>, fetches: Seq<Fetched>)
    requires
        fetches.len() == reports.len(),
        forall|i: int|
            0 <= i < fetches.len() ==> (#[trigger] fetches[i]).report == reports[i]
                && fetches[i].received != 0,
    ensures
        arrived(fetches) == payloads(reports),
    decreases fetches.len(),
{
    if fetches.len() > 0 {
        lemma_arrived_reports(reports.drop_last(), fetches.drop_last());
    }
}

/// What is written arrives as it was written: when every attempt to fetch
/// brings the next of the data reports that carry `data`, the attempts bring
/// `data`.
pub proof fn lemma_written_stream_arrives(data: Seq<u8>, fetches: Seq<Fetched>)
    requires
        fetches.len() == data_reports(data).len(),
        forall|i: int|
            0 <= i < fetches.len() ==> (#[trigger] fetches[i]).report == data_reports(data)[i]
                && fetches[i].received != 0,
    ensures
        arrived(fetches) == data,
        forall|i: int| 0 <= i < fetches.len() ==> (#[trigger] fetches[i]).wf(),
{
    lemma_arrived_reports(data_reports(data), fetches);
    lemma_reports_carry_the_data(data);
}

} // verus!
