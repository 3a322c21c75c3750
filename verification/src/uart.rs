//! The stream adapter: a UART byte stream over data reports.
//!
//! A write or a read alternates between deciding and talking to the device.
//! This module decides and leaves the talking to the caller: each function
//! takes what the device did last and says what to do next. A driver sends the
//! report it is handed, fetches when it is told to, reads the clock, and calls
//! again.

use crate::config::UartConfig;
use crate::error::Error;
use crate::frame::{
    count_reports, data_reports, encode_chunk, payload, report_count, INTERRUPT_REPORT_LENGTH,
    MAX_PAYLOAD,
};
use crate::report::{
    config_report, decode_config, decode_enable, decoded_config, decoded_enable, enable_report,
    encode_config, encode_enable, encode_purge, purge_report, FEATURE_REPORT_LENGTH,
};
use crate::rx_buffer::RxBuffer;
use crate::time::{TimeSpan, NANOS_PER_MILLI};
use vstd::math::min;
use vstd::prelude::*;

verus! {

/// How long one attempt to fetch a data report may wait, in milliseconds.
pub const FETCH_TIMEOUT_MILLIS: i32 = 1;

/// The read and write deadlines of a new [`HidUart`], in milliseconds.
pub const DEFAULT_TIMEOUT_MILLIS: u64 = 1000;

/// What a driver does next in a write.
#[derive(Clone, Copy, PartialEq, Eq, Debug)]
pub enum WriteStep {
    /// Send this data report, read the clock, and ask again.
    Send([u8; INTERRUPT_REPORT_LENGTH]),
    /// Every byte has gone out in time: the write has succeeded.
    Done,
}

impl View for WriteStep {
    type V = Option<Seq<u8>>;

    /// The data report to send next, if there is one.
    open spec fn view(&self) -> Option<Seq<u8>> {
        match self {
            WriteStep::Send(report) => Some(report@),
            WriteStep::Done => None,
        }
    }
}

/// Whether a write has run out of time once `sent` data reports have gone out
/// and the clock, read after the last of them, shows `elapsed` since the write
/// began. The clock is looked at after a report has been sent, never before
/// the first: a write that is late still sends one report before it fails,
/// and one whose last report goes out late fails although every byte is out.
pub open spec fn write_expired(sent: nat, elapsed: TimeSpan, timeout: TimeSpan) -> bool {
    sent > 0 && elapsed.nanos > timeout.nanos
}

/// How a write of `data` goes on once `sent` data reports have gone out and
/// the clock shows `elapsed`: it fails when it has run out of time; if not, it
/// sends data report number `sent`, or is done when none is left.
pub open spec fn write_step(
    data: Seq<u8>,
    sent: nat,
    elapsed: TimeSpan,
    timeout: TimeSpan,
) -> Result<Option<Seq<u8>>, Error> {
    if write_expired(sent, elapsed, timeout) {
        Err(Error::WriteTimeout)
    } else if sent < report_count(data.len()) {
        Ok(Some(data_reports(data)[sent as int]))
    } else {
        Ok(None)
    }
}

/// What a driver does next in a read.
#[derive(Clone, Copy, PartialEq, Eq, Debug, Structural)]
pub enum ReadStep {
    /// Try once to fetch a data report, read the clock, and hand both to
    /// [`HidUart::read_report`] together with this number: how many bytes of
    /// the destination are filled so far.
    Fetch(usize),
    /// The read is over and has put this many bytes into the destination.
    Done(usize),
}

impl ReadStep {
    /// How many bytes of the destination are filled.
    pub open spec fn filled(self) -> nat {
        match self {
            ReadStep::Fetch(filled) => filled as nat,
            ReadStep::Done(filled) => filled as nat,
        }
    }
}

/// A read between two steps, as contracts see it.
#[verifier::ext_equal]
pub struct ReadProgress {
    /// The destination.
    pub data: Seq<u8>,
    /// The bytes that wait for the next read.
    pub leftover: Seq<u8>,
    /// How many bytes of the destination the read has filled.
    pub filled: nat,
    /// Whether the read is over.
    pub done: bool,
}

/// Whether a read ends after an attempt to fetch, once `filled` bytes of a
/// destination of `capacity` bytes are in place: it ends when the destination
/// is full or the deadline has passed.
pub open spec fn read_over(filled: nat, capacity: nat, expired: bool) -> bool {
    expired || filled >= capacity
}

/// The first step of a read into `data` while `leftover` waits: waiting bytes
/// go into `data`, oldest first, as far as there is room; the rest of `data`
/// is left alone and the rest of `leftover` keeps waiting. The read is over if
/// that fills `data`.
pub open spec fn read_start(data: Seq<u8>, leftover: Seq<u8>) -> ReadProgress {
    let count = min(data.len() as int, leftover.len() as int);
    ReadProgress {
        data: leftover.take(count) + data.skip(count),
        leftover: leftover.skip(count),
        filled: count as nat,
        done: read_over(count as nat, data.len(), false),
    }
}

/// The step of a read after one attempt to fetch: `filled` bytes of `data` are
/// in place, `report` is the buffer handed to the transport, `received` the
/// number of bytes it said it put there (0: nothing came), and `expired` says
/// whether the read deadline has passed.
///
/// When nothing came, nothing moves. Of a report that came, as much payload
/// as fits goes into `data` behind what is there. If some does not fit, it
/// takes the place of `leftover` and the read is over at once, whatever the
/// clock shows. If all fits, `leftover` stays and [`read_over`] decides.
pub open spec fn read_fetched(
    data: Seq<u8>,
    leftover: Seq<u8>,
    filled: nat,
    report: Seq<u8>,
    received: nat,
    expired: bool,
) -> ReadProgress
    recommends
        filled <= data.len(),
        report.len() == INTERRUPT_REPORT_LENGTH,
        received != 0 ==> report[0] <= MAX_PAYLOAD,
{
    if received == 0 {
        ReadProgress { data, leftover, filled, done: read_over(filled, data.len(), expired) }
    } else {
        let arrived = payload(report);
        let taken = min(arrived.len() as int, data.len() - filled);
        ReadProgress {
            data: data.take(filled as int) + arrived.take(taken) + data.skip(filled + taken),
            leftover: if taken < arrived.len() {
                arrived.skip(taken)
            } else {
                leftover
            },
            filled: (filled + taken) as nat,
            done: taken < arrived.len() || read_over(
                (filled + taken) as nat,
                data.len(),
                expired,
            ),
        }
    }
}

/// The state of the stream adapter, as contracts see it.
pub struct HidUartView {
    /// The deadline of a read, counted from its start.
    pub read_timeout: TimeSpan,
    /// The deadline of a write, counted from its start.
    pub write_timeout: TimeSpan,
    /// Bytes that the device has sent and no read has delivered yet.
    pub leftover: Seq<u8>,
}

/// The protocol half of a driver for one bridge chip: its deadlines and the
/// bytes that wait for the next read.
pub struct HidUart {
    read_timeout: TimeSpan,
    write_timeout: TimeSpan,
    rx_buffer: RxBuffer,
}

impl View for HidUart {
    type V = HidUartView;

    closed spec fn view(&self) -> HidUartView {
        HidUartView {
            read_timeout: self.read_timeout,
            write_timeout: self.write_timeout,
            leftover: self.rx_buffer@,
        }
    }
}

impl HidUart {
    /// The state of a driver that has just opened its device: both deadlines
    /// at one second, and nothing waiting.
    pub fn new() -> (uart: HidUart)
        ensures
            uart@.read_timeout.nanos == DEFAULT_TIMEOUT_MILLIS * NANOS_PER_MILLI,
            uart@.write_timeout.nanos == DEFAULT_TIMEOUT_MILLIS * NANOS_PER_MILLI,
            uart@.leftover == Seq::<u8>::empty(),
    {
        HidUart {
            read_timeout: TimeSpan::from_millis(DEFAULT_TIMEOUT_MILLIS),
            write_timeout: TimeSpan::from_millis(DEFAULT_TIMEOUT_MILLIS),
            rx_buffer: RxBuffer::new(),
        }
    }

    /// Begins a read into `data`, as [`read_start`] says: delivers waiting
    /// bytes first. The device is asked for more only when `data` is not full
    /// by then, and then nothing waits any more.
    pub fn read(&mut self, data: &mut [u8]) -> (step: ReadStep)
        ensures
            read_start(old(data)@, old(self)@.leftover) == (ReadProgress {
                data: final(data)@,
                leftover: final(self)@.leftover,
                filled: step.filled(),
                done: step is Done,
            }),
            final(self)@.read_timeout == old(self)@.read_timeout,
            final(self)@.write_timeout == old(self)@.write_timeout,
            step is Fetch ==> final(self)@.leftover.len() == 0,
    {
        let count: usize = self.rx_buffer.read(data);
        if count < data.len() {
            ReadStep::Fetch(count)
        } else {
            ReadStep::Done(count)
        }
    }

    /// Goes on with a read after one attempt to fetch a data report, as
    /// [`read_fetched`] says for the read deadline.
    ///
    /// `filled` is the number that the last step handed out, `report` the
    /// buffer that the attempt filled, `received` how many bytes the transport
    /// said it had put there (0: nothing came), and `elapsed` the time since
    /// the read began.
    pub fn read_report(
        &mut self,
        data: &mut [u8],
        filled: usize,
        report: &[u8; INTERRUPT_REPORT_LENGTH],
        received: usize,
        elapsed: TimeSpan,
    ) -> (step: ReadStep)
        requires
            filled <= old(data)@.len(),
            received != 0 ==> report[0] <= MAX_PAYLOAD,
        ensures
            read_fetched(
                old(data)@,
                old(self)@.leftover,
                filled as nat,
                report@,
                received as nat,
                elapsed.nanos > old(self)@.read_timeout.nanos,
            ) == (ReadProgress {
                data: final(data)@,
                leftover: final(self)@.leftover,
                filled: step.filled(),
                done: step is Done,
            }),
            final(self)@.read_timeout == old(self)@.read_timeout,
            final(self)@.write_timeout == old(self)@.write_timeout,
    {
        let mut filled: usize = filled;
        let capacity: usize = data.len();
        let ghost before = data@;
        if received != 0 {
            let report_len: usize = report[0] as usize;
            let free: usize = capacity - filled;
            let copy_len: usize = if report_len < free {
                report_len
            } else {
                free
            };
            let mut i: usize = 0;
            while i < copy_len
                invariant
                    i <= copy_len,
                    copy_len <= report_len <= MAX_PAYLOAD,
                    filled + copy_len <= capacity,
                    data@.len() == capacity == before.len(),
                    forall|j: int| 0 <= j < filled ==> data@[j] == before[j],
                    forall|j: int| filled <= j < filled + i ==> data@[j] == report@[j - filled + 1],
                    forall|j: int| filled + i <= j < data@.len() ==> data@[j] == before[j],
                decreases copy_len - i,
            {
                data[filled + i] = report[i + 1];
                i += 1;
            }
            filled += copy_len;
            if copy_len < report_len {
                let excess = vstd::slice::slice_subrange(
                    vstd::array::array_as_slice(report),
                    1 + copy_len,
                    1 + report_len,
                );
                self.rx_buffer.write(excess);
                return ReadStep::Done(filled);
            }
        }
        if elapsed.exceeds(self.read_timeout) || filled >= capacity {
            ReadStep::Done(filled)
        } else {
            ReadStep::Fetch(filled)
        }
    }

    /// Says how a write of `data` goes on, as [`write_step`] says for the write
    /// deadline, once `sent` data reports have gone out, `elapsed` being the
    /// time since the write began, read after the last report was sent (`sent`
    /// is 0 at the start, and `elapsed` then does not matter).
    pub fn write(&self, data: &[u8], sent: usize, elapsed: TimeSpan) -> (step: Result<
        WriteStep,
        Error,
    >)
        ensures
            match step {
                Ok(next) => write_step(data@, sent as nat, elapsed, self@.write_timeout) == Ok::<
                    Option<Seq<u8>>,
                    Error,
                >(next@),
                Err(error) => write_step(data@, sent as nat, elapsed, self@.write_timeout) == Err::<
                    Option<Seq<u8>>,
                    Error,
                >(error),
            },
    {
        if sent > 0 && elapsed.exceeds(self.write_timeout) {
            return Err(Error::WriteTimeout);
        }
        if sent >= count_reports(data.len()) {
            return Ok(WriteStep::Done);
        }
        Ok(WriteStep::Send(encode_chunk(data, sent)))
    }

    /// Begins a purge of the chip's FIFOs: hands out the control report to
    /// send, which names the receive FIFO if `rx` and the transmit FIFO if
    /// `tx`. With `rx`, the bytes that wait for the next read are dropped as
    /// well, whether or not the report then reaches the chip.
    pub fn flush_fifos(&mut self, rx: bool, tx: bool) -> (report: [u8; FEATURE_REPORT_LENGTH])
        ensures
            report@ == purge_report(rx, tx),
            final(self)@ == (HidUartView {
                leftover: if rx {
                    Seq::<u8>::empty()
                } else {
                    old(self)@.leftover
                },
                ..old(self)@
            }),
    {
        if rx {
            self.rx_buffer.clear();
        }
        encode_purge(rx, tx)
    }

    /// The control report that enables the UART.
    pub fn enable(&self) -> (report: [u8; FEATURE_REPORT_LENGTH])
        ensures
            report@ == enable_report(true),
    {
        encode_enable(true)
    }

    /// The control report that disables the UART.
    pub fn disable(&self) -> (report: [u8; FEATURE_REPORT_LENGTH])
        ensures
            report@ == enable_report(false),
    {
        encode_enable(false)
    }

    /// Whether the enable report that the chip answered with says that the
    /// UART is enabled.
    pub fn is_enabled(&self, report: &[u8; FEATURE_REPORT_LENGTH]) -> (enabled: bool)
        ensures
            enabled == decoded_enable(report@),
    {
        decode_enable(report)
    }

    /// The control report that configures the UART as `config` says.
    pub fn set_config(&self, config: &UartConfig) -> (report: [u8; FEATURE_REPORT_LENGTH])
        ensures
            report@ == config_report(*config),
    {
        encode_config(config)
    }

    /// The UART configuration that the chip answered with, or the first field
    /// of the answer whose code stands for no setting.
    pub fn get_config(&self, report: &[u8; FEATURE_REPORT_LENGTH]) -> (config: Result<
        UartConfig,
        Error,
    >)
        ensures
            config == decoded_config(report@),
    {
        decode_config(report)
    }

    /// Returns receiving timeout.
    pub fn read_timeout(&self) -> (timeout: TimeSpan)
        ensures
            timeout == self@.read_timeout,
    {
        self.read_timeout
    }

    /// Set receiving timeout to `timeout` value.
    pub fn set_read_timeout(&mut self, timeout: TimeSpan)
        ensures
            final(self)@ == (HidUartView { read_timeout: timeout, ..old(self)@ }),
    {
        self.read_timeout = timeout;
    }

    /// Returns transmitting timeout.
    pub fn write_timeout(&self) -> (timeout: TimeSpan)
        ensures
            timeout == self@.write_timeout,
    {
        self.write_timeout
    }

    /// Set transmitting timeout to `timeout` value.
    pub fn set_write_timeout(&mut self, timeout: TimeSpan)
        ensures
            final(self)@ == (HidUartView { write_timeout: timeout, ..old(self)@ }),
    {
        self.write_timeout = timeout;
    }

    /// How many bytes wait for the next read.
    pub fn pending(&self) -> (count: usize)
        ensures
            count == self@.leftover.len(),
    {
        self.rx_buffer.len()
    }
}

} // verus!
