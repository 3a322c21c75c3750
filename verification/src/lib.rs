//! Protocol core of a HID-to-UART bridge driver for the CP2110/CP2114 chips.
//!
//! The chips speak UART on one side and fixed-size HID reports on the other.
//! This crate holds the part of a driver that needs no device: how settings are
//! packed into control reports, how a byte stream is cut into data reports and
//! put together again, and how bytes that arrived but did not fit the caller's
//! buffer are kept for the next read. Reports go to and come from the device
//! in the caller's hands; every function here works on plain bytes.
//!
//! * [`config`] holds the UART settings and their wire codes.
//! * [`report`] builds and reads control reports.
//! * [`frame`] builds data reports and says how a stream is cut into them.
//! * [`rx_buffer`] keeps the bytes that wait for the next read.
//! * [`uart`] is the stream adapter: it says, step by step, what a driver
//!   sends and fetches in a write and in a read.
//! * [`run`] says what those steps add up to, and proves it.
//!
//! A driver writes by asking [`HidUart::write`] what to do until it answers
//! [`WriteStep::Done`] or fails, sending each report it is handed and reading
//! the clock after it:
//!
//! ```text
//! sent = 0, elapsed = 0
//! loop: match uart.write(data, sent, elapsed)
//!     Err(error)        => fail with error
//!     Ok(Done)          => succeed
//!     Ok(Send(report))  => send report; sent += 1; elapsed = time since start
//! ```
//!
//! It reads by calling [`HidUart::read`] once and then [`HidUart::read_report`]
//! after each attempt to fetch, until it is told that the read is over:
//!
//! ```text
//! step = uart.read(data)
//! loop: match step
//!     Done(count)   => return count
//!     Fetch(filled) => received = fetch into a zeroed report, waiting at most
//!                      FETCH_TIMEOUT_MILLIS; elapsed = time since start;
//!                      step = uart.read_report(data, filled, report, received, elapsed)
//! ```

pub mod config;
pub mod error;
pub mod frame;
pub mod report;
pub mod run;
pub mod rx_buffer;
pub mod time;
pub mod uart;

pub use config::{DataBits, FlowControl, Parity, StopBits, UartConfig};
pub use error::{ConfigField, Error};
pub use rx_buffer::RxBuffer;
pub use time::TimeSpan;
pub use uart::{HidUart, ReadStep, WriteStep};
