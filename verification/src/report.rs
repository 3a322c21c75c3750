//! Control reports: the fixed-size byte arrays that carry the enable flag, the
//! UART configuration and the FIFO purge request.
//!
//! Byte 0 of every control report is its command code. Each report is modelled
//! as a `Seq<u8>` of `FEATURE_REPORT_LENGTH` bytes.

use crate::config::{DataBits, FlowControl, Parity, StopBits, UartConfig};
use crate::error::{ConfigField, Error};
use vstd::prelude::*;

verus! {

/// Size of a control report, command code included.
pub const FEATURE_REPORT_LENGTH: usize = 64;

/// Command code: get or set the UART enable flag.
pub const GETSET_UART_ENABLE: u8 = 0x41;

/// Command code: purge the FIFOs.
pub const PURGE_FIFOS: u8 = 0x43;

/// Command code: get or set the UART configuration.
pub const GETSET_UART_CONFIG: u8 = 0x50;

/// Purge request bit: empty the transmit FIFO.
pub const PURGE_TRANSMIT_MASK: u8 = 0x01;

/// Purge request bit: empty the receive FIFO.
pub const PURGE_RECEIVE_MASK: u8 = 0x02;

/// The number that four bytes spell when the most significant comes first.
pub open spec fn be32(b0: u8, b1: u8, b2: u8, b3: u8) -> int {
    b0 * 0x100_0000 + b1 * 0x1_0000 + b2 * 0x100 + b3
}

/// What a configuration report says: the settings it carries, or the first
/// field, in report order, whose code byte stands for no setting.
///
/// Bytes 1 to 4 are the baud rate, most significant byte first; bytes 5 to 8
/// are the codes of parity, flow control, data bits and stop bits. The command
/// code and the bytes after byte 8 are not looked at.
pub open spec fn decoded_config(report: Seq<u8>) -> Result<UartConfig, Error>
    recommends
        report.len() == FEATURE_REPORT_LENGTH,
{
    match (
        Parity::of_wire_code(report[5]),
        FlowControl::of_wire_code(report[6]),
        DataBits::of_wire_code(report[7]),
        StopBits::of_wire_code(report[8]),
    ) {
        (None, _, _, _) => Err(Error::InvalidEncoding(ConfigField::Parity)),
        (Some(_), None, _, _) => Err(Error::InvalidEncoding(ConfigField::FlowControl)),
        (Some(_), Some(_), None, _) => Err(Error::InvalidEncoding(ConfigField::DataBits)),
        (Some(_), Some(_), Some(_), None) => Err(Error::InvalidEncoding(ConfigField::StopBits)),
        (Some(parity), Some(flow_control), Some(data_bits), Some(stop_bits)) => Ok(
            UartConfig {
                baud_rate: be32(report[1], report[2], report[3], report[4]) as u32,
                data_bits,
                parity,
                stop_bits,
                flow_control,
            },
        ),
    }
}

/// Reads the UART configuration out of a configuration report.
pub fn decode_config(report: &[u8; FEATURE_REPORT_LENGTH]) -> (decoded: Result<UartConfig, Error>)
    ensures
        decoded == decoded_config(report@),
        decoded is Ok <==> report[5] <= 4 && report[6] <= 1 && report[7] <= 3 && report[8] <= 1,
{
    let b0: u32 = report[1] as u32;
    let b1: u32 = report[2] as u32;
    let b2: u32 = report[3] as u32;
    let b3: u32 = report[4] as u32;
    let baud_rate: u32 = b0 << 24 | b1 << 16 | b2 << 8 | b3;
    assert(baud_rate == b0 * 0x100_0000 + b1 * 0x1_0000 + b2 * 0x100 + b3) by (bit_vector)
        requires
            baud_rate == b0 << 24 | b1 << 16 | b2 << 8 | b3,
            b0 < 256,
            b1 < 256,
            b2 < 256,
            b3 < 256,
    ;
    let parity = match Parity::from_code(report[5]) {
        Some(parity) => parity,
        None => { return Err(Error::InvalidEncoding(ConfigField::Parity)); },
    };
    let flow_control = match FlowControl::from_code(report[6]) {
        Some(flow_control) => flow_control,
        None => { return Err(Error::InvalidEncoding(ConfigField::FlowControl)); },
    };
    let data_bits = match DataBits::from_code(report[7]) {
        Some(data_bits) => data_bits,
        None => { return Err(Error::InvalidEncoding(ConfigField::DataBits)); },
    };
    let stop_bits = match StopBits::from_code(report[8]) {
        Some(stop_bits) => stop_bits,
        None => { return Err(Error::InvalidEncoding(ConfigField::StopBits)); },
    };
    Ok(UartConfig { baud_rate, parity, flow_control, data_bits, stop_bits })
}

/// The configuration report that carries `config`: the command code, the baud
/// rate in four bytes with the most significant first, the codes of parity,
/// flow control, data bits and stop bits, then zeros.
pub open spec fn config_report(config: UartConfig) -> Seq<u8> {
    Seq::new(
        FEATURE_REPORT_LENGTH as nat,
        |i: int|
            if i == 0 {
                GETSET_UART_CONFIG
            } else if i == 1 {
                (config.baud_rate / 0x100_0000) as u8
            } else if i == 2 {
                (config.baud_rate / 0x1_0000 % 0x100) as u8
            } else if i == 3 {
                (config.baud_rate / 0x100 % 0x100) as u8
            } else if i == 4 {
                (config.baud_rate % 0x100) as u8
            } else if i == 5 {
                config.parity.wire_code()
            } else if i == 6 {
                config.flow_control.wire_code()
            } else if i == 7 {
                config.data_bits.wire_code()
            } else if i == 8 {
                config.stop_bits.wire_code()
            } else {
                0u8
            },
    )
}

/// Builds the configuration report that carries `config`.
pub fn encode_config(config: &UartConfig) -> (report: [u8; FEATURE_REPORT_LENGTH])
    ensures
        report@ == config_report(*config),
{
    let baud_rate: u32 = config.baud_rate;
    let mut report: [u8; FEATURE_REPORT_LENGTH] = [0; FEATURE_REPORT_LENGTH];
    report[0] = GETSET_UART_CONFIG;
    report[1] = ((baud_rate >> 24) & 0xFF) as u8;
    report[2] = ((baud_rate >> 16) & 0xFF) as u8;
    report[3] = ((baud_rate >> 8) & 0xFF) as u8;
    report[4] = (baud_rate & 0xFF) as u8;
    report[5] = config.parity.to_code();
    report[6] = config.flow_control.to_code();
    report[7] = config.data_bits.to_code();
    report[8] = config.stop_bits.to_code();
    assert({
        &&& (baud_rate >> 24) & 0xFF == baud_rate / 0x100_0000
        &&& (baud_rate >> 16) & 0xFF == baud_rate / 0x1_0000 % 0x100
        &&& (baud_rate >> 8) & 0xFF == baud_rate / 0x100 % 0x100
        &&& baud_rate & 0xFF == baud_rate % 0x100
    }) by (bit_vector);
    report
}

/// The control report that sets the UART enable flag: the command code, then
/// 1 to enable or 0 to disable, then zeros.
pub open spec fn enable_report(enable: bool) -> Seq<u8> {
    Seq::new(
        FEATURE_REPORT_LENGTH as nat,
        |i: int|
            if i == 0 {
                GETSET_UART_ENABLE
            } else if i == 1 && enable {
                1u8
            } else {
                0u8
            },
    )
}

/// What an enable report says: the UART is enabled unless byte 1 is zero.
pub open spec fn decoded_enable(report: Seq<u8>) -> bool
    recommends
        report.len() == FEATURE_REPORT_LENGTH,
{
    report[1] != 0
}

/// Builds the control report that enables or disables the UART.
pub fn encode_enable(enable: bool) -> (report: [u8; FEATURE_REPORT_LENGTH])
    ensures
        report@ == enable_report(enable),
{
    let mut report: [u8; FEATURE_REPORT_LENGTH] = [0; FEATURE_REPORT_LENGTH];
    report[0] = GETSET_UART_ENABLE;
    if enable {
        report[1] = 0x01;
    } else {
        report[1] = 0x00;
    }
    report
}

/// Reads the enable flag out of an enable report.
pub fn decode_enable(report: &[u8; FEATURE_REPORT_LENGTH]) -> (enabled: bool)
    ensures
        enabled == decoded_enable(report@),
{
    report[1] != 0x00
}

/// Byte 1 of a purge report: the receive bit if `rx`, the transmit bit if `tx`.
/// The two bits differ, so the sum of those asked for is also their bitwise
/// OR, as [`lemma_purge_mask_bits`] shows.
pub open spec fn purge_mask(rx: bool, tx: bool) -> u8 {
    ((if rx {
        PURGE_RECEIVE_MASK as int
    } else {
        0
    }) + (if tx {
        PURGE_TRANSMIT_MASK as int
    } else {
        0
    })) as u8
}

/// The control report that asks the chip to empty its FIFOs: the command
/// code, the mask of the FIFOs to empty, then zeros.
pub open spec fn purge_report(rx: bool, tx: bool) -> Seq<u8> {
    Seq::new(
        FEATURE_REPORT_LENGTH as nat,
        |i: int|
            if i == 0 {
                PURGE_FIFOS
            } else if i == 1 {
                purge_mask(rx, tx)
            } else {
                0u8
            },
    )
}

/// Builds the control report that empties the receive FIFO if `rx`, and the
/// transmit FIFO if `tx`.
pub fn encode_purge(rx: bool, tx: bool) -> (report: [u8; FEATURE_REPORT_LENGTH])
    ensures
        report@ == purge_report(rx, tx),
{
    let mut report: [u8; FEATURE_REPORT_LENGTH] = [0; FEATURE_REPORT_LENGTH];
    report[0] = PURGE_FIFOS;
    if rx {
        report[1] = report[1] | PURGE_RECEIVE_MASK;
    }
    if tx {
        report[1] = report[1] | PURGE_TRANSMIT_MASK;
    }
    proof {
        lemma_purge_mask_bits(rx, tx);
        assert(0u8 | 0x02u8 == 0x02u8 && 0u8 | 0x01u8 == 0x01u8) by (bit_vector);
    }
    report
}

/// In the mask of a purge report, the receive bit is set exactly when the
/// receive FIFO is named, and the transmit bit exactly when the transmit FIFO
/// is; no other bit is ever set.
pub proof fn lemma_purge_mask_bits(rx: bool, tx: bool)
    ensures
        purge_mask(rx, tx) == (if rx {
            PURGE_RECEIVE_MASK
        } else {
            0u8
        }) | (if tx {
            PURGE_TRANSMIT_MASK
        } else {
            0u8
        }),
        purge_mask(rx, tx) & PURGE_RECEIVE_MASK != 0 <==> rx,
        purge_mask(rx, tx) & PURGE_TRANSMIT_MASK != 0 <==> tx,
        purge_mask(rx, tx) & !(PURGE_RECEIVE_MASK | PURGE_TRANSMIT_MASK) == 0,
{
    assert(0x02u8 | 0x01u8 == 0x03u8 && 0x02u8 | 0u8 == 0x02u8 && 0u8 | 0x01u8 == 0x01u8 && 0u8
        | 0u8 == 0u8) by (bit_vector);
    assert(0x03u8 & 0x02u8 != 0 && 0x02u8 & 0x02u8 != 0 && 0x01u8 & 0x02u8 == 0 && 0u8 & 0x02u8
        == 0) by (bit_vector);
    assert(0x03u8 & 0x01u8 != 0 && 0x02u8 & 0x01u8 == 0 && 0x01u8 & 0x01u8 != 0 && 0u8 & 0x01u8
        == 0) by (bit_vector);
    assert(0x03u8 & !(0x02u8 | 0x01u8) == 0 && 0x02u8 & !(0x02u8 | 0x01u8) == 0 && 0x01u8 & !(
    0x02u8 | 0x01u8) == 0 && 0u8 & !(0x02u8 | 0x01u8) == 0) by (bit_vector);
}

/// The control report that asks the chip for a setting: the command code of
/// the setting, then zeros. The chip answers in the same buffer.
pub open spec fn query_report(command: u8) -> Seq<u8> {
    Seq::new(
        FEATURE_REPORT_LENGTH as nat,
        |i: int|
            if i == 0 {
                command
            } else {
                0u8
            },
    )
}

/// Builds the control report that asks for the setting with code `command`.
pub fn encode_query(command: u8) -> (report: [u8; FEATURE_REPORT_LENGTH])
    ensures
        report@ == query_report(command),
{
    let mut report: [u8; FEATURE_REPORT_LENGTH] = [0; FEATURE_REPORT_LENGTH];
    report[0] = command;
    report
}

/// Decoding undoes encoding: a configuration report says the settings that it
/// was built from, whatever they are.
pub proof fn lemma_config_round_trip(config: UartConfig)
    ensures
        decoded_config(config_report(config)) == Ok::<UartConfig, Error>(config),
{
    let baud_rate = config.baud_rate;
    assert(baud_rate == (baud_rate / 0x100_0000) * 0x100_0000 + (baud_rate / 0x1_0000 % 0x100)
        * 0x1_0000 + (baud_rate / 0x100 % 0x100) * 0x100 + baud_rate % 0x100) by (bit_vector);
}

/// A configuration report is turned down exactly when one of its four code
/// bytes lies outside the codes of its field: parity above 4, flow control
/// above 1, data bits above 3, stop bits above 1. The error names the first
/// such field.
pub proof fn lemma_decode_rejects_unknown_codes(report: Seq<u8>)
    requires
        report.len() == FEATURE_REPORT_LENGTH,
    ensures
        decoded_config(report) is Err <==> report[5] > 4 || report[6] > 1 || report[7] > 3
            || report[8] > 1,
        report[5] > 4 ==> decoded_config(report) == Err::<UartConfig, Error>(
            Error::InvalidEncoding(ConfigField::Parity),
        ),
        report[5] <= 4 && report[6] > 1 ==> decoded_config(report) == Err::<UartConfig, Error>(
            Error::InvalidEncoding(ConfigField::FlowControl),
        ),
        report[5] <= 4 && report[6] <= 1 && report[7] > 3 ==> decoded_config(report) == Err::<
            UartConfig,
            Error,
        >(Error::InvalidEncoding(ConfigField::DataBits)),
        report[5] <= 4 && report[6] <= 1 && report[7] <= 3 && report[8] > 1 ==> decoded_config(
            report,
        ) == Err::<UartConfig, Error>(Error::InvalidEncoding(ConfigField::StopBits)),
{
}

/// Encoding undoes decoding as far as a report carries settings: a report
/// that decodes agrees, in bytes 1 to 8, with the report built from what it
/// says.
pub proof fn lemma_config_report_of_decoded(report: Seq<u8>)
    requires
        report.len() == FEATURE_REPORT_LENGTH,
        decoded_config(report) is Ok,
    ensures
        config_report(decoded_config(report)->Ok_0).subrange(1, 9) == report.subrange(1, 9),
{
    let b0 = report[1];
    let b1 = report[2];
    let b2 = report[3];
    let b3 = report[4];
    let value = be32(b0, b1, b2, b3) as u32;
    assert(be32(b0, b1, b2, b3) == (b0 as u32) << 24 | (b1 as u32) << 16 | (b2 as u32) << 8 | (
    b3 as u32)) by (bit_vector);
    assert(value / 0x100_0000 == b0 && value / 0x1_0000 % 0x100 == b1 && value / 0x100 % 0x100
        == b2 && value % 0x100 == b3) by (bit_vector)
        requires
            value == (b0 as u32) << 24 | (b1 as u32) << 16 | (b2 as u32) << 8 | (b3 as u32),
    ;
}

/// The enable flag comes back from its report, and any nonzero byte 1, not
/// only 1, reads as enabled.
pub proof fn lemma_enable_round_trip(enable: bool)
    ensures
        decoded_enable(enable_report(enable)) == enable,
        forall|report: Seq<u8>| #[trigger] decoded_enable(report) <==> report[1] != 0,
{
}

} // verus!
