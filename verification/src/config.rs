//! UART line settings and the one-byte codes that stand for them on the wire.

use vstd::prelude::*;

verus! {

/// The number of data bits in a [`UartConfig`].
#[derive(Clone, Copy, PartialEq, Eq, Debug, Structural)]
pub enum DataBits {
    /// 5 data bits
    Bits5,
    /// 6 data bits
    Bits6,
    /// 7 data bits
    Bits7,
    /// 8 data bits
    Bits8,
}

impl DataBits {
    /// The byte that stands for this setting in a configuration report.
    pub open spec fn wire_code(self) -> u8 {
        match self {
            DataBits::Bits5 => 0x00,
            DataBits::Bits6 => 0x01,
            DataBits::Bits7 => 0x02,
            DataBits::Bits8 => 0x03,
        }
    }

    /// The setting that a byte of a configuration report stands for, if any.
    pub open spec fn of_wire_code(code: u8) -> Option<DataBits> {
        match code {
            0x00 => Some(DataBits::Bits5),
            0x01 => Some(DataBits::Bits6),
            0x02 => Some(DataBits::Bits7),
            0x03 => Some(DataBits::Bits8),
            _ => None,
        }
    }

    /// How many bits one character carries.
    pub open spec fn bit_count(self) -> nat {
        match self {
            DataBits::Bits5 => 5,
            DataBits::Bits6 => 6,
            DataBits::Bits7 => 7,
            DataBits::Bits8 => 8,
        }
    }

    /// Encodes the setting as its wire byte.
    pub fn to_code(self) -> (code: u8)
        ensures
            code == self.wire_code(),
            code == self.bit_count() - 5,
    {
        match self {
            DataBits::Bits5 => 0x00,
            DataBits::Bits6 => 0x01,
            DataBits::Bits7 => 0x02,
            DataBits::Bits8 => 0x03,
        }
    }

    /// Decodes a wire byte; `None` for a byte that stands for no setting.
    pub fn from_code(code: u8) -> (decoded: Option<DataBits>)
        ensures
            decoded == DataBits::of_wire_code(code),
            decoded is Some <==> code <= 3,
    {
        match code {
            0x00 => Some(DataBits::Bits5),
            0x01 => Some(DataBits::Bits6),
            0x02 => Some(DataBits::Bits7),
            0x03 => Some(DataBits::Bits8),
            _ => None,
        }
    }
}

impl Default for DataBits {
    fn default() -> (bits: Self)
        ensures
            bits == DataBits::Bits8,
    {
        DataBits::Bits8
    }
}

/// The parity in a [`UartConfig`].
#[derive(Clone, Copy, PartialEq, Eq, Debug, Structural)]
pub enum Parity {
    /// No parity.
    Off,
    /// Odd parity (sum of data bits is odd).
    Odd,
    /// Even parity (sum of data bits is even).
    Even,
    /// Mark parity (always 1).
    Mark,
    /// Space parity (always 0).
    Space,
}

impl Parity {
    /// The byte that stands for this setting in a configuration report.
    pub open spec fn wire_code(self) -> u8 {
        match self {
            Parity::Off => 0x00,
            Parity::Odd => 0x01,
            Parity::Even => 0x02,
            Parity::Mark => 0x03,
            Parity::Space => 0x04,
        }
    }

    /// The setting that a byte of a configuration report stands for, if any.
    pub open spec fn of_wire_code(code: u8) -> Option<Parity> {
        match code {
            0x00 => Some(Parity::Off),
            0x01 => Some(Parity::Odd),
            0x02 => Some(Parity::Even),
            0x03 => Some(Parity::Mark),
            0x04 => Some(Parity::Space),
            _ => None,
        }
    }

    /// Encodes the setting as its wire byte.
    pub fn to_code(self) -> (code: u8)
        ensures
            code == self.wire_code(),
    {
        match self {
            Parity::Off => 0x00,
            Parity::Odd => 0x01,
            Parity::Even => 0x02,
            Parity::Mark => 0x03,
            Parity::Space => 0x04,
        }
    }

    /// Decodes a wire byte; `None` for a byte that stands for no setting.
    pub fn from_code(code: u8) -> (decoded: Option<Parity>)
        ensures
            decoded == Parity::of_wire_code(code),
            decoded is Some <==> code <= 4,
    {
        match code {
            0x00 => Some(Parity::Off),
            0x01 => Some(Parity::Odd),
            0x02 => Some(Parity::Even),
            0x03 => Some(Parity::Mark),
            0x04 => Some(Parity::Space),
            _ => None,
        }
    }
}

impl Default for Parity {
    fn default() -> (parity: Self)
        ensures
            parity == Parity::Off,
    {
        Parity::Off
    }
}

/// The number of stop bits in a [`UartConfig`].
#[derive(Clone, Copy, PartialEq, Eq, Debug, Structural)]
pub enum StopBits {
    /// 1 stop bit.
    Short,
    /// 5 data bits: 1.5 stop bits, 6-8 data bits: 2 stop bits.
    Long,
}

impl StopBits {
    /// The byte that stands for this setting in a configuration report.
    pub open spec fn wire_code(self) -> u8 {
        match self {
            StopBits::Short => 0x00,
            StopBits::Long => 0x01,
        }
    }

    /// The setting that a byte of a configuration report stands for, if any.
    pub open spec fn of_wire_code(code: u8) -> Option<StopBits> {
        match code {
            0x00 => Some(StopBits::Short),
            0x01 => Some(StopBits::Long),
            _ => None,
        }
    }

    /// Encodes the setting as its wire byte.
    pub fn to_code(self) -> (code: u8)
        ensures
            code == self.wire_code(),
    {
        match self {
            StopBits::Short => 0x00,
            StopBits::Long => 0x01,
        }
    }

    /// Decodes a wire byte; `None` for a byte that stands for no setting.
    pub fn from_code(code: u8) -> (decoded: Option<StopBits>)
        ensures
            decoded == StopBits::of_wire_code(code),
            decoded is Some <==> code <= 1,
    {
        match code {
            0x00 => Some(StopBits::Short),
            0x01 => Some(StopBits::Long),
            _ => None,
        }
    }
}

impl Default for StopBits {
    fn default() -> (bits: Self)
        ensures
            bits == StopBits::Short,
    {
        StopBits::Short
    }
}

/// The type of flow control in a [`UartConfig`].
#[derive(Clone, Copy, PartialEq, Eq, Debug, Structural)]
pub enum FlowControl {
    /// No flow control.
    Off,
    /// RTS/CTS hardware flow control.
    RtsCts,
}

impl FlowControl {
    /// The byte that stands for this setting in a configuration report.
    pub open spec fn wire_code(self) -> u8 {
        match self {
            FlowControl::Off => 0x00,
            FlowControl::RtsCts => 0x01,
        }
    }

    /// The setting that a byte of a configuration report stands for, if any.
    pub open spec fn of_wire_code(code: u8) -> Option<FlowControl> {
        match code {
            0x00 => Some(FlowControl::Off),
            0x01 => Some(FlowControl::RtsCts),
            _ => None,
        }
    }

    /// Encodes the setting as its wire byte.
    pub fn to_code(self) -> (code: u8)
        ensures
            code == self.wire_code(),
    {
        match self {
            FlowControl::Off => 0x00,
            FlowControl::RtsCts => 0x01,
        }
    }

    /// Decodes a wire byte; `None` for a byte that stands for no setting.
    pub fn from_code(code: u8) -> (decoded: Option<FlowControl>)
        ensures
            decoded == FlowControl::of_wire_code(code),
            decoded is Some <==> code <= 1,
    {
        match code {
            0x00 => Some(FlowControl::Off),
            0x01 => Some(FlowControl::RtsCts),
            _ => None,
        }
    }
}

impl Default for FlowControl {
    fn default() -> (flow: Self)
        ensures
            flow == FlowControl::Off,
    {
        FlowControl::Off
    }
}

/// UART configuration.
#[derive(Clone, Copy, PartialEq, Eq, Debug, Structural)]
pub struct UartConfig {
    pub baud_rate: u32,
    pub data_bits: DataBits,
    pub parity: Parity,
    pub stop_bits: StopBits,
    pub flow_control: FlowControl,
}

impl Default for UartConfig {
    fn default() -> (config: Self)
        ensures
            config == (UartConfig {
                baud_rate: 9600,
                data_bits: DataBits::Bits8,
                parity: Parity::Off,
                stop_bits: StopBits::Short,
                flow_control: FlowControl::Off,
            }),
    {
        UartConfig {
            baud_rate: 9600,
            data_bits: DataBits::default(),
            parity: Parity::default(),
            stop_bits: StopBits::default(),
            flow_control: FlowControl::default(),
        }
    }
}

/// Every coded setting of a configuration comes back from its wire code.
pub proof fn lemma_settings_come_back_from_codes(config: UartConfig)
    ensures
        Parity::of_wire_code(config.parity.wire_code()) == Some(config.parity),
        FlowControl::of_wire_code(config.flow_control.wire_code()) == Some(config.flow_control),
        DataBits::of_wire_code(config.data_bits.wire_code()) == Some(config.data_bits),
        StopBits::of_wire_code(config.stop_bits.wire_code()) == Some(config.stop_bits),
{
}

/// A byte stands for a setting exactly when it is within the codes of the
/// field, and then it is the wire code of the setting it stands for.
pub proof fn lemma_codes_come_back_from_settings(code: u8)
    ensures
        Parity::of_wire_code(code) is Some <==> code <= 4,
        FlowControl::of_wire_code(code) is Some <==> code <= 1,
        DataBits::of_wire_code(code) is Some <==> code <= 3,
        StopBits::of_wire_code(code) is Some <==> code <= 1,
        Parity::of_wire_code(code) matches Some(parity) ==> parity.wire_code() == code,
        FlowControl::of_wire_code(code) matches Some(flow) ==> flow.wire_code() == code,
        DataBits::of_wire_code(code) matches Some(bits) ==> bits.wire_code() == code,
        StopBits::of_wire_code(code) matches Some(bits) ==> bits.wire_code() == code,
{
}

} // verus!
