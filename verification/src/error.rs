//! What can go wrong inside the protocol core.

use vstd::prelude::*;

verus! {

/// A setting of a configuration report that is carried as a one-byte code.
#[derive(Clone, Copy, PartialEq, Eq, Debug, Structural)]
pub enum ConfigField {
    Parity,
    FlowControl,
    DataBits,
    StopBits,
}

/// An error raised by the protocol core itself. Failures of the transport never
/// pass through this crate, so they have no variant here.
#[derive(Clone, Copy, PartialEq, Eq, Debug, Structural)]
pub enum Error {
    /// The write deadline had passed when a chunk had gone out.
    WriteTimeout,
    /// A configuration report holds a code byte that stands for no setting;
    /// the field named is the first such one in report order.
    InvalidEncoding(ConfigField),
}

impl Error {
    /// The words that describe the error.
    pub open spec fn message_text(self) -> Seq<char> {
        match self {
            Error::WriteTimeout => "write operation is time out"@,
            Error::InvalidEncoding(ConfigField::Parity) => "Unknown parity mode"@,
            Error::InvalidEncoding(ConfigField::FlowControl) => "Unknown flow control mode"@,
            Error::InvalidEncoding(ConfigField::DataBits) => "Unknown data bits mode"@,
            Error::InvalidEncoding(ConfigField::StopBits) => "Unknown stop bits mode"@,
        }
    }

    /// Describes the error in words.
    pub fn message(&self) -> (text: &'static str)
        ensures
            text@ == self.message_text(),
    {
        match self {
            Error::WriteTimeout => "write operation is time out",
            Error::InvalidEncoding(ConfigField::Parity) => "Unknown parity mode",
            Error::InvalidEncoding(ConfigField::FlowControl) => "Unknown flow control mode",
            Error::InvalidEncoding(ConfigField::DataBits) => "Unknown data bits mode",
            Error::InvalidEncoding(ConfigField::StopBits) => "Unknown stop bits mode",
        }
    }
}

} // verus!
