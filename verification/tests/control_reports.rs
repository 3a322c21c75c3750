use cp211x_uart::config::{DataBits, FlowControl, Parity, StopBits, UartConfig};
use cp211x_uart::error::{ConfigField, Error};
use cp211x_uart::report::{
    decode_config, decode_enable, encode_config, encode_enable, encode_purge, encode_query,
    FEATURE_REPORT_LENGTH, GETSET_UART_CONFIG, GETSET_UART_ENABLE, PURGE_FIFOS,
    PURGE_RECEIVE_MASK, PURGE_TRANSMIT_MASK,
};

const PARITIES: [Parity; 5] = [Parity::Off, Parity::Odd, Parity::Even, Parity::Mark, Parity::Space];
const FLOWS: [FlowControl; 2] = [FlowControl::Off, FlowControl::RtsCts];
const DATA_BITS: [DataBits; 4] =
    [DataBits::Bits5, DataBits::Bits6, DataBits::Bits7, DataBits::Bits8];
const STOP_BITS: [StopBits; 2] = [StopBits::Short, StopBits::Long];

fn valid_report() -> [u8; 64] {
    let mut report = [0u8; 64];
    report[0] = 0x50;
    report[3] = 0x25;
    report[4] = 0x80;
    report[7] = 3;
    report
}

#[test]
fn wire_constants() {
    assert_eq!(FEATURE_REPORT_LENGTH, 64);
    assert_eq!(GETSET_UART_ENABLE, 0x41);
    assert_eq!(PURGE_FIFOS, 0x43);
    assert_eq!(GETSET_UART_CONFIG, 0x50);
    assert_eq!(PURGE_TRANSMIT_MASK, 0x01);
    assert_eq!(PURGE_RECEIVE_MASK, 0x02);
}

#[test]
fn encode_config_lays_out_every_field() {
    let config = UartConfig {
        baud_rate: 0x0102_0304,
        data_bits: DataBits::Bits7,
        parity: Parity::Mark,
        stop_bits: StopBits::Long,
        flow_control: FlowControl::RtsCts,
    };
    let report = encode_config(&config);
    let mut expected = [0u8; 64];
    expected[..9].copy_from_slice(&[0x50, 0x01, 0x02, 0x03, 0x04, 0x03, 0x01, 0x02, 0x01]);
    assert_eq!(report, expected);
}

#[test]
fn encode_config_of_the_default() {
    let report = encode_config(&UartConfig::default());
    let mut expected = [0u8; 64];
    expected[..9].copy_from_slice(&[0x50, 0x00, 0x00, 0x25, 0x80, 0x00, 0x00, 0x03, 0x00]);
    assert_eq!(report, expected);
}

#[test]
fn encode_config_baud_rate_is_big_endian() {
    let mut config = UartConfig::default();
    config.baud_rate = 115_200;
    assert_eq!(&encode_config(&config)[1..5], &[0x00, 0x01, 0xC2, 0x00]);
    config.baud_rate = 0;
    assert_eq!(&encode_config(&config)[1..5], &[0, 0, 0, 0]);
    config.baud_rate = u32::MAX;
    assert_eq!(&encode_config(&config)[1..5], &[0xFF, 0xFF, 0xFF, 0xFF]);
    config.baud_rate = 0x8000_0001;
    assert_eq!(&encode_config(&config)[1..5], &[0x80, 0x00, 0x00, 0x01]);
}

#[test]
fn decode_config_reads_every_field() {
    let mut report = [0u8; 64];
    report[..9].copy_from_slice(&[0x50, 0x00, 0x01, 0xC2, 0x00, 0x02, 0x01, 0x01, 0x01]);
    assert_eq!(
        decode_config(&report),
        Ok(UartConfig {
            baud_rate: 115_200,
            data_bits: DataBits::Bits6,
            parity: Parity::Even,
            stop_bits: StopBits::Long,
            flow_control: FlowControl::RtsCts,
        })
    );
}

#[test]
fn decode_config_ignores_command_code_and_padding() {
    let mut report = valid_report();
    report[0] = 0x00;
    for byte in report[9..].iter_mut() {
        *byte = 0xAB;
    }
    assert_eq!(decode_config(&report), Ok(UartConfig::default()));
}

#[test]
fn config_round_trip() {
    let bauds = [0u32, 1, 300, 9600, 115_200, 0x00FF_FF00, 0x7FFF_FFFF, 0x8000_0000, u32::MAX];
    for &baud_rate in bauds.iter() {
        for &parity in PARITIES.iter() {
            for &flow_control in FLOWS.iter() {
                for &data_bits in DATA_BITS.iter() {
                    for &stop_bits in STOP_BITS.iter() {
                        let config =
                            UartConfig { baud_rate, data_bits, parity, stop_bits, flow_control };
                        assert_eq!(decode_config(&encode_config(&config)), Ok(config));
                    }
                }
            }
        }
    }
}

#[test]
fn decoded_report_encodes_to_the_same_settings_bytes() {
    let mut report = [0u8; 64];
    report[..9].copy_from_slice(&[0x99, 0xDE, 0xAD, 0xBE, 0xEF, 0x04, 0x00, 0x00, 0x01]);
    let config = decode_config(&report).unwrap();
    assert_eq!(config.baud_rate, 0xDEAD_BEEF);
    assert_eq!(&encode_config(&config)[1..9], &report[1..9]);
}

#[test]
fn decode_config_rejects_unknown_parity() {
    for code in 5..=255u8 {
        let mut report = valid_report();
        report[5] = code;
        assert_eq!(decode_config(&report), Err(Error::InvalidEncoding(ConfigField::Parity)));
    }
}

#[test]
fn decode_config_rejects_unknown_flow_control() {
    for code in 2..=255u8 {
        let mut report = valid_report();
        report[6] = code;
        assert_eq!(decode_config(&report), Err(Error::InvalidEncoding(ConfigField::FlowControl)));
    }
}

#[test]
fn decode_config_rejects_unknown_data_bits() {
    for code in 4..=255u8 {
        let mut report = valid_report();
        report[7] = code;
        assert_eq!(decode_config(&report), Err(Error::InvalidEncoding(ConfigField::DataBits)));
    }
}

#[test]
fn decode_config_rejects_unknown_stop_bits() {
    for code in 2..=255u8 {
        let mut report = valid_report();
        report[8] = code;
        assert_eq!(decode_config(&report), Err(Error::InvalidEncoding(ConfigField::StopBits)));
    }
}

#[test]
fn decode_config_accepts_every_known_code() {
    for parity in 0..=4u8 {
        for flow in 0..=1u8 {
            for data in 0..=3u8 {
                for stop in 0..=1u8 {
                    let mut report = valid_report();
                    report[5] = parity;
                    report[6] = flow;
                    report[7] = data;
                    report[8] = stop;
                    assert!(decode_config(&report).is_ok());
                }
            }
        }
    }
}

#[test]
fn decode_config_names_the_first_bad_field() {
    let mut report = valid_report();
    report[5] = 9;
    report[6] = 9;
    report[7] = 9;
    report[8] = 9;
    assert_eq!(decode_config(&report), Err(Error::InvalidEncoding(ConfigField::Parity)));
    report[5] = 0;
    assert_eq!(decode_config(&report), Err(Error::InvalidEncoding(ConfigField::FlowControl)));
    report[6] = 0;
    assert_eq!(decode_config(&report), Err(Error::InvalidEncoding(ConfigField::DataBits)));
    report[7] = 0;
    assert_eq!(decode_config(&report), Err(Error::InvalidEncoding(ConfigField::StopBits)));
    report[8] = 0;
    assert!(decode_config(&report).is_ok());
}

#[test]
fn encode_enable_bytes() {
    let mut expected = [0u8; 64];
    expected[0] = 0x41;
    assert_eq!(encode_enable(false), expected);
    expected[1] = 0x01;
    assert_eq!(encode_enable(true), expected);
}

#[test]
fn enable_round_trip() {
    assert!(decode_enable(&encode_enable(true)));
    assert!(!decode_enable(&encode_enable(false)));
}

#[test]
fn decode_enable_takes_any_nonzero_byte_as_enabled() {
    let mut report = [0u8; 64];
    report[0] = 0x41;
    assert!(!decode_enable(&report));
    report[1] = 0x02;
    assert!(decode_enable(&report));
    for code in 1..=255u8 {
        report[1] = code;
        assert!(decode_enable(&report));
    }
}

#[test]
fn decode_enable_looks_at_byte_one_only() {
    let mut report = [0xFFu8; 64];
    report[1] = 0;
    assert!(!decode_enable(&report));
}

#[test]
fn encode_purge_masks() {
    let mut expected = [0u8; 64];
    expected[0] = 0x43;
    assert_eq!(encode_purge(false, false), expected);
    expected[1] = 0x01;
    assert_eq!(encode_purge(false, true), expected);
    expected[1] = 0x02;
    assert_eq!(encode_purge(true, false), expected);
    expected[1] = 0x03;
    assert_eq!(encode_purge(true, true), expected);
}

#[test]
fn encode_query_holds_only_the_command() {
    let mut expected = [0u8; 64];
    expected[0] = 0x50;
    assert_eq!(encode_query(GETSET_UART_CONFIG), expected);
    expected[0] = 0x41;
    assert_eq!(encode_query(GETSET_UART_ENABLE), expected);
}

#[test]
fn error_messages() {
    assert_eq!(Error::WriteTimeout.message(), "write operation is time out");
    assert_eq!(Error::InvalidEncoding(ConfigField::Parity).message(), "Unknown parity mode");
    assert_eq!(
        Error::InvalidEncoding(ConfigField::FlowControl).message(),
        "Unknown flow control mode"
    );
    assert_eq!(Error::InvalidEncoding(ConfigField::DataBits).message(), "Unknown data bits mode");
    assert_eq!(Error::InvalidEncoding(ConfigField::StopBits).message(), "Unknown stop bits mode");
}
