use cp211x_uart::config::{DataBits, FlowControl, Parity, StopBits, UartConfig};

#[test]
fn default_config_is_9600_8n1_without_flow_control() {
    let config = UartConfig::default();
    assert_eq!(config.baud_rate, 9600);
    assert_eq!(config.data_bits, DataBits::Bits8);
    assert_eq!(config.parity, Parity::Off);
    assert_eq!(config.stop_bits, StopBits::Short);
    assert_eq!(config.flow_control, FlowControl::Off);
}

#[test]
fn default_of_each_setting() {
    assert_eq!(DataBits::default(), DataBits::Bits8);
    assert_eq!(Parity::default(), Parity::Off);
    assert_eq!(StopBits::default(), StopBits::Short);
    assert_eq!(FlowControl::default(), FlowControl::Off);
}

#[test]
fn parity_codes() {
    assert_eq!(Parity::Off.to_code(), 0);
    assert_eq!(Parity::Odd.to_code(), 1);
    assert_eq!(Parity::Even.to_code(), 2);
    assert_eq!(Parity::Mark.to_code(), 3);
    assert_eq!(Parity::Space.to_code(), 4);
    assert_eq!(Parity::from_code(0), Some(Parity::Off));
    assert_eq!(Parity::from_code(1), Some(Parity::Odd));
    assert_eq!(Parity::from_code(2), Some(Parity::Even));
    assert_eq!(Parity::from_code(3), Some(Parity::Mark));
    assert_eq!(Parity::from_code(4), Some(Parity::Space));
    assert_eq!(Parity::from_code(5), None);
    assert_eq!(Parity::from_code(255), None);
}

#[test]
fn flow_control_codes() {
    assert_eq!(FlowControl::Off.to_code(), 0);
    assert_eq!(FlowControl::RtsCts.to_code(), 1);
    assert_eq!(FlowControl::from_code(0), Some(FlowControl::Off));
    assert_eq!(FlowControl::from_code(1), Some(FlowControl::RtsCts));
    assert_eq!(FlowControl::from_code(2), None);
    assert_eq!(FlowControl::from_code(255), None);
}

#[test]
fn data_bits_codes() {
    assert_eq!(DataBits::Bits5.to_code(), 0);
    assert_eq!(DataBits::Bits6.to_code(), 1);
    assert_eq!(DataBits::Bits7.to_code(), 2);
    assert_eq!(DataBits::Bits8.to_code(), 3);
    assert_eq!(DataBits::from_code(0), Some(DataBits::Bits5));
    assert_eq!(DataBits::from_code(1), Some(DataBits::Bits6));
    assert_eq!(DataBits::from_code(2), Some(DataBits::Bits7));
    assert_eq!(DataBits::from_code(3), Some(DataBits::Bits8));
    assert_eq!(DataBits::from_code(4), None);
    assert_eq!(DataBits::from_code(255), None);
}

#[test]
fn stop_bits_codes() {
    assert_eq!(StopBits::Short.to_code(), 0);
    assert_eq!(StopBits::Long.to_code(), 1);
    assert_eq!(StopBits::from_code(0), Some(StopBits::Short));
    assert_eq!(StopBits::from_code(1), Some(StopBits::Long));
    assert_eq!(StopBits::from_code(2), None);
    assert_eq!(StopBits::from_code(255), None);
}

#[test]
fn every_code_comes_back_from_its_setting() {
    for code in 0..=255u8 {
        if let Some(parity) = Parity::from_code(code) {
            assert_eq!(parity.to_code(), code);
        }
        if let Some(flow) = FlowControl::from_code(code) {
            assert_eq!(flow.to_code(), code);
        }
        if let Some(bits) = DataBits::from_code(code) {
            assert_eq!(bits.to_code(), code);
        }
        if let Some(bits) = StopBits::from_code(code) {
            assert_eq!(bits.to_code(), code);
        }
    }
}
