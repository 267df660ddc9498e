use serial_session::builder::port_builder;
use serial_session::framing::{DataBits, Parity, PortConfig, StopBits};
use std::time::Duration;

#[test]
fn builder_holds_the_default_framing() {
    let config = PortConfig::from_codes("COM3".to_string(), 9600, 8, 1, 0);
    let expected = serialport::new("COM3", 9600)
        .data_bits(serialport::DataBits::Eight)
        .stop_bits(serialport::StopBits::One)
        .parity(serialport::Parity::None)
        .timeout(Duration::from_millis(100));
    assert_eq!(port_builder(&config), expected);
}

#[test]
fn builder_holds_each_configured_setting() {
    let config = PortConfig {
        device: "/dev/ttyS7".to_string(),
        baud_rate: 57600,
        data_bits: DataBits::Six,
        stop_bits: StopBits::Two,
        parity: Parity::Even,
    };
    let expected = serialport::new("/dev/ttyS7", 57600)
        .data_bits(serialport::DataBits::Six)
        .stop_bits(serialport::StopBits::Two)
        .parity(serialport::Parity::Even)
        .timeout(Duration::from_millis(100));
    assert_eq!(port_builder(&config), expected);
}

#[test]
fn builder_tells_every_character_size_apart() {
    let sizes = [
        (DataBits::Five, serialport::DataBits::Five),
        (DataBits::Six, serialport::DataBits::Six),
        (DataBits::Seven, serialport::DataBits::Seven),
        (DataBits::Eight, serialport::DataBits::Eight),
    ];
    for (ours, theirs) in sizes {
        let config = PortConfig {
            device: "COM9".to_string(),
            baud_rate: 300,
            data_bits: ours,
            stop_bits: StopBits::One,
            parity: Parity::Odd,
        };
        let expected = serialport::new("COM9", 300)
            .data_bits(theirs)
            .stop_bits(serialport::StopBits::One)
            .parity(serialport::Parity::Odd)
            .timeout(Duration::from_millis(100));
        assert_eq!(port_builder(&config), expected);
    }
}

#[test]
fn builder_differs_where_one_setting_differs() {
    let config = PortConfig::from_codes("COM3".to_string(), 9600, 7, 2, 1);
    let built = port_builder(&config);
    let base = serialport::new("COM3", 9600)
        .data_bits(serialport::DataBits::Seven)
        .stop_bits(serialport::StopBits::Two)
        .parity(serialport::Parity::Odd)
        .timeout(Duration::from_millis(100));
    assert_eq!(built, base.clone());
    assert_ne!(built, base.clone().data_bits(serialport::DataBits::Eight));
    assert_ne!(built, base.clone().stop_bits(serialport::StopBits::One));
    assert_ne!(built, base.clone().parity(serialport::Parity::None));
    assert_ne!(built, base.clone().timeout(Duration::from_millis(0)));
    assert_ne!(built, base.clone().baud_rate(19200));
    assert_ne!(built, base.clone().path("COM4"));
}

#[test]
fn builder_of_unsupported_codes_holds_the_defaults() {
    let config = PortConfig::from_codes("COM3".to_string(), 9600, 42, 7, 99);
    assert_eq!(port_builder(&config), serialport::new("COM3", 9600).timeout(Duration::from_millis(100)));
}
