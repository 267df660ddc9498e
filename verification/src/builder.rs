//! The `serialport` builder that a configuration describes.
//!
//! Opening a device is left to the program. What it opens is decided here:
//! a builder that holds the configured device and framing, and the read
//! timeout that every session uses.

use vstd::prelude::*;
use crate::framing::{DataBits, Parity, PortConfig, PortConfigView, StopBits, READ_TIMEOUT_MILLIS};

verus! {

/// `serialport::SerialPortBuilder`, carried as a value that only the
/// `serialport` crate looks into.
#[verifier::external_type_specification]
#[verifier::external_body]
pub struct ExSerialPortBuilder(serialport::SerialPortBuilder);

/// The settings of a builder that a configuration determines.
pub struct BuilderSettings {
    /// The device to open.
    pub path: Seq<char>,
    /// The baud rate in symbols per second.
    pub baud_rate: u32,
    /// The character size.
    pub data_bits: DataBits,
    /// The number of stop bits.
    pub stop_bits: StopBits,
    /// The parity mode.
    pub parity: Parity,
    /// How long a read waits for data, in whole milliseconds.
    pub timeout_millis: nat,
}

/// The settings that a `serialport` builder holds, each setting of the
/// crate under the name that this library has for it.
pub uninterp spec fn builder_settings(builder: serialport::SerialPortBuilder) -> BuilderSettings;

/// `serialport::new`: a builder with the given path and baud rate and the
/// crate's defaults for the rest, which are eight data bits, one stop bit,
/// no parity and a timeout of zero.
#[verifier::external_body]
fn new_builder(path: &str, baud_rate: u32) -> (builder: serialport::SerialPortBuilder)
    ensures
        builder_settings(builder) == (BuilderSettings {
            path: path@,
            baud_rate,
            data_bits: DataBits::Eight,
            stop_bits: StopBits::One,
            parity: Parity::NoParity,
            timeout_millis: 0,
        }),
{
    serialport::new(path, baud_rate)
}

/// `SerialPortBuilder::data_bits`: the builder with its character size
/// replaced and every other setting kept.
#[verifier::external_body]
fn with_data_bits(builder: serialport::SerialPortBuilder, bits: DataBits) -> (out: serialport::SerialPortBuilder)
    ensures
        builder_settings(out) == (BuilderSettings { data_bits: bits, ..builder_settings(builder) }),
{
    builder.data_bits(
        match bits {
            DataBits::Five => serialport::DataBits::Five,
            DataBits::Six => serialport::DataBits::Six,
            DataBits::Seven => serialport::DataBits::Seven,
            DataBits::Eight => serialport::DataBits::Eight,
        },
    )
}

/// `SerialPortBuilder::stop_bits`: the builder with its number of stop bits
/// replaced and every other setting kept.
#[verifier::external_body]
fn with_stop_bits(builder: serialport::SerialPortBuilder, bits: StopBits) -> (out: serialport::SerialPortBuilder)
    ensures
        builder_settings(out) == (BuilderSettings { stop_bits: bits, ..builder_settings(builder) }),
{
    builder.stop_bits(
        match bits {
            StopBits::One => serialport::StopBits::One,
            StopBits::Two => serialport::StopBits::Two,
        },
    )
}

/// `SerialPortBuilder::parity`: the builder with its parity mode replaced
/// and every other setting kept.
#[verifier::external_body]
fn with_parity(builder: serialport::SerialPortBuilder, parity: Parity) -> (out: serialport::SerialPortBuilder)
    ensures
        builder_settings(out) == (BuilderSettings { parity, ..builder_settings(builder) }),
{
    builder.parity(
        match parity {
            Parity::NoParity => serialport::Parity::None,
            Parity::Odd => serialport::Parity::Odd,
            Parity::Even => serialport::Parity::Even,
        },
    )
}

/// `SerialPortBuilder::timeout`, with a duration of `millis` milliseconds:
/// the builder with its timeout replaced and every other setting kept.
#[verifier::external_body]
fn with_timeout_millis(builder: serialport::SerialPortBuilder, millis: u64) -> (out: serialport::SerialPortBuilder)
    ensures
        builder_settings(out) == (BuilderSettings { timeout_millis: millis as nat, ..builder_settings(builder) }),
{
    builder.timeout(std::time::Duration::from_millis(millis))
}

/// The settings to open a configured port with: the device, the baud rate
/// and the framing of the configuration as they are, and the read timeout
/// of every session.
pub open spec fn settings_for(config: PortConfigView) -> BuilderSettings {
    BuilderSettings {
        path: config.device,
        baud_rate: config.baud_rate,
        data_bits: config.data_bits,
        stop_bits: config.stop_bits,
        parity: config.parity,
        timeout_millis: READ_TIMEOUT_MILLIS as nat,
    }
}

/// The builder to open the configured port with. It holds the device, the
/// baud rate and the framing of `config` as they are, and the read timeout
/// of every session, so that a reader is never blocked for good.
pub fn port_builder(config: &PortConfig) -> (builder: serialport::SerialPortBuilder)
    ensures
        builder_settings(builder) == settings_for(config@),
{
    let builder = new_builder(config.device.as_str(), config.baud_rate);
    let builder = with_data_bits(builder, config.data_bits);
    let builder = with_stop_bits(builder, config.stop_bits);
    let builder = with_parity(builder, config.parity);
    with_timeout_millis(builder, READ_TIMEOUT_MILLIS)
}

/// What a port is opened with reflects the codes it was asked for. For
/// each supported code the settings hold exactly the value that the code
/// names, for every other code the default of its parameter; the device and
/// the baud rate are held as given, and the read timeout is a tenth of a
/// second.
pub proof fn lemma_settings_reflect_codes(
    device: Seq<char>,
    baud_rate: u32,
    data_bits: u8,
    stop_bits: u8,
    parity: u8,
)
    ensures
        ({
            let held = settings_for(PortConfigView::of_codes(device, baud_rate, data_bits, stop_bits, parity));
            &&& held.path == device
            &&& held.baud_rate == baud_rate
            &&& held.timeout_millis == 100
            &&& DataBits::supported(data_bits) ==> held.data_bits.count() == data_bits
            &&& !DataBits::supported(data_bits) ==> held.data_bits == DataBits::Eight
            &&& StopBits::supported(stop_bits) ==> held.stop_bits.count() == stop_bits
            &&& !StopBits::supported(stop_bits) ==> held.stop_bits == StopBits::One
            &&& Parity::supported(parity) ==> held.parity.index() == parity
            &&& !Parity::supported(parity) ==> held.parity == Parity::NoParity
        }),
{
}

} // verus!
