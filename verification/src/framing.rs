//! Framing parameters of a serial line and the numeric codes that select them.
//!
//! Callers name a character size, a stop-bit count and a parity mode by small
//! integers. Only a few integers are codes; every other value selects the
//! default of its parameter (eight data bits, one stop bit, no parity)
//! instead of being rejected.

use vstd::prelude::*;

verus! {

/// Number of bits per character.
#[derive(Clone, Copy, Debug, PartialEq, Eq, Structural)]
pub enum DataBits {
    Five,
    Six,
    Seven,
    Eight,
}

/// Number of stop bits sent after every character.
#[derive(Clone, Copy, Debug, PartialEq, Eq, Structural)]
pub enum StopBits {
    One,
    Two,
}

/// Parity checking mode.
#[derive(Clone, Copy, Debug, PartialEq, Eq, Structural)]
pub enum Parity {
    NoParity,
    Odd,
    Even,
}

impl DataBits {
    /// The number of bits per character that the setting stands for.
    pub open spec fn count(self) -> int {
        match self {
            DataBits::Five => 5,
            DataBits::Six => 6,
            DataBits::Seven => 7,
            DataBits::Eight => 8,
        }
    }

    /// Whether `code` names a character size of its own.
    pub open spec fn supported(code: u8) -> bool {
        5 <= code <= 8
    }

    /// The setting that a numeric code selects.
    pub open spec fn selected(code: u8) -> DataBits {
        if code == 5 {
            DataBits::Five
        } else if code == 6 {
            DataBits::Six
        } else if code == 7 {
            DataBits::Seven
        } else {
            DataBits::Eight
        }
    }

    /// The setting for a numeric code: a supported code selects exactly
    /// that many bits, every other code selects eight.
    pub fn from_code(code: u8) -> (bits: DataBits)
        ensures
            bits == Self::selected(code),
            Self::supported(code) ==> bits.count() == code,
            !Self::supported(code) ==> bits == DataBits::Eight,
    {
        if code == 5 {
            DataBits::Five
        } else if code == 6 {
            DataBits::Six
        } else if code == 7 {
            DataBits::Seven
        } else {
            DataBits::Eight
        }
    }

    /// The number of bits per character, as a machine integer.
    pub fn bits(self) -> (n: u8)
        ensures
            n == self.count(),
    {
        match self {
            DataBits::Five => 5,
            DataBits::Six => 6,
            DataBits::Seven => 7,
            DataBits::Eight => 8,
        }
    }
}

impl StopBits {
    /// The number of stop bits that the setting stands for.
    pub open spec fn count(self) -> int {
        match self {
            StopBits::One => 1,
            StopBits::Two => 2,
        }
    }

    /// Whether `code` names a stop-bit count of its own.
    pub open spec fn supported(code: u8) -> bool {
        1 <= code <= 2
    }

    /// The setting that a numeric code selects.
    pub open spec fn selected(code: u8) -> StopBits {
        if code == 2 {
            StopBits::Two
        } else {
            StopBits::One
        }
    }

    /// The setting for a numeric code: a supported code selects exactly
    /// that many stop bits, every other code selects one.
    pub fn from_code(code: u8) -> (bits: StopBits)
        ensures
            bits == Self::selected(code),
            Self::supported(code) ==> bits.count() == code,
            !Self::supported(code) ==> bits == StopBits::One,
    {
        if code == 2 {
            StopBits::Two
        } else {
            StopBits::One
        }
    }

    /// The number of stop bits, as a machine integer.
    pub fn bits(self) -> (n: u8)
        ensures
            n == self.count(),
    {
        match self {
            StopBits::One => 1,
            StopBits::Two => 2,
        }
    }
}

impl Parity {
    /// The numeric code of a parity mode: 0 for none, 1 for odd, 2 for even.
    pub open spec fn index(self) -> int {
        match self {
            Parity::NoParity => 0,
            Parity::Odd => 1,
            Parity::Even => 2,
        }
    }

    /// Whether `code` names a parity mode of its own.
    pub open spec fn supported(code: u8) -> bool {
        code <= 2
    }

    /// The mode that a numeric code selects.
    pub open spec fn selected(code: u8) -> Parity {
        if code == 1 {
            Parity::Odd
        } else if code == 2 {
            Parity::Even
        } else {
            Parity::NoParity
        }
    }

    /// The mode for a numeric code: a supported code selects the mode with
    /// that code, every other code selects no parity.
    pub fn from_code(code: u8) -> (parity: Parity)
        ensures
            parity == Self::selected(code),
            Self::supported(code) ==> parity.index() == code,
            !Self::supported(code) ==> parity == Parity::NoParity,
    {
        if code == 1 {
            Parity::Odd
        } else if code == 2 {
            Parity::Even
        } else {
            Parity::NoParity
        }
    }

    /// The numeric code of the mode, as a machine integer.
    pub fn code(self) -> (n: u8)
        ensures
            n == self.index(),
    {
        match self {
            Parity::NoParity => 0,
            Parity::Odd => 1,
            Parity::Even => 2,
        }
    }
}

/// How long a read on an open port waits for data, in milliseconds, before it
/// reports a timeout. The bound lets a reader come back regularly instead of
/// blocking for ever.
pub const READ_TIMEOUT_MILLIS: u64 = 100;

/// What a port is opened with: the device and its framing parameters.
#[derive(Clone, Debug, PartialEq, Eq)]
pub struct PortConfig {
    pub device: String,
    pub baud_rate: u32,
    pub data_bits: DataBits,
    pub stop_bits: StopBits,
    pub parity: Parity,
}

/// The mathematical content of a [`PortConfig`].
pub struct PortConfigView {
    pub device: Seq<char>,
    pub baud_rate: u32,
    pub data_bits: DataBits,
    pub stop_bits: StopBits,
    pub parity: Parity,
}

impl View for PortConfig {
    type V = PortConfigView;

    open spec fn view(&self) -> PortConfigView {
        PortConfigView {
            device: self.device@,
            baud_rate: self.baud_rate,
            data_bits: self.data_bits,
            stop_bits: self.stop_bits,
            parity: self.parity,
        }
    }
}

impl PortConfigView {
    /// The configuration that a device, a baud rate and three numeric codes
    /// describe.
    pub open spec fn of_codes(
        device: Seq<char>,
        baud_rate: u32,
        data_bits: u8,
        stop_bits: u8,
        parity: u8,
    ) -> PortConfigView {
        PortConfigView {
            device,
            baud_rate,
            data_bits: DataBits::selected(data_bits),
            stop_bits: StopBits::selected(stop_bits),
            parity: Parity::selected(parity),
        }
    }
}

/// Every supported code selects the setting that it names, and every other
/// code the default of its parameter: eight data bits, one stop bit, no
/// parity.
pub proof fn lemma_codes_select_or_default(data_bits: u8, stop_bits: u8, parity: u8)
    ensures
        DataBits::supported(data_bits) ==> DataBits::selected(data_bits).count() == data_bits,
        !DataBits::supported(data_bits) ==> DataBits::selected(data_bits) == DataBits::Eight,
        StopBits::supported(stop_bits) ==> StopBits::selected(stop_bits).count() == stop_bits,
        !StopBits::supported(stop_bits) ==> StopBits::selected(stop_bits) == StopBits::One,
        Parity::supported(parity) ==> Parity::selected(parity).index() == parity,
        !Parity::supported(parity) ==> Parity::selected(parity) == Parity::NoParity,
{
}

impl PortConfig {
    /// The configuration that a device, a baud rate and three numeric codes
    /// describe. No code is rejected: one that names no setting selects the
    /// default of its parameter.
    pub fn from_codes(
        device: String,
        baud_rate: u32,
        data_bits: u8,
        stop_bits: u8,
        parity: u8,
    ) -> (config: PortConfig)
        ensures
            config@ == PortConfigView::of_codes(device@, baud_rate, data_bits, stop_bits, parity),
            DataBits::supported(data_bits) ==> config.data_bits.count() == data_bits,
            !DataBits::supported(data_bits) ==> config.data_bits == DataBits::Eight,
            StopBits::supported(stop_bits) ==> config.stop_bits.count() == stop_bits,
            !StopBits::supported(stop_bits) ==> config.stop_bits == StopBits::One,
            Parity::supported(parity) ==> config.parity.index() == parity,
            !Parity::supported(parity) ==> config.parity == Parity::NoParity,
    {
        PortConfig {
            device,
            baud_rate,
            data_bits: DataBits::from_code(data_bits),
            stop_bits: StopBits::from_code(stop_bits),
            parity: Parity::from_code(parity),
        }
    }
}

} // verus!
