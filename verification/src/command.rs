//! The controller's opcodes and the encoding of their payloads.

use vstd::prelude::*;

verus! {

/// The opcodes the driver sends to the controller.
#[derive(Clone, Copy, Debug, PartialEq, Eq, Structural)]
pub enum Command {
    DriverOutputControl,
    DeepSleepMode,
    DataEntryModeSetting,
    SwReset,
    TemperatureSensorControlRead,
    MasterActivation,
    DisplayUpdateControl1,
    DisplayUpdateControl2,
    WriteRam,
    WriteLutRegister,
    BorderWaveformControl,
    SetRamXAddressStartEndPosition,
    SetRamYAddressStartEndPosition,
    SetRamXAddressCounter,
    SetRamYAddressCounter,
}

impl Command {
    /// The opcode byte that selects this command on the bus.
    pub open spec fn spec_address(self) -> u8 {
        match self {
            Command::DriverOutputControl => 0x01,
            Command::DeepSleepMode => 0x10,
            Command::DataEntryModeSetting => 0x11,
            Command::SwReset => 0x12,
            Command::TemperatureSensorControlRead => 0x1B,
            Command::MasterActivation => 0x20,
            Command::DisplayUpdateControl1 => 0x21,
            Command::DisplayUpdateControl2 => 0x22,
            Command::WriteRam => 0x24,
            Command::WriteLutRegister => 0x32,
            Command::BorderWaveformControl => 0x3C,
            Command::SetRamXAddressStartEndPosition => 0x44,
            Command::SetRamYAddressStartEndPosition => 0x45,
            Command::SetRamXAddressCounter => 0x4E,
            Command::SetRamYAddressCounter => 0x4F,
        }
    }

    /// The opcode byte that selects this command on the bus.
    #[verifier::when_used_as_spec(spec_address)]
    pub fn address(self) -> (a: u8)
        ensures
            a == self.spec_address(),
    {
        match self {
            Command::DriverOutputControl => 0x01,
            Command::DeepSleepMode => 0x10,
            Command::DataEntryModeSetting => 0x11,
            Command::SwReset => 0x12,
            Command::TemperatureSensorControlRead => 0x1B,
            Command::MasterActivation => 0x20,
            Command::DisplayUpdateControl1 => 0x21,
            Command::DisplayUpdateControl2 => 0x22,
            Command::WriteRam => 0x24,
            Command::WriteLutRegister => 0x32,
            Command::BorderWaveformControl => 0x3C,
            Command::SetRamXAddressStartEndPosition => 0x44,
            Command::SetRamYAddressStartEndPosition => 0x45,
            Command::SetRamXAddressCounter => 0x4E,
            Command::SetRamYAddressCounter => 0x4F,
        }
    }
}

/// The value a flag contributes to a payload byte: its bit's weight when the
/// flag is set, nothing otherwise.
pub open spec fn bit_value(set: bool, weight: int) -> int {
    if set {
        weight
    } else {
        0
    }
}

/// Driver-output settings: how many scan lines the panel has and in which
/// order the controller scans them.
#[derive(Clone, Copy, Debug, PartialEq, Eq, Structural)]
pub struct DriverOutput {
    /// Sets bit 2 of the scan byte.
    pub scan_is_linear: bool,
    /// Sets bit 1 of the scan byte.
    pub scan_g0_is_first: bool,
    /// Sets bit 0 of the scan byte.
    pub scan_dir_incr: bool,
    /// Index of the last scan line.
    pub width: u16,
}

impl DriverOutput {
    /// The scan byte: one bit per scan flag.
    pub open spec fn scan_byte(self) -> int {
        bit_value(self.scan_is_linear, 4) + bit_value(self.scan_g0_is_first, 2) + bit_value(
            self.scan_dir_incr,
            1,
        )
    }

    /// The payload: the low byte of `width`, its high byte, the scan byte.
    pub open spec fn spec_to_bytes(self) -> Seq<u8> {
        seq![(self.width % 256) as u8, (self.width / 256) as u8, self.scan_byte() as u8]
    }

    /// Encodes the payload of `DriverOutputControl`.
    pub fn to_bytes(&self) -> (bytes: [u8; 3])
        ensures
            bytes@ == self.spec_to_bytes(),
    {
        let mut scan: u8 = 0;
        if self.scan_is_linear {
            scan = scan + 4;
        }
        if self.scan_g0_is_first {
            scan = scan + 2;
        }
        if self.scan_dir_incr {
            scan = scan + 1;
        }
        let bytes: [u8; 3] = [(self.width % 256) as u8, (self.width / 256) as u8, scan];
        assert(bytes@ =~= self.spec_to_bytes());
        bytes
    }
}

/// How the RAM address counters move after each byte written.
#[derive(Clone, Copy, Debug, PartialEq, Eq, Structural)]
pub enum DataEntryModeIncr {
    XDecrYDecr,
    XIncrYDecr,
    XDecrYIncr,
    XIncrYIncr,
}

impl DataEntryModeIncr {
    /// Whether the X counter counts up.
    pub open spec fn x_counts_up(self) -> bool {
        self == DataEntryModeIncr::XIncrYDecr || self == DataEntryModeIncr::XIncrYIncr
    }

    /// Whether the Y counter counts up.
    pub open spec fn y_counts_up(self) -> bool {
        self == DataEntryModeIncr::XDecrYIncr || self == DataEntryModeIncr::XIncrYIncr
    }

    /// Bit 0 is set when X counts up, bit 1 when Y counts up.
    pub open spec fn bits(self) -> int {
        bit_value(self.x_counts_up(), 1) + bit_value(self.y_counts_up(), 2)
    }
}

/// Which RAM address counter moves first.
#[derive(Clone, Copy, Debug, PartialEq, Eq, Structural)]
pub enum DataEntryModeDir {
    XDir,
    YDir,
}

impl DataEntryModeDir {
    /// Bit 2 is set when the Y counter moves first.
    pub open spec fn bits(self) -> int {
        bit_value(self == DataEntryModeDir::YDir, 4)
    }
}

/// The payload byte of `DataEntryModeSetting`.
pub open spec fn spec_data_entry_mode(incr: DataEntryModeIncr, dir: DataEntryModeDir) -> u8 {
    (incr.bits() + dir.bits()) as u8
}

/// Encodes the payload byte of `DataEntryModeSetting`.
pub fn data_entry_mode(incr: DataEntryModeIncr, dir: DataEntryModeDir) -> (mode: u8)
    ensures
        mode == spec_data_entry_mode(incr, dir),
{
    let counters: u8 = match incr {
        DataEntryModeIncr::XDecrYDecr => 0,
        DataEntryModeIncr::XIncrYDecr => 1,
        DataEntryModeIncr::XDecrYIncr => 2,
        DataEntryModeIncr::XIncrYIncr => 3,
    };
    match dir {
        DataEntryModeDir::XDir => counters,
        DataEntryModeDir::YDir => counters + 4,
    }
}

/// What drives the border of the panel.
#[derive(Clone, Copy, Debug, PartialEq, Eq, Structural)]
pub enum BorderWaveFormVbd {
    Gs,
    FixLevel,
    Vcom,
}

impl BorderWaveFormVbd {
    /// The value of the two-bit field.
    pub open spec fn code(self) -> int {
        match self {
            BorderWaveFormVbd::Gs => 0,
            BorderWaveFormVbd::FixLevel => 1,
            BorderWaveFormVbd::Vcom => 2,
        }
    }
}

/// The level the border is held at when it is driven by a fixed level.
#[derive(Clone, Copy, Debug, PartialEq, Eq, Structural)]
pub enum BorderWaveFormFixLevel {
    Vss,
    Vsh1,
    Vsl,
    Vsh2,
}

impl BorderWaveFormFixLevel {
    /// The value of the two-bit field.
    pub open spec fn code(self) -> int {
        match self {
            BorderWaveFormFixLevel::Vss => 0,
            BorderWaveFormFixLevel::Vsh1 => 1,
            BorderWaveFormFixLevel::Vsl => 2,
            BorderWaveFormFixLevel::Vsh2 => 3,
        }
    }
}

/// The waveform the border follows when it is driven by a transition.
#[derive(Clone, Copy, Debug, PartialEq, Eq, Structural)]
pub enum BorderWaveFormGs {
    Lut0,
    Lut1,
    Lut2,
    Lut3,
}

impl BorderWaveFormGs {
    /// The value of the two-bit field.
    pub open spec fn code(self) -> int {
        match self {
            BorderWaveFormGs::Lut0 => 0,
            BorderWaveFormGs::Lut1 => 1,
            BorderWaveFormGs::Lut2 => 2,
            BorderWaveFormGs::Lut3 => 3,
        }
    }
}

/// Border settings: three independent fields of one payload byte.
#[derive(Clone, Copy, Debug, PartialEq, Eq, Structural)]
pub struct BorderWaveForm {
    pub vbd: BorderWaveFormVbd,
    pub fix_level: BorderWaveFormFixLevel,
    pub gs_trans: BorderWaveFormGs,
}

impl BorderWaveForm {
    /// The payload byte: `vbd` in bits 6 and 7, `fix_level` in bits 4 and 5,
    /// `gs_trans` in bits 0 and 1.
    pub open spec fn spec_to_u8(&self) -> u8 {
        (64 * self.vbd.code() + 16 * self.fix_level.code() + self.gs_trans.code()) as u8
    }

    /// Encodes the payload byte of `BorderWaveformControl`.
    #[verifier::when_used_as_spec(spec_to_u8)]
    pub fn to_u8(&self) -> (byte: u8)
        ensures
            byte == self.spec_to_u8(),
    {
        let vbd: u8 = match self.vbd {
            BorderWaveFormVbd::Gs => 0,
            BorderWaveFormVbd::FixLevel => 1,
            BorderWaveFormVbd::Vcom => 2,
        };
        let fix_level: u8 = match self.fix_level {
            BorderWaveFormFixLevel::Vss => 0,
            BorderWaveFormFixLevel::Vsh1 => 1,
            BorderWaveFormFixLevel::Vsl => 2,
            BorderWaveFormFixLevel::Vsh2 => 3,
        };
        let gs_trans: u8 = match self.gs_trans {
            BorderWaveFormGs::Lut0 => 0,
            BorderWaveFormGs::Lut1 => 1,
            BorderWaveFormGs::Lut2 => 2,
            BorderWaveFormGs::Lut3 => 3,
        };
        64 * vbd + 16 * fix_level + gs_trans
    }
}

/// The steps that the next `MasterActivation` runs, one flag per step.
#[derive(Clone, Copy, Debug, PartialEq, Eq, Structural)]
pub struct DisplayUpdateControl2 {
    pub enable_analog: bool,
    pub enable_clock: bool,
    pub load_temp: bool,
    pub load_lut: bool,
    pub display: bool,
    pub disable_analog: bool,
    pub disable_clock: bool,
}

impl DisplayUpdateControl2 {
    /// The configuration with no step selected.
    pub open spec fn spec_new() -> DisplayUpdateControl2 {
        DisplayUpdateControl2 {
            enable_analog: false,
            enable_clock: false,
            load_temp: false,
            load_lut: false,
            display: false,
            disable_analog: false,
            disable_clock: false,
        }
    }

    /// Starts with no step selected.
    #[verifier::when_used_as_spec(spec_new)]
    pub fn new() -> (value: DisplayUpdateControl2)
        ensures
            value == DisplayUpdateControl2::spec_new(),
    {
        DisplayUpdateControl2 {
            enable_analog: false,
            enable_clock: false,
            load_temp: false,
            load_lut: false,
            display: false,
            disable_analog: false,
            disable_clock: false,
        }
    }

    /// Adds the step that switches the clock off.
    pub fn disable_clock(self) -> (value: DisplayUpdateControl2)
        ensures
            value == (DisplayUpdateControl2 { disable_clock: true, ..self }),
    {
        DisplayUpdateControl2 { disable_clock: true, ..self }
    }

    /// Adds the step that switches the analog block off.
    pub fn disable_analog(self) -> (value: DisplayUpdateControl2)
        ensures
            value == (DisplayUpdateControl2 { disable_analog: true, ..self }),
    {
        DisplayUpdateControl2 { disable_analog: true, ..self }
    }

    /// Adds the step that drives the panel from RAM.
    pub fn display(self) -> (value: DisplayUpdateControl2)
        ensures
            value == (DisplayUpdateControl2 { display: true, ..self }),
    {
        DisplayUpdateControl2 { display: true, ..self }
    }

    /// Adds the step that loads the waveform table.
    pub fn load_lut(self) -> (value: DisplayUpdateControl2)
        ensures
            value == (DisplayUpdateControl2 { load_lut: true, ..self }),
    {
        DisplayUpdateControl2 { load_lut: true, ..self }
    }

    /// Adds the step that loads the temperature value.
    pub fn load_temp(self) -> (value: DisplayUpdateControl2)
        ensures
            value == (DisplayUpdateControl2 { load_temp: true, ..self }),
    {
        DisplayUpdateControl2 { load_temp: true, ..self }
    }

    /// Adds the step that switches the clock on.
    pub fn enable_clock(self) -> (value: DisplayUpdateControl2)
        ensures
            value == (DisplayUpdateControl2 { enable_clock: true, ..self }),
    {
        DisplayUpdateControl2 { enable_clock: true, ..self }
    }

    /// Adds the step that switches the analog block on.
    pub fn enable_analog(self) -> (value: DisplayUpdateControl2)
        ensures
            value == (DisplayUpdateControl2 { enable_analog: true, ..self }),
    {
        DisplayUpdateControl2 { enable_analog: true, ..self }
    }

    /// The payload byte: one bit per step. Bit 3 belongs to no step.
    pub open spec fn spec_to_u8(&self) -> u8 {
        (bit_value(self.enable_analog, 0x80) + bit_value(self.enable_clock, 0x40) + bit_value(
            self.load_temp,
            0x20,
        ) + bit_value(self.load_lut, 0x10) + bit_value(self.display, 0x04) + bit_value(
            self.disable_analog,
            0x02,
        ) + bit_value(self.disable_clock, 0x01)) as u8
    }

    /// Encodes the payload byte of `DisplayUpdateControl2`.
    #[verifier::when_used_as_spec(spec_to_u8)]
    pub fn to_u8(&self) -> (byte: u8)
        ensures
            byte == self.spec_to_u8(),
    {
        let mut byte: u8 = 0;
        if self.enable_analog {
            byte = byte + 0x80;
        }
        if self.enable_clock {
            byte = byte + 0x40;
        }
        if self.load_temp {
            byte = byte + 0x20;
        }
        if self.load_lut {
            byte = byte + 0x10;
        }
        if self.display {
            byte = byte + 0x04;
        }
        if self.disable_analog {
            byte = byte + 0x02;
        }
        if self.disable_clock {
            byte = byte + 0x01;
        }
        byte
    }
}

/// How deeply the controller sleeps.
#[derive(Clone, Copy, Debug, PartialEq, Eq, Structural)]
pub enum DeepSleepMode {
    /// The controller and its RAM stay accessible.
    Normal,
    /// The controller is off and the RAM keeps its content.
    Mode1,
    /// The controller is off and the RAM loses its content.
    Mode2,
}

impl DeepSleepMode {
    /// The payload byte of `DeepSleepMode`.
    pub open spec fn spec_to_u8(self) -> u8 {
        match self {
            DeepSleepMode::Normal => 0x00,
            DeepSleepMode::Mode1 => 0x01,
            DeepSleepMode::Mode2 => 0x11,
        }
    }

    /// Encodes the payload byte of `DeepSleepMode`.
    #[verifier::when_used_as_spec(spec_to_u8)]
    pub fn to_u8(self) -> (byte: u8)
        ensures
            byte == self.spec_to_u8(),
    {
        match self {
            DeepSleepMode::Normal => 0x00,
            DeepSleepMode::Mode1 => 0x01,
            DeepSleepMode::Mode2 => 0x11,
        }
    }
}

} // verus!
