//! The panel driver: the command sequences that initialize the panel, write
//! a frame, show it, switch the refresh profile and put the panel to sleep.

use crate::color::Color;
use crate::command::{
    data_entry_mode, spec_data_entry_mode, BorderWaveForm, BorderWaveFormFixLevel,
    BorderWaveFormGs, BorderWaveFormVbd, Command, DataEntryModeDir, DataEntryModeIncr,
    DeepSleepMode, DisplayUpdateControl2, DriverOutput,
};
use crate::geometry::{buffer_len, frame_len, HEIGHT, WIDTH};
use crate::interface::{
    command_ops, command_with_data_ops, poll_delay_or_default, reset_ops, wait_ops,
    DisplayInterface, Op, Transcript,
};
use crate::waveform::{spec_waveform_table, waveform_table, RefreshLut};
use vstd::prelude::*;

verus! {

/// The background color of a new driver.
pub const DEFAULT_BACKGROUND_COLOR: Color = Color::White;

/// Whether the busy line of this panel reads low when the controller is
/// idle. It does not: it reads high.
pub const IS_BUSY_LOW: bool = false;

/// How long the reset line is held low, in microseconds.
pub const RESET_PULSE_US: u32 = 10_000;

/// How long the controller is left alone after a reset, in microseconds.
pub const RESET_SETTLE_US: u32 = 10_000;

/// Why the driver refused a request. It refuses before it asks for any
/// operation on the hardware.
#[derive(Clone, Copy, Debug, PartialEq, Eq, Structural)]
pub enum Error {
    /// The frame buffer does not have the length of a frame of this panel.
    BufferLength,
    /// The panel, as this driver sets it up, cannot do what was asked.
    Unsupported,
}

/// What a driver remembers between two requests.
pub struct Settings {
    /// The pause between two samples of the busy line, in microseconds.
    pub poll_delay_us: u32,
    /// How deeply the panel will sleep.
    pub sleep_mode: DeepSleepMode,
    /// The background color.
    pub background_color: Color,
    /// The refresh profile in force.
    pub refresh: RefreshLut,
}

/// The settings of a new driver.
pub open spec fn initial_settings(delay_us: Option<u32>) -> Settings {
    Settings {
        poll_delay_us: poll_delay_or_default(delay_us),
        sleep_mode: DeepSleepMode::Mode1,
        background_color: DEFAULT_BACKGROUND_COLOR,
        refresh: RefreshLut::Full,
    }
}

/// The driver-output settings of this panel.
pub open spec fn panel_driver_output() -> DriverOutput {
    DriverOutput {
        scan_is_linear: false,
        scan_g0_is_first: false,
        scan_dir_incr: false,
        width: (HEIGHT - 1) as u16,
    }
}

/// The border settings of this panel.
pub open spec fn panel_border_waveform() -> BorderWaveForm {
    BorderWaveForm {
        vbd: BorderWaveFormVbd::Gs,
        fix_level: BorderWaveFormFixLevel::Vss,
        gs_trans: BorderWaveFormGs::Lut3,
    }
}

/// The steps of a refresh: clock on, analog on, display, analog off, clock
/// off.
pub open spec fn refresh_steps() -> DisplayUpdateControl2 {
    DisplayUpdateControl2 {
        enable_clock: true,
        enable_analog: true,
        display: true,
        disable_analog: true,
        disable_clock: true,
        ..DisplayUpdateControl2::spec_new()
    }
}

/// The steps that power the panel down: analog and clock on, then off, and
/// no display step.
pub open spec fn power_down_steps() -> DisplayUpdateControl2 {
    DisplayUpdateControl2 {
        enable_analog: true,
        enable_clock: true,
        disable_analog: true,
        disable_clock: true,
        ..DisplayUpdateControl2::spec_new()
    }
}

/// The wait for the controller of this panel.
pub open spec fn idle_ops(poll_delay_us: u32) -> Seq<Op> {
    wait_ops(IS_BUSY_LOW, poll_delay_us)
}

/// The byte that addresses pixel column `x` in the RAM: a RAM address holds
/// eight pixels of a row, and the controller takes the low eight bits.
pub open spec fn x_address(x: u32) -> u8 {
    ((x / 8) % 256) as u8
}

/// The low eight bits of a RAM row.
pub open spec fn y_address_low(y: u32) -> u8 {
    (y % 256) as u8
}

/// Bits 8 to 15 of a RAM row.
pub open spec fn y_address_high(y: u32) -> u8 {
    ((y / 256) % 256) as u8
}

/// The traffic that sets the RAM window: the first and last column, then
/// the first and last row.
pub open spec fn ram_area_ops(start_x: u32, start_y: u32, end_x: u32, end_y: u32) -> Seq<Op> {
    command_with_data_ops(
        Command::SetRamXAddressStartEndPosition,
        seq![x_address(start_x), x_address(end_x)],
    ) + command_with_data_ops(
        Command::SetRamYAddressStartEndPosition,
        seq![
            y_address_low(start_y),
            y_address_high(start_y),
            y_address_low(end_y),
            y_address_high(end_y),
        ],
    )
}

/// The traffic that sets the RAM address counters, once the controller is
/// idle: the column, then the row.
pub open spec fn ram_address_counters_ops(poll_delay_us: u32, x: u32, y: u32) -> Seq<Op> {
    idle_ops(poll_delay_us)
        + command_with_data_ops(Command::SetRamXAddressCounter, seq![x_address(x)])
        + command_with_data_ops(Command::SetRamYAddressCounter, seq![y_address_low(y)])
}

/// The traffic that sets the RAM window to the whole panel.
pub open spec fn full_ram_area_ops() -> Seq<Op> {
    ram_area_ops(0, 0, (WIDTH - 1) as u32, (HEIGHT - 1) as u32)
}

/// The traffic of an initialization.
pub open spec fn init_ops(poll_delay_us: u32) -> Seq<Op> {
    reset_ops(RESET_PULSE_US, RESET_SETTLE_US)
        + idle_ops(poll_delay_us)
        + command_ops(Command::SwReset)
        + idle_ops(poll_delay_us)
        + command_with_data_ops(
            Command::DriverOutputControl,
            panel_driver_output().spec_to_bytes(),
        )
        + command_with_data_ops(
            Command::DataEntryModeSetting,
            seq![spec_data_entry_mode(DataEntryModeIncr::XDecrYIncr, DataEntryModeDir::XDir)],
        )
        + full_ram_area_ops()
        + command_with_data_ops(
            Command::BorderWaveformControl,
            seq![panel_border_waveform().spec_to_u8()],
        )
        + command_with_data_ops(Command::DisplayUpdateControl1, seq![0x00u8, 0x80u8])
        + command_with_data_ops(Command::TemperatureSensorControlRead, seq![0x80u8])
        + ram_address_counters_ops(poll_delay_us, 0, 0)
        + idle_ops(poll_delay_us)
}

/// The traffic that writes a frame: an initialization, the full RAM window
/// and the counters at its origin once more, then the frame.
pub open spec fn update_frame_ops(poll_delay_us: u32, buffer: Seq<u8>) -> Seq<Op> {
    init_ops(poll_delay_us)
        + full_ram_area_ops()
        + ram_address_counters_ops(poll_delay_us, 0, 0)
        + command_with_data_ops(Command::WriteRam, buffer)
}

/// The traffic that shows what the RAM holds.
pub open spec fn display_frame_ops(poll_delay_us: u32) -> Seq<Op> {
    command_with_data_ops(Command::DisplayUpdateControl2, seq![refresh_steps().spec_to_u8()])
        + command_ops(Command::MasterActivation)
        + idle_ops(poll_delay_us)
}

/// The traffic that puts the panel to sleep.
pub open spec fn sleep_ops(poll_delay_us: u32, mode: DeepSleepMode) -> Seq<Op> {
    idle_ops(poll_delay_us)
        + command_with_data_ops(
            Command::DisplayUpdateControl2,
            seq![power_down_steps().spec_to_u8()],
        )
        + command_ops(Command::MasterActivation)
        + command_with_data_ops(Command::DeepSleepMode, seq![mode.spec_to_u8()])
}

/// The profile whose table is loaded where none is named.
pub open spec fn profile_or_full(refresh_rate: Option<RefreshLut>) -> RefreshLut {
    match refresh_rate {
        Some(refresh) => refresh,
        None => RefreshLut::Full,
    }
}

/// The traffic that loads the waveform table of a profile.
pub open spec fn lut_ops(refresh_rate: Option<RefreshLut>) -> Seq<Op> {
    command_with_data_ops(
        Command::WriteLutRegister,
        spec_waveform_table(profile_or_full(refresh_rate)),
    )
}

/// The traffic of a change of profile: the table of the new profile, or
/// nothing where the profile stays.
pub open spec fn set_refresh_ops(current: RefreshLut, requested: RefreshLut) -> Seq<Op> {
    if current == requested {
        Seq::empty()
    } else {
        lut_ops(Some(requested))
    }
}

/// The driver of the panel.
pub struct Epd2in13 {
    interface: DisplayInterface,
    sleep_mode: DeepSleepMode,
    background_color: Color,
    refresh: RefreshLut,
}

impl View for Epd2in13 {
    type V = Settings;

    closed spec fn view(&self) -> Settings {
        Settings {
            poll_delay_us: self.interface.delay_us,
            sleep_mode: self.sleep_mode,
            background_color: self.background_color,
            refresh: self.refresh,
        }
    }
}

impl Epd2in13 {
    /// Transmits an opcode that has no payload.
    pub fn command(&mut self, bus: &mut Transcript, command: Command)
        ensures
            final(self)@ == old(self)@,
            final(bus)@ == old(bus)@ + command_ops(command),
    {
        self.interface.cmd(bus, command);
    }

    /// Transmits an opcode and its payload.
    pub fn cmd_with_data(&mut self, bus: &mut Transcript, command: Command, data: &[u8])
        ensures
            final(self)@ == old(self)@,
            final(bus)@ == old(bus)@ + command_with_data_ops(command, data@),
    {
        self.interface.cmd_with_data(bus, command, data);
    }

    /// Waits until the controller is idle.
    pub fn wait_until_idle(&mut self, bus: &mut Transcript)
        ensures
            final(self)@ == old(self)@,
            final(bus)@ == old(bus)@ + idle_ops(old(self)@.poll_delay_us),
    {
        self.interface.wait_until_idle(bus, IS_BUSY_LOW);
    }

    /// Tells the controller how many scan lines the panel has and how to
    /// scan them.
    pub fn set_driver_output(&mut self, bus: &mut Transcript, output: DriverOutput)
        ensures
            final(self)@ == old(self)@,
            final(bus)@ == old(bus)@ + command_with_data_ops(
                Command::DriverOutputControl,
                output.spec_to_bytes(),
            ),
    {
        let payload: [u8; 3] = output.to_bytes();
        self.cmd_with_data(bus, Command::DriverOutputControl, payload.as_slice());
    }

    /// Tells the controller how the RAM address counters move after each
    /// byte written.
    pub fn set_data_entry_mode(
        &mut self,
        bus: &mut Transcript,
        counter_incr_mode: DataEntryModeIncr,
        counter_direction: DataEntryModeDir,
    )
        ensures
            final(self)@ == old(self)@,
            final(bus)@ == old(bus)@ + command_with_data_ops(
                Command::DataEntryModeSetting,
                seq![spec_data_entry_mode(counter_incr_mode, counter_direction)],
            ),
    {
        let payload: [u8; 1] = [data_entry_mode(counter_incr_mode, counter_direction)];
        assert(payload@ =~= seq![spec_data_entry_mode(counter_incr_mode, counter_direction)]);
        self.cmd_with_data(bus, Command::DataEntryModeSetting, payload.as_slice());
    }

    /// Sets the RAM window to the pixel columns `start_x` to `end_x` and the
    /// rows `start_y` to `end_y`.
    pub fn set_ram_area(
        &mut self,
        bus: &mut Transcript,
        start_x: u32,
        start_y: u32,
        end_x: u32,
        end_y: u32,
    )
        ensures
            final(self)@ == old(self)@,
            final(bus)@ == old(bus)@ + ram_area_ops(start_x, start_y, end_x, end_y),
    {
        let columns: [u8; 2] = [((start_x / 8) % 256) as u8, ((end_x / 8) % 256) as u8];
        assert(columns@ =~= seq![x_address(start_x), x_address(end_x)]);
        self.cmd_with_data(bus, Command::SetRamXAddressStartEndPosition, columns.as_slice());

        let rows: [u8; 4] = [
            (start_y % 256) as u8,
            ((start_y / 256) % 256) as u8,
            (end_y % 256) as u8,
            ((end_y / 256) % 256) as u8,
        ];
        assert(rows@ =~= seq![
            y_address_low(start_y),
            y_address_high(start_y),
            y_address_low(end_y),
            y_address_high(end_y),
        ]);
        self.cmd_with_data(bus, Command::SetRamYAddressStartEndPosition, rows.as_slice());
        assert(bus@ =~= old(bus)@ + ram_area_ops(start_x, start_y, end_x, end_y));
    }

    /// Waits for the controller, then sets the RAM address counters to the
    /// pixel column `x` and the row `y`.
    pub fn set_ram_address_counters(&mut self, bus: &mut Transcript, x: u32, y: u32)
        ensures
            final(self)@ == old(self)@,
            final(bus)@ == old(bus)@ + ram_address_counters_ops(old(self)@.poll_delay_us, x, y),
    {
        self.wait_until_idle(bus);
        let column: [u8; 1] = [((x / 8) % 256) as u8];
        assert(column@ =~= seq![x_address(x)]);
        self.cmd_with_data(bus, Command::SetRamXAddressCounter, column.as_slice());

        let row: [u8; 1] = [(y % 256) as u8];
        assert(row@ =~= seq![y_address_low(y)]);
        self.cmd_with_data(bus, Command::SetRamYAddressCounter, row.as_slice());
        assert(bus@ =~= old(bus)@ + ram_address_counters_ops(old(self)@.poll_delay_us, x, y));
    }

    /// Tells the controller what drives the border of the panel.
    pub fn set_border_waveform(&mut self, bus: &mut Transcript, borderwaveform: BorderWaveForm)
        ensures
            final(self)@ == old(self)@,
            final(bus)@ == old(bus)@ + command_with_data_ops(
                Command::BorderWaveformControl,
                seq![borderwaveform.spec_to_u8()],
            ),
    {
        let payload: [u8; 1] = [borderwaveform.to_u8()];
        assert(payload@ =~= seq![borderwaveform.spec_to_u8()]);
        self.cmd_with_data(bus, Command::BorderWaveformControl, payload.as_slice());
    }

    /// Chooses the steps that the next `MasterActivation` runs.
    pub fn set_display_update_control_2(
        &mut self,
        bus: &mut Transcript,
        value: DisplayUpdateControl2,
    )
        ensures
            final(self)@ == old(self)@,
            final(bus)@ == old(bus)@ + command_with_data_ops(
                Command::DisplayUpdateControl2,
                seq![value.spec_to_u8()],
            ),
    {
        let payload: [u8; 1] = [value.to_u8()];
        assert(payload@ =~= seq![value.spec_to_u8()]);
        self.cmd_with_data(bus, Command::DisplayUpdateControl2, payload.as_slice());
    }

    /// Sends the controller to sleep, as deeply as `mode` says.
    pub fn set_sleep_mode(&mut self, bus: &mut Transcript, mode: DeepSleepMode)
        ensures
            final(self)@ == old(self)@,
            final(bus)@ == old(bus)@ + command_with_data_ops(
                Command::DeepSleepMode,
                seq![mode.spec_to_u8()],
            ),
    {
        let payload: [u8; 1] = [mode.to_u8()];
        assert(payload@ =~= seq![mode.spec_to_u8()]);
        self.cmd_with_data(bus, Command::DeepSleepMode, payload.as_slice());
    }

    /// Initializes the controller: a reset pulse, a software reset, the
    /// driver-output settings, the data entry mode, the full RAM window, the
    /// border settings, the two fixed settings of the update path and of the
    /// temperature sensor, and the RAM address counters at the origin.
    pub fn init(&mut self, bus: &mut Transcript)
        ensures
            final(self)@ == old(self)@,
            final(bus)@ == old(bus)@ + init_ops(old(self)@.poll_delay_us),
    {
        self.interface.reset(bus, RESET_PULSE_US, RESET_SETTLE_US);

        self.wait_until_idle(bus);
        self.command(bus, Command::SwReset);
        self.wait_until_idle(bus);

        self.set_driver_output(
            bus,
            DriverOutput {
                scan_is_linear: false,
                scan_g0_is_first: false,
                scan_dir_incr: false,
                width: (HEIGHT - 1) as u16,
            },
        );

        self.set_data_entry_mode(bus, DataEntryModeIncr::XDecrYIncr, DataEntryModeDir::XDir);

        self.set_ram_area(bus, 0, 0, WIDTH - 1, HEIGHT - 1);

        self.set_border_waveform(
            bus,
            BorderWaveForm {
                vbd: BorderWaveFormVbd::Gs,
                fix_level: BorderWaveFormFixLevel::Vss,
                gs_trans: BorderWaveFormGs::Lut3,
            },
        );

        let update_path: [u8; 2] = [0x00, 0x80];
        assert(update_path@ =~= seq![0x00u8, 0x80u8]);
        self.cmd_with_data(bus, Command::DisplayUpdateControl1, update_path.as_slice());

        let sensor: [u8; 1] = [0x80];
        assert(sensor@ =~= seq![0x80u8]);
        self.cmd_with_data(bus, Command::TemperatureSensorControlRead, sensor.as_slice());

        self.set_ram_address_counters(bus, 0, 0);

        self.wait_until_idle(bus);
        assert(bus@ =~= old(bus)@ + init_ops(old(self)@.poll_delay_us));
    }

    /// Makes a driver and initializes the controller. `delay_us` is the
    /// pause between two samples of the busy line.
    pub fn new(bus: &mut Transcript, delay_us: Option<u32>) -> (epd: Epd2in13)
        ensures
            epd@ == initial_settings(delay_us),
            final(bus)@ == old(bus)@ + init_ops(initial_settings(delay_us).poll_delay_us),
    {
        let mut epd = Epd2in13 {
            interface: DisplayInterface::new(delay_us),
            sleep_mode: DeepSleepMode::Mode1,
            background_color: DEFAULT_BACKGROUND_COLOR,
            refresh: RefreshLut::Full,
        };

        epd.init(bus);
        epd
    }

    /// Wakes the panel: an initialization, whole and unabridged.
    pub fn wake_up(&mut self, bus: &mut Transcript)
        ensures
            final(self)@ == old(self)@,
            final(bus)@ == old(bus)@ + init_ops(old(self)@.poll_delay_us),
    {
        self.init(bus)
    }

    /// Puts the panel to sleep: once the controller is idle, powers the
    /// analog block and the clock down without a display step, then sends
    /// the controller to sleep as deeply as the driver is set to.
    pub fn sleep(&mut self, bus: &mut Transcript)
        ensures
            final(self)@ == old(self)@,
            final(bus)@ == old(bus)@ + sleep_ops(
                old(self)@.poll_delay_us,
                old(self)@.sleep_mode,
            ),
    {
        self.wait_until_idle(bus);

        self.set_display_update_control_2(
            bus,
            DisplayUpdateControl2::new().enable_analog().enable_clock().disable_analog()
                .disable_clock(),
        );
        self.command(bus, Command::MasterActivation);

        let mode = self.sleep_mode;
        self.set_sleep_mode(bus, mode);
        assert(bus@ =~= old(bus)@ + sleep_ops(old(self)@.poll_delay_us, old(self)@.sleep_mode));
    }

    /// Writes a frame to the controller's RAM. The panel does not change
    /// until [`Epd2in13::display_frame`].
    ///
    /// A buffer of any other length than a frame's is refused, and nothing
    /// is asked of the hardware.
    pub fn update_frame(&mut self, bus: &mut Transcript, buffer: &[u8]) -> (res: Result<(), Error>)
        ensures
            final(self)@ == old(self)@,
            buffer@.len() == frame_len() ==> res is Ok,
            buffer@.len() == frame_len() ==> final(bus)@ == old(bus)@ + update_frame_ops(
                old(self)@.poll_delay_us,
                buffer@,
            ),
            buffer@.len() != frame_len() ==> res == Err::<(), Error>(Error::BufferLength),
            buffer@.len() != frame_len() ==> final(bus)@ == old(bus)@,
    {
        if buffer.len() != buffer_len(WIDTH as usize, HEIGHT as usize) {
            return Err(Error::BufferLength);
        }
        self.init(bus);

        self.set_ram_area(bus, 0, 0, WIDTH - 1, HEIGHT - 1);
        self.set_ram_address_counters(bus, 0, 0);

        self.cmd_with_data(bus, Command::WriteRam, buffer);
        assert(bus@ =~= old(bus)@ + update_frame_ops(old(self)@.poll_delay_us, buffer@));
        Ok(())
    }

    /// Writing a part of a frame is not supported: the request is refused,
    /// whatever it holds, and nothing is asked of the hardware.
    #[allow(unused_variables)]
    pub fn update_partial_frame(
        &mut self,
        bus: &mut Transcript,
        buffer: &[u8],
        x: u32,
        y: u32,
        width: u32,
        height: u32,
    ) -> (res: Result<(), Error>)
        ensures
            res == Err::<(), Error>(Error::Unsupported),
            final(self)@ == old(self)@,
            final(bus)@ == old(bus)@,
    {
        Err(Error::Unsupported)
    }

    /// Shows what the RAM holds: selects the steps of a refresh, runs them
    /// and waits until the controller is idle again.
    pub fn display_frame(&mut self, bus: &mut Transcript)
        ensures
            final(self)@ == old(self)@,
            final(bus)@ == old(bus)@ + display_frame_ops(old(self)@.poll_delay_us),
    {
        self.set_display_update_control_2(
            bus,
            DisplayUpdateControl2::new().enable_clock().enable_analog().display().disable_analog()
                .disable_clock(),
        );
        self.command(bus, Command::MasterActivation);
        self.wait_until_idle(bus);
        assert(bus@ =~= old(bus)@ + display_frame_ops(old(self)@.poll_delay_us));
    }

    /// Writes a frame and shows it.
    ///
    /// A buffer of any other length than a frame's is refused, and nothing
    /// is asked of the hardware.
    pub fn update_and_display_frame(
        &mut self,
        bus: &mut Transcript,
        buffer: &[u8],
    ) -> (res: Result<(), Error>)
        ensures
            final(self)@ == old(self)@,
            buffer@.len() == frame_len() ==> res is Ok,
            buffer@.len() == frame_len() ==> final(bus)@ == old(bus)@ + update_frame_ops(
                old(self)@.poll_delay_us,
                buffer@,
            ) + display_frame_ops(old(self)@.poll_delay_us),
            buffer@.len() != frame_len() ==> res == Err::<(), Error>(Error::BufferLength),
            buffer@.len() != frame_len() ==> final(bus)@ == old(bus)@,
    {
        match self.update_frame(bus, buffer) {
            Ok(()) => {
                self.display_frame(bus);
                Ok(())
            },
            Err(e) => Err(e),
        }
    }

    /// Clearing the frame is not supported: the request is refused and
    /// nothing is asked of the hardware.
    pub fn clear_frame(&mut self, bus: &mut Transcript) -> (res: Result<(), Error>)
        ensures
            res == Err::<(), Error>(Error::Unsupported),
            final(self)@ == old(self)@,
            final(bus)@ == old(bus)@,
    {
        Err(Error::Unsupported)
    }

    /// Sets the background color. The driver only remembers it.
    pub fn set_background_color(&mut self, background_color: Color)
        ensures
            final(self)@ == (Settings { background_color, ..old(self)@ }),
    {
        self.background_color = background_color;
    }

    /// The background color.
    pub fn background_color(&self) -> (color: &Color)
        ensures
            *color == self@.background_color,
    {
        &self.background_color
    }

    /// The width of the panel in pixels.
    pub fn width(&self) -> (width: u32)
        ensures
            width == WIDTH,
    {
        WIDTH
    }

    /// The height of the panel in pixels.
    pub fn height(&self) -> (height: u32)
        ensures
            height == HEIGHT,
    {
        HEIGHT
    }

    /// Loads the waveform table of a profile into the controller: that of
    /// the full profile where none is named. The profile in force stays.
    pub fn set_lut(&mut self, bus: &mut Transcript, refresh_rate: Option<RefreshLut>)
        ensures
            final(self)@ == old(self)@,
            final(bus)@ == old(bus)@ + lut_ops(refresh_rate),
    {
        let table: [u8; 70] = match refresh_rate {
            Some(RefreshLut::Full) | None => waveform_table(RefreshLut::Full),
            Some(RefreshLut::Quick) => waveform_table(RefreshLut::Quick),
        };

        self.cmd_with_data(bus, Command::WriteLutRegister, table.as_slice())
    }

    /// Setting the base buffer of partial refreshes is not supported: the
    /// request is refused, whatever the buffer, and nothing is asked of the
    /// hardware.
    #[allow(unused_variables)]
    pub fn set_partial_base_buffer(
        &mut self,
        bus: &mut Transcript,
        buffer: &[u8],
    ) -> (res: Result<(), Error>)
        ensures
            res == Err::<(), Error>(Error::Unsupported),
            final(self)@ == old(self)@,
            final(bus)@ == old(bus)@,
    {
        Err(Error::Unsupported)
    }

    /// Selects how deeply [`Epd2in13::sleep`] sends the panel to sleep.
    pub fn set_deep_sleep_mode(&mut self, mode: DeepSleepMode)
        ensures
            final(self)@ == (Settings { sleep_mode: mode, ..old(self)@ }),
    {
        self.sleep_mode = mode;
    }

    /// How deeply [`Epd2in13::sleep`] sends the panel to sleep.
    pub fn deep_sleep_mode(&self) -> (mode: DeepSleepMode)
        ensures
            mode == self@.sleep_mode,
    {
        self.sleep_mode
    }

    /// Sets the refresh profile. Where it changes, the waveform table of the
    /// new profile is loaded into the controller; where it stays, nothing is
    /// asked of the hardware. The panel is not refreshed either way.
    pub fn set_refresh(&mut self, bus: &mut Transcript, refresh: RefreshLut)
        ensures
            final(self)@ == (Settings { refresh, ..old(self)@ }),
            final(bus)@ == old(bus)@ + set_refresh_ops(old(self)@.refresh, refresh),
    {
        if self.refresh != refresh {
            self.refresh = refresh;
            self.set_lut(bus, Some(refresh));
        } else {
            assert(bus@ =~= old(bus)@ + set_refresh_ops(old(self)@.refresh, refresh));
        }
    }

    /// The refresh profile in force.
    pub fn refresh(&self) -> (refresh: RefreshLut)
        ensures
            refresh == self@.refresh,
    {
        self.refresh
    }
}

} // verus!
