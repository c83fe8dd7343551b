use epd2in13::color::Color;
use epd2in13::command::{
    BorderWaveForm, BorderWaveFormFixLevel, BorderWaveFormGs, BorderWaveFormVbd, Command,
    DataEntryModeDir, DataEntryModeIncr, DeepSleepMode, DisplayUpdateControl2, DriverOutput,
};
use epd2in13::driver::{Epd2in13, Error, DEFAULT_BACKGROUND_COLOR, IS_BUSY_LOW};
use epd2in13::interface::{BusOp, Transcript};
use epd2in13::waveform::{RefreshLut, LUT_FULL_UPDATE, LUT_PARTIAL_UPDATE};

const FRAME_LEN: usize = 3813;

fn opcode(byte: u8) -> Vec<BusOp> {
    vec![BusOp::SelectCommand, BusOp::Write(vec![byte])]
}

fn frame(byte: u8, payload: &[u8]) -> Vec<BusOp> {
    vec![
        BusOp::SelectCommand,
        BusOp::Write(vec![byte]),
        BusOp::SelectData,
        BusOp::Write(payload.to_vec()),
    ]
}

fn idle(poll_delay_us: u32) -> Vec<BusOp> {
    vec![BusOp::WaitIdle { idle_high: true, poll_delay_us }]
}

fn init_wire(poll_delay_us: u32) -> Vec<BusOp> {
    let mut wire = vec![
        BusOp::ResetLow,
        BusOp::Delay(10_000),
        BusOp::ResetHigh,
        BusOp::Delay(10_000),
    ];
    wire.extend(idle(poll_delay_us));
    wire.extend(opcode(0x12));
    wire.extend(idle(poll_delay_us));
    wire.extend(frame(0x01, &[0xF9, 0x00, 0x00]));
    wire.extend(frame(0x11, &[0x02]));
    wire.extend(frame(0x44, &[0x00, 0x0F]));
    wire.extend(frame(0x45, &[0x00, 0x00, 0xF9, 0x00]));
    wire.extend(frame(0x3C, &[0x03]));
    wire.extend(frame(0x21, &[0x00, 0x80]));
    wire.extend(frame(0x1B, &[0x80]));
    wire.extend(idle(poll_delay_us));
    wire.extend(frame(0x4E, &[0x00]));
    wire.extend(frame(0x4F, &[0x00]));
    wire.extend(idle(poll_delay_us));
    wire
}

fn update_wire(poll_delay_us: u32, buffer: &[u8]) -> Vec<BusOp> {
    let mut wire = init_wire(poll_delay_us);
    wire.extend(frame(0x44, &[0x00, 0x0F]));
    wire.extend(frame(0x45, &[0x00, 0x00, 0xF9, 0x00]));
    wire.extend(idle(poll_delay_us));
    wire.extend(frame(0x4E, &[0x00]));
    wire.extend(frame(0x4F, &[0x00]));
    wire.extend(frame(0x24, buffer));
    wire
}

fn display_wire(poll_delay_us: u32) -> Vec<BusOp> {
    let mut wire = frame(0x22, &[0xC7]);
    wire.extend(opcode(0x20));
    wire.extend(idle(poll_delay_us));
    wire
}

fn sleep_wire(poll_delay_us: u32, depth: u8) -> Vec<BusOp> {
    let mut wire = idle(poll_delay_us);
    wire.extend(frame(0x22, &[0xC3]));
    wire.extend(opcode(0x20));
    wire.extend(frame(0x10, &[depth]));
    wire
}

fn opcodes_of(ops: &[BusOp]) -> Vec<u8> {
    let mut found = Vec::new();
    let mut command_phase = false;
    for op in ops {
        match op {
            BusOp::SelectCommand => command_phase = true,
            BusOp::SelectData => command_phase = false,
            BusOp::Write(bytes) => {
                if command_phase {
                    assert_eq!(bytes.len(), 1);
                    found.push(bytes[0]);
                }
            }
            _ => {}
        }
    }
    found
}

fn test_frame() -> Vec<u8> {
    (0..FRAME_LEN).map(|i| (i % 251) as u8).collect()
}

fn quiet_driver(delay_us: Option<u32>) -> Epd2in13 {
    let mut bus = Transcript::new();
    Epd2in13::new(&mut bus, delay_us)
}

#[test]
fn construction_initializes_the_controller() {
    let mut bus = Transcript::new();
    let epd = Epd2in13::new(&mut bus, None);
    assert_eq!(bus.ops, init_wire(10_000));
    assert_eq!(bus.ops.len(), 46);
    assert_eq!(epd.refresh(), RefreshLut::Full);
    assert_eq!(epd.deep_sleep_mode(), DeepSleepMode::Mode1);
    assert_eq!(*epd.background_color(), Color::White);
    assert_eq!(DEFAULT_BACKGROUND_COLOR, Color::White);
}

#[test]
fn construction_takes_the_poll_delay() {
    let mut bus = Transcript::new();
    let _epd = Epd2in13::new(&mut bus, Some(123));
    assert_eq!(bus.ops, init_wire(123));
    assert_eq!(bus.ops[4], BusOp::WaitIdle { idle_high: true, poll_delay_us: 123 });
}

#[test]
fn construction_appends_to_the_transcript() {
    let mut bus = Transcript::new();
    bus.push(BusOp::Delay(5));
    let _epd = Epd2in13::new(&mut bus, Some(0));
    let mut expected = vec![BusOp::Delay(5)];
    expected.extend(init_wire(0));
    assert_eq!(bus.ops, expected);
}

#[test]
fn busy_line_is_high_when_idle() {
    assert!(!IS_BUSY_LOW);
    let mut epd = quiet_driver(Some(9));
    let mut bus = Transcript::new();
    epd.wait_until_idle(&mut bus);
    assert_eq!(bus.ops, vec![BusOp::WaitIdle { idle_high: true, poll_delay_us: 9 }]);
}

#[test]
fn init_opcodes_come_in_order() {
    let mut epd = quiet_driver(None);
    let mut bus = Transcript::new();
    epd.init(&mut bus);
    assert_eq!(bus.ops, init_wire(10_000));
    assert_eq!(
        opcodes_of(&bus.ops),
        vec![0x12, 0x01, 0x11, 0x44, 0x45, 0x3C, 0x21, 0x1B, 0x4E, 0x4F]
    );
}

#[test]
fn wake_up_repeats_construction() {
    let mut first = Transcript::new();
    let mut epd = Epd2in13::new(&mut first, Some(77));
    let mut bus = Transcript::new();
    epd.sleep(&mut bus);
    let mut again = Transcript::new();
    epd.wake_up(&mut again);
    assert_eq!(again, first);
}

#[test]
fn wake_up_ignores_what_was_set_since() {
    let mut first = Transcript::new();
    let mut epd = Epd2in13::new(&mut first, None);
    let mut bus = Transcript::new();
    epd.set_deep_sleep_mode(DeepSleepMode::Mode2);
    epd.set_background_color(Color::Black);
    epd.set_refresh(&mut bus, RefreshLut::Quick);
    let mut again = Transcript::new();
    epd.wake_up(&mut again);
    assert_eq!(again.ops, first.ops);
    assert_eq!(epd.refresh(), RefreshLut::Quick);
    assert_eq!(epd.deep_sleep_mode(), DeepSleepMode::Mode2);
}

#[test]
fn update_frame_initializes_then_writes_the_frame() {
    let mut epd = quiet_driver(Some(50));
    let buffer = test_frame();
    let mut bus = Transcript::new();
    assert_eq!(epd.update_frame(&mut bus, &buffer), Ok(()));
    assert_eq!(bus.ops, update_wire(50, &buffer));
    assert_eq!(bus.ops.last(), Some(&BusOp::Write(buffer)));
}

#[test]
fn update_then_display_opcodes_come_in_order() {
    let mut epd = quiet_driver(None);
    let buffer = vec![0xFFu8; FRAME_LEN];
    let mut bus = Transcript::new();
    assert_eq!(epd.update_frame(&mut bus, &buffer), Ok(()));
    epd.display_frame(&mut bus);
    let mut expected = update_wire(10_000, &buffer);
    expected.extend(display_wire(10_000));
    assert_eq!(bus.ops, expected);
    assert_eq!(bus.ops[0], BusOp::ResetLow);
    assert_eq!(
        opcodes_of(&bus.ops),
        vec![
            0x12, 0x01, 0x11, 0x44, 0x45, 0x3C, 0x21, 0x1B, 0x4E, 0x4F, 0x44, 0x45, 0x4E, 0x4F,
            0x24, 0x22, 0x20,
        ]
    );
}

#[test]
fn update_frame_refuses_a_short_buffer() {
    let mut epd = quiet_driver(None);
    let mut bus = Transcript::new();
    assert_eq!(epd.update_frame(&mut bus, &vec![0u8; FRAME_LEN - 1]), Err(Error::BufferLength));
    assert!(bus.ops.is_empty());
}

#[test]
fn update_frame_refuses_a_long_buffer() {
    let mut epd = quiet_driver(None);
    let mut bus = Transcript::new();
    assert_eq!(epd.update_frame(&mut bus, &vec![0u8; FRAME_LEN + 1]), Err(Error::BufferLength));
    assert_eq!(epd.update_frame(&mut bus, &vec![0u8; 4000]), Err(Error::BufferLength));
    assert!(bus.ops.is_empty());
}

#[test]
fn update_frame_refuses_an_empty_buffer() {
    let mut epd = quiet_driver(None);
    let mut bus = Transcript::new();
    bus.push(BusOp::Delay(1));
    assert_eq!(epd.update_frame(&mut bus, &[]), Err(Error::BufferLength));
    assert_eq!(bus.ops, vec![BusOp::Delay(1)]);
}

#[test]
fn display_frame_runs_a_refresh() {
    let mut epd = quiet_driver(Some(5));
    let mut bus = Transcript::new();
    epd.display_frame(&mut bus);
    assert_eq!(bus.ops, display_wire(5));
    assert_eq!(bus.ops[3], BusOp::Write(vec![0xC7]));
}

#[test]
fn update_and_display_frame_does_both() {
    let mut epd = quiet_driver(Some(5));
    let buffer = test_frame();
    let mut bus = Transcript::new();
    assert_eq!(epd.update_and_display_frame(&mut bus, &buffer), Ok(()));
    let mut expected = update_wire(5, &buffer);
    expected.extend(display_wire(5));
    assert_eq!(bus.ops, expected);
}

#[test]
fn update_and_display_frame_refuses_a_wrong_length() {
    let mut epd = quiet_driver(None);
    let mut bus = Transcript::new();
    assert_eq!(
        epd.update_and_display_frame(&mut bus, &vec![0u8; 100]),
        Err(Error::BufferLength)
    );
    assert!(bus.ops.is_empty());
}

#[test]
fn sleep_powers_down_without_display() {
    let mut epd = quiet_driver(Some(8));
    let mut bus = Transcript::new();
    epd.sleep(&mut bus);
    assert_eq!(bus.ops, sleep_wire(8, 0x01));
    assert_eq!(opcodes_of(&bus.ops), vec![0x22, 0x20, 0x10]);
    assert_eq!(bus.ops.last(), Some(&BusOp::Write(vec![0x01])));
}

#[test]
fn sleep_uses_the_depth_that_was_set() {
    let mut epd = quiet_driver(None);
    epd.set_deep_sleep_mode(DeepSleepMode::Mode2);
    assert_eq!(epd.deep_sleep_mode(), DeepSleepMode::Mode2);
    let mut bus = Transcript::new();
    epd.sleep(&mut bus);
    assert_eq!(bus.ops, sleep_wire(10_000, 0x11));

    epd.set_deep_sleep_mode(DeepSleepMode::Normal);
    let mut bus = Transcript::new();
    epd.sleep(&mut bus);
    assert_eq!(bus.ops, sleep_wire(10_000, 0x00));
}

#[test]
fn set_refresh_to_the_same_profile_is_silent() {
    let mut epd = quiet_driver(None);
    let mut bus = Transcript::new();
    epd.set_refresh(&mut bus, RefreshLut::Full);
    assert!(bus.ops.is_empty());
    assert_eq!(epd.refresh(), RefreshLut::Full);
}

#[test]
fn set_refresh_quick_twice_loads_the_table_once() {
    let mut epd = quiet_driver(None);
    let mut bus = Transcript::new();
    epd.set_refresh(&mut bus, RefreshLut::Quick);
    assert_eq!(bus.ops, frame(0x32, &LUT_PARTIAL_UPDATE));
    let mut second = Transcript::new();
    epd.set_refresh(&mut second, RefreshLut::Quick);
    assert!(second.ops.is_empty());
    assert_eq!(epd.refresh(), RefreshLut::Quick);
}

#[test]
fn set_refresh_full_then_quick_loads_the_quick_table() {
    let mut epd = quiet_driver(None);
    let mut bus = Transcript::new();
    epd.set_refresh(&mut bus, RefreshLut::Full);
    epd.set_refresh(&mut bus, RefreshLut::Quick);
    assert_eq!(bus.ops, frame(0x32, &LUT_PARTIAL_UPDATE));
    assert_eq!(epd.refresh(), RefreshLut::Quick);
}

#[test]
fn set_refresh_back_to_full_loads_the_full_table() {
    let mut epd = quiet_driver(None);
    let mut bus = Transcript::new();
    epd.set_refresh(&mut bus, RefreshLut::Quick);
    let mut back = Transcript::new();
    epd.set_refresh(&mut back, RefreshLut::Full);
    assert_eq!(back.ops, frame(0x32, &LUT_FULL_UPDATE));
    assert_eq!(epd.refresh(), RefreshLut::Full);
}

#[test]
fn set_lut_loads_the_named_table() {
    let mut epd = quiet_driver(None);
    let mut bus = Transcript::new();
    epd.set_lut(&mut bus, Some(RefreshLut::Quick));
    assert_eq!(bus.ops, frame(0x32, &LUT_PARTIAL_UPDATE));
    let mut bus = Transcript::new();
    epd.set_lut(&mut bus, Some(RefreshLut::Full));
    assert_eq!(bus.ops, frame(0x32, &LUT_FULL_UPDATE));
    assert_eq!(epd.refresh(), RefreshLut::Full);
}

#[test]
fn set_lut_defaults_to_the_full_table() {
    let mut epd = quiet_driver(None);
    let mut bus = Transcript::new();
    epd.set_lut(&mut bus, None);
    assert_eq!(bus.ops, frame(0x32, &LUT_FULL_UPDATE));
}

#[test]
fn update_partial_frame_is_refused() {
    let mut epd = quiet_driver(None);
    let mut bus = Transcript::new();
    assert_eq!(
        epd.update_partial_frame(&mut bus, &[0u8; 8], 0, 0, 8, 8),
        Err(Error::Unsupported)
    );
    assert_eq!(
        epd.update_partial_frame(&mut bus, &[], 5, 5, u32::MAX, u32::MAX),
        Err(Error::Unsupported)
    );
    assert_eq!(
        epd.update_partial_frame(&mut bus, &vec![0u8; FRAME_LEN], 0, 0, 122, 250),
        Err(Error::Unsupported)
    );
    assert!(bus.ops.is_empty());
}

#[test]
fn clear_frame_is_refused() {
    let mut epd = quiet_driver(None);
    let mut bus = Transcript::new();
    assert_eq!(epd.clear_frame(&mut bus), Err(Error::Unsupported));
    assert!(bus.ops.is_empty());
}

#[test]
fn set_partial_base_buffer_is_refused() {
    let mut epd = quiet_driver(None);
    let mut bus = Transcript::new();
    assert_eq!(
        epd.set_partial_base_buffer(&mut bus, &vec![0u8; FRAME_LEN]),
        Err(Error::Unsupported)
    );
    assert_eq!(epd.set_partial_base_buffer(&mut bus, &[]), Err(Error::Unsupported));
    assert!(bus.ops.is_empty());
}

#[test]
fn refused_requests_leave_the_driver_as_it_was() {
    let mut epd = quiet_driver(Some(3));
    epd.set_deep_sleep_mode(DeepSleepMode::Normal);
    epd.set_background_color(Color::Black);
    let mut bus = Transcript::new();
    assert!(epd.clear_frame(&mut bus).is_err());
    assert!(epd.update_frame(&mut bus, &[1, 2, 3]).is_err());
    assert_eq!(epd.deep_sleep_mode(), DeepSleepMode::Normal);
    assert_eq!(*epd.background_color(), Color::Black);
    assert_eq!(epd.refresh(), RefreshLut::Full);
    epd.wait_until_idle(&mut bus);
    assert_eq!(bus.ops, idle(3));
}

#[test]
fn background_color_is_only_remembered() {
    let mut epd = quiet_driver(None);
    epd.set_background_color(Color::Black);
    assert_eq!(*epd.background_color(), Color::Black);
    epd.set_background_color(Color::White);
    assert_eq!(*epd.background_color(), Color::White);
}

#[test]
fn width_and_height_are_the_panel_s() {
    let epd = quiet_driver(None);
    assert_eq!(epd.width(), 122);
    assert_eq!(epd.height(), 250);
}

#[test]
fn command_sends_a_bare_opcode() {
    let mut epd = quiet_driver(None);
    let mut bus = Transcript::new();
    epd.command(&mut bus, Command::MasterActivation);
    assert_eq!(bus.ops, opcode(0x20));
}

#[test]
fn cmd_with_data_sends_opcode_and_payload() {
    let mut epd = quiet_driver(None);
    let mut bus = Transcript::new();
    epd.cmd_with_data(&mut bus, Command::DisplayUpdateControl1, &[0x00, 0x80]);
    assert_eq!(bus.ops, frame(0x21, &[0x00, 0x80]));
}

#[test]
fn set_driver_output_encodes_its_argument() {
    let mut epd = quiet_driver(None);
    let mut bus = Transcript::new();
    epd.set_driver_output(
        &mut bus,
        DriverOutput {
            scan_is_linear: true,
            scan_g0_is_first: false,
            scan_dir_incr: true,
            width: 295,
        },
    );
    assert_eq!(bus.ops, frame(0x01, &[0x27, 0x01, 0x05]));
}

#[test]
fn set_data_entry_mode_encodes_its_arguments() {
    let mut epd = quiet_driver(None);
    let mut bus = Transcript::new();
    epd.set_data_entry_mode(&mut bus, DataEntryModeIncr::XIncrYIncr, DataEntryModeDir::YDir);
    assert_eq!(bus.ops, frame(0x11, &[0x07]));
}

#[test]
fn set_border_waveform_encodes_its_argument() {
    let mut epd = quiet_driver(None);
    let mut bus = Transcript::new();
    epd.set_border_waveform(
        &mut bus,
        BorderWaveForm {
            vbd: BorderWaveFormVbd::FixLevel,
            fix_level: BorderWaveFormFixLevel::Vsl,
            gs_trans: BorderWaveFormGs::Lut2,
        },
    );
    assert_eq!(bus.ops, frame(0x3C, &[0x62]));
}

#[test]
fn set_display_update_control_2_encodes_its_argument() {
    let mut epd = quiet_driver(None);
    let mut bus = Transcript::new();
    epd.set_display_update_control_2(&mut bus, DisplayUpdateControl2::new().display());
    assert_eq!(bus.ops, frame(0x22, &[0x04]));
}

#[test]
fn set_sleep_mode_encodes_its_argument() {
    let mut epd = quiet_driver(None);
    let mut bus = Transcript::new();
    epd.set_sleep_mode(&mut bus, DeepSleepMode::Mode2);
    assert_eq!(bus.ops, frame(0x10, &[0x11]));
    assert_eq!(epd.deep_sleep_mode(), DeepSleepMode::Mode1);
}

#[test]
fn set_ram_area_of_the_whole_panel() {
    let mut epd = quiet_driver(None);
    let mut bus = Transcript::new();
    epd.set_ram_area(&mut bus, 0, 0, 121, 249);
    let mut expected = frame(0x44, &[0x00, 0x0F]);
    expected.extend(frame(0x45, &[0x00, 0x00, 0xF9, 0x00]));
    assert_eq!(bus.ops, expected);
}

#[test]
fn set_ram_area_encodes_columns_and_rows() {
    let mut epd = quiet_driver(None);
    let mut bus = Transcript::new();
    epd.set_ram_area(&mut bus, 8, 300, 71, 511);
    let mut expected = frame(0x44, &[0x01, 0x08]);
    expected.extend(frame(0x45, &[0x2C, 0x01, 0xFF, 0x01]));
    assert_eq!(bus.ops, expected);
}

#[test]
fn set_ram_address_counters_waits_first() {
    let mut epd = quiet_driver(Some(4));
    let mut bus = Transcript::new();
    epd.set_ram_address_counters(&mut bus, 16, 5);
    let mut expected = idle(4);
    expected.extend(frame(0x4E, &[0x02]));
    expected.extend(frame(0x4F, &[0x05]));
    assert_eq!(bus.ops, expected);
}
