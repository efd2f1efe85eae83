use std::cell::RefCell;
use std::rc::Rc;

use ili9486::hal::{DelayMs, OutputPin};
use ili9486::interface::Interface;
use ili9486::sequencer::InitStep;
use ili9486::{
    BusError, Command, DisplayError, Orientation, PinError, PixelFormat, Words, ILI9486,
};

#[derive(Clone, Debug, PartialEq, Eq)]
enum Seen {
    ChipSelect(bool),
    Reset(bool),
    Delay(u32),
    Command(u8),
    Data(Vec<u8>),
}

/// What the fakes share: the calls that succeeded, in order, and the number
/// of the fallible call that is to fail, if any.
struct Board {
    seen: Vec<Seen>,
    calls: usize,
    fail_at: Option<usize>,
}

type Shared = Rc<RefCell<Board>>;

fn board(fail_at: Option<usize>) -> Shared {
    Rc::new(RefCell::new(Board { seen: Vec::new(), calls: 0, fail_at }))
}

fn attempt(board: &Shared, seen: Seen) -> bool {
    let mut board = board.borrow_mut();
    let call = board.calls;
    board.calls += 1;
    if board.fail_at == Some(call) {
        false
    } else {
        board.seen.push(seen);
        true
    }
}

fn seen(board: &Shared) -> Vec<Seen> {
    board.borrow().seen.clone()
}

fn forget(board: &Shared, fail_at: Option<usize>) {
    let mut board = board.borrow_mut();
    board.seen.clear();
    board.calls = 0;
    board.fail_at = fail_at;
}

struct ChipSelectPin(Shared);

impl OutputPin for ChipSelectPin {
    fn set_high(&mut self) -> Result<(), PinError> {
        if attempt(&self.0, Seen::ChipSelect(true)) { Ok(()) } else { Err(PinError) }
    }

    fn set_low(&mut self) -> Result<(), PinError> {
        if attempt(&self.0, Seen::ChipSelect(false)) { Ok(()) } else { Err(PinError) }
    }
}

struct ResetPin(Shared);

impl OutputPin for ResetPin {
    fn set_high(&mut self) -> Result<(), PinError> {
        if attempt(&self.0, Seen::Reset(true)) { Ok(()) } else { Err(PinError) }
    }

    fn set_low(&mut self) -> Result<(), PinError> {
        if attempt(&self.0, Seen::Reset(false)) { Ok(()) } else { Err(PinError) }
    }
}

struct Timer(Shared);

impl DelayMs for Timer {
    fn delay_ms(&mut self, ms: u32) {
        self.0.borrow_mut().seen.push(Seen::Delay(ms));
    }
}

struct Bus(Shared);

impl Interface for Bus {
    fn write_command(&mut self, opcode: u8) -> Result<(), BusError> {
        if attempt(&self.0, Seen::Command(opcode)) { Ok(()) } else { Err(BusError) }
    }

    fn write_data(&mut self, bytes: &[u8]) -> Result<(), BusError> {
        if attempt(&self.0, Seen::Data(bytes.to_vec())) { Ok(()) } else { Err(BusError) }
    }

    fn write_data_16be(&mut self, words: &mut Words<'_>) -> Result<(), BusError> {
        let mut bytes = Vec::new();
        while let Some(word) = words.next() {
            bytes.push((word >> 8) as u8);
            bytes.push((word & 0xff) as u8);
        }
        if attempt(&self.0, Seen::Data(bytes)) { Ok(()) } else { Err(BusError) }
    }

    fn read_status(&mut self) -> u8 {
        0
    }

    fn read_data(&mut self) -> u8 {
        0
    }
}

type Driver = ILI9486<ChipSelectPin, ResetPin, Bus>;

fn make(board: &Shared) -> Result<Driver, DisplayError> {
    ILI9486::new(Bus(board.clone()), ChipSelectPin(board.clone()), ResetPin(board.clone()))
}

/// A driver on a board that has forgotten how the driver was made.
fn driver(board: &Shared) -> Driver {
    match make(board) {
        Ok(driver) => {
            forget(board, None);
            driver
        }
        Err(e) => panic!("{:?}", e),
    }
}

fn init_record() -> Vec<Seen> {
    vec![
        Seen::ChipSelect(true),
        Seen::Reset(false),
        Seen::Delay(2),
        Seen::Reset(true),
        Seen::Delay(200),
        Seen::ChipSelect(false),
        Seen::Command(0x01),
        Seen::Data(vec![]),
        Seen::Delay(120),
        Seen::Command(0x11),
        Seen::Data(vec![]),
        Seen::Delay(120),
        Seen::Command(0x20),
        Seen::Data(vec![]),
        Seen::Command(0x36),
        Seen::Data(vec![0x48]),
        Seen::Command(0x20),
        Seen::Data(vec![0x02]),
        Seen::Command(0x29),
        Seen::Data(vec![]),
        Seen::Delay(150),
    ]
}

#[test]
fn new_releases_chip_select_and_reset() {
    let board = board(None);
    let driver = make(&board);
    assert!(driver.is_ok());
    assert_eq!(seen(&board), vec![Seen::ChipSelect(true), Seen::Reset(true)]);
}

#[test]
fn new_starts_upright() {
    let board = board(None);
    let driver = driver(&board);
    assert_eq!(driver.width(), 320);
    assert_eq!(driver.height(), 480);
    assert_eq!(driver.orientation(), Orientation::Portrait);
    assert_eq!(driver.pixel_format(), PixelFormat::Rgb666);
}

#[test]
fn new_reports_a_chip_select_fault() {
    let board = board(Some(0));
    match make(&board) {
        Ok(_) => panic!("the chip-select line failed"),
        Err(e) => assert_eq!(e, DisplayError::ChipSelect),
    }
    assert_eq!(seen(&board), vec![]);
}

#[test]
fn new_reports_a_reset_fault() {
    let board = board(Some(1));
    match make(&board) {
        Ok(_) => panic!("the reset line failed"),
        Err(e) => assert_eq!(e, DisplayError::Reset),
    }
    assert_eq!(seen(&board), vec![Seen::ChipSelect(true)]);
}

#[test]
fn enable_and_disable_drive_chip_select() {
    let board = board(None);
    let mut driver = driver(&board);
    assert_eq!(driver.enable(), Ok(()));
    assert_eq!(driver.disable(), Ok(()));
    assert_eq!(seen(&board), vec![Seen::ChipSelect(false), Seen::ChipSelect(true)]);
}

#[test]
fn enable_reports_a_chip_select_fault() {
    let board = board(None);
    let mut driver = driver(&board);
    forget(&board, Some(0));
    assert_eq!(driver.enable(), Err(DisplayError::ChipSelect));
    assert_eq!(seen(&board), vec![]);
}

#[test]
fn reset_line_goes_low_then_high() {
    let board = board(None);
    let mut driver = driver(&board);
    assert_eq!(driver.assert_reset(), Ok(()));
    assert_eq!(driver.deassert_reset(), Ok(()));
    assert_eq!(seen(&board), vec![Seen::Reset(false), Seen::Reset(true)]);
}

#[test]
fn assert_reset_reports_a_reset_fault() {
    let board = board(None);
    let mut driver = driver(&board);
    forget(&board, Some(0));
    assert_eq!(driver.assert_reset(), Err(DisplayError::Reset));
    assert_eq!(seen(&board), vec![]);
}

#[test]
fn send_command_sends_the_opcode() {
    let board = board(None);
    let mut driver = driver(&board);
    assert_eq!(driver.send_command(Command::DisplayOn), Ok(()));
    assert_eq!(seen(&board), vec![Seen::Command(0x29)]);
}

#[test]
fn send_data_sends_the_bytes() {
    let board = board(None);
    let mut driver = driver(&board);
    assert_eq!(driver.send_data(&[1, 2, 3]), Ok(()));
    assert_eq!(seen(&board), vec![Seen::Data(vec![1, 2, 3])]);
}

#[test]
fn send_data_reports_a_bus_fault() {
    let board = board(None);
    let mut driver = driver(&board);
    forget(&board, Some(0));
    assert_eq!(driver.send_data(&[1, 2, 3]), Err(DisplayError::Bus));
    assert_eq!(seen(&board), vec![]);
}

#[test]
fn set_window_sends_columns_then_rows() {
    let board = board(None);
    let mut driver = driver(&board);
    assert_eq!(driver.set_window(1, 2, 0x0103, 0x01df), Ok(()));
    assert_eq!(
        seen(&board),
        vec![
            Seen::Command(0x2a),
            Seen::Data(vec![0x00, 0x01, 0x01, 0x03]),
            Seen::Command(0x2b),
            Seen::Data(vec![0x00, 0x02, 0x01, 0xdf]),
        ]
    );
}

#[test]
fn set_window_takes_any_coordinates() {
    let board = board(None);
    let mut driver = driver(&board);
    assert_eq!(driver.set_window(0xffff, 0, 0, 0xabcd), Ok(()));
    assert_eq!(
        seen(&board),
        vec![
            Seen::Command(0x2a),
            Seen::Data(vec![0xff, 0xff, 0x00, 0x00]),
            Seen::Command(0x2b),
            Seen::Data(vec![0x00, 0x00, 0xab, 0xcd]),
        ]
    );
}

#[test]
fn set_window_stops_at_the_first_fault() {
    for fail_at in 0..4 {
        let board = board(None);
        let mut driver = driver(&board);
        forget(&board, Some(fail_at));
        assert_eq!(driver.set_window(1, 2, 3, 4), Err(DisplayError::Bus));
        let whole = vec![
            Seen::Command(0x2a),
            Seen::Data(vec![0, 1, 0, 3]),
            Seen::Command(0x2b),
            Seen::Data(vec![0, 2, 0, 4]),
        ];
        assert_eq!(seen(&board), whole[..fail_at].to_vec());
    }
}

#[test]
fn write_pixels_sends_memory_write_then_the_pixels() {
    let board = board(None);
    let mut driver = driver(&board);
    assert_eq!(driver.write_pixels(&[0x1234, 0xf800, 0x001f]), Ok(()));
    assert_eq!(
        seen(&board),
        vec![Seen::Command(0x2c), Seen::Data(vec![0x12, 0x34, 0xf8, 0x00, 0x00, 0x1f])]
    );
}

#[test]
fn write_pixels_with_no_pixels_still_opens_the_burst() {
    let board = board(None);
    let mut driver = driver(&board);
    assert_eq!(driver.write_pixels(&[]), Ok(()));
    assert_eq!(seen(&board), vec![Seen::Command(0x2c), Seen::Data(vec![])]);
}

#[test]
fn set_pixel_format_sends_0x55_for_rgb565() {
    let board = board(None);
    let mut driver = driver(&board);
    assert_eq!(driver.set_pixel_format(PixelFormat::Rgb565), Ok(()));
    assert_eq!(seen(&board), vec![Seen::Command(0x3a), Seen::Data(vec![0x55])]);
    assert_eq!(driver.pixel_format(), PixelFormat::Rgb565);
}

#[test]
fn set_pixel_format_sends_0x66_for_rgb666() {
    let board = board(None);
    let mut driver = driver(&board);
    assert_eq!(driver.set_pixel_format(PixelFormat::Rgb666), Ok(()));
    assert_eq!(seen(&board), vec![Seen::Command(0x3a), Seen::Data(vec![0x66])]);
    assert_eq!(driver.pixel_format(), PixelFormat::Rgb666);
}

#[test]
fn set_pixel_format_keeps_the_old_format_on_a_fault() {
    let board = board(None);
    let mut driver = driver(&board);
    forget(&board, Some(1));
    assert_eq!(driver.set_pixel_format(PixelFormat::Rgb565), Err(DisplayError::Bus));
    assert_eq!(seen(&board), vec![Seen::Command(0x3a)]);
    assert_eq!(driver.pixel_format(), PixelFormat::Rgb666);
}

#[test]
fn set_orientation_sends_the_parameter_of_each_orientation() {
    let cases = [
        (Orientation::Portrait, 0x40),
        (Orientation::PortraitUpsideDown, 0x90),
        (Orientation::Landscape, 0x20),
        (Orientation::LandscapeUpsideDown, 0xf4),
    ];
    for (orientation, parameter) in cases {
        let board = board(None);
        let mut driver = driver(&board);
        assert_eq!(driver.set_orientation(orientation), Ok(()));
        assert_eq!(seen(&board), vec![Seen::Command(0x36), Seen::Data(vec![parameter])]);
        assert_eq!(driver.orientation(), orientation);
    }
}

#[test]
fn set_orientation_exchanges_width_and_height_when_lying_down() {
    let cases = [
        (Orientation::Portrait, 320, 480),
        (Orientation::PortraitUpsideDown, 320, 480),
        (Orientation::Landscape, 480, 320),
        (Orientation::LandscapeUpsideDown, 480, 320),
    ];
    let board = board(None);
    let mut driver = driver(&board);
    for (orientation, width, height) in cases {
        assert_eq!(driver.set_orientation(orientation), Ok(()));
        assert_eq!(driver.width(), width);
        assert_eq!(driver.height(), height);
        assert_eq!(driver.width() as u32 * driver.height() as u32, 153_600);
    }
    assert_eq!(driver.set_orientation(Orientation::Portrait), Ok(()));
    assert_eq!((driver.width(), driver.height()), (320, 480));
}

#[test]
fn set_orientation_turns_the_driver_even_on_a_fault() {
    let board = board(None);
    let mut driver = driver(&board);
    forget(&board, Some(0));
    assert_eq!(driver.set_orientation(Orientation::Landscape), Err(DisplayError::Bus));
    assert_eq!(seen(&board), vec![]);
    assert_eq!(driver.orientation(), Orientation::Landscape);
    assert_eq!((driver.width(), driver.height()), (480, 320));
}

#[test]
fn set_brightness_sends_the_level() {
    let board = board(None);
    let mut driver = driver(&board);
    assert_eq!(driver.set_brightness(0), Ok(()));
    assert_eq!(driver.set_brightness(0xff), Ok(()));
    assert_eq!(
        seen(&board),
        vec![
            Seen::Command(0x51),
            Seen::Data(vec![0x00]),
            Seen::Command(0x51),
            Seen::Data(vec![0xff]),
        ]
    );
}

fn screen_of(color: u16) -> Vec<u8> {
    let mut bytes = Vec::new();
    for _ in 0..153_600 {
        bytes.push((color >> 8) as u8);
        bytes.push((color & 0xff) as u8);
    }
    bytes
}

#[test]
fn fill_paints_every_pixel_of_the_upright_screen() {
    let board = board(None);
    let mut driver = driver(&board);
    assert_eq!(driver.fill(0x1234), Ok(()));
    let seen = seen(&board);
    assert_eq!(seen.len(), 7);
    assert_eq!(seen[0], Seen::Command(0x2a));
    assert_eq!(seen[1], Seen::Data(vec![0x00, 0x00, 0x01, 0x3f]));
    assert_eq!(seen[2], Seen::Command(0x2b));
    assert_eq!(seen[3], Seen::Data(vec![0x00, 0x00, 0x01, 0xdf]));
    assert_eq!(seen[4], Seen::Command(0x2c));
    assert_eq!(seen[5], Seen::Data(screen_of(0x1234)));
    assert_eq!(seen[6], Seen::Command(0x00));
    match &seen[5] {
        Seen::Data(bytes) => assert_eq!(bytes.len(), 307_200),
        _ => unreachable!(),
    }
}

#[test]
fn fill_paints_every_pixel_of_the_screen_lying_down() {
    let board = board(None);
    let mut driver = driver(&board);
    assert_eq!(driver.set_orientation(Orientation::Landscape), Ok(()));
    forget(&board, None);
    assert_eq!(driver.fill(0xf81f), Ok(()));
    let seen = seen(&board);
    assert_eq!(seen.len(), 7);
    assert_eq!(seen[0], Seen::Command(0x2a));
    assert_eq!(seen[1], Seen::Data(vec![0x00, 0x00, 0x01, 0xdf]));
    assert_eq!(seen[2], Seen::Command(0x2b));
    assert_eq!(seen[3], Seen::Data(vec![0x00, 0x00, 0x01, 0x3f]));
    assert_eq!(seen[4], Seen::Command(0x2c));
    assert_eq!(seen[5], Seen::Data(screen_of(0xf81f)));
    assert_eq!(seen[6], Seen::Command(0x00));
}

#[test]
fn fill_stops_at_the_first_fault() {
    for fail_at in 0..7 {
        let board = board(None);
        let mut driver = driver(&board);
        forget(&board, Some(fail_at));
        assert_eq!(driver.fill(0), Err(DisplayError::Bus));
        assert_eq!(seen(&board).len(), fail_at);
    }
}

#[test]
fn init_resets_then_runs_the_table() {
    let board = board(None);
    let mut driver = driver(&board);
    let mut timer = Timer(board.clone());
    assert_eq!(driver.init(&mut timer), Ok(()));
    assert_eq!(seen(&board), init_record());
    assert_eq!((driver.width(), driver.height()), (320, 480));
}

#[test]
fn init_pauses_after_soft_reset_sleep_out_and_display_on() {
    let board = board(None);
    let mut driver = driver(&board);
    let mut timer = Timer(board.clone());
    assert_eq!(driver.init(&mut timer), Ok(()));
    let seen = seen(&board);
    let after = |opcode: u8| {
        let at = seen.iter().position(|s| *s == Seen::Command(opcode));
        match at {
            Some(at) => seen[at + 2].clone(),
            None => panic!("{:#04x} was not sent", opcode),
        }
    };
    assert_eq!(after(0x01), Seen::Delay(120));
    assert_eq!(after(0x11), Seen::Delay(120));
    assert_eq!(after(0x29), Seen::Delay(150));
    assert_eq!(seen.last(), Some(&Seen::Delay(150)));
    let pauses: Vec<u32> = seen
        .iter()
        .filter_map(|s| match s {
            Seen::Delay(ms) => Some(*ms),
            _ => None,
        })
        .collect();
    assert_eq!(pauses, vec![2, 200, 120, 120, 150]);
}

#[test]
fn init_reports_the_line_or_transfer_that_failed() {
    // The fallible steps of the bring-up, in order; the pauses are not among
    // them.
    let faults = [
        DisplayError::ChipSelect,
        DisplayError::Reset,
        DisplayError::Reset,
        DisplayError::ChipSelect,
        DisplayError::Bus,
        DisplayError::Bus,
        DisplayError::Bus,
        DisplayError::Bus,
        DisplayError::Bus,
        DisplayError::Bus,
        DisplayError::Bus,
        DisplayError::Bus,
        DisplayError::Bus,
        DisplayError::Bus,
        DisplayError::Bus,
        DisplayError::Bus,
    ];
    let whole = init_record();
    for (fail_at, fault) in faults.iter().enumerate() {
        let board = board(None);
        let mut driver = driver(&board);
        forget(&board, Some(fail_at));
        let mut timer = Timer(board.clone());
        assert_eq!(driver.init(&mut timer), Err(*fault));
        let seen = seen(&board);
        assert!(seen.len() < whole.len());
        assert_eq!(seen, whole[..seen.len()].to_vec());
        let fallible = seen.iter().filter(|s| !matches!(s, Seen::Delay(_))).count();
        assert_eq!(fallible, fail_at);
    }
}

#[test]
fn execute_sends_rows_and_waits_in_order() {
    let board = board(None);
    let mut driver = driver(&board);
    let mut timer = Timer(board.clone());
    let table = [
        InitStep::Send { opcode: 0x01, parameters: &[] },
        InitStep::Delay { ms: 150 },
        InitStep::Send { opcode: 0xc5, parameters: &[0x00, 0x48, 0x00, 0x48] },
        InitStep::Delay { ms: 0 },
        InitStep::Delay { ms: 70_000 },
        InitStep::Send { opcode: 0x29, parameters: &[] },
    ];
    assert_eq!(driver.execute(&table, &mut timer), Ok(()));
    assert_eq!(
        seen(&board),
        vec![
            Seen::Command(0x01),
            Seen::Data(vec![]),
            Seen::Delay(150),
            Seen::Command(0xc5),
            Seen::Data(vec![0x00, 0x48, 0x00, 0x48]),
            Seen::Delay(0),
            Seen::Delay(70_000),
            Seen::Command(0x29),
            Seen::Data(vec![]),
        ]
    );
}

#[test]
fn execute_of_an_empty_table_does_nothing() {
    let board = board(None);
    let mut driver = driver(&board);
    let mut timer = Timer(board.clone());
    assert_eq!(driver.execute(&[], &mut timer), Ok(()));
    assert_eq!(seen(&board), vec![]);
}

#[test]
fn execute_stops_at_the_first_fault() {
    let board = board(None);
    let mut driver = driver(&board);
    let mut timer = Timer(board.clone());
    let table = [
        InitStep::Send { opcode: 0x01, parameters: &[] },
        InitStep::Delay { ms: 150 },
        InitStep::Send { opcode: 0x11, parameters: &[7] },
        InitStep::Delay { ms: 5 },
    ];
    forget(&board, Some(3));
    assert_eq!(driver.execute(&table, &mut timer), Err(DisplayError::Bus));
    assert_eq!(
        seen(&board),
        vec![Seen::Command(0x01), Seen::Data(vec![]), Seen::Delay(150), Seen::Command(0x11)]
    );
}
