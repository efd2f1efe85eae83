use std::cell::RefCell;
use std::rc::Rc;

use ili9486::hal::OutputPin;
use ili9486::interface::parallel::Parallel8Bit;
use ili9486::interface::Interface;
use ili9486::{BusError, DisplayError, PinError, Words, ILI9486};

#[derive(Clone, Copy, Debug, PartialEq, Eq)]
enum Wire {
    Write,
    Read,
    DataCommand,
    Data(u8),
    ChipSelect,
    Reset,
}

struct Board {
    driven: Vec<(Wire, bool)>,
    calls: usize,
    fail_at: Option<usize>,
}

type Shared = Rc<RefCell<Board>>;

fn board(fail_at: Option<usize>) -> Shared {
    Rc::new(RefCell::new(Board { driven: Vec::new(), calls: 0, fail_at }))
}

fn driven(board: &Shared) -> Vec<(Wire, bool)> {
    board.borrow().driven.clone()
}

fn forget(board: &Shared, fail_at: Option<usize>) {
    let mut board = board.borrow_mut();
    board.driven.clear();
    board.calls = 0;
    board.fail_at = fail_at;
}

struct Pin {
    wire: Wire,
    board: Shared,
}

impl Pin {
    fn drive(&mut self, high: bool) -> Result<(), PinError> {
        let mut board = self.board.borrow_mut();
        let call = board.calls;
        board.calls += 1;
        if board.fail_at == Some(call) {
            Err(PinError)
        } else {
            board.driven.push((self.wire, high));
            Ok(())
        }
    }
}

impl OutputPin for Pin {
    fn set_high(&mut self) -> Result<(), PinError> {
        self.drive(true)
    }

    fn set_low(&mut self) -> Result<(), PinError> {
        self.drive(false)
    }
}

fn pin(board: &Shared, wire: Wire) -> Pin {
    Pin { wire, board: board.clone() }
}

type Bus = Parallel8Bit<Pin, Pin, Pin, Pin>;

fn make(board: &Shared) -> Result<Bus, BusError> {
    Parallel8Bit::new(
        pin(board, Wire::Write),
        pin(board, Wire::Read),
        pin(board, Wire::DataCommand),
        [
            pin(board, Wire::Data(0)),
            pin(board, Wire::Data(1)),
            pin(board, Wire::Data(2)),
            pin(board, Wire::Data(3)),
            pin(board, Wire::Data(4)),
            pin(board, Wire::Data(5)),
            pin(board, Wire::Data(6)),
            pin(board, Wire::Data(7)),
        ],
    )
}

/// A bus on a board that has forgotten how the bus was made.
fn bus(board: &Shared) -> Bus {
    match make(board) {
        Ok(bus) => {
            forget(board, None);
            bus
        }
        Err(e) => panic!("{:?}", e),
    }
}

fn levels(byte: u8) -> Vec<(Wire, bool)> {
    (0..8).map(|bit| (Wire::Data(bit), byte & (1 << bit) != 0)).collect()
}

fn byte_frame(byte: u8) -> Vec<(Wire, bool)> {
    let mut frame = levels(byte);
    frame.push((Wire::Write, false));
    frame.push((Wire::Write, true));
    frame
}

fn command_frame(opcode: u8) -> Vec<(Wire, bool)> {
    let mut frame = vec![(Wire::DataCommand, false)];
    frame.extend(byte_frame(opcode));
    frame.push((Wire::DataCommand, true));
    frame
}

fn data_frame(bytes: &[u8]) -> Vec<(Wire, bool)> {
    bytes.iter().flat_map(|byte| byte_frame(*byte)).collect()
}

#[test]
fn new_brings_every_line_high() {
    let board = board(None);
    assert!(make(&board).is_ok());
    assert_eq!(
        driven(&board),
        vec![
            (Wire::Write, true),
            (Wire::Read, true),
            (Wire::DataCommand, true),
            (Wire::Data(0), true),
            (Wire::Data(1), true),
            (Wire::Data(2), true),
            (Wire::Data(3), true),
            (Wire::Data(4), true),
            (Wire::Data(5), true),
            (Wire::Data(6), true),
            (Wire::Data(7), true),
        ]
    );
}

#[test]
fn new_fails_when_a_line_fails() {
    for fail_at in 0..11 {
        let board = board(Some(fail_at));
        assert!(make(&board).is_err());
        assert_eq!(driven(&board).len(), fail_at);
    }
}

#[test]
fn write_to_dbus_puts_the_least_significant_bit_on_the_first_line() {
    let board = board(None);
    let mut bus = bus(&board);
    assert_eq!(bus.write_to_dbus(0x2a), Ok(()));
    assert_eq!(
        driven(&board),
        vec![
            (Wire::Data(0), false),
            (Wire::Data(1), true),
            (Wire::Data(2), false),
            (Wire::Data(3), true),
            (Wire::Data(4), false),
            (Wire::Data(5), true),
            (Wire::Data(6), false),
            (Wire::Data(7), false),
        ]
    );
}

#[test]
fn write_to_dbus_drives_all_lines_for_every_byte() {
    for byte in [0x00, 0x01, 0x80, 0x55, 0xaa, 0xff] {
        let board = board(None);
        let mut bus = bus(&board);
        assert_eq!(bus.write_to_dbus(byte), Ok(()));
        assert_eq!(driven(&board), levels(byte));
    }
}

#[test]
fn write_command_frames_the_opcode_with_the_select_line_low() {
    let board = board(None);
    let mut bus = bus(&board);
    assert_eq!(bus.write_command(0x2c), Ok(()));
    assert_eq!(
        driven(&board),
        vec![
            (Wire::DataCommand, false),
            (Wire::Data(0), false),
            (Wire::Data(1), false),
            (Wire::Data(2), true),
            (Wire::Data(3), true),
            (Wire::Data(4), false),
            (Wire::Data(5), true),
            (Wire::Data(6), false),
            (Wire::Data(7), false),
            (Wire::Write, false),
            (Wire::Write, true),
            (Wire::DataCommand, true),
        ]
    );
}

#[test]
fn write_command_stops_at_the_line_that_fails() {
    let whole = command_frame(0x36);
    assert_eq!(whole.len(), 12);
    for fail_at in 0..12 {
        let board = board(None);
        let mut bus = bus(&board);
        forget(&board, Some(fail_at));
        assert_eq!(bus.write_command(0x36), Err(BusError));
        assert_eq!(driven(&board), whole[..fail_at].to_vec());
    }
}

#[test]
fn write_data_strobes_each_byte_and_leaves_the_select_line_alone() {
    let board = board(None);
    let mut bus = bus(&board);
    assert_eq!(bus.write_data(&[0x00, 0x48, 0xff]), Ok(()));
    let driven = driven(&board);
    assert_eq!(driven, data_frame(&[0x00, 0x48, 0xff]));
    assert_eq!(driven.len(), 30);
    assert!(driven.iter().all(|(wire, _)| *wire != Wire::DataCommand && *wire != Wire::Read));
}

#[test]
fn write_data_of_nothing_touches_no_line() {
    let board = board(None);
    let mut bus = bus(&board);
    assert_eq!(bus.write_data(&[]), Ok(()));
    assert_eq!(driven(&board), vec![]);
}

#[test]
fn write_data_stops_at_the_line_that_fails() {
    let whole = data_frame(&[0x12, 0x34]);
    for fail_at in 0..whole.len() {
        let board = board(None);
        let mut bus = bus(&board);
        forget(&board, Some(fail_at));
        assert_eq!(bus.write_data(&[0x12, 0x34]), Err(BusError));
        assert_eq!(driven(&board), whole[..fail_at].to_vec());
    }
}

#[test]
fn write_data_16be_sends_the_high_byte_of_each_word_first() {
    let board = board(None);
    let mut bus = bus(&board);
    let words = [0x1234, 0x00ff];
    let mut run = Words::from_slice(&words);
    assert_eq!(bus.write_data_16be(&mut run), Ok(()));
    assert_eq!(driven(&board), data_frame(&[0x12, 0x34, 0x00, 0xff]));
    assert_eq!(run.next(), None);
}

#[test]
fn write_data_16be_sends_a_repeated_word_as_often_as_asked() {
    let board = board(None);
    let mut bus = bus(&board);
    let mut run = Words::repeat(0xf800, 3);
    assert_eq!(bus.write_data_16be(&mut run), Ok(()));
    assert_eq!(driven(&board), data_frame(&[0xf8, 0x00, 0xf8, 0x00, 0xf8, 0x00]));
}

#[test]
fn write_data_16be_stops_at_the_line_that_fails() {
    let whole = data_frame(&[0xab, 0xcd, 0xab, 0xcd]);
    for fail_at in 0..whole.len() {
        let board = board(None);
        let mut bus = bus(&board);
        forget(&board, Some(fail_at));
        let mut run = Words::repeat(0xabcd, 2);
        assert_eq!(bus.write_data_16be(&mut run), Err(BusError));
        assert_eq!(driven(&board), whole[..fail_at].to_vec());
    }
}

#[test]
fn reads_return_zero_and_touch_no_line() {
    let board = board(None);
    let mut bus = bus(&board);
    assert_eq!(bus.read_status(), 0);
    assert_eq!(bus.read_data(), 0);
    assert_eq!(driven(&board), vec![]);
}

#[test]
fn driver_over_the_parallel_bus_sets_a_window() {
    let board = board(None);
    let bus = bus(&board);
    let made = ILI9486::new(bus, pin(&board, Wire::ChipSelect), pin(&board, Wire::Reset));
    let mut driver = match made {
        Ok(driver) => driver,
        Err(e) => panic!("{:?}", e),
    };
    assert_eq!(driven(&board), vec![(Wire::ChipSelect, true), (Wire::Reset, true)]);
    forget(&board, None);
    assert_eq!(driver.set_window(1, 2, 3, 4), Ok(()));
    let mut expected = command_frame(0x2a);
    expected.extend(data_frame(&[0, 1, 0, 3]));
    expected.extend(command_frame(0x2b));
    expected.extend(data_frame(&[0, 2, 0, 4]));
    assert_eq!(driven(&board), expected);
}

#[test]
fn driver_over_the_parallel_bus_reports_a_line_fault_as_a_bus_fault() {
    let board = board(None);
    let bus = bus(&board);
    let made = ILI9486::new(bus, pin(&board, Wire::ChipSelect), pin(&board, Wire::Reset));
    let mut driver = match made {
        Ok(driver) => driver,
        Err(e) => panic!("{:?}", e),
    };
    forget(&board, Some(5));
    assert_eq!(driver.set_brightness(0x80), Err(DisplayError::Bus));
    assert_eq!(driven(&board), command_frame(0x51)[..5].to_vec());
}
