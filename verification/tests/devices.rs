use remu::bus::offset_in_devices;
use remu::devices::{
    ends, extract_byte, framebuffer_range, insert_byte, join_halfword, join_word, nth_byte, pixel_index,
    serial_range, serial_read, serial_sends, word_base, ByteDevice, Device, DeviceError, HalfwordDevice,
    WordDevice,
};
use remu::error::ExecutionError;
use remu::machine::Machine;
use remu::register::Register;
use std::cell::RefCell;
use std::collections::VecDeque;
use std::ops::RangeInclusive;
use std::rc::Rc;

struct Bytes {
    first: u32,
    cells: Rc<RefCell<Vec<u8>>>,
    log: Rc<RefCell<Vec<u32>>>,
}

impl ByteDevice for Bytes {
    fn read_byte(&self, addr: u32) -> Result<i8, DeviceError> {
        self.log.borrow_mut().push(addr);
        Ok(self.cells.borrow()[(addr - self.first) as usize] as i8)
    }

    fn store_byte(&self, addr: u32, data: u8) -> Result<(), DeviceError> {
        self.log.borrow_mut().push(addr);
        self.cells.borrow_mut()[(addr - self.first) as usize] = data;
        Ok(())
    }

    fn memory_range(&self) -> RangeInclusive<u32> {
        self.first..=self.first + self.cells.borrow().len() as u32 - 1
    }
}

struct Words {
    first: u32,
    cells: Rc<RefCell<Vec<u32>>>,
    log: Rc<RefCell<Vec<u32>>>,
}

impl WordDevice for Words {
    fn read_word(&self, addr: u32) -> Result<i32, DeviceError> {
        self.log.borrow_mut().push(addr);
        Ok(self.cells.borrow()[((addr - self.first) / 4) as usize] as i32)
    }

    fn store_word(&self, addr: u32, data: u32) -> Result<(), DeviceError> {
        self.log.borrow_mut().push(addr);
        self.cells.borrow_mut()[((addr - self.first) / 4) as usize] = data;
        Ok(())
    }

    fn memory_range(&self) -> RangeInclusive<u32> {
        self.first..=self.first + 4 * self.cells.borrow().len() as u32 - 1
    }
}

struct Halves;

impl HalfwordDevice for Halves {
    fn read_halfword(&self, _addr: u32) -> Result<i16, DeviceError> {
        Ok(-2)
    }

    fn store_halfword(&self, _addr: u32, _data: u16) -> Result<(), DeviceError> {
        Err(DeviceError::Failed("read only".to_string()))
    }

    fn memory_range(&self) -> RangeInclusive<u32> {
        0x400..=0x4FF
    }
}

fn byte_device(first: u32, cells: Vec<u8>) -> (Device, Rc<RefCell<Vec<u8>>>, Rc<RefCell<Vec<u32>>>) {
    let cells = Rc::new(RefCell::new(cells));
    let log = Rc::new(RefCell::new(Vec::new()));
    (
        Device::ByteDevice(Box::new(Bytes { first, cells: cells.clone(), log: log.clone() })),
        cells,
        log,
    )
}

fn word_device(
    first: u32,
    cells: Vec<u32>,
) -> (Device, Rc<RefCell<Vec<u32>>>, Rc<RefCell<Vec<u32>>>) {
    let cells = Rc::new(RefCell::new(cells));
    let log = Rc::new(RefCell::new(Vec::new()));
    (
        Device::WordDevice(Box::new(Words { first, cells: cells.clone(), log: log.clone() })),
        cells,
        log,
    )
}

#[test]
fn lanes_of_a_word() {
    assert_eq!(extract_byte(0x1234_5678, 0x100), 0x78);
    assert_eq!(extract_byte(0x1234_5678, 0x101), 0x56);
    assert_eq!(extract_byte(0x1234_5678, 0x102), 0x34);
    assert_eq!(extract_byte(0x1234_5678, 0x103), 0x12);
    assert_eq!(extract_byte(0x1234_56F8, 0x104), 0xF8u8 as i8);
    assert_eq!(insert_byte(0x1234_5678, 0x101, 0xAB), 0x1234_AB78);
    assert_eq!(insert_byte(-1, 0x103, 0), 0x00FF_FFFF);
    assert_eq!(insert_byte(0, 0x100, 0xFF), 0xFF);
    assert_eq!(nth_byte(0x1234_5678, 2), 0x34);
    assert_eq!(join_halfword(0x34, 0x12), 0x1234);
    assert_eq!(join_halfword(-1, 0), 0xFF);
    assert_eq!(join_word(0x78, 0x56, 0x34, 0x12), 0x1234_5678);
    assert_eq!(join_word(-1, 0, 0, -128), 0x8000_00FFu32 as i32);
}

#[test]
fn byte_access_to_a_word_device_uses_the_aligned_word() {
    let (device, cells, log) = word_device(0x100, vec![0x1234_5678, 0]);
    assert_eq!(device.read_byte(0x102).unwrap(), 0x34);
    assert_eq!(*log.borrow(), vec![0x100]);
    device.store_byte(0x105, 0xAB).unwrap();
    assert_eq!(*cells.borrow(), vec![0x1234_5678, 0x0000_AB00]);
    assert_eq!(*log.borrow(), vec![0x100, 0x104, 0x104]);
    device.store_byte(0x102, 0x00).unwrap();
    assert_eq!(cells.borrow()[0], 0x1200_5678);
    assert_eq!(device.read_word(0x100).unwrap(), 0x1200_5678);
    assert!(matches!(device.read_halfword(0x100), Err(DeviceError::Unsupported)));
    assert!(matches!(device.store_halfword(0x100, 1), Err(DeviceError::Unsupported)));
}

#[test]
fn wide_access_to_a_byte_device_goes_byte_by_byte() {
    let (device, cells, log) = byte_device(0x200, vec![0xEF, 0xBE, 0xAD, 0xDE, 0, 0, 0, 0]);
    assert_eq!(device.read_word(0x200).unwrap(), 0xDEAD_BEEFu32 as i32);
    assert_eq!(*log.borrow(), vec![0x200, 0x201, 0x202, 0x203]);
    assert_eq!(device.read_halfword(0x202).unwrap(), 0xDEADu16 as i16);
    log.borrow_mut().clear();
    device.store_word(0x204, 0x0102_0384).unwrap();
    assert_eq!(*log.borrow(), vec![0x204, 0x205, 0x206, 0x207]);
    assert_eq!(cells.borrow()[4..], [0x84, 0x03, 0x02, 0x01]);
    device.store_halfword(0x200, 0xCAFE).unwrap();
    assert_eq!(cells.borrow()[..2], [0xFE, 0xCA]);
    assert_eq!(device.read_byte(0x204).unwrap(), 0x84u8 as i8);
}

#[test]
fn halfword_devices_answer_halfwords_only() {
    let device = Device::HalfwordDevice(Box::new(Halves));
    assert_eq!(device.read_halfword(0x400).unwrap(), -2);
    assert!(matches!(device.store_halfword(0x400, 1), Err(DeviceError::Failed(_))));
    assert!(matches!(device.read_byte(0x400), Err(DeviceError::Unsupported)));
    assert!(matches!(device.store_byte(0x400, 1), Err(DeviceError::Unsupported)));
    assert!(matches!(device.read_word(0x400), Err(DeviceError::Unsupported)));
    assert!(matches!(device.store_word(0x400, 1), Err(DeviceError::Unsupported)));
    assert_eq!(device.memory_range(), 0x400..=0x4FF);
    assert_eq!(device.claim(), (0x400, 0x4FF));
}

#[test]
fn the_bus_routes_the_top_sixteenth_to_the_first_claiming_device() {
    let (first, first_cells, _) = byte_device(0x10, vec![1, 2, 3, 4]);
    let (second, second_cells, _) = byte_device(0x12, vec![9, 9, 9, 9]);
    let (words, word_cells, _) = word_device(0x100, vec![0, 0]);
    let mut machine = Machine::new(
        0,
        Some(0),
        64,
        vec![0; 64].into_boxed_slice(),
        false,
        vec![first, second, words],
    );
    assert_eq!(machine.read_byte(0xF000_0012), Ok(3));
    assert_eq!(machine.read_byte(0xF000_0014), Ok(9));
    assert_eq!(machine.read_word(0xF000_0010), Ok(0x0403_0201));
    machine.store_byte(7, 0xF000_0013).unwrap();
    assert_eq!(*first_cells.borrow(), vec![1, 2, 3, 7]);
    assert_eq!(*second_cells.borrow(), vec![9, 9, 9, 9]);
    machine.store_word(0xAABB_CCDD, 0xF000_0104).unwrap();
    assert_eq!(*word_cells.borrow(), vec![0, 0xAABB_CCDD]);
    assert_eq!(machine.read_halfword(0xF000_0010), Ok(0x0201));
    assert_eq!(machine.read_byte(0xF000_0000), Err(ExecutionError::LoadAccessFault(0xF000_0000)));
    assert_eq!(
        machine.store_halfword(1, 0xF000_0100),
        Err(ExecutionError::DeviceError(DeviceError::Unsupported))
    );
    // the same offsets below the device space are RAM
    assert_eq!(machine.read_byte(0x12), Ok(0));
}

#[test]
fn loads_and_stores_reach_devices() {
    let (bytes, cells, _) = byte_device(0, vec![0x80, 0, 0, 0]);
    // LB A0, 0(T0) ; SB A0, 1(T0) ; LW A1, 0(T0)
    let mut machine = Machine::new(
        0,
        Some(0),
        64,
        vec![0; 64].into_boxed_slice(),
        false,
        vec![bytes],
    );
    machine.store_word(0x0002_8503, 0).unwrap();
    machine.store_word(0x00A2_80A3, 4).unwrap();
    machine.store_word(0x0002_A583, 8).unwrap();
    machine.set_reg(Register::T0, 0xF000_0000);
    machine.step().unwrap();
    assert_eq!(machine.get_reg(Register::A0), 0xFFFF_FF80);
    machine.step().unwrap();
    assert_eq!(*cells.borrow(), vec![0x80, 0x80, 0, 0]);
    machine.step().unwrap();
    assert_eq!(machine.get_reg(Register::A1), 0x8080);
    assert_eq!(machine.pc(), 12);
    assert_eq!(machine.cycle(), 3);
}

#[test]
fn addresses_handed_to_devices() {
    assert_eq!(word_base(0x100), 0x100);
    assert_eq!(word_base(0x101), 0x100);
    assert_eq!(word_base(0x103), 0x100);
    assert_eq!(word_base(0x104), 0x104);
    assert_eq!(word_base(u32::MAX), 0xFFFF_FFFC);
    assert_eq!(offset_in_devices(0xF000_0000), 0);
    assert_eq!(offset_in_devices(0xF000_0104), 0x104);
    assert_eq!(offset_in_devices(u32::MAX), 0x0FFF_FFFF);
}

#[test]
fn a_range_has_two_ends() {
    assert_eq!(ends(&(0x3F8..=0x3FF)), (0x3F8, 0x3FF));
    assert_eq!(ends(&(0..=u32::MAX)), (0, u32::MAX));
    assert_eq!(ends(&(7..=7)), (7, 7));
    assert_eq!(ends(&(9..=3)), (9, 3));
}

#[test]
fn device_ranges() {
    assert_eq!(serial_range(0x3F8), 0x3F8..=0x3FF);
    assert_eq!(serial_range(0xFFFF_FFFE), 0xFFFF_FFFE..=0xFFFF_FFFF);
    assert_eq!(framebuffer_range(0xF00_0000), 0xF00_0000..=0xF00_0000 + 32 * 160 * 144);
    assert_eq!(pixel_index(0x100, 0x100), Some(0));
    assert_eq!(pixel_index(0x100, 0x107), Some(1));
    assert_eq!(pixel_index(0x100, 0x100 + 4 * 160 * 144 - 1), Some(160 * 144 - 1));
    assert_eq!(pixel_index(0x100, 0x100 + 4 * 160 * 144), None);
    assert_eq!(pixel_index(0x100, 0xFF), None);
}

#[test]
fn serial_registers() {
    let mut received: VecDeque<u8> = VecDeque::from(vec![0x41, 0xFF]);
    assert_eq!(serial_read(0x3F8, 0x3FD, &mut received), 0);
    assert_eq!(received.len(), 2);
    assert_eq!(serial_read(0x3F8, 0x3F8, &mut received), 0x41);
    assert_eq!(serial_read(0x3F8, 0x3F8, &mut received), -1);
    assert_eq!(serial_read(0x3F8, 0x3F8, &mut received), 0);
    assert!(serial_sends(0x3F8, 0x3F8));
    assert!(!serial_sends(0x3F8, 0x3F9));
}

#[test]
fn device_error_messages() {
    assert_eq!(DeviceError::Failed("stuck".to_string()).message(), "stuck");
    assert_eq!(
        ExecutionError::DeviceError(DeviceError::Failed("stuck".to_string())).message(),
        "Problem with device: stuck"
    );
}
