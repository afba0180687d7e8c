use std::ops::RangeInclusive;
use vstd::prelude::*;

use crate::bits::{
    i16_of, i32_of, i8_of, signed16, signed32, signed8, u32_of, u8_of, unsigned8, wrap32,
};
use crate::decode::join_bytes;

verus! {

/// Why a device did not answer.
#[derive(Clone, Debug)]
pub enum DeviceError {
    /// The bus has no way to put an access of this width to a device of
    /// this kind.
    Unsupported,
    /// The device itself failed; the text says how.
    Failed(String),
}

/// Why a framebuffer did not answer.
#[derive(Clone, Copy, Debug, PartialEq, Eq, Structural)]
pub enum FramebufferError {
    Poisoned,
}

/// Why a serial port did not answer.
#[derive(Clone, Copy, Debug, PartialEq, Eq, Structural)]
pub enum SerialError {
    ThreadSendError(u8),
    ThreadPoisonError,
}

/// A device that stores bytes. Its methods take `&self`: a device keeps its
/// state behind a lock of its own, and nothing is known of what it answers.
pub trait ByteDevice {
    /// Read a byte from the device
    fn read_byte(&self, addr: u32) -> Result<i8, DeviceError>;

    /// Store a byte in the device
    fn store_byte(&self, addr: u32, data: u8) -> Result<(), DeviceError>;

    /// The memory range associated with a device
    fn memory_range(&self) -> RangeInclusive<u32>;
}

/// A device that stores 16-bit halfwords; see `ByteDevice`.
pub trait HalfwordDevice {
    /// Read a 16-bit halfword from the device
    fn read_halfword(&self, addr: u32) -> Result<i16, DeviceError>;

    /// Store a 16-bit halfword in the device
    fn store_halfword(&self, addr: u32, data: u16) -> Result<(), DeviceError>;

    /// The memory range associated with a device
    fn memory_range(&self) -> RangeInclusive<u32>;
}

/// A device that stores 32-bit words; see `ByteDevice`.
pub trait WordDevice {
    /// Read a 32-bit word from the device
    fn read_word(&self, addr: u32) -> Result<i32, DeviceError>;

    /// Store a 32-bit word in the device
    fn store_word(&self, addr: u32, data: u32) -> Result<(), DeviceError>;

    /// The memory range associated with a device
    fn memory_range(&self) -> RangeInclusive<u32>;
}

/// A device on the bus, by the width that it stores.
pub enum Device {
    ByteDevice(Box<dyn ByteDevice>),
    HalfwordDevice(Box<dyn HalfwordDevice>),
    WordDevice(Box<dyn WordDevice>),
}

/// The byte of `word` that the address `addr` names, little-endian: byte
/// `addr mod 4`.
pub open spec fn byte_lane(word: u32, addr: u32) -> u8 {
    ((word >> ((addr & 3) * 8)) & 0xff) as u8
}

/// `word` with the byte that `addr` names replaced by `data`.
pub open spec fn with_byte_lane(word: u32, addr: u32, data: u8) -> u32 {
    (word & !(0xffu32 << ((addr & 3) * 8))) | ((data as u32) << ((addr & 3) * 8))
}

/// The address of the word that holds the byte at `addr`.
pub open spec fn word_address(addr: u32) -> u32 {
    addr & !3u32
}

/// Byte `i` of a word, counted from the lowest.
pub open spec fn byte_of(word: u32, i: u32) -> u8 {
    #[verifier::truncate]
    (((word >> (8 * i)) & 0xff) as u8)
}

/// A replaced byte reads back, and the three other bytes of the word stay.
pub proof fn lane_laws(word: u32, addr: u32, other: u32, data: u8)
    by (bit_vector)
    ensures
        byte_lane(with_byte_lane(word, addr, data), addr) == data,
        other & 3 != addr & 3 ==> byte_lane(with_byte_lane(word, addr, data), other) == byte_lane(
            word,
            other,
        ),
        byte_lane(word, addr) == byte_of(word, addr & 3),
        addr & 3 < 4,
        word_address(addr) + (addr & 3) == addr,
{
}

/// The address of the word that holds the byte at `addr`: `addr` with its
/// two low bits cleared, the next multiple of four at or below it.
pub fn word_base(addr: u32) -> (base: u32)
    ensures
        base == word_address(addr),
        base == addr - addr % 4,
{
    assert(addr & !3u32 == addr - addr % 4) by (bit_vector);
    addr & !3u32
}

/// The bit at which the byte that `addr` names starts in its word.
pub fn lane_shift(addr: u32) -> (shift: u32)
    ensures
        shift == (addr & 3) * 8,
        shift <= 24,
{
    let lane: u32 = addr & 3;
    assert(lane < 4) by (bit_vector)
        requires
            lane == addr & 3,
    ;
    lane * 8
}

/// Picks out of a device's word the byte at `addr`.
pub fn extract_byte(word: i32, addr: u32) -> (b: i8)
    ensures
        signed8(byte_lane(wrap32(word as int), addr)) == b,
{
    let shift = lane_shift(addr);
    i8_of(((u32_of(word) >> shift) & 0xff) as u8)
}

/// Puts `data` into a device's word as the byte at `addr`: the eight bits of
/// that byte are cleared, then `data` is set in their place.
pub fn insert_byte(word: i32, addr: u32, data: u8) -> (w: u32)
    ensures
        w == with_byte_lane(wrap32(word as int), addr, data),
{
    let shift = lane_shift(addr);
    (u32_of(word) & !(0xffu32 << shift)) | ((data as u32) << shift)
}

/// Byte `i` of `word`, for storing a word or halfword byte by byte.
pub fn nth_byte(word: u32, i: u32) -> (b: u8)
    requires
        i < 4,
    ensures
        b == byte_of(word, i),
{
    #[verifier::truncate]
    (((word >> (8 * i)) & 0xff) as u8)
}

/// Two bytes read in ascending order, joined little-endian.
pub fn join_halfword(b0: i8, b1: i8) -> (h: i16)
    ensures
        h == signed16((unsigned8(b0 as int) as int + 0x100 * unsigned8(b1 as int) as int) as u16),
{
    let joined = join_bytes(u8_of(b0), u8_of(b1), 0, 0);
    i16_of(joined as u16)
}

/// Four bytes read in ascending order, joined little-endian.
pub fn join_word(b0: i8, b1: i8, b2: i8, b3: i8) -> (w: i32)
    ensures
        w == signed32(
            (unsigned8(b0 as int) as int + 0x100 * unsigned8(b1 as int) as int + 0x1_0000
                * unsigned8(b2 as int) as int + 0x100_0000 * unsigned8(b3 as int) as int) as u32,
        ),
{
    i32_of(join_bytes(u8_of(b0), u8_of(b1), u8_of(b2), u8_of(b3)))
}

impl Device {
    /// Read a byte from the device. A word device is asked for the word at
    /// the aligned address and the byte is picked out of it.
    pub fn read_byte(&self, addr: u32) -> (r: Result<i8, DeviceError>)
        ensures
            self is HalfwordDevice ==> r matches Err(DeviceError::Unsupported),
    {
        match self {
            Device::ByteDevice(dev) => dev.read_byte(addr),
            Device::WordDevice(dev) => {
                match dev.read_word(word_base(addr)) {
                    Ok(word) => Ok(extract_byte(word, addr)),
                    Err(e) => Err(e),
                }
            },
            Device::HalfwordDevice(_) => Err(DeviceError::Unsupported),
        }
    }

    /// Store a byte in the device. On a word device the word at the aligned
    /// address is read, the byte replaced in it, and the word stored.
    pub fn store_byte(&self, addr: u32, data: u8) -> (r: Result<(), DeviceError>)
        ensures
            self is HalfwordDevice ==> r matches Err(DeviceError::Unsupported),
    {
        match self {
            Device::ByteDevice(dev) => dev.store_byte(addr, data),
            Device::WordDevice(dev) => {
                let base = word_base(addr);
                match dev.read_word(base) {
                    Ok(word) => dev.store_word(base, insert_byte(word, addr, data)),
                    Err(e) => Err(e),
                }
            },
            Device::HalfwordDevice(_) => Err(DeviceError::Unsupported),
        }
    }

    /// Read a 16-bit halfword from the device. A byte device is read twice,
    /// at ascending addresses.
    pub fn read_halfword(&self, addr: u32) -> (r: Result<i16, DeviceError>)
        ensures
            self is WordDevice ==> r matches Err(DeviceError::Unsupported),
    {
        match self {
            Device::ByteDevice(dev) => {
                let b0 = match dev.read_byte(addr) {
                    Ok(b) => b,
                    Err(e) => { return Err(e); },
                };
                let b1 = match dev.read_byte(addr.wrapping_add(1)) {
                    Ok(b) => b,
                    Err(e) => { return Err(e); },
                };
                Ok(join_halfword(b0, b1))
            },
            Device::HalfwordDevice(dev) => dev.read_halfword(addr),
            Device::WordDevice(_) => Err(DeviceError::Unsupported),
        }
    }

    /// Store a 16-bit halfword in the device. A byte device is written
    /// twice, low byte first.
    pub fn store_halfword(&self, addr: u32, data: u16) -> (r: Result<(), DeviceError>)
        ensures
            self is WordDevice ==> r matches Err(DeviceError::Unsupported),
    {
        match self {
            Device::ByteDevice(dev) => {
                match dev.store_byte(addr, nth_byte(data as u32, 0)) {
                    Ok(()) => {},
                    Err(e) => { return Err(e); },
                }
                dev.store_byte(addr.wrapping_add(1), nth_byte(data as u32, 1))
            },
            Device::HalfwordDevice(dev) => dev.store_halfword(addr, data),
            Device::WordDevice(_) => Err(DeviceError::Unsupported),
        }
    }

    /// Read a 32-bit word from the device. A byte device is read four times,
    /// at ascending addresses.
    pub fn read_word(&self, addr: u32) -> (r: Result<i32, DeviceError>)
        ensures
            self is HalfwordDevice ==> r matches Err(DeviceError::Unsupported),
    {
        match self {
            Device::ByteDevice(dev) => {
                let b0 = match dev.read_byte(addr) {
                    Ok(b) => b,
                    Err(e) => { return Err(e); },
                };
                let b1 = match dev.read_byte(addr.wrapping_add(1)) {
                    Ok(b) => b,
                    Err(e) => { return Err(e); },
                };
                let b2 = match dev.read_byte(addr.wrapping_add(2)) {
                    Ok(b) => b,
                    Err(e) => { return Err(e); },
                };
                let b3 = match dev.read_byte(addr.wrapping_add(3)) {
                    Ok(b) => b,
                    Err(e) => { return Err(e); },
                };
                Ok(join_word(b0, b1, b2, b3))
            },
            Device::WordDevice(dev) => dev.read_word(addr),
            Device::HalfwordDevice(_) => Err(DeviceError::Unsupported),
        }
    }

    /// Store a 32-bit word in the device. A byte device is written four
    /// times, lowest byte first.
    pub fn store_word(&self, addr: u32, data: u32) -> (r: Result<(), DeviceError>)
        ensures
            self is HalfwordDevice ==> r matches Err(DeviceError::Unsupported),
    {
        match self {
            Device::ByteDevice(dev) => {
                match dev.store_byte(addr, nth_byte(data, 0)) {
                    Ok(()) => {},
                    Err(e) => { return Err(e); },
                }
                match dev.store_byte(addr.wrapping_add(1), nth_byte(data, 1)) {
                    Ok(()) => {},
                    Err(e) => { return Err(e); },
                }
                match dev.store_byte(addr.wrapping_add(2), nth_byte(data, 2)) {
                    Ok(()) => {},
                    Err(e) => { return Err(e); },
                }
                dev.store_byte(addr.wrapping_add(3), nth_byte(data, 3))
            },
            Device::WordDevice(dev) => dev.store_word(addr, data),
            Device::HalfwordDevice(_) => Err(DeviceError::Unsupported),
        }
    }

    /// The memory range associated with a device
    pub fn memory_range(&self) -> RangeInclusive<u32> {
        match self {
            Device::ByteDevice(dev) => dev.memory_range(),
            Device::HalfwordDevice(dev) => dev.memory_range(),
            Device::WordDevice(dev) => dev.memory_range(),
        }
    }

    /// The first and the last address of the range that the device claims.
    pub fn claim(&self) -> (r: (u32, u32)) {
        let range = self.memory_range();
        ends(&range)
    }
}

/// `RangeInclusive::start`: the lower bound of the range.
pub assume_specification<Idx>[ RangeInclusive::<Idx>::start ](r: &RangeInclusive<Idx>) -> (start:
    &Idx)
    ensures
        *start == r@.start,
;

/// `RangeInclusive::end`: the upper bound of the range, which belongs to it.
pub assume_specification<Idx>[ RangeInclusive::<Idx>::end ](r: &RangeInclusive<Idx>) -> (end: &Idx)
    ensures
        *end == r@.end,
;

/// The first and the last address of a range.
pub fn ends(range: &RangeInclusive<u32>) -> (r: (u32, u32))
    ensures
        r.0 == range@.start,
        r.1 == range@.end,
{
    (*range.start(), *range.end())
}

impl DeviceError {
    /// What the error says.
    pub open spec fn message_text(&self) -> Seq<char> {
        match self {
            DeviceError::Unsupported => "Access width not supported by the device"@,
            DeviceError::Failed(text) => text@,
        }
    }

    /// What the error says.
    pub fn message(&self) -> (r: String)
        ensures
            r@ == self.message_text(),
    {
        match self {
            DeviceError::Unsupported => String::from_str("Access width not supported by the device"),
            DeviceError::Failed(text) => String::from_str(text.as_str()),
        }
    }
}

impl FramebufferError {
    /// What the error says.
    pub fn message(&self) -> (r: String)
        ensures
            r@ == "Framebuffer poisoned"@,
    {
        String::from_str("Framebuffer poisoned")
    }
}

impl SerialError {
    /// What the error says.
    pub open spec fn message_text(self) -> Seq<char> {
        match self {
            SerialError::ThreadSendError(_) => "Error communicating with child thread"@,
            SerialError::ThreadPoisonError => "Child thread panicked"@,
        }
    }

    /// What the error says.
    pub fn message(&self) -> (r: String)
        ensures
            r@ == self.message_text(),
    {
        match self {
            SerialError::ThreadSendError(_) => String::from_str(
                "Error communicating with child thread",
            ),
            SerialError::ThreadPoisonError => String::from_str("Child thread panicked"),
        }
    }
}

/// The width of the framebuffer in pixels.
pub const FRAMEBUFFER_WIDTH: usize = 160;

/// The height of the framebuffer in pixels.
pub const FRAMEBUFFER_HEIGHT: usize = 144;

/// The last address that a device claims which starts at `base` and goes on
/// for `span` more bytes; the address space ends it where it is too short.
pub open spec fn last_claimed(base: u32, span: u32) -> u32 {
    if base + span > u32::MAX {
        u32::MAX
    } else {
        (base + span) as u32
    }
}

/// The range that a serial port claims: its eight registers.
pub fn serial_range(base_address: u32) -> (r: RangeInclusive<u32>)
    ensures
        r@.start == base_address,
        r@.end == last_claimed(base_address, 7),
        !r@.exhausted,
{
    RangeInclusive::new(base_address, base_address.saturating_add(7))
}

/// The range that a framebuffer claims: 32 bytes for each of its 160 times
/// 144 pixels, and one more.
pub fn framebuffer_range(base_address: u32) -> (r: RangeInclusive<u32>)
    ensures
        r@.start == base_address,
        r@.end == last_claimed(base_address, 737280),
        !r@.exhausted,
{
    RangeInclusive::new(base_address, base_address.saturating_add(737280))
}

/// The pixel that an address of the framebuffer names: one for each word
/// from the base on. `None` where the address is before the base or
/// beyond the last pixel.
pub fn pixel_index(base_address: u32, addr: u32) -> (r: Option<usize>)
    ensures
        match r {
            Some(index) => addr >= base_address && index == (addr - base_address) / 4 && index
                < 160 * 144,
            None => addr < base_address || (addr - base_address) / 4 >= 160 * 144,
        },
{
    if addr < base_address {
        return None;
    }
    let index = ((addr - base_address) / 4) as usize;
    if index < FRAMEBUFFER_WIDTH * FRAMEBUFFER_HEIGHT {
        Some(index)
    } else {
        None
    }
}

/// What a read of a serial port's register gives, and what it leaves of the
/// bytes that were received. The data register, at the base, takes the
/// oldest byte off, or gives 0 where none waits; every other register
/// gives 0.
pub open spec fn serial_read_spec(offset: int, received: Seq<u8>) -> (i8, Seq<u8>) {
    if offset == 0 && received.len() > 0 {
        (signed8(received[0]) as i8, received.drop_first())
    } else {
        (0i8, received)
    }
}

/// Reads a register of a serial port.
pub fn serial_read(
    base_address: u32,
    addr: u32,
    received: &mut std::collections::VecDeque<u8>,
) -> (value: i8)
    ensures
        (value, final(received)@) == serial_read_spec(addr - base_address, old(received)@),
{
    if addr == base_address {
        match received.pop_front() {
            None => 0,
            Some(data) => {
                assert(received@ =~= old(received)@.drop_first());
                i8_of(data)
            },
        }
    } else {
        0
    }
}

/// Whether a store to a register of a serial port sends the byte: only the
/// data register, at the base, does.
pub fn serial_sends(base_address: u32, addr: u32) -> (sends: bool)
    ensures
        sends == (addr == base_address),
{
    addr == base_address
}

} // verus!
