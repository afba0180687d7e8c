use vstd::prelude::*;

use crate::bits::{i16_of, i8_of, signed16, signed8};
use crate::decode::join_bytes;
use crate::devices::{byte_lane, byte_of, nth_byte};
use crate::error::ExecutionError;

verus! {

/// Linear RAM: a byte array and the address just above the last usable one.
/// A top of 0 stands for the whole 32-bit address space.
pub struct Memory {
    memory: Vec<u8>,
    memory_top: u32,
}

/// The address `i` bytes above `addr`, wrapping at 2^32.
pub open spec fn offset(addr: u32, i: int) -> int {
    (addr + i) % 0x1_0000_0000
}

/// The little-endian halfword at `addr`.
pub open spec fn halfword_at(bytes: Seq<u8>, addr: u32) -> u16 {
    (bytes[addr as int] as int + 0x100 * bytes[offset(addr, 1)] as int) as u16
}

/// The little-endian word at `addr`.
pub open spec fn word_at(bytes: Seq<u8>, addr: u32) -> u32 {
    (bytes[addr as int] as int + 0x100 * bytes[offset(addr, 1)] as int + 0x1_0000 * bytes[offset(
        addr,
        2,
    )] as int + 0x100_0000 * bytes[offset(addr, 3)] as int) as u32
}

/// `bytes` with the low byte of `data` at `addr` and the next one above it.
pub open spec fn with_halfword(bytes: Seq<u8>, addr: u32, data: u16) -> Seq<u8> {
    bytes.update(addr as int, byte_of(data as u32, 0)).update(
        offset(addr, 1),
        byte_of(data as u32, 1),
    )
}

/// `bytes` with the four bytes of `data` at `addr`, lowest first.
pub open spec fn with_word(bytes: Seq<u8>, addr: u32, data: u32) -> Seq<u8> {
    bytes.update(addr as int, byte_of(data, 0)).update(offset(addr, 1), byte_of(data, 1)).update(
        offset(addr, 2),
        byte_of(data, 2),
    ).update(offset(addr, 3), byte_of(data, 3))
}

/// Whether RAM of `len` bytes under `top` holds `width` bytes at `addr`: the
/// access ends at or below the top (or the top is 0), and each of its bytes
/// is there.
pub open spec fn holds(len: int, top: u32, addr: u32, width: int) -> bool {
    &&& top == 0 || (if width == 1 {
        addr < top
    } else if addr + width > u32::MAX {
        top == u32::MAX
    } else {
        addr + width <= top
    })
    &&& forall|i: int| 0 <= i < width ==> offset(addr, i) < len
}

/// Whether an instruction can be fetched at `addr`: the word there lies
/// under the top (or the top is 0) and in the array.
pub open spec fn fetchable(len: int, top: u32, addr: u32) -> bool {
    &&& top == 0 || addr + 4 <= top
    &&& addr + 4 <= len
}

/// The bytes of a word, stored lowest first, read back as that word.
pub proof fn bytes_of_word(data: u32)
    by (bit_vector)
    ensures
        byte_of(data, 0) as int + 0x100 * byte_of(data, 1) as int + 0x1_0000 * byte_of(
            data,
            2,
        ) as int + 0x100_0000 * byte_of(data, 3) as int == data,
        byte_of(data, 0) as int + 0x100 * byte_of(data, 1) as int == data & 0xffff,
        byte_of(data, 0) == data & 0xff,
{
}

/// Which byte of a word made of four bytes a shift by a multiple of eight
/// brings down.
proof fn lanes_of_word(b0: u8, b1: u8, b2: u8, b3: u8)
    by (bit_vector)
    ensures
        ({
            let w = (b0 as u32) | ((b1 as u32) << 8) | ((b2 as u32) << 16) | ((b3 as u32) << 24);
            &&& w == b0 as int + 0x100 * b1 as int + 0x1_0000 * b2 as int + 0x100_0000 * b3 as int
            &&& (w >> 0) & 0xff == b0
            &&& (w >> 8) & 0xff == b1
            &&& (w >> 16) & 0xff == b2
            &&& (w >> 24) & 0xff == b3
        }),
{
}

/// A word that was stored reads back: after `store_word(w, a)`,
/// `read_word(a)` is `w`.
pub proof fn stored_word_reads_back(bytes: Seq<u8>, top: u32, addr: u32, data: u32)
    requires
        holds(bytes.len() as int, top, addr, 4),
    ensures
        with_word(bytes, addr, data).len() == bytes.len(),
        word_at(with_word(bytes, addr, data), addr) == data,
{
    assert(offset(addr, 0) == addr);
    assert(offset(addr, 1) < bytes.len() && offset(addr, 2) < bytes.len() && offset(addr, 3)
        < bytes.len());
    bytes_of_word(data);
}

/// A halfword that was stored reads back.
pub proof fn stored_halfword_reads_back(bytes: Seq<u8>, top: u32, addr: u32, data: u16)
    requires
        holds(bytes.len() as int, top, addr, 2),
    ensures
        with_halfword(bytes, addr, data).len() == bytes.len(),
        halfword_at(with_halfword(bytes, addr, data), addr) == data,
{
    assert(offset(addr, 0) == addr);
    assert(offset(addr, 1) < bytes.len());
    bytes_of_word(data as u32);
    assert((data as u32) & 0xffff == data) by (bit_vector);
}

/// A halfword is stored little-endian: after the store, the byte at its
/// address is its low byte and the next byte is its high byte, and both
/// can be read. The end of the halfword must lie under the top; under a top
/// of 2^32 - 1 the rule that the end of an access saturates lets a
/// halfword at 2^32 - 2 be stored whose second byte cannot be read.
pub proof fn stored_halfword_reads_as_bytes(bytes: Seq<u8>, top: u32, addr: u32, data: u16)
    requires
        holds(bytes.len() as int, top, addr, 2),
        top == 0 || addr + 2 <= top,
    ensures
        holds(bytes.len() as int, top, addr, 1),
        holds(bytes.len() as int, top, offset(addr, 1) as u32, 1),
        with_halfword(bytes, addr, data)[addr as int] == data % 0x100,
        with_halfword(bytes, addr, data)[offset(addr, 1)] == data / 0x100,
{
    assert(offset(addr, 0) == addr);
    assert(offset(addr, 1) < bytes.len());
    assert(offset(offset(addr, 1) as u32, 0) == offset(addr, 1));
    let d = data as u32;
    assert(byte_of(d, 0) == d % 0x100 && byte_of(d, 1) == d / 0x100) by (bit_vector)
        requires
            d < 0x1_0000,
    ;
}

/// A word is stored little-endian: after the store, the four bytes from
/// its address on are its bytes, lowest first, and each can be read. The
/// end of the word must lie under the top.
pub proof fn stored_word_reads_as_bytes(bytes: Seq<u8>, top: u32, addr: u32, data: u32, i: int)
    requires
        holds(bytes.len() as int, top, addr, 4),
        top == 0 || addr + 4 <= top,
        0 <= i < 4,
    ensures
        holds(bytes.len() as int, top, offset(addr, i) as u32, 1),
        with_word(bytes, addr, data)[offset(addr, i)] == (data as int / pow256(i)) % 0x100,
{
    assert(offset(addr, 0) == addr);
    assert(offset(addr, 1) < bytes.len() && offset(addr, 2) < bytes.len() && offset(addr, 3)
        < bytes.len());
    assert(offset(offset(addr, i) as u32, 0) == offset(addr, i));
    assert(byte_of(data, 0) == data % 0x100 && byte_of(data, 1) == (data / 0x100) % 0x100
        && byte_of(data, 2) == (data / 0x1_0000) % 0x100 && byte_of(data, 3) == (data
        / 0x100_0000) % 0x100) by (bit_vector);
    assert(offset(addr, 0) != offset(addr, 1) && offset(addr, 0) != offset(addr, 2) && offset(
        addr,
        0,
    ) != offset(addr, 3) && offset(addr, 1) != offset(addr, 2) && offset(addr, 1) != offset(
        addr,
        3,
    ) && offset(addr, 2) != offset(addr, 3));
}

/// 256 to the power of `i`, for the four bytes of a word.
pub open spec fn pow256(i: int) -> int {
    if i == 0 {
        1
    } else if i == 1 {
        0x100
    } else if i == 2 {
        0x1_0000
    } else {
        0x100_0000
    }
}

/// A byte that was stored reads back.
pub proof fn stored_byte_reads_back(bytes: Seq<u8>, top: u32, addr: u32, data: u8)
    requires
        holds(bytes.len() as int, top, addr, 1),
    ensures
        bytes.update(addr as int, data)[addr as int] == data,
{
    assert(offset(addr, 0) == addr);
}

/// Bytes and words agree on the order of bytes: the byte at `addr` is the
/// word at `addr & !3`, shifted right by `(addr & 3) * 8`, and masked to its
/// low eight bits.
pub proof fn byte_of_aligned_word(bytes: Seq<u8>, top: u32, addr: u32)
    requires
        holds(bytes.len() as int, top, addr & !3u32, 4),
    ensures
        0 <= addr < bytes.len(),
        bytes[addr as int] == (word_at(bytes, addr & !3u32) >> ((addr & 3) * 8)) & 0xff,
        bytes[addr as int] == byte_lane(word_at(bytes, addr & !3u32), addr),
{
    let base = addr & !3u32;
    let lane = addr & 3;
    assert(base + lane == addr && lane < 4 && base <= 0xffff_fffc) by (bit_vector)
        requires
            base == addr & !3u32,
            lane == addr & 3,
    ;
    assert(offset(base, 0) == base && offset(base, 1) == base + 1 && offset(base, 2) == base + 2
        && offset(base, 3) == base + 3);
    assert(offset(base, 1) < bytes.len() && offset(base, 2) < bytes.len() && offset(base, 3)
        < bytes.len() && offset(base, 0) < bytes.len());
    lanes_of_word(
        bytes[base as int],
        bytes[base + 1],
        bytes[base + 2],
        bytes[base + 3],
    );
}

/// Where RAM holds the word that a byte lies in, it holds the byte. The
/// last word of the address space is left out: under a top of 2^32 - 1
/// RAM may hold that word, by the rule that the end of an access
/// saturates, and yet not its last byte.
pub proof fn aligned_word_holds_byte(len: int, top: u32, addr: u32)
    requires
        holds(len, top, addr & !3u32, 4),
        addr < 0xffff_fffc,
    ensures
        holds(len, top, addr, 1),
{
    let base = addr & !3u32;
    let lane = addr & 3;
    assert(base + lane == addr && lane < 4 && base <= 0xffff_fffc) by (bit_vector)
        requires
            base == addr & !3u32,
            lane == addr & 3,
    ;
    assert(offset(base, lane as int) == addr);
    assert(offset(addr, 0) == addr);
}

impl Memory {
    /// The bytes of RAM.
    pub closed spec fn view(&self) -> Seq<u8> {
        self.memory@
    }

    /// The address just above the last usable one; 0 for the whole space.
    pub closed spec fn top(&self) -> u32 {
        self.memory_top
    }

    /// RAM over an array of bytes, with its top.
    pub fn new(memmap: Box<[u8]>, memory_top: u32) -> (m: Memory)
        ensures
            m@ == memmap@,
            m.top() == memory_top,
    {
        Memory { memory: memmap.into_vec(), memory_top }
    }

    /// The bytes of RAM.
    pub fn bytes(&self) -> (b: &[u8])
        ensures
            b@ == self@,
    {
        self.memory.as_slice()
    }

    /// The address just above the last usable one; 0 for the whole space.
    pub fn memory_top(&self) -> (top: u32)
        ensures
            top == self.top(),
    {
        self.memory_top
    }

    /// Whether `width` bytes at `addr` lie in RAM.
    fn check(&self, addr: u32, width: u32) -> (ok: bool)
        requires
            1 <= width <= 4,
        ensures
            ok == holds(self@.len() as int, self.top(), addr, width as int),
    {
        let under_top = self.memory_top == 0 || (if width == 1 {
            addr < self.memory_top
        } else {
            addr.saturating_add(width) <= self.memory_top
        });
        if !under_top {
            return false;
        }
        let len = self.memory.len();
        let mut i: u32 = 0;
        while i < width
            invariant
                i <= width <= 4,
                len == self@.len(),
                forall|j: int| 0 <= j < i ==> offset(addr, j) < len,
            decreases width - i,
        {
            if addr.wrapping_add(i) as usize >= len {
                assert(offset(addr, i as int) >= len);
                return false;
            }
            i += 1;
        }
        true
    }

    /// The four bytes of the instruction at `addr`.
    pub fn read_instruction_bytes(&self, addr: u32) -> (r: Result<&[u8], ExecutionError>)
        ensures
            addr % 4 != 0 ==> r == Err::<&[u8], ExecutionError>(
                ExecutionError::InstructionAddressMisaligned(addr),
            ),
            addr % 4 == 0 && !fetchable(self@.len() as int, self.top(), addr) ==> r == Err::<
                &[u8],
                ExecutionError,
            >(ExecutionError::InstructionAccessFault(addr)),
            addr % 4 == 0 && fetchable(self@.len() as int, self.top(), addr) ==> (r matches Ok(b)
                && b@ == self@.subrange(addr as int, addr + 4)),
    {
        assert(addr & 0b11 == addr % 4) by (bit_vector);
        let len = self.memory.len();
        // Error out if the address is not aligned on a 32-bit boundary
        if addr & 0b11 != 0 {
            Err(ExecutionError::InstructionAddressMisaligned(addr))
            // If the memory top is zero then assume we are using the full 4GB address space as memory
        } else if (self.memory_top == 0 || (addr <= u32::MAX - 4 && addr + 4 <= self.memory_top))
            && len >= 4 && addr as usize <= len - 4 {
            let start = addr as usize;
            Ok(vstd::slice::slice_subrange(self.memory.as_slice(), start, start + 4))
        } else {
            Err(ExecutionError::InstructionAccessFault(addr))
        }
    }

    /// The byte at `addr`.
    pub fn read_byte(&self, addr: u32) -> (r: Result<i8, ExecutionError>)
        ensures
            holds(self@.len() as int, self.top(), addr, 1) ==> r == Ok::<i8, ExecutionError>(
                signed8(self@[addr as int]) as i8,
            ),
            !holds(self@.len() as int, self.top(), addr, 1) ==> r == Err::<i8, ExecutionError>(
                ExecutionError::LoadAccessFault(addr),
            ),
    {
        if self.check(addr, 1) {
            assert(offset(addr, 0) == addr);
            Ok(i8_of(self.memory[addr as usize]))
        } else {
            Err(ExecutionError::LoadAccessFault(addr))
        }
    }

    /// The little-endian word at `addr`.
    pub fn read_word(&self, addr: u32) -> (r: Result<u32, ExecutionError>)
        ensures
            holds(self@.len() as int, self.top(), addr, 4) ==> r == Ok::<u32, ExecutionError>(
                word_at(self@, addr),
            ),
            !holds(self@.len() as int, self.top(), addr, 4) ==> r == Err::<u32, ExecutionError>(
                ExecutionError::LoadAccessFault(addr),
            ),
    {
        if self.check(addr, 4) {
            assert(offset(addr, 0) == addr);
            assert(offset(addr, 1) < self@.len() && offset(addr, 2) < self@.len() && offset(addr, 3)
                < self@.len());
            Ok(
                join_bytes(
                    self.memory[addr as usize],
                    self.memory[addr.wrapping_add(1) as usize],
                    self.memory[addr.wrapping_add(2) as usize],
                    self.memory[addr.wrapping_add(3) as usize],
                ),
            )
        } else {
            Err(ExecutionError::LoadAccessFault(addr))
        }
    }

    /// The little-endian halfword at `addr`.
    pub fn read_halfword(&self, addr: u32) -> (r: Result<i16, ExecutionError>)
        ensures
            holds(self@.len() as int, self.top(), addr, 2) ==> r == Ok::<i16, ExecutionError>(
                signed16(halfword_at(self@, addr)) as i16,
            ),
            !holds(self@.len() as int, self.top(), addr, 2) ==> r == Err::<i16, ExecutionError>(
                ExecutionError::LoadAccessFault(addr),
            ),
    {
        if self.check(addr, 2) {
            assert(offset(addr, 0) == addr);
            assert(offset(addr, 1) < self@.len());
            let joined = join_bytes(
                self.memory[addr as usize],
                self.memory[addr.wrapping_add(1) as usize],
                0,
                0,
            );
            Ok(i16_of(joined as u16))
        } else {
            Err(ExecutionError::LoadAccessFault(addr))
        }
    }

    /// Writes a byte at `addr`.
    pub fn store_byte(&mut self, data: u8, addr: u32) -> (r: Result<(), ExecutionError>)
        ensures
            final(self).top() == old(self).top(),
            holds(old(self)@.len() as int, old(self).top(), addr, 1) ==> r == Ok::<
                (),
                ExecutionError,
            >(()) && final(self)@ == old(self)@.update(addr as int, data),
            !holds(old(self)@.len() as int, old(self).top(), addr, 1) ==> r == Err::<
                (),
                ExecutionError,
            >(ExecutionError::LoadAccessFault(addr)) && final(self)@ == old(self)@,
    {
        if self.check(addr, 1) {
            assert(offset(addr, 0) == addr);
            self.memory[addr as usize] = data;
            Ok(())
        } else {
            Err(ExecutionError::LoadAccessFault(addr))
        }
    }

    /// Writes a halfword at `addr`, low byte first.
    pub fn store_halfword(&mut self, data: u16, addr: u32) -> (r: Result<(), ExecutionError>)
        ensures
            final(self).top() == old(self).top(),
            holds(old(self)@.len() as int, old(self).top(), addr, 2) ==> r == Ok::<
                (),
                ExecutionError,
            >(()) && final(self)@ == with_halfword(old(self)@, addr, data),
            !holds(old(self)@.len() as int, old(self).top(), addr, 2) ==> r == Err::<
                (),
                ExecutionError,
            >(ExecutionError::LoadAccessFault(addr)) && final(self)@ == old(self)@,
    {
        if self.check(addr, 2) {
            assert(offset(addr, 0) == addr);
            assert(offset(addr, 1) < self@.len());
            self.memory[addr as usize] = nth_byte(data as u32, 0);
            self.memory[addr.wrapping_add(1) as usize] = nth_byte(data as u32, 1);
            Ok(())
        } else {
            Err(ExecutionError::LoadAccessFault(addr))
        }
    }

    /// Writes a word at `addr`, lowest byte first.
    pub fn store_word(&mut self, data: u32, addr: u32) -> (r: Result<(), ExecutionError>)
        ensures
            final(self).top() == old(self).top(),
            holds(old(self)@.len() as int, old(self).top(), addr, 4) ==> r == Ok::<
                (),
                ExecutionError,
            >(()) && final(self)@ == with_word(old(self)@, addr, data),
            !holds(old(self)@.len() as int, old(self).top(), addr, 4) ==> r == Err::<
                (),
                ExecutionError,
            >(ExecutionError::LoadAccessFault(addr)) && final(self)@ == old(self)@,
    {
        if self.check(addr, 4) {
            assert(offset(addr, 0) == addr);
            assert(offset(addr, 1) < self@.len() && offset(addr, 2) < self@.len() && offset(addr, 3)
                < self@.len());
            self.memory[addr as usize] = nth_byte(data, 0);
            self.memory[addr.wrapping_add(1) as usize] = nth_byte(data, 1);
            self.memory[addr.wrapping_add(2) as usize] = nth_byte(data, 2);
            self.memory[addr.wrapping_add(3) as usize] = nth_byte(data, 3);
            Ok(())
        } else {
            Err(ExecutionError::LoadAccessFault(addr))
        }
    }
}

/// Whether RAM of `len` bytes under `top` holds the `count` bytes from
/// `addr` on.
pub open spec fn spans(len: int, top: u32, addr: u32, count: u32) -> bool {
    &&& addr + count <= len
    &&& top == 0 || addr + count <= top
}

/// The first `count` bytes of `data`, with zeros where `data` ends sooner.
pub open spec fn padded(data: Seq<u8>, count: int) -> Seq<u8> {
    Seq::new(
        count as nat,
        |i: int|
            if i < data.len() {
                data[i]
            } else {
                0u8
            },
    )
}

/// The place of the first zero byte at or after `start`, if there is one.
pub open spec fn first_nul(bytes: Seq<u8>, start: int) -> Option<int>
    decreases bytes.len() - start,
{
    if start < 0 || start >= bytes.len() {
        None
    } else if bytes[start] == 0 {
        Some(start)
    } else {
        first_nul(bytes, start + 1)
    }
}

impl Memory {
    /// Whether the `count` bytes from `addr` on lie in RAM.
    pub fn spans(&self, addr: u32, count: u32) -> (ok: bool)
        ensures
            ok == spans(self@.len() as int, self.top(), addr, count),
    {
        let end: u64 = addr as u64 + count as u64;
        (self.memory_top == 0 || end <= self.memory_top as u64) && end <= self.memory.len() as u64
    }

    /// A copy of the `count` bytes from `addr` on.
    pub fn read_bytes(&self, addr: u32, count: u32) -> (out: Vec<u8>)
        requires
            spans(self@.len() as int, self.top(), addr, count),
        ensures
            out@ == self@.subrange(addr as int, addr + count),
    {
        let len = self.memory.len();
        let mut out: Vec<u8> = Vec::new();
        let mut i: usize = 0;
        while i < count as usize
            invariant
                i <= count,
                addr + count <= self@.len() == len,
                out@ == self@.subrange(addr as int, addr + i),
            decreases count - i,
        {
            out.push(self.memory[addr as usize + i]);
            i += 1;
            assert(out@ =~= self@.subrange(addr as int, addr + i));
        }
        out
    }

    /// A copy of the bytes from `start` up to `end`.
    pub fn read_range(&self, start: usize, end: usize) -> (out: Vec<u8>)
        requires
            start <= end <= self@.len(),
        ensures
            out@ == self@.subrange(start as int, end as int),
    {
        vstd::slice::slice_to_vec(vstd::slice::slice_subrange(self.memory.as_slice(), start, end))
    }

    /// Overwrites the `count` bytes from `addr` on with `data`, and with
    /// zeros where `data` ends sooner.
    pub fn fill(&mut self, addr: u32, count: u32, data: &[u8])
        requires
            spans(old(self)@.len() as int, old(self).top(), addr, count),
        ensures
            final(self).top() == old(self).top(),
            final(self)@ == old(self)@.subrange(0, addr as int) + padded(data@, count as int)
                + old(self)@.subrange(addr + count, old(self)@.len() as int),
    {
        let len = self.memory.len();
        let mut i: usize = 0;
        while i < count as usize
            invariant
                i <= count,
                self.top() == old(self).top(),
                self@.len() == old(self)@.len() == len,
                addr + count <= self@.len(),
                self@ == old(self)@.subrange(0, addr as int) + padded(data@, i as int) + old(
                    self,
                )@.subrange(addr + i, old(self)@.len() as int),
            decreases count - i,
        {
            let byte: u8 = if i < data.len() {
                data[i]
            } else {
                0
            };
            self.memory[addr as usize + i] = byte;
            i += 1;
            assert(self@ =~= old(self)@.subrange(0, addr as int) + padded(data@, i as int) + old(
                self,
            )@.subrange(addr + i, old(self)@.len() as int));
        }
    }

    /// The place of the first zero byte at or after `start`.
    pub fn find_nul(&self, start: u32) -> (at: Option<usize>)
        ensures
            match at {
                Some(i) => first_nul(self@, start as int) == Some(i as int),
                None => first_nul(self@, start as int) is None,
            },
    {
        let mut i: usize = start as usize;
        while i < self.memory.len()
            invariant
                start <= i,
                i <= self@.len() || first_nul(self@, start as int) is None,
                first_nul(self@, start as int) == first_nul(self@, i as int),
            decreases self@.len() - i,
        {
            if self.memory[i] == 0 {
                return Some(i);
            }
            i += 1;
        }
        None
    }
}

} // verus!
