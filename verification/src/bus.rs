use vstd::prelude::*;

use crate::bits::{signed16, signed8};
use crate::error::ExecutionError;
use crate::machine::{claimant, device_offset, device_space, device_space_bits, Machine, MachineView};
use crate::memory::{fetchable, halfword_at, holds, with_halfword, with_word, word_at};

verus! {

/// What fetching the instruction at `addr` from RAM gives.
pub open spec fn fetched(s: MachineView, addr: u32) -> Result<u32, ExecutionError> {
    if addr % 4 != 0 {
        Err(ExecutionError::InstructionAddressMisaligned(addr))
    } else if !fetchable(s.ram.len() as int, s.top, addr) {
        Err(ExecutionError::InstructionAccessFault(addr))
    } else {
        Ok(word_at(s.ram, addr))
    }
}

/// What loading a byte from RAM gives.
pub open spec fn ram_byte(s: MachineView, addr: u32) -> Result<i8, ExecutionError> {
    if holds(s.ram.len() as int, s.top, addr, 1) {
        Ok(signed8(s.ram[addr as int]) as i8)
    } else {
        Err(ExecutionError::LoadAccessFault(addr))
    }
}

/// What loading a halfword from RAM gives.
pub open spec fn ram_halfword(s: MachineView, addr: u32) -> Result<i16, ExecutionError> {
    if holds(s.ram.len() as int, s.top, addr, 2) {
        Ok(signed16(halfword_at(s.ram, addr)) as i16)
    } else {
        Err(ExecutionError::LoadAccessFault(addr))
    }
}

/// What loading a word from RAM gives.
pub open spec fn ram_word(s: MachineView, addr: u32) -> Result<u32, ExecutionError> {
    if holds(s.ram.len() as int, s.top, addr, 4) {
        Ok(word_at(s.ram, addr))
    } else {
        Err(ExecutionError::LoadAccessFault(addr))
    }
}

/// RAM after a store of `width` bytes of `data` at `addr`, where it holds
/// them.
pub open spec fn ram_after_store(ram: Seq<u8>, width: int, data: u32, addr: u32) -> Seq<u8> {
    if width == 1 {
        ram.update(addr as int, (data % 0x100) as u8)
    } else if width == 2 {
        with_halfword(ram, addr, (data % 0x1_0000) as u16)
    } else {
        with_word(ram, addr, data)
    }
}

/// The machine after a store to RAM, and what the store returns.
pub open spec fn ram_store(s: MachineView, width: int, data: u32, addr: u32) -> (
    MachineView,
    Result<(), ExecutionError>,
) {
    if holds(s.ram.len() as int, s.top, addr, width) {
        (MachineView { ram: ram_after_store(s.ram, width, data, addr), ..s }, Ok(()))
    } else {
        (s, Err(ExecutionError::LoadAccessFault(addr)))
    }
}

/// What an access to the device space may return: a fault where no device
/// claims the address; else what the device answers, or its error.
pub open spec fn device_answer<T>(
    devices: Seq<(u32, u32)>,
    addr: u32,
    r: Result<T, ExecutionError>,
) -> bool {
    match claimant(devices, device_offset(addr), 0) {
        None => r == Err::<T, ExecutionError>(ExecutionError::LoadAccessFault(addr)),
        Some(_) => r is Ok || r matches Err(ExecutionError::DeviceError(_)),
    }
}

/// What is stored in RAM reads back: after a store of a word, a halfword
/// or a byte that succeeds, the load of the same width at the same address
/// gives what was stored.
pub proof fn stored_reads_back(s: MachineView, addr: u32, data: u32)
    ensures
        ram_store(s, 4, data, addr).1 is Ok ==> ram_word(ram_store(s, 4, data, addr).0, addr)
            == Ok::<u32, ExecutionError>(data),
        ram_store(s, 2, data, addr).1 is Ok ==> ram_halfword(ram_store(s, 2, data, addr).0, addr)
            == Ok::<i16, ExecutionError>(signed16((data % 0x1_0000) as u16) as i16),
        ram_store(s, 1, data, addr).1 is Ok ==> ram_byte(ram_store(s, 1, data, addr).0, addr)
            == Ok::<i8, ExecutionError>(signed8((data % 0x100) as u8) as i8),
{
    if holds(s.ram.len() as int, s.top, addr, 4) {
        crate::memory::stored_word_reads_back(s.ram, s.top, addr, data);
    }
    if holds(s.ram.len() as int, s.top, addr, 2) {
        crate::memory::stored_halfword_reads_back(s.ram, s.top, addr, (data % 0x1_0000) as u16);
    }
    if holds(s.ram.len() as int, s.top, addr, 1) {
        crate::memory::stored_byte_reads_back(s.ram, s.top, addr, (data % 0x100) as u8);
    }
}

/// A halfword is stored in RAM little-endian: after a store that succeeds,
/// the byte at its address reads as its low byte and the next byte as its
/// high byte. The end of the halfword must lie under the top.
pub proof fn stored_halfword_reads_as_bytes(s: MachineView, addr: u32, data: u16)
    requires
        ram_store(s, 2, data as u32, addr).1 is Ok,
        s.top == 0 || addr + 2 <= s.top,
    ensures
        ram_byte(ram_store(s, 2, data as u32, addr).0, addr) == Ok::<i8, ExecutionError>(
            signed8((data % 0x100) as u8) as i8,
        ),
        ram_byte(ram_store(s, 2, data as u32, addr).0, crate::memory::offset(addr, 1) as u32)
            == Ok::<i8, ExecutionError>(signed8((data / 0x100) as u8) as i8),
{
    crate::memory::stored_halfword_reads_as_bytes(s.ram, s.top, addr, data);
    let next = crate::memory::offset(addr, 1);
    assert(((data as u32) % 0x1_0000) as u16 == data);
    assert((next as u32) as int == next);
    crate::memory::stored_halfword_reads_back(s.ram, s.top, addr, data);
}

/// Loads agree on the order of bytes: where the word at `addr & !3` can be
/// loaded from RAM, the byte at `addr` can be, and it is that word shifted
/// right by `(addr & 3) * 8` and masked to its low eight bits.
pub proof fn byte_is_lane_of_word(s: MachineView, addr: u32)
    requires
        !device_space(addr),
        ram_word(s, addr & !3u32) is Ok,
    ensures
        ram_byte(s, addr) == Ok::<i8, ExecutionError>(
            signed8(((ram_word(s, addr & !3u32)->Ok_0 >> ((addr & 3) * 8)) & 0xff) as u8) as i8,
        ),
{
    crate::memory::byte_of_aligned_word(s.ram, s.top, addr);
    crate::memory::aligned_word_holds_byte(s.ram.len() as int, s.top, addr);
}

/// The place of an address of the device space within it: its low 28
/// bits. The device that claims this offset is the one that is asked, and
/// it is asked for this offset.
pub fn offset_in_devices(addr: u32) -> (offset: u32)
    requires
        device_space(addr),
    ensures
        offset == device_offset(addr),
{
    proof {
        device_space_bits(addr);
    }
    addr & 0xFFFFFFF
}

impl Machine {
    /// The first device that claims the offset.
    fn find_device(&self, offset: u32) -> (r: Option<usize>)
        requires
            self.wf(),
        ensures
            match claimant(self.device_list(), offset, 0) {
                Some(i) => r == Some(i as usize) && 0 <= i < self.device_list().len(),
                None => r is None,
            },
    {
        proof {
            self.unfold();
        }
        let mut i: usize = 0;
        while i < self.claims.len()
            invariant
                i <= self.device_list().len(),
                self.device_list() == self.claims@,
                claimant(self.device_list(), offset, 0) == claimant(
                    self.device_list(),
                    offset,
                    i as int,
                ),
            decreases self.device_list().len() - i,
        {
            if self.claims[i].0 <= offset && offset <= self.claims[i].1 {
                return Some(i);
            }
            i += 1;
        }
        None
    }

    /// The four bytes of the instruction at `addr`. Instructions are
    /// fetched from RAM only.
    pub fn read_instruction_bytes(&self, addr: u32) -> (r: Result<&[u8], ExecutionError>)
        ensures
            match fetched(self@, addr) {
                Ok(w) => r matches Ok(bytes) && bytes@ == self@.ram.subrange(addr as int, addr + 4)
                    && crate::decode::word_of(bytes@) == w,
                Err(e) => r == Err::<&[u8], ExecutionError>(e),
            },
    {
        proof {
            self.unfold();
        }
        self.memory.read_instruction_bytes(addr)
    }

    /// Loads a byte from RAM or from the device that claims the address.
    pub fn read_byte(&self, addr: u32) -> (r: Result<i8, ExecutionError>)
        requires
            self.wf(),
        ensures
            device_space(addr) ==> device_answer(self.device_list(), addr, r),
            !device_space(addr) ==> r == ram_byte(self@, addr),
    {
        proof {
            device_space_bits(addr);
            self.unfold();
        }
        // Check to see if the addr points to a memory mapped device
        // The device space starts with 0xF
        if addr >> 28 == 0xF {
            let device_addr = offset_in_devices(addr);
            match self.find_device(device_addr) {
                Some(i) => match self.devices[i].read_byte(device_addr) {
                    Ok(v) => Ok(v),
                    Err(e) => Err(ExecutionError::DeviceError(e)),
                },
                None => Err(ExecutionError::LoadAccessFault(addr)),
            }
        } else {
            self.memory.read_byte(addr)
        }
    }

    /// Loads a word from RAM or from the device that claims the address.
    pub fn read_word(&self, addr: u32) -> (r: Result<u32, ExecutionError>)
        requires
            self.wf(),
        ensures
            device_space(addr) ==> device_answer(self.device_list(), addr, r),
            !device_space(addr) ==> r == ram_word(self@, addr),
    {
        proof {
            device_space_bits(addr);
            self.unfold();
        }
        if addr >> 28 == 0xF {
            let device_addr = offset_in_devices(addr);
            match self.find_device(device_addr) {
                Some(i) => match self.devices[i].read_word(device_addr) {
                    Ok(v) => Ok(crate::bits::u32_of(v)),
                    Err(e) => Err(ExecutionError::DeviceError(e)),
                },
                None => Err(ExecutionError::LoadAccessFault(addr)),
            }
        } else {
            self.memory.read_word(addr)
        }
    }

    /// Loads a halfword from RAM or from the device that claims the address.
    pub fn read_halfword(&self, addr: u32) -> (r: Result<i16, ExecutionError>)
        requires
            self.wf(),
        ensures
            device_space(addr) ==> device_answer(self.device_list(), addr, r),
            !device_space(addr) ==> r == ram_halfword(self@, addr),
    {
        proof {
            device_space_bits(addr);
            self.unfold();
        }
        if addr >> 28 == 0xF {
            let device_addr = offset_in_devices(addr);
            match self.find_device(device_addr) {
                Some(i) => match self.devices[i].read_halfword(device_addr) {
                    Ok(v) => Ok(v),
                    Err(e) => Err(ExecutionError::DeviceError(e)),
                },
                None => Err(ExecutionError::LoadAccessFault(addr)),
            }
        } else {
            self.memory.read_halfword(addr)
        }
    }

    /// Stores a byte to RAM or to the device that claims the address.
    pub fn store_byte(&mut self, data: u8, addr: u32) -> (r: Result<(), ExecutionError>)
        requires
            old(self).wf(),
        ensures
            final(self).device_list() == old(self).device_list(),
            final(self).wf() == old(self).wf(),
            device_space(addr) ==> final(self)@ == old(self)@ && device_answer(
                old(self).device_list(),
                addr,
                r,
            ),
            !device_space(addr) ==> (final(self)@, r) == ram_store(old(self)@, 1, data as u32, addr),
    {
        proof {
            device_space_bits(addr);
            self.unfold();
        }
        let r = if addr >> 28 == 0xF {
            let device_addr = offset_in_devices(addr);
            match self.find_device(device_addr) {
                Some(i) => match self.devices[i].store_byte(device_addr, data) {
                    Ok(()) => Ok(()),
                    Err(e) => Err(ExecutionError::DeviceError(e)),
                },
                None => Err(ExecutionError::LoadAccessFault(addr)),
            }
        } else {
            self.memory.store_byte(data, addr)
        };
        proof {
            self.unfold();
        }
        r
    }

    /// Stores a halfword to RAM or to the device that claims the address.
    pub fn store_halfword(&mut self, data: u16, addr: u32) -> (r: Result<(), ExecutionError>)
        requires
            old(self).wf(),
        ensures
            final(self).device_list() == old(self).device_list(),
            final(self).wf() == old(self).wf(),
            device_space(addr) ==> final(self)@ == old(self)@ && device_answer(
                old(self).device_list(),
                addr,
                r,
            ),
            !device_space(addr) ==> (final(self)@, r) == ram_store(old(self)@, 2, data as u32, addr),
    {
        proof {
            device_space_bits(addr);
            self.unfold();
        }
        let r = if addr >> 28 == 0xF {
            let device_addr = offset_in_devices(addr);
            match self.find_device(device_addr) {
                Some(i) => match self.devices[i].store_halfword(device_addr, data) {
                    Ok(()) => Ok(()),
                    Err(e) => Err(ExecutionError::DeviceError(e)),
                },
                None => Err(ExecutionError::LoadAccessFault(addr)),
            }
        } else {
            self.memory.store_halfword(data, addr)
        };
        proof {
            self.unfold();
        }
        r
    }

    /// Stores a word to RAM or to the device that claims the address.
    pub fn store_word(&mut self, data: u32, addr: u32) -> (r: Result<(), ExecutionError>)
        requires
            old(self).wf(),
        ensures
            final(self).device_list() == old(self).device_list(),
            final(self).wf() == old(self).wf(),
            device_space(addr) ==> final(self)@ == old(self)@ && device_answer(
                old(self).device_list(),
                addr,
                r,
            ),
            !device_space(addr) ==> (final(self)@, r) == ram_store(old(self)@, 4, data, addr),
    {
        proof {
            device_space_bits(addr);
            self.unfold();
        }
        let r = if addr >> 28 == 0xF {
            let device_addr = offset_in_devices(addr);
            match self.find_device(device_addr) {
                Some(i) => match self.devices[i].store_word(device_addr, data) {
                    Ok(()) => Ok(()),
                    Err(e) => Err(ExecutionError::DeviceError(e)),
                },
                None => Err(ExecutionError::LoadAccessFault(addr)),
            }
        } else {
            self.memory.store_word(data, addr)
        };
        proof {
            self.unfold();
        }
        r
    }
}

} // verus!
