use vstd::prelude::*;

use crate::devices::Device;
use crate::environment::{Environment, FileDescriptor};
use crate::memory::Memory;
use crate::register::Register;

verus! {

/// The simulated computer: registers, RAM, devices, breakpoints and the
/// guest's environment.
pub struct Machine {
    pub(crate) memory: Memory,
    // Store x1-x31
    // x0 is always 0, no reason to store
    pub(crate) registers: [u32; 31],
    pub(crate) pc: u32,
    // Whether we should step over a breakpoint or not
    pub(crate) pass_breakpoint: bool,
    // NOTE: A vec means we linear search through breakpoints, but also gives a map from
    //       index/breakpoint number to breakpoint which is nice for ui
    pub(crate) breakpoints: Vec<u32>,
    // store the current instruction as a string, for display
    pub(crate) cur_inst: String,
    // store the memory locations that changed since last instruction
    pub(crate) memory_changes: Vec<(u32, u32)>,
    // is the machine running?
    pub(crate) web_runfullspeed: bool,
    // should we run the next step?
    pub(crate) web_step: bool,
    pub(crate) verbose: bool,
    pub(crate) cycle: u128,
    pub(crate) devices: Vec<Device>,
    // The range that each device claimed when the machine was made
    pub(crate) claims: Vec<(u32, u32)>,
    pub(crate) env: Environment,
}

/// What a machine holds, as plain values.
pub struct MachineView {
    pub pc: u32,
    /// The 32 registers by number; the first is always 0.
    pub registers: Seq<u32>,
    pub ram: Seq<u8>,
    /// The address just above the last usable one; 0 for the whole space.
    pub top: u32,
    pub breakpoints: Seq<u32>,
    pub pass_breakpoint: bool,
    pub cycle: u128,
    pub files: Seq<FileDescriptor>,
    pub freed: Seq<u32>,
    pub run_free: bool,
    pub step_once: bool,
    pub verbose: bool,
    /// The listing of the instruction that was next when the machine last
    /// published itself.
    pub listing: Seq<char>,
    /// The places of memory that have changed since the last instruction,
    /// each with its value.
    pub changes: Seq<(u32, u32)>,
}

/// Whether an address belongs to the devices: the top sixteenth of the
/// address space.
pub open spec fn device_space(addr: u32) -> bool {
    addr >= 0xf000_0000
}

/// The place of an address of the device space within it.
pub open spec fn device_offset(addr: u32) -> u32 {
    (addr - 0xf000_0000) as u32
}

/// The first device, in the order in which they were added, whose claim
/// holds the offset. A claim is a first and a last address.
pub open spec fn claimant(claims: Seq<(u32, u32)>, offset: u32, from: int) -> Option<int>
    decreases claims.len() - from,
{
    if from < 0 || from >= claims.len() {
        None
    } else if claims[from].0 <= offset <= claims[from].1 {
        Some(from)
    } else {
        claimant(claims, offset, from + 1)
    }
}

/// The 32 registers by number, the first always 0, from the 31 stored ones.
pub open spec fn register_view(stored: Seq<u32>) -> Seq<u32> {
    Seq::new(
        32,
        |i: int|
            if i == 0 {
                0u32
            } else {
                stored[i - 1]
            },
    )
}

/// The registers after a write: a write to `Zero` is dropped.
pub open spec fn written(registers: Seq<u32>, reg: Register, value: u32) -> Seq<u32> {
    if reg.index() == 0 {
        registers
    } else {
        registers.update(reg.index(), value)
    }
}

/// After `set_reg(reg, value)`, `get_reg(reg)` is `value`, or 0 where `reg`
/// is `Zero`; every other register reads what it did before.
pub proof fn written_reads_back(registers: Seq<u32>, reg: Register, other: Register, value: u32)
    requires
        registers.len() == 32,
        registers[0] == 0,
    ensures
        written(registers, reg, value)[reg.index()] == (if reg == Register::Zero {
            0
        } else {
            value
        }),
        other.index() != reg.index() ==> written(registers, reg, value)[other.index()]
            == registers[other.index()],
        written(registers, reg, value).len() == 32,
        written(registers, reg, value)[0] == 0,
{
}

/// How the top four bits of an address tell the devices from RAM.
pub proof fn device_space_bits(addr: u32)
    by (bit_vector)
    ensures
        (addr >> 28 == 0xf) == (addr >= 0xf000_0000),
        addr >= 0xf000_0000 ==> addr & 0xfff_ffff == addr - 0xf000_0000,
{
}

impl View for Machine {
    type V = MachineView;

    closed spec fn view(&self) -> MachineView {
        MachineView {
            pc: self.pc,
            registers: register_view(self.registers@),
            ram: self.memory@,
            top: self.memory.top(),
            breakpoints: self.breakpoints@,
            pass_breakpoint: self.pass_breakpoint,
            cycle: self.cycle,
            files: self.env.files(),
            freed: self.env.freed(),
            run_free: self.web_runfullspeed,
            step_once: self.web_step,
            verbose: self.verbose,
            listing: self.cur_inst@,
            changes: self.memory_changes@,
        }
    }
}

impl Machine {
    /// The ranges that the devices claim, in the order in which the
    /// devices are asked: the first and last address of each, as the
    /// device gave them when the machine was made.
    pub closed spec fn device_list(&self) -> Seq<(u32, u32)> {
        self.claims@
    }

    /// The listing of the instruction that was next when the machine last
    /// published itself.
    pub open spec fn listed(&self) -> Seq<char> {
        self@.listing
    }

    /// The places of memory that have changed since the last instruction,
    /// each with its value.
    pub open spec fn recorded(&self) -> Seq<(u32, u32)> {
        self@.changes
    }

    /// The table of open files is in order, and every device has its
    /// claim.
    pub closed spec fn wf(&self) -> bool {
        self.env.wf() && self.claims@.len() == self.devices@.len()
    }

    /// What the view, the device list and `wf` are, in the fields.
    pub(crate) proof fn unfold(&self)
        ensures
            self@ == (MachineView {
                pc: self.pc,
                registers: register_view(self.registers@),
                ram: self.memory@,
                top: self.memory.top(),
                breakpoints: self.breakpoints@,
                pass_breakpoint: self.pass_breakpoint,
                cycle: self.cycle,
                files: self.env.files(),
                freed: self.env.freed(),
                run_free: self.web_runfullspeed,
                step_once: self.web_step,
                verbose: self.verbose,
                listing: self.cur_inst@,
                changes: self.memory_changes@,
            }),
            self.device_list() == self.claims@,
            self.wf() == (self.env.wf() && self.claims@.len() == self.devices@.len()),
    {
    }

    /// What `wf` states of a machine's view.
    pub proof fn wf_view(&self)
        ensures
            self.wf() ==> crate::environment::numbers_valid(self@.files, self@.freed),
            self@.registers.len() == 32,
            self@.registers[0] == 0,
    {
    }

    /// A machine with its program counter at `starting_addr` and its stack
    /// pointer at `stack_addr`, or, without one, at the top of memory
    /// rounded down to a multiple of 16. Each device is asked once for the
    /// range that it claims.
    pub fn new(
        starting_addr: u32,
        stack_addr: Option<u32>,
        memory_top: u32,
        memmap: Box<[u8]>,
        verbose: bool,
        devices: Vec<Device>,
    ) -> (m: Machine)
        ensures
            m.wf(),
            m.device_list().len() == devices@.len(),
            m@ == (MachineView {
                pc: starting_addr,
                registers: Seq::new(32, |i: int| 0u32).update(
                    2,
                    match stack_addr {
                        Some(sp) => sp,
                        None => memory_top & !0xfu32,
                    },
                ),
                ram: memmap@,
                top: memory_top,
                breakpoints: Seq::empty(),
                pass_breakpoint: false,
                cycle: 0,
                files: Seq::empty(),
                freed: Seq::empty(),
                run_free: true,
                step_once: false,
                verbose,
                listing: Seq::empty(),
                changes: Seq::empty(),
            }),
    {
        let mut claims: Vec<(u32, u32)> = Vec::new();
        let mut i: usize = 0;
        while i < devices.len()
            invariant
                i <= devices@.len(),
                claims@.len() == i,
            decreases devices@.len() - i,
        {
            claims.push(devices[i].claim());
            i += 1;
        }
        let mut m = Machine {
            memory: Memory::new(memmap, memory_top),
            registers: [0;31],
            pc: starting_addr,
            pass_breakpoint: false,
            breakpoints: Vec::new(),
            env: Environment::new(),
            cur_inst: String::new(),
            memory_changes: Vec::new(),
            web_runfullspeed: true,
            web_step: false,
            verbose,
            cycle: 0,
            devices,
            claims,
        };
        // Set the stack pointer to the lowest invalid memory address by default, aligning down to
        // nearest 16 bytes
        let sp = match stack_addr {
            Some(sp) => sp,
            None => memory_top & !0xfu32,
        };
        m.set_reg(Register::SP, sp);
        assert(m@.registers =~= Seq::new(32, |i: int| 0u32).update(2, sp));
        m
    }

    /// Return a modifiable list of breakpoints
    pub fn breakpoints(&mut self) -> (list: &mut Vec<u32>)
        ensures
            list@ == old(self)@.breakpoints,
            final(self)@ == (MachineView { breakpoints: final(list)@, ..old(self)@ }),
            final(self).device_list() == old(self).device_list(),
            final(self).wf() == old(self).wf(),
    {
        &mut self.breakpoints
    }

    /// What a register holds; `Zero` always holds 0.
    pub fn get_reg(&self, reg: Register) -> (value: u32)
        ensures
            value == self@.registers[reg.index()],
    {
        let n = reg.to_num();
        // Accessing the zero register always returns 0
        if n == 0 {
            0
        } else {
            self.registers[n - 1]
        }
    }

    /// Writes a register; a write to `Zero` is dropped.
    pub fn set_reg(&mut self, reg: Register, value: u32)
        ensures
            final(self)@ == (MachineView {
                registers: written(old(self)@.registers, reg, value),
                ..old(self)@
            }),
            final(self).device_list() == old(self).device_list(),
            final(self).wf() == old(self).wf(),
    {
        let reg_num = reg.to_num();
        // Writes to the zero register are NOPs
        if reg_num == 0 {
            return ;
        } else {
            self.registers[reg_num - 1] = value;
            assert(self@.registers =~= written(old(self)@.registers, reg, value));
        }
    }

    /// The program counter.
    pub fn pc(&self) -> (pc: u32)
        ensures
            pc == self@.pc,
    {
        self.pc
    }

    /// Moves the program counter.
    pub fn set_pc(&mut self, pc: u32)
        ensures
            final(self)@ == (MachineView { pc, ..old(self)@ }),
            final(self).device_list() == old(self).device_list(),
            final(self).wf() == old(self).wf(),
    {
        self.pc = pc;
    }

    /// The number of instructions that have retired.
    pub fn cycle(&self) -> (cycle: u128)
        ensures
            cycle == self@.cycle,
    {
        self.cycle
    }

    /// The bytes of RAM.
    pub fn memory(&self) -> (bytes: &[u8])
        ensures
            bytes@ == self@.ram,
    {
        self.memory.bytes()
    }

    /// The address just above the last usable one; 0 for the whole space.
    pub fn memory_top(&self) -> (top: u32)
        ensures
            top == self@.top,
    {
        self.memory.memory_top()
    }

    /// The registers `x1` to `x31`.
    pub fn registers(&self) -> (stored: [u32; 31])
        ensures
            register_view(stored@) == self@.registers,
    {
        self.registers
    }

    /// Whether the next step passes a breakpoint at the program counter.
    pub fn pass_breakpoint(&self) -> (pass: bool)
        ensures
            pass == self@.pass_breakpoint,
    {
        self.pass_breakpoint
    }

    /// Lets the next step pass a breakpoint at the program counter, or
    /// takes the pass back.
    pub fn set_pass_breakpoint(&mut self, pass: bool)
        ensures
            final(self)@ == (MachineView { pass_breakpoint: pass, ..old(self)@ }),
            final(self).device_list() == old(self).device_list(),
            final(self).wf() == old(self).wf(),
    {
        self.pass_breakpoint = pass;
    }

    /// Whether the state is to be dumped after every step.
    pub fn verbose(&self) -> (verbose: bool)
        ensures
            verbose == self@.verbose,
    {
        self.verbose
    }

    /// Whether the machine runs on without being told to step.
    pub fn runs_free(&self) -> (free: bool)
        ensures
            free == self@.run_free,
    {
        self.web_runfullspeed
    }

    /// Lets the machine run on, or stops it until a step is asked for.
    pub fn set_runs_free(&mut self, free: bool)
        ensures
            final(self)@ == (MachineView { run_free: free, ..old(self)@ }),
            final(self).device_list() == old(self).device_list(),
            final(self).wf() == old(self).wf(),
    {
        self.web_runfullspeed = free;
    }

    /// Whether one step was asked for while the machine is stopped.
    pub fn step_requested(&self) -> (asked: bool)
        ensures
            asked == self@.step_once,
    {
        self.web_step
    }

    /// Asks for one step of a stopped machine, or takes the request back.
    pub fn set_step_requested(&mut self, asked: bool)
        ensures
            final(self)@ == (MachineView { step_once: asked, ..old(self)@ }),
            final(self).device_list() == old(self).device_list(),
            final(self).wf() == old(self).wf(),
    {
        self.web_step = asked;
    }

    /// Starts the clock of the `time` system call anew.
    pub fn reset_timer(&mut self)
        ensures
            final(self)@ == old(self)@,
            final(self).device_list() == old(self).device_list(),
            final(self).wf() == old(self).wf(),
    {
        self.env.reset_timer();
    }

    /// Writes a byte to RAM, past the devices; does nothing where the
    /// address is not in RAM.
    pub fn poke_ram(&mut self, data: u8, addr: u32)
        ensures
            final(self)@ == crate::bus::ram_store(old(self)@, 1, data as u32, addr).0,
            final(self).device_list() == old(self).device_list(),
            final(self).wf() == old(self).wf(),
    {
        let _ = self.memory.store_byte(data, addr);
    }

    /// The listing of the instruction that was next when the machine last
    /// published itself.
    pub fn current_instruction(&self) -> (r: &String)
        ensures
            r@ == self.listed(),
    {
        &self.cur_inst
    }

    /// Keeps the listing of the instruction that is next.
    pub(crate) fn set_current(&mut self, listed: String)
        ensures
            final(self)@ == (MachineView { listing: listed@, ..old(self)@ }),
            final(self).device_list() == old(self).device_list(),
            final(self).wf() == old(self).wf(),
    {
        self.cur_inst = listed;
    }

    /// The places of memory that have changed since the last instruction,
    /// each with its value.
    pub fn changes(&self) -> (r: &Vec<(u32, u32)>)
        ensures
            r@ == self.recorded(),
    {
        &self.memory_changes
    }
}

} // verus!
