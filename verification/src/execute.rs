use vstd::prelude::*;

use crate::alu::{
    difference, div, div_result, divu, divu_result, mul_low, mulh, mulhsu, mulhu, offset_by, rem,
    rem_result, remu, remu_result, shifted_left, shifted_right, shifted_right_signed, sll, slt,
    sltu, sra, srl, sum, upper_word,
};
use crate::bits::{low16, low8, signed32, u32_of, unsigned16, unsigned8, wrap32};
use crate::bus::{device_answer, fetched, ram_byte, ram_halfword, ram_store, ram_word};
use crate::decode::ParseError;
use crate::environment::{
    request_of, request_view, syscall_post, Guest, HostReply, HostRequest, RequestView,
};
use crate::error::ExecutionError;
use crate::machine::{device_space, written, Machine, MachineView};
use crate::opcode::{decode, Operation};
use crate::register::Register;

verus! {

/// How many bytes a load or a store moves.
#[derive(Clone, Copy, Debug, PartialEq, Eq, Structural)]
pub enum Width {
    Byte,
    Halfword,
    Word,
}

impl Width {
    /// The number of bytes.
    pub open spec fn bytes(self) -> int {
        match self {
            Width::Byte => 1,
            Width::Halfword => 2,
            Width::Word => 4,
        }
    }
}

/// What an instruction does, with its operands read and its result
/// computed.
pub enum Effect {
    /// Write the value to the register and go on with the next instruction.
    Write(Register, u32),
    /// Write the address of the next instruction to the register and go on
    /// at the target.
    Jump(Register, u32),
    /// Go on at the target.
    Branch(u32),
    /// Load `width` bytes at the address into the register, sign-extended
    /// where `signed` is set.
    Load { rd: Register, addr: u32, width: Width, signed: bool },
    /// Store the low `width` bytes of the data at the address.
    Store { addr: u32, width: Width, data: u32 },
    /// Call the environment.
    Call,
    /// Stop with this error; nothing changes.
    Stop(ExecutionError),
    /// Go on with the next instruction.
    Nothing,
}

/// What a register holds.
pub open spec fn reg(s: MachineView, r: Register) -> u32 {
    s.registers[r.index()]
}

/// 1 where the condition holds, else 0.
pub open spec fn flag(condition: bool) -> u32 {
    if condition {
        1
    } else {
        0
    }
}

/// The address after `base` at the signed distance `imm`, modulo 2^32.
pub open spec fn address(base: u32, imm: i32) -> u32 {
    wrap32(base + imm)
}

/// An address with bit 0 cleared.
pub open spec fn even(addr: u32) -> u32 {
    (addr - addr % 2) as u32
}

/// Where a branch goes on: at the target where it is taken, else at the
/// next instruction.
pub open spec fn branch(s: MachineView, taken: bool, imm: i32) -> Effect {
    Effect::Branch(
        if taken {
            address(s.pc, imm)
        } else {
            wrap32(s.pc + 4)
        },
    )
}

/// What the instruction `op` does in the state `s`.
#[verifier::opaque]
pub open spec fn effect_of(op: Operation, s: MachineView) -> Effect {
    match op {
        Operation::ADDI(rd, rs1, imm) => Effect::Write(rd, wrap32(reg(s, rs1) + imm)),
        Operation::SLTI(rd, rs1, imm) => Effect::Write(rd, flag(signed32(reg(s, rs1)) < imm)),
        Operation::SLTIU(rd, rs1, imm) => Effect::Write(rd, flag(reg(s, rs1) < wrap32(imm as int))),
        Operation::ANDI(rd, rs1, imm) => Effect::Write(rd, reg(s, rs1) & wrap32(imm as int)),
        Operation::ORI(rd, rs1, imm) => Effect::Write(rd, reg(s, rs1) | wrap32(imm as int)),
        Operation::XORI(rd, rs1, imm) => Effect::Write(rd, reg(s, rs1) ^ wrap32(imm as int)),
        Operation::SLLI(rd, rs1, imm) => Effect::Write(
            rd,
            shifted_left(reg(s, rs1), wrap32(imm as int)),
        ),
        Operation::SRLI(rd, rs1, imm) => Effect::Write(
            rd,
            shifted_right(reg(s, rs1), wrap32(imm as int)),
        ),
        Operation::SRAI(rd, rs1, imm) => Effect::Write(
            rd,
            shifted_right_signed(reg(s, rs1), wrap32(imm as int)),
        ),
        Operation::LUI(rd, imm) => Effect::Write(rd, wrap32(imm as int)),
        Operation::AUIPC(rd, imm) => Effect::Write(rd, wrap32(s.pc + imm)),
        Operation::ADD(rd, rs1, rs2) => Effect::Write(rd, wrap32(reg(s, rs1) + reg(s, rs2))),
        Operation::SUB(rd, rs1, rs2) => Effect::Write(rd, wrap32(reg(s, rs1) - reg(s, rs2))),
        Operation::SLTU(rd, rs1, rs2) => Effect::Write(rd, flag(reg(s, rs1) < reg(s, rs2))),
        Operation::SLT(rd, rs1, rs2) => Effect::Write(
            rd,
            flag(signed32(reg(s, rs1)) < signed32(reg(s, rs2))),
        ),
        Operation::AND(rd, rs1, rs2) => Effect::Write(rd, reg(s, rs1) & reg(s, rs2)),
        Operation::OR(rd, rs1, rs2) => Effect::Write(rd, reg(s, rs1) | reg(s, rs2)),
        Operation::XOR(rd, rs1, rs2) => Effect::Write(rd, reg(s, rs1) ^ reg(s, rs2)),
        Operation::SLL(rd, rs1, rs2) => Effect::Write(rd, shifted_left(reg(s, rs1), reg(s, rs2))),
        Operation::SRL(rd, rs1, rs2) => Effect::Write(rd, shifted_right(reg(s, rs1), reg(s, rs2))),
        Operation::SRA(rd, rs1, rs2) => Effect::Write(
            rd,
            shifted_right_signed(reg(s, rs1), reg(s, rs2)),
        ),
        Operation::MUL(rd, rs1, rs2) => Effect::Write(
            rd,
            wrap32(signed32(reg(s, rs1)) * signed32(reg(s, rs2))),
        ),
        Operation::MULH(rd, rs1, rs2) => Effect::Write(
            rd,
            upper_word(signed32(reg(s, rs1)) * signed32(reg(s, rs2))),
        ),
        Operation::MULHSU(rd, rs1, rs2) => Effect::Write(
            rd,
            upper_word(signed32(reg(s, rs1)) * reg(s, rs2)),
        ),
        Operation::MULHU(rd, rs1, rs2) => Effect::Write(rd, upper_word(reg(s, rs1) * reg(s, rs2))),
        Operation::DIV(rd, rs1, rs2) => Effect::Write(rd, div_result(reg(s, rs1), reg(s, rs2))),
        Operation::DIVU(rd, rs1, rs2) => Effect::Write(rd, divu_result(reg(s, rs1), reg(s, rs2))),
        Operation::REM(rd, rs1, rs2) => Effect::Write(rd, rem_result(reg(s, rs1), reg(s, rs2))),
        Operation::REMU(rd, rs1, rs2) => Effect::Write(rd, remu_result(reg(s, rs1), reg(s, rs2))),
        Operation::JAL(rd, imm) => Effect::Jump(rd, even(address(s.pc, imm))),
        // A return to address zero stops execution; the low byte of A0 is
        // the status
        Operation::JALR(rd, rs1, imm) => if rs1 == Register::RA && reg(s, Register::RA) == 0 {
            Effect::Stop(
                ExecutionError::FinishedExecution((reg(s, Register::A0) % 0x100) as u8),
            )
        } else {
            Effect::Jump(rd, even(address(reg(s, rs1), imm)))
        },
        Operation::BEQ(rs1, rs2, imm) => branch(s, reg(s, rs1) == reg(s, rs2), imm),
        Operation::BNE(rs1, rs2, imm) => branch(s, reg(s, rs1) != reg(s, rs2), imm),
        Operation::BLT(rs1, rs2, imm) => branch(
            s,
            signed32(reg(s, rs1)) < signed32(reg(s, rs2)),
            imm,
        ),
        Operation::BLTU(rs1, rs2, imm) => branch(s, reg(s, rs1) < reg(s, rs2), imm),
        Operation::BGE(rs1, rs2, imm) => branch(
            s,
            signed32(reg(s, rs1)) >= signed32(reg(s, rs2)),
            imm,
        ),
        Operation::BGEU(rs1, rs2, imm) => branch(s, reg(s, rs1) >= reg(s, rs2), imm),
        Operation::LW(rd, rs1, imm) => Effect::Load {
            rd,
            addr: address(reg(s, rs1), imm),
            width: Width::Word,
            signed: false,
        },
        Operation::LH(rd, rs1, imm) => Effect::Load {
            rd,
            addr: address(reg(s, rs1), imm),
            width: Width::Halfword,
            signed: true,
        },
        Operation::LHU(rd, rs1, imm) => Effect::Load {
            rd,
            addr: address(reg(s, rs1), imm),
            width: Width::Halfword,
            signed: false,
        },
        Operation::LB(rd, rs1, imm) => Effect::Load {
            rd,
            addr: address(reg(s, rs1), imm),
            width: Width::Byte,
            signed: true,
        },
        Operation::LBU(rd, rs1, imm) => Effect::Load {
            rd,
            addr: address(reg(s, rs1), imm),
            width: Width::Byte,
            signed: false,
        },
        Operation::SW(rs1, rs2, imm) => Effect::Store {
            addr: address(reg(s, rs1), imm),
            width: Width::Word,
            data: reg(s, rs2),
        },
        Operation::SH(rs1, rs2, imm) => Effect::Store {
            addr: address(reg(s, rs1), imm),
            width: Width::Halfword,
            data: reg(s, rs2),
        },
        Operation::SB(rs1, rs2, imm) => Effect::Store {
            addr: address(reg(s, rs1), imm),
            width: Width::Byte,
            data: reg(s, rs2),
        },
        Operation::ECALL => Effect::Call,
        Operation::EBREAK => Effect::Stop(ExecutionError::Breakpoint(s.pc)),
        Operation::FENCE => Effect::Nothing,
        Operation::HINT => Effect::Nothing,
        Operation::NOP => Effect::Nothing,
    }
}

/// The value that a load from RAM brings into the register.
pub open spec fn ram_load(s: MachineView, addr: u32, width: Width, signed: bool) -> Result<
    u32,
    ExecutionError,
> {
    if width == Width::Byte {
        match ram_byte(s, addr) {
            Ok(v) => Ok(
                if signed {
                    wrap32(v as int)
                } else {
                    unsigned8(v as int) as u32
                },
            ),
            Err(e) => Err(e),
        }
    } else if width == Width::Halfword {
        match ram_halfword(s, addr) {
            Ok(v) => Ok(
                if signed {
                    wrap32(v as int)
                } else {
                    unsigned16(v as int) as u32
                },
            ),
            Err(e) => Err(e),
        }
    } else {
        ram_word(s, addr)
    }
}

/// The values that a load of this width and signedness can bring.
pub open spec fn loadable(width: Width, signed: bool, value: u32) -> bool {
    if width == Width::Byte {
        if signed {
            -0x80 <= signed32(value) < 0x80
        } else {
            value < 0x100
        }
    } else if width == Width::Halfword {
        if signed {
            -0x8000 <= signed32(value) < 0x8000
        } else {
            value < 0x1_0000
        }
    } else {
        true
    }
}

/// The count of retired instructions after one more; it wraps at 2^128.
pub open spec fn next_cycle(cycle: u128) -> u128 {
    if cycle == u128::MAX {
        0
    } else {
        (cycle + 1) as u128
    }
}

/// The state after an instruction has retired with the program counter at
/// `pc`.
pub open spec fn retired(s: MachineView, pc: u32) -> MachineView {
    MachineView { pc, cycle: next_cycle(s.cycle), ..s }
}

/// The state with a register written.
pub open spec fn with_register(s: MachineView, rd: Register, value: u32) -> MachineView {
    MachineView { registers: written(s.registers, rd, value), ..s }
}

/// The state that a system call works on.
pub open spec fn guest_of(s: MachineView) -> Guest {
    Guest { files: s.files, freed: s.freed, ram: s.ram, top: s.top }
}

/// The state with what a system call works on replaced.
pub open spec fn with_guest(s: MachineView, g: Guest) -> MachineView {
    MachineView { files: g.files, freed: g.freed, ram: g.ram, ..s }
}

/// How an effect changes the state `s` into `post`, and what the step
/// returns. An effect that fails leaves the state as it is. Of a device
/// only this is known: it answers or fails, and a store to it changes
/// nothing of the machine.
pub open spec fn effect_post(
    e: Effect,
    s: MachineView,
    devices: Seq<(u32, u32)>,
    reply: Option<HostReply>,
    post: MachineView,
    r: Result<(), ExecutionError>,
) -> bool {
    let next = wrap32(s.pc + 4);
    match e {
        Effect::Write(rd, value) => post == retired(with_register(s, rd, value), next) && r is Ok,
        Effect::Jump(rd, target) => post == retired(with_register(s, rd, next), target) && r is Ok,
        Effect::Branch(target) => post == retired(s, target) && r is Ok,
        Effect::Load { rd, addr, width, signed } => if device_space(addr) {
            &&& device_answer(devices, addr, r)
            &&& match r {
                Ok(_) => {
                    &&& post == retired(with_register(s, rd, post.registers[rd.index()]), next)
                    &&& rd != Register::Zero ==> loadable(width, signed, post.registers[rd.index()])
                },
                Err(_) => post == s,
            }
        } else {
            match ram_load(s, addr, width, signed) {
                Ok(value) => post == retired(with_register(s, rd, value), next) && r is Ok,
                Err(e) => post == s && r == Err::<(), ExecutionError>(e),
            }
        },
        Effect::Store { addr, width, data } => if device_space(addr) {
            &&& device_answer(devices, addr, r)
            &&& match r {
                Ok(_) => post == retired(s, next),
                Err(_) => post == s,
            }
        } else {
            match ram_store(s, width.bytes(), data, addr).1 {
                Ok(_) => post == retired(ram_store(s, width.bytes(), data, addr).0, next) && r is Ok,
                Err(e) => post == s && r == Err::<(), ExecutionError>(e),
            }
        },
        Effect::Call => {
            let result: Result<i32, ExecutionError> = match r {
                Ok(_) => Ok(signed32(post.registers[10]) as i32),
                Err(e) => Err(e),
            };
            &&& syscall_post(
                guest_of(s),
                reg(s, Register::A7),
                reg(s, Register::A0),
                reg(s, Register::A1),
                reg(s, Register::A2),
                reply,
                guest_of(post),
                result,
            )
            &&& match r {
                Ok(_) => post == retired(
                    with_register(with_guest(s, guest_of(post)), Register::A0, post.registers[10]),
                    next,
                ),
                Err(_) => post == with_guest(s, guest_of(post)),
            }
        },
        Effect::Stop(e) => post == s && r == Err::<(), ExecutionError>(e),
        Effect::Nothing => post == retired(s, next) && r is Ok,
    }
}

/// One step of the machine from `pre` to `post`, returning `r`: stop at a
/// breakpoint unless the pass is set; else use the pass up, fetch, decode,
/// and do what the instruction says.
pub open spec fn step_post(
    pre: MachineView,
    devices: Seq<(u32, u32)>,
    reply: Option<HostReply>,
    post: MachineView,
    r: Result<(), ExecutionError>,
) -> bool {
    if pre.breakpoints.contains(pre.pc) && !pre.pass_breakpoint {
        post == pre && r == Err::<(), ExecutionError>(ExecutionError::Breakpoint(pre.pc))
    } else {
        let s = MachineView { pass_breakpoint: false, ..pre };
        match fetched(s, s.pc) {
            Err(e) => post == s && r == Err::<(), ExecutionError>(e),
            Ok(w) => match decode(w) {
                Err(e) => post == s && r == Err::<(), ExecutionError>(
                    ExecutionError::ParseError(e),
                ),
                Ok(op) => effect_post(effect_of(op, s), s, devices, reply, post, r),
            },
        }
    }
}

/// The instructions that may go on elsewhere than at the next instruction.
pub open spec fn transfers_control(op: Operation) -> bool {
    match op {
        Operation::JAL(..) => true,
        Operation::JALR(..) => true,
        Operation::BEQ(..) => true,
        Operation::BNE(..) => true,
        Operation::BLT(..) => true,
        Operation::BLTU(..) => true,
        Operation::BGE(..) => true,
        Operation::BGEU(..) => true,
        _ => false,
    }
}

/// The instruction that a step from `pre` carries out, where it gets as
/// far as that.
pub open spec fn instruction_at(pre: MachineView) -> Option<Operation> {
    match fetched(pre, pre.pc) {
        Ok(w) => match decode(w) {
            Ok(op) => Some(op),
            Err(_) => None,
        },
        Err(_) => None,
    }
}

/// Only the instructions that transfer control jump or branch.
pub proof fn effect_without_transfer(op: Operation, s: MachineView)
    requires
        !transfers_control(op),
    ensures
        effect_of(op, s) !is Jump,
        effect_of(op, s) !is Branch,
{
    reveal(effect_of);
}

/// An effect that succeeds and is neither a jump nor a branch leaves the
/// program counter four bytes on.
pub proof fn effect_goes_on(
    e: Effect,
    s: MachineView,
    devices: Seq<(u32, u32)>,
    reply: Option<HostReply>,
    post: MachineView,
    r: Result<(), ExecutionError>,
)
    requires
        effect_post(e, s, devices, reply, post, r),
        r is Ok,
        e !is Jump,
        e !is Branch,
    ensures
        post.pc == wrap32(s.pc + 4),
{
}

/// A step that succeeds on an instruction which neither jumps nor branches
/// leaves the program counter four bytes on, modulo 2^32.
pub proof fn next_instruction_follows(
    pre: MachineView,
    devices: Seq<(u32, u32)>,
    reply: Option<HostReply>,
    post: MachineView,
    r: Result<(), ExecutionError>,
)
    requires
        step_post(pre, devices, reply, post, r),
        r is Ok,
        instruction_at(pre) matches Some(op) && !transfers_control(op),
    ensures
        post.pc == wrap32(pre.pc + 4),
        pre.pc <= 0xffff_fffb ==> post.pc == pre.pc + 4,
{
    let s = MachineView { pass_breakpoint: false, ..pre };
    let op = instruction_at(pre)->0;
    assert(fetched(s, s.pc) == fetched(pre, pre.pc));
    effect_without_transfer(op, s);
    effect_goes_on(effect_of(op, s), s, devices, reply, post, r);
}

/// A step from a breakpoint, without the pass, fails with `Breakpoint` and
/// changes nothing.
pub proof fn breakpoint_stops(
    pre: MachineView,
    devices: Seq<(u32, u32)>,
    reply: Option<HostReply>,
    post: MachineView,
    r: Result<(), ExecutionError>,
)
    requires
        pre.breakpoints.contains(pre.pc),
        !pre.pass_breakpoint,
        step_post(pre, devices, reply, post, r),
    ensures
        r == Err::<(), ExecutionError>(ExecutionError::Breakpoint(pre.pc)),
        post == pre,
{
}

/// With the pass set, a step does what the instruction at the program
/// counter says, whatever breakpoints are set, and uses the pass up.
pub proof fn pass_steps_over(
    pre: MachineView,
    devices: Seq<(u32, u32)>,
    reply: Option<HostReply>,
    post: MachineView,
    r: Result<(), ExecutionError>,
)
    requires
        pre.pass_breakpoint,
        step_post(pre, devices, reply, post, r),
    ensures
        !post.pass_breakpoint,
        post.breakpoints == pre.breakpoints,
        match instruction_at(pre) {
            Some(op) => effect_post(
                effect_of(op, MachineView { pass_breakpoint: false, ..pre }),
                MachineView { pass_breakpoint: false, ..pre },
                devices,
                reply,
                post,
                r,
            ),
            None => r is Err && !(r matches Err(ExecutionError::Breakpoint(_))),
        },
        instruction_at(pre) == Some(Operation::ADDI(Register::Zero, Register::Zero, 0)) ==> r is Ok
            && post.pc == wrap32(pre.pc + 4),
{
    let s = MachineView { pass_breakpoint: false, ..pre };
    assert(fetched(s, s.pc) == fetched(pre, pre.pc));
    assert(effect_of(Operation::ADDI(Register::Zero, Register::Zero, 0), s) is Write) by {
        reveal(effect_of);
    }
}

/// What the host has to do before the next step: the request of the system
/// call, where the next step carries out an `ECALL`.
pub open spec fn pending(pre: MachineView) -> Option<RequestView> {
    if pre.breakpoints.contains(pre.pc) && !pre.pass_breakpoint {
        None
    } else {
        match fetched(pre, pre.pc) {
            Err(e) => None,
            Ok(w) => if decode(w) == Ok::<Operation, ParseError>(Operation::ECALL) {
                request_of(
                    pre.files,
                    pre.freed,
                    pre.ram,
                    pre.top,
                    reg(pre, Register::A7),
                    reg(pre, Register::A0),
                    reg(pre, Register::A1),
                    reg(pre, Register::A2),
                )
            } else {
                None
            },
        }
    }
}

impl Machine {
    /// Whether a breakpoint is set at the program counter.
    fn at_breakpoint(&self) -> (r: bool)
        ensures
            r == self@.breakpoints.contains(self@.pc),
    {
        proof {
            self.unfold();
        }
        let mut i: usize = 0;
        while i < self.breakpoints.len()
            invariant
                i <= self.breakpoints@.len(),
                self@.breakpoints == self.breakpoints@,
                self@.pc == self.pc,
                forall|j: int| 0 <= j < i ==> self.breakpoints@[j] != self.pc,
            decreases self.breakpoints@.len() - i,
        {
            if self.breakpoints[i] == self.pc {
                assert(self@.breakpoints[i as int] == self@.pc);
                return true;
            }
            i += 1;
        }
        false
    }

    /// Where a branch goes on.
    fn branch_to(&self, taken: bool, imm: i32) -> (e: Effect)
        ensures
            e == branch(self@, taken, imm),
    {
        proof {
            self.unfold();
        }
        if taken {
            Effect::Branch(offset_by(self.pc, imm))
        } else {
            Effect::Branch(self.pc.wrapping_add(4))
        }
    }

    /// Reads the operands of an instruction and computes what it does.
    fn effect(&self, op: Operation) -> (e: Effect)
        ensures
            e == effect_of(op, self@),
    {
        proof {
            self.unfold();
            reveal(effect_of);
        }
        match op {
            Operation::ADDI(rd, rs1, imm) => Effect::Write(rd, offset_by(self.get_reg(rs1), imm)),
            Operation::SLTI(rd, rs1, imm) => Effect::Write(
                rd,
                slt(self.get_reg(rs1), u32_of(imm)),
            ),
            Operation::SLTIU(rd, rs1, imm) => Effect::Write(
                rd,
                sltu(self.get_reg(rs1), u32_of(imm)),
            ),
            Operation::ANDI(rd, rs1, imm) => Effect::Write(rd, self.get_reg(rs1) & u32_of(imm)),
            Operation::ORI(rd, rs1, imm) => Effect::Write(rd, self.get_reg(rs1) | u32_of(imm)),
            Operation::XORI(rd, rs1, imm) => Effect::Write(rd, self.get_reg(rs1) ^ u32_of(imm)),
            Operation::SLLI(rd, rs1, imm) => Effect::Write(rd, sll(self.get_reg(rs1), u32_of(imm))),
            Operation::SRLI(rd, rs1, imm) => Effect::Write(rd, srl(self.get_reg(rs1), u32_of(imm))),
            // Arithmetic shifts are the default on signed numbers
            Operation::SRAI(rd, rs1, imm) => Effect::Write(rd, sra(self.get_reg(rs1), u32_of(imm))),
            // NOTE: It is assumed that during decoding, imm is shifted 12 bits over and as such
            // is already in the right format here
            Operation::LUI(rd, imm) => Effect::Write(rd, u32_of(imm)),
            Operation::AUIPC(rd, imm) => Effect::Write(rd, offset_by(self.pc, imm)),
            // Integer, register, register instructions
            // RD first, then SRC1, then SRC2
            Operation::ADD(rd, rs1, rs2) => Effect::Write(
                rd,
                sum(self.get_reg(rs1), self.get_reg(rs2)),
            ),
            Operation::SUB(rd, rs1, rs2) => Effect::Write(
                rd,
                difference(self.get_reg(rs1), self.get_reg(rs2)),
            ),
            Operation::SLTU(rd, rs1, rs2) => Effect::Write(
                rd,
                sltu(self.get_reg(rs1), self.get_reg(rs2)),
            ),
            Operation::SLT(rd, rs1, rs2) => Effect::Write(
                rd,
                slt(self.get_reg(rs1), self.get_reg(rs2)),
            ),
            Operation::AND(rd, rs1, rs2) => Effect::Write(
                rd,
                self.get_reg(rs1) & self.get_reg(rs2),
            ),
            Operation::OR(rd, rs1, rs2) => Effect::Write(rd, self.get_reg(rs1) | self.get_reg(rs2)),
            Operation::XOR(rd, rs1, rs2) => Effect::Write(
                rd,
                self.get_reg(rs1) ^ self.get_reg(rs2),
            ),
            Operation::SLL(rd, rs1, rs2) => Effect::Write(
                rd,
                sll(self.get_reg(rs1), self.get_reg(rs2)),
            ),
            Operation::SRL(rd, rs1, rs2) => Effect::Write(
                rd,
                srl(self.get_reg(rs1), self.get_reg(rs2)),
            ),
            Operation::SRA(rd, rs1, rs2) => Effect::Write(
                rd,
                sra(self.get_reg(rs1), self.get_reg(rs2)),
            ),
            /* Multiplication / Division */
            Operation::MUL(rd, rs1, rs2) => Effect::Write(
                rd,
                mul_low(self.get_reg(rs1), self.get_reg(rs2)),
            ),
            Operation::MULH(rd, rs1, rs2) => Effect::Write(
                rd,
                mulh(self.get_reg(rs1), self.get_reg(rs2)),
            ),
            Operation::MULHSU(rd, rs1, rs2) => Effect::Write(
                rd,
                mulhsu(self.get_reg(rs1), self.get_reg(rs2)),
            ),
            Operation::MULHU(rd, rs1, rs2) => Effect::Write(
                rd,
                mulhu(self.get_reg(rs1), self.get_reg(rs2)),
            ),
            Operation::DIV(rd, rs1, rs2) => Effect::Write(
                rd,
                div(self.get_reg(rs1), self.get_reg(rs2)),
            ),
            Operation::DIVU(rd, rs1, rs2) => Effect::Write(
                rd,
                divu(self.get_reg(rs1), self.get_reg(rs2)),
            ),
            Operation::REM(rd, rs1, rs2) => Effect::Write(
                rd,
                rem(self.get_reg(rs1), self.get_reg(rs2)),
            ),
            Operation::REMU(rd, rs1, rs2) => Effect::Write(
                rd,
                remu(self.get_reg(rs1), self.get_reg(rs2)),
            ),
            op => self.effect_of_transfer(op),
        }
    }

    /// `effect`, for the instructions that jump, branch, load, store or
    /// call, and for those that do nothing.
    fn effect_of_transfer(&self, op: Operation) -> (e: Effect)
        requires
            effect_of(op, self@) !is Write,
        ensures
            e == effect_of(op, self@),
    {
        proof {
            self.unfold();
            reveal(effect_of);
        }
        match op {
            // Control transfer instructions
            // Normal, unconditional jumps use x0 as the register
            Operation::JAL(rd, imm) => Effect::Jump(rd, clear_bit_0(offset_by(self.pc, imm))),
            Operation::JALR(rd, rs1, imm) => {
                // A RET to address zero will stop execution
                // The a0 register contains the status code to return
                if rs1 == Register::RA && self.get_reg(Register::RA) == 0 {
                    Effect::Stop(
                        ExecutionError::FinishedExecution(low8(self.get_reg(Register::A0))),
                    )
                } else {
                    // Add imm to rs1 and zero out lowest bit
                    Effect::Jump(rd, clear_bit_0(offset_by(self.get_reg(rs1), imm)))
                }
            },
            // Conditional branches
            Operation::BEQ(rs1, rs2, imm) => self.branch_to(
                self.get_reg(rs1) == self.get_reg(rs2),
                imm,
            ),
            Operation::BNE(rs1, rs2, imm) => self.branch_to(
                self.get_reg(rs1) != self.get_reg(rs2),
                imm,
            ),
            Operation::BLT(rs1, rs2, imm) => self.branch_to(
                slt(self.get_reg(rs1), self.get_reg(rs2)) == 1,
                imm,
            ),
            Operation::BLTU(rs1, rs2, imm) => self.branch_to(
                self.get_reg(rs1) < self.get_reg(rs2),
                imm,
            ),
            Operation::BGE(rs1, rs2, imm) => self.branch_to(
                slt(self.get_reg(rs1), self.get_reg(rs2)) == 0,
                imm,
            ),
            Operation::BGEU(rs1, rs2, imm) => self.branch_to(
                self.get_reg(rs1) >= self.get_reg(rs2),
                imm,
            ),
            // Loads and stores
            Operation::LW(rd, rs1, imm) => Effect::Load {
                rd,
                addr: offset_by(self.get_reg(rs1), imm),
                width: Width::Word,
                signed: false,
            },
            Operation::LH(rd, rs1, imm) => Effect::Load {
                rd,
                addr: offset_by(self.get_reg(rs1), imm),
                width: Width::Halfword,
                signed: true,
            },
            Operation::LHU(rd, rs1, imm) => Effect::Load {
                rd,
                addr: offset_by(self.get_reg(rs1), imm),
                width: Width::Halfword,
                signed: false,
            },
            Operation::LB(rd, rs1, imm) => Effect::Load {
                rd,
                addr: offset_by(self.get_reg(rs1), imm),
                width: Width::Byte,
                signed: true,
            },
            Operation::LBU(rd, rs1, imm) => Effect::Load {
                rd,
                addr: offset_by(self.get_reg(rs1), imm),
                width: Width::Byte,
                signed: false,
            },
            Operation::SW(rs1, rs2, imm) => Effect::Store {
                addr: offset_by(self.get_reg(rs1), imm),
                width: Width::Word,
                data: self.get_reg(rs2),
            },
            Operation::SH(rs1, rs2, imm) => Effect::Store {
                addr: offset_by(self.get_reg(rs1), imm),
                width: Width::Halfword,
                data: self.get_reg(rs2),
            },
            Operation::SB(rs1, rs2, imm) => Effect::Store {
                addr: offset_by(self.get_reg(rs1), imm),
                width: Width::Byte,
                data: self.get_reg(rs2),
            },
            // Evironment call/syscall
            Operation::ECALL => Effect::Call,
            // Breakpoint for us
            Operation::EBREAK => Effect::Stop(ExecutionError::Breakpoint(self.pc)),
            // Generic performance hint, we don't need to store any information for them
            // and they are effectively NOPs
            // Same with FENCE
            _ => Effect::Nothing,
        }
    }

    /// Counts the instruction and moves the program counter to `pc`.
    fn retire(&mut self, pc: u32)
        ensures
            final(self)@ == retired(old(self)@, pc),
            final(self).device_list() == old(self).device_list(),
            final(self).wf() == old(self).wf(),
    {
        proof {
            self.unfold();
        }
        self.pc = pc;
        self.cycle = self.cycle.wrapping_add(1);
        proof {
            self.unfold();
        }
    }

    /// Loads from RAM or a device, and extends what came to a word.
    fn load(&self, addr: u32, width: Width, signed: bool) -> (r: Result<u32, ExecutionError>)
        requires
            self.wf(),
        ensures
            device_space(addr) ==> device_answer(self.device_list(), addr, r) && (r matches Ok(v)
                ==> loadable(width, signed, v)),
            !device_space(addr) ==> r == ram_load(self@, addr, width, signed),
    {
        if width == Width::Byte {
            match self.read_byte(addr) {
                Ok(v) => Ok(
                    if signed {
                        u32_of(v as i32)
                    } else {
                        crate::bits::u8_of(v) as u32
                    },
                ),
                Err(e) => Err(e),
            }
        } else if width == Width::Halfword {
            match self.read_halfword(addr) {
                Ok(v) => Ok(
                    if signed {
                        u32_of(v as i32)
                    } else {
                        crate::bits::u16_of(v) as u32
                    },
                ),
                Err(e) => Err(e),
            }
        } else {
            self.read_word(addr)
        }
    }

    /// Stores the low `width` bytes of `data` to RAM or a device.
    fn store(&mut self, addr: u32, width: Width, data: u32) -> (r: Result<(), ExecutionError>)
        requires
            old(self).wf(),
        ensures
            final(self).device_list() == old(self).device_list(),
            final(self).wf() == old(self).wf(),
            device_space(addr) ==> final(self)@ == old(self)@ && device_answer(
                old(self).device_list(),
                addr,
                r,
            ),
            !device_space(addr) ==> (final(self)@, r) == ram_store(
                old(self)@,
                width.bytes(),
                data,
                addr,
            ),
    {
        if width == Width::Byte {
            self.store_byte(low8(data), addr)
        } else if width == Width::Halfword {
            self.store_halfword(low16(data), addr)
        } else {
            self.store_word(data, addr)
        }
    }

    /// Carries out a system call with what the host answered.
    fn call(&mut self, reply: Option<HostReply>) -> (r: Result<(), ExecutionError>)
        requires
            old(self).wf(),
        ensures
            final(self).wf(),
            final(self).device_list() == old(self).device_list(),
            effect_post(Effect::Call, old(self)@, old(self).device_list(), reply, final(self)@, r),
    {
        proof {
            self.unfold();
        }
        /* Fun with system calls! I think this is technically a BIOS? */
        // a7: syscall, a0-a2: arguments
        let a7 = self.get_reg(Register::A7);
        let a0 = self.get_reg(Register::A0);
        let a1 = self.get_reg(Register::A1);
        let a2 = self.get_reg(Register::A2);
        let next = self.pc.wrapping_add(4);
        let result = self.env.syscall(a7, a0, a1, a2, &mut self.memory, reply);
        proof {
            self.unfold();
        }
        match result {
            Ok(value) => {
                self.set_reg(Register::A0, u32_of(value));
                self.retire(next);
                Ok(())
            },
            Err(e) => Err(e),
        }
    }

    /// Does what an instruction says.
    fn apply(&mut self, e: Effect, reply: Option<HostReply>) -> (r: Result<(), ExecutionError>)
        requires
            old(self).wf(),
        ensures
            final(self).wf(),
            final(self).device_list() == old(self).device_list(),
            effect_post(e, old(self)@, old(self).device_list(), reply, final(self)@, r),
    {
        proof {
            self.unfold();
        }
        let next = self.pc.wrapping_add(4);
        match e {
            Effect::Write(rd, value) => {
                self.set_reg(rd, value);
                self.retire(next);
                Ok(())
            },
            Effect::Jump(rd, target) => {
                self.set_reg(rd, next);
                self.retire(target);
                Ok(())
            },
            Effect::Branch(target) => {
                self.retire(target);
                Ok(())
            },
            Effect::Load { rd, addr, width, signed } => {
                match self.load(addr, width, signed) {
                    Ok(value) => {
                        self.set_reg(rd, value);
                        self.retire(next);
                        proof {
                            rd.index_in_range();
                            self.wf_view();
                        }
                        Ok(())
                    },
                    Err(e) => Err(e),
                }
            },
            Effect::Store { addr, width, data } => {
                match self.store(addr, width, data) {
                    Ok(()) => {
                        self.retire(next);
                        Ok(())
                    },
                    Err(e) => Err(e),
                }
            },
            Effect::Call => self.call(reply),
            Effect::Stop(e) => Err(e),
            Effect::Nothing => {
                self.retire(next);
                Ok(())
            },
        }
    }

    /// Clears the pass over a breakpoint.
    fn use_pass(&mut self)
        ensures
            final(self)@ == (MachineView { pass_breakpoint: false, ..old(self)@ }),
            final(self).device_list() == old(self).device_list(),
            final(self).wf() == old(self).wf(),
    {
        proof {
            self.unfold();
        }
        self.pass_breakpoint = false;
        proof {
            self.unfold();
        }
    }

    /// Fetches and decodes the instruction at the program counter.
    fn fetch(&self) -> (r: Result<Operation, ExecutionError>)
        ensures
            match fetched(self@, self@.pc) {
                Err(e) => r == Err::<Operation, ExecutionError>(e),
                Ok(w) => match decode(w) {
                    Err(e) => r == Err::<Operation, ExecutionError>(ExecutionError::ParseError(e)),
                    Ok(op) => r == Ok::<Operation, ExecutionError>(op),
                },
            },
    {
        proof {
            self.unfold();
        }
        let bytes = match self.read_instruction_bytes(self.pc) {
            Ok(bytes) => bytes,
            Err(e) => { return Err(e); },
        };
        match Operation::from_bytes(bytes) {
            Ok(op) => Ok(op),
            Err(e) => Err(ExecutionError::ParseError(e)),
        }
    }

    /// Fetch, decode, and execute an instruction, given what the host
    /// answered to `host_request`. Without an answer, a system call that
    /// asks something of the host returns -1 to the guest.
    pub fn step_with(&mut self, reply: Option<HostReply>) -> (r: Result<(), ExecutionError>)
        requires
            old(self).wf(),
        ensures
            final(self).wf(),
            final(self).device_list() == old(self).device_list(),
            step_post(old(self)@, old(self).device_list(), reply, final(self)@, r),
    {
        proof {
            self.unfold();
        }
        // First, check if we're at a breakpoint, and cannot pass over it
        if self.at_breakpoint() && !self.pass_breakpoint {
            return Err(ExecutionError::Breakpoint(self.pc));
        }
        // Unset breakpoint pass
        self.use_pass();
        //Fetch and decode
        let op = match self.fetch() {
            Ok(op) => op,
            Err(e) => { return Err(e); },
        };
        let effect = self.effect(op);
        self.apply(effect, reply)
    }

    /// Fetch, decode, and execute an instruction
    pub fn step(&mut self) -> (r: Result<(), ExecutionError>)
        requires
            old(self).wf(),
        ensures
            final(self).wf(),
            final(self).device_list() == old(self).device_list(),
            step_post(old(self)@, old(self).device_list(), None, final(self)@, r),
    {
        self.step_with(None)
    }

    /// What the host has to do before the next step; its answer is the
    /// `reply` of `step_with`.
    pub fn host_request(&self) -> (r: Option<HostRequest>)
        requires
            self.wf(),
        ensures
            request_view(r) == pending(self@),
    {
        proof {
            self.unfold();
        }
        if self.at_breakpoint() && !self.pass_breakpoint {
            return None;
        }
        match self.fetch() {
            Ok(Operation::ECALL) => self.env.request(
                self.get_reg(Register::A7),
                self.get_reg(Register::A0),
                self.get_reg(Register::A1),
                self.get_reg(Register::A2),
                &self.memory,
            ),
            _ => None,
        }
    }
}

/// An address with bit 0 cleared.
pub fn clear_bit_0(addr: u32) -> (r: u32)
    ensures
        r == even(addr),
{
    assert(addr & !1u32 == addr - addr % 2) by (bit_vector);
    addr & !1u32
}

} // verus!
