use vstd::prelude::*;

use crate::bus::{fetched, ram_word};

use crate::machine::{device_space, register_view, Machine, MachineView};
use crate::opcode::{decode, listing_text, Operation};
use crate::register::Register;
use crate::statetransfer::MachineState;
use crate::text::{
    decimal, decimal_text, hex8, hex8_text, push_right_aligned, right_aligned, same_text,
};

verus! {

/// One line of the dump: a name, a colon, and a word as `0x` and eight
/// digits.
pub open spec fn dump_line(name: Seq<char>, value: u32) -> Seq<char> {
    name + ":"@ + hex8_text(value) + "\n"@
}

/// The lines of the dump for the registers 1 to `upto`.
pub open spec fn register_dump(registers: Seq<u32>, upto: int) -> Seq<char>
    decreases upto,
{
    if upto <= 0 {
        Seq::empty()
    } else {
        register_dump(registers, upto - 1) + dump_line(
            Register::numbered(upto).name_text(),
            registers[upto],
        )
    }
}

/// The dump of a machine: a line for the program counter, then one for
/// each register from 1 to 31.
pub open spec fn dump_text(s: MachineView) -> Seq<char> {
    dump_line("PC"@, s.pc) + register_dump(s.registers, 31)
}

/// How the instruction at an address is shown: its listing, or why there is
/// none.
pub open spec fn instruction_text(s: MachineView, addr: u32) -> Seq<char> {
    match fetched(s, addr) {
        Ok(w) => match decode(w) {
            Ok(op) => listing_text(op),
            Err(e) => e.message_text(),
        },
        Err(e) => e.message_text(),
    }
}

/// What the machine publishes as its current instruction: its listing, or
/// `invalid`.
pub open spec fn current_text(s: MachineView) -> Seq<char> {
    match fetched(s, s.pc) {
        Ok(w) => match decode(w) {
            Ok(op) => listing_text(op),
            Err(e) => "invalid"@,
        },
        Err(e) => "invalid"@,
    }
}

/// The column beside the registers 1 to 16: the instructions around the
/// program counter, eight before it and seven after, each with its
/// address. A row whose address is not one of the address space is empty.
pub open spec fn code_column(s: MachineView, row: int) -> Seq<char> {
    let addr = s.pc + (row - 8) * 4;
    if addr < 0 || addr > u32::MAX {
        Seq::empty()
    } else {
        (if row == 8 {
            "\t PC ->  "@
        } else {
            "\t\t"@
        }) + hex8_text(addr as u32) + ": "@ + instruction_text(s, addr as u32)
    }
}

/// The address that the row beside register `row + 1` shows of the stack.
pub open spec fn stack_address(s: MachineView, row: int) -> u32 {
    let addr = s.registers[2] + (row - 17) * 4;
    if addr > u32::MAX {
        u32::MAX
    } else {
        addr as u32
    }
}

/// How the word of RAM at an address is shown: as `0x` and eight digits,
/// or as the fault that reading it gives.
pub open spec fn word_text(s: MachineView, addr: u32) -> Seq<char> {
    match ram_word(s, addr) {
        Ok(word) => hex8_text(word),
        Err(e) => e.message_text(),
    }
}

/// The column beside the registers 18 to 31: the words from the stack
/// pointer on, each with its address; `shown` is what stands for the word.
pub open spec fn stack_column(s: MachineView, row: int, shown: Seq<char>) -> Seq<char> {
    "\t\t"@ + hex8_text(stack_address(s, row)) + ": "@ + shown
}

/// What stands beside a register; `shown` is what stands for the word of
/// the stack, in the rows that show one.
pub open spec fn context_column(s: MachineView, row: int, shown: Seq<char>) -> Seq<char> {
    if row < 16 {
        code_column(s, row)
    } else if row > 16 {
        stack_column(s, row, shown)
    } else {
        Seq::empty()
    }
}

/// A register's row: its name, its value in decimal in twelve columns and
/// as `0x` and eight digits, and what stands beside it.
pub open spec fn register_row(
    s: MachineView,
    row: int,
    newline: Seq<char>,
    shown: Seq<char>,
) -> Seq<char> {
    newline + Register::numbered(row + 1).name_text() + ":\t"@ + right_aligned(
        decimal_text(s.registers[row + 1] as nat),
        ' ',
        12,
    ) + "\t"@ + hex8_text(s.registers[row + 1]) + context_column(s, row, shown)
}

/// The rows of the registers 1 to `upto`; `shown[row]` is what stands for
/// the word of the stack in a row.
pub open spec fn register_rows(
    s: MachineView,
    upto: int,
    newline: Seq<char>,
    shown: Seq<Seq<char>>,
) -> Seq<char>
    decreases upto,
{
    if upto <= 0 {
        Seq::empty()
    } else {
        register_rows(s, upto - 1, newline, shown) + register_row(
            s,
            upto - 1,
            newline,
            shown[upto - 1],
        )
    }
}

/// The display of a machine: the program counter, then a row for each
/// register. Before a terminal's line ends the display starts with a
/// carriage return.
pub open spec fn display_text(s: MachineView, newline: Seq<char>, shown: Seq<Seq<char>>) -> Seq<
    char,
> {
    (if newline == "\r\n"@ {
        "\r"@
    } else {
        Seq::empty()
    }) + "PC:\t  "@ + hex8_text(s.pc) + register_rows(s, 31, newline, shown)
}

/// What the rows show of the stack where all of it is RAM: for each row
/// the word of RAM at the row's address.
pub open spec fn shown_of_ram(s: MachineView) -> Seq<Seq<char>> {
    Seq::new(31, |row: int| word_text(s, stack_address(s, row)))
}

/// Whether `shown` can be what the rows show of the stack: a row whose
/// address is in RAM shows the word of RAM there. What a row shows of a
/// device is the device's answer, of which nothing is known.
pub open spec fn shows(s: MachineView, shown: Seq<Seq<char>>) -> bool {
    &&& shown.len() == 31
    &&& forall|row: int|
        0 <= row < 31 && row_in_ram(s, row) ==> #[trigger] shown[row] == word_text(
            s,
            stack_address(s, row),
        )
}

/// Whether every row of the stack column shows RAM, not a device.
pub open spec fn stack_in_ram(s: MachineView) -> bool {
    s.registers[2] + 13 * 4 < 0xf000_0000
}

/// Whether a row shows RAM, not a device.
pub open spec fn row_in_ram(s: MachineView, row: int) -> bool {
    row > 16 ==> !device_space(stack_address(s, row))
}

/// The rows up to `upto` read `shown` only below `upto`.
proof fn rows_read_their_own(
    s: MachineView,
    upto: int,
    newline: Seq<char>,
    a: Seq<Seq<char>>,
    b: Seq<Seq<char>>,
)
    requires
        forall|row: int| 0 <= row < upto ==> a[row] == b[row],
    ensures
        register_rows(s, upto, newline, a) == register_rows(s, upto, newline, b),
    decreases upto,
{
    if upto > 0 {
        rows_read_their_own(s, upto - 1, newline, a, b);
    }
}

/// One line of the dump.
fn dump_entry(name: &str, value: u32) -> (line: String)
    ensures
        line@ == dump_line(name@, value),
{
    let mut line = String::from_str(name);
    line.append(":");
    line.append(hex8(value).as_str());
    line.append("\n");
    line
}

impl Machine {
    /// How the instruction at an address is shown.
    fn show_instruction(&self, addr: u32) -> (r: String)
        ensures
            r@ == instruction_text(self@, addr),
    {
        match self.read_instruction_bytes(addr) {
            Ok(bytes) => match Operation::from_bytes(bytes) {
                Ok(op) => op.listing(),
                Err(e) => e.message(),
            },
            Err(e) => e.message(),
        }
    }

    /// What stands beside the register `row + 1` in the display, and what
    /// it shows for the word of the stack.
    fn show_context(&self, row: usize) -> (r: (String, Ghost<Seq<char>>))
        requires
            row < 31,
            self.wf(),
        ensures
            r.0@ == context_column(self@, row as int, r.1@),
            row_in_ram(self@, row as int) ==> r.1@ == word_text(
                self@,
                stack_address(self@, row as int),
            ),
    {
        proof {
            self.wf_view();
        }
        let mut out = String::new();
        let ghost mut shown = word_text(self@, stack_address(self@, row as int));
        if row < 16 {
            let context: i32 = (row as i32 - 8) * 4;
            let target: i64 = self.pc() as i64 + context as i64;
            if 0 <= target && target <= u32::MAX as i64 {
                let addr = target as u32;
                let mut column = if row == 8 {
                    String::from_str("\t PC ->  ")
                } else {
                    String::from_str("\t\t")
                };
                column.append(hex8(addr).as_str());
                column.append(": ");
                column.append(self.show_instruction(addr).as_str());
                out = column;
            }
        } else if row > 16 {
            // Offset to fetch
            let context = (row as u32 - 17) * 4;
            let to_fetch = self.get_reg(Register::SP).saturating_add(context);
            let display_me = match self.read_word(to_fetch) {
                Ok(word) => hex8(word),
                Err(e) => e.message(),
            };
            proof {
                shown = display_me@;
            }
            let mut column = String::from_str("\t\t");
            column.append(hex8(to_fetch).as_str());
            column.append(": ");
            column.append(display_me.as_str());
            out = column;
        }
        (out, Ghost(shown))
    }

    /// The row of the register `row + 1` in the display, and what it shows
    /// for the word of the stack.
    fn show_row(&self, row: usize, newline: &str) -> (r: (String, Ghost<Seq<char>>))
        requires
            row < 31,
            self.wf(),
        ensures
            r.0@ == register_row(self@, row as int, newline@, r.1@),
            row_in_ram(self@, row as int) ==> r.1@ == word_text(
                self@,
                stack_address(self@, row as int),
            ),
    {
        proof {
            self.wf_view();
        }
        let reg = match Register::from_num(row as u32 + 1) {
            Some(reg) => reg,
            None => Register::Zero,
        };
        proof {
            Register::index_numbered(row + 1);
        }
        let value = self.get_reg(reg);
        let mut out = String::from_str(newline);
        out.append(reg.name());
        out.append(":\t");
        push_right_aligned(&mut out, decimal(value as u128).as_str(), ' ', 12);
        out.append("\t");
        out.append(hex8(value).as_str());
        let (context, shown) = self.show_context(row);
        out.append(context.as_str());
        (out, shown)
    }

    /// The program counter and the registers with their values, the
    /// instructions around the program counter, and the top of the stack.
    /// `newline` ends a line: a terminal in raw mode wants `\r\n`. Every
    /// part of the text is stated but what a device answers where a row of
    /// the stack lies in the device space.
    pub fn display_info(&self, newline: &str) -> (r: String)
        requires
            self.wf(),
        ensures
            exists|shown: Seq<Seq<char>>|
                shows(self@, shown) && r@ == #[trigger] display_text(self@, newline@, shown),
            stack_in_ram(self@) ==> r@ == display_text(self@, newline@, shown_of_ram(self@)),
    {
        let mut buf = String::new();
        proof {
            self.wf_view();
        }
        if same_text(newline, "\r\n") {
            buf.append("\r");
        }
        buf.append("PC:\t  ");
        buf.append(hex8(self.pc()).as_str());
        let ghost head = buf@;
        let ghost mut shown = shown_of_ram(self@);
        assert(head + register_rows(self@, 0, newline@, shown) =~= head);
        let mut i: usize = 0;
        while i < 31
            invariant
                i <= 31,
                self.wf(),
                shown.len() == 31,
                buf@ == head + register_rows(self@, i as int, newline@, shown),
                forall|row: int|
                    0 <= row < 31 && (row >= i || row_in_ram(self@, row)) ==> #[trigger] shown[row]
                        == word_text(self@, stack_address(self@, row)),
            decreases 31 - i,
        {
            let (row, text) = self.show_row(i, newline);
            proof {
                let before = shown;
                shown = shown.update(i as int, text@);
                rows_read_their_own(self@, i as int, newline@, before, shown);
            }
            buf.append(row.as_str());
            i += 1;
            assert(buf@ =~= head + register_rows(self@, i as int, newline@, shown));
        }
        proof {
            assert(shows(self@, shown));
            assert(buf@ == display_text(self@, newline@, shown));
            if stack_in_ram(self@) {
                self.wf_view();
                assert(shown =~= shown_of_ram(self@));
            }
        }
        buf
    }

    /// Dump the state of the machine in a simple txt format.
    /// Entries are seperated by newlines, and individual entries all have a : seperator
    pub fn dump_state_txt(&self) -> (r: String)
        ensures
            r@ == dump_text(self@),
    {
        let mut bytes = dump_entry("PC", self.pc());
        let ghost head = bytes@;
        assert(head + register_dump(self@.registers, 0) =~= head);
        let mut i: u32 = 1;
        while i <= 31
            invariant
                1 <= i <= 32,
                bytes@ == head + register_dump(self@.registers, i - 1),
            decreases 32 - i,
        {
            let reg = match Register::from_num(i) {
                Some(reg) => reg,
                None => Register::Zero,
            };
            proof {
                Register::index_numbered(i as int);
            }
            bytes.append(dump_entry(reg.name(), self.get_reg(reg)).as_str());
            assert(bytes@ =~= head + register_dump(self@.registers, i as int));
            i += 1;
        }
        bytes
    }

    /// What the machine publishes of itself: the program counter, the
    /// registers 1 to 31, the listing of the instruction that is next, and
    /// the count of retired instructions.
    pub fn snapshot(&mut self) -> (state: MachineState)
        ensures
            final(self)@ == (MachineView { listing: current_text(old(self)@), ..old(self)@ }),
            final(self).device_list() == old(self).device_list(),
            final(self).wf() == old(self).wf(),
            state.pc == old(self)@.pc,
            register_view(state.registers@) == old(self)@.registers,
            state.cur_inst@ == current_text(old(self)@),
            state.memory_changes@ == old(self)@.changes,
            state.cycle == old(self)@.cycle,
    {
        // Stringify the current instruction
        let listed = match self.read_instruction_bytes(self.pc()) {
            Ok(bytes) => match Operation::from_bytes(bytes) {
                Ok(op) => op.listing(),
                Err(_) => String::from_str("invalid"),
            },
            Err(_) => String::from_str("invalid"),
        };
        let shown = String::from_str(listed.as_str());
        self.set_current(listed);
        let mut changes: Vec<(u32, u32)> = Vec::new();
        assert(changes@ =~= self.recorded().take(0));
        let recorded = self.changes();
        let mut i: usize = 0;
        while i < recorded.len()
            invariant
                i <= recorded@.len(),
                changes@ == recorded@.take(i as int),
            decreases recorded@.len() - i,
        {
            changes.push(recorded[i]);
            i += 1;
            assert(changes@ =~= recorded@.take(i as int));
        }
        assert(recorded@.take(i as int) =~= recorded@);
        MachineState {
            pc: self.pc(),
            registers: self.registers(),
            cur_inst: shown,
            memory_changes: changes,
            cycle: self.cycle(),
        }
    }
}

} // verus!
