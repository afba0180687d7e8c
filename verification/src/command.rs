use vstd::prelude::*;

use crate::bits::{i32_of, signed32, u32_of, wrap32};
use crate::bus::{ram_store, ram_word};
use crate::debugger::{BreakpointIdentifier, Data, DebugCommand, DisplayFormat, Location};
use crate::error::ExecutionError;
use crate::execute::with_register;
use crate::machine::{device_space, Machine, MachineView};
use crate::text::{
    binary, binary_text, decimal, decimal_text, hex, hex8, hex8_text, hex_text, joined,
    signed_decimal, signed_text, upper_hex, upper_hex_text,
};

verus! {

/// What the run loop and the debugger share: how many steps are still to
/// be made before the prompt comes back, whether the prompt is due, whether
/// the last command lets the machine run, and what is watched.
pub struct Controls {
    pub should_step: Option<usize>,
    pub prompting: bool,
    pub run: bool,
    pub watchlist: Seq<DebugCommand>,
}

/// The texts of a list of lines.
pub open spec fn lines_of(lines: Seq<String>) -> Seq<Seq<char>> {
    Seq::new(lines.len(), |i: int| lines[i]@)
}

/// The lines of the usage table.
pub open spec fn usage_text() -> Seq<Seq<char>> {
    seq![
        "PEEK    [format]    <addr/reg>      # Read data at a memory location or from a register"@,
        "                                    # Valid formats are /x (hex), /u (unsigned),"@,
        "                                    # /i (integer), and /b (binary)"@,
        "POKE    <addr/reg>      <data>      # Modify data at a memory location or in a register"@,
        "WATCH   [format]    <addr/reg>      # Read data every time control is returned"@,
        "                                    # to the debugger"@,
        "RMWATCH             <addr/reg>      # Stop watching a variable"@,
        "STEP    [count]                     # Step once, or the given number of times"@,
        "BREAK   [address]                   # Set a breakpoint at the given address"@,
        "RMBRK   [address/num]               # Remove a breakpoint at the given address"@,
        "                                    # or by breakpoint index"@,
        "LSBRK                               # List out all breakpoints"@,
        "CONTINUE                            # Return control to the program and run"@,
        "                                    # until a breakpoint is hit"@,
        "RUN                                 # Synonym for CONTINUE"@,
        "EXIT                                # Close the emulator"@,
        "HELP                                # Show this help message"@,
    ]
}

/// How a location is shown: a register by its name, an address in
/// hexadecimal.
pub open spec fn location_text(location: Location) -> Seq<char> {
    match location {
        Location::Register(reg) => reg.name_text(),
        Location::Addr(addr) => hex_text(addr),
    }
}

/// How a value is shown in a format.
pub open spec fn value_text(format: DisplayFormat, value: u32) -> Seq<char> {
    match format {
        DisplayFormat::Hex => upper_hex_text(value),
        DisplayFormat::Unsigned => decimal_text(value as nat),
        DisplayFormat::Signed => signed_text(signed32(value)),
        DisplayFormat::Binary => binary_text(value),
    }
}

/// The line that shows a peeked value.
pub open spec fn peek_line(format: DisplayFormat, location: Location, value: u32) -> Seq<char> {
    location_text(location) + ": "@ + value_text(format, value)
}

/// The line that lists a breakpoint.
pub open spec fn breakpoint_line(index: int, addr: u32) -> Seq<char> {
    decimal_text(index as nat) + ": "@ + hex8_text(addr)
}

/// The word that a datum stands for in a register: its value, sign-extended.
pub open spec fn widened(data: Data) -> u32 {
    match data {
        Data::Byte(d) => wrap32(d as int),
        Data::Halfword(d) => wrap32(d as int),
        Data::Word(d) => wrap32(d as int),
    }
}

/// The number of bytes of a datum.
pub open spec fn width_of(data: Data) -> int {
    match data {
        Data::Byte(_) => 1,
        Data::Halfword(_) => 2,
        Data::Word(_) => 4,
    }
}

/// Where a value first stands in a list, if it does.
pub open spec fn position(list: Seq<u32>, value: u32, from: int) -> Option<int>
    decreases list.len() - from,
{
    if from < 0 || from >= list.len() {
        None
    } else if list[from] == value {
        Some(from)
    } else {
        position(list, value, from + 1)
    }
}

/// Whether a watch stays when the watch of `location` is removed: it is a
/// `PEEK` of another location.
pub open spec fn stays(watch: DebugCommand, location: Location) -> bool {
    match watch {
        DebugCommand::PEEK(_, watched) => watched != location,
        _ => false,
    }
}

/// The watches that stay when the watch of `location` is removed, in their
/// order.
pub open spec fn remaining(watchlist: Seq<DebugCommand>, location: Location) -> Seq<DebugCommand>
    decreases watchlist.len(),
{
    if watchlist.len() == 0 {
        Seq::empty()
    } else if stays(watchlist.last(), location) {
        remaining(watchlist.drop_last(), location).push(watchlist.last())
    } else {
        remaining(watchlist.drop_last(), location)
    }
}

/// What a command does: `post` and `after` are the machine and the
/// controls after it, `lines` the status lines that it gives. Of an access
/// to a device only this is known: the machine stays as it is, and there is
/// at most one line.
pub open spec fn command_post(
    cmd: DebugCommand,
    pre: MachineView,
    before: Controls,
    post: MachineView,
    after: Controls,
    lines: Seq<Seq<char>>,
) -> bool {
    let none = Seq::<Seq<char>>::empty();
    match cmd {
        DebugCommand::EXIT => false,
        DebugCommand::HELP => post == pre && after == before && lines == usage_text(),
        DebugCommand::CONTINUE => {
            &&& post == pre
            &&& after == Controls { prompting: false, run: true, ..before }
            &&& lines == none
        },
        DebugCommand::STEP(count) => {
            &&& post == pre
            &&& after == Controls {
                prompting: false,
                should_step: Some(count),
                run: true,
                ..before
            }
            &&& lines == none
        },
        DebugCommand::BREAK(addr) => {
            &&& after == before
            &&& if pre.breakpoints.contains(addr) {
                &&& post == pre
                &&& lines == seq!["Unable to insert duplicate breakpoint at "@ + hex8_text(addr)]
            } else {
                &&& post == MachineView { breakpoints: pre.breakpoints.push(addr), ..pre }
                &&& lines == seq![
                    "Added breakpoint "@ + decimal_text((pre.breakpoints.len() + 1) as nat) + " at "@
                        + hex8_text(addr),
                ]
            }
        },
        DebugCommand::RMBRK(which) => {
            let found = match which {
                BreakpointIdentifier::Index(index) => if index < pre.breakpoints.len() {
                    Some(index as int)
                } else {
                    None
                },
                BreakpointIdentifier::Addr(addr) => position(pre.breakpoints, addr, 0),
            };
            &&& after == before
            &&& match found {
                Some(index) => {
                    &&& post == MachineView { breakpoints: pre.breakpoints.remove(index), ..pre }
                    &&& lines == seq![
                        "Successfully removed breakpoint "@ + decimal_text(index as nat),
                    ]
                },
                None => post == pre && lines == seq!["Unable to find breakpoint"@],
            }
        },
        DebugCommand::LSBRK => {
            &&& post == pre
            &&& after == before
            &&& lines.len() == pre.breakpoints.len()
            &&& forall|i: int|
                0 <= i < lines.len() ==> #[trigger] lines[i] == breakpoint_line(
                    i,
                    pre.breakpoints[i],
                )
        },
        DebugCommand::POKE(data, Location::Register(reg)) => {
            &&& post == with_register(pre, reg, widened(data))
            &&& after == before
            &&& lines == none
        },
        DebugCommand::POKE(data, Location::Addr(addr)) => {
            &&& after == before
            &&& if device_space(addr) {
                post == pre && lines.len() <= 1
            } else {
                let stored = ram_store(pre, width_of(data), widened(data), addr);
                match stored.1 {
                    Ok(_) => post == stored.0 && lines == none,
                    Err(e) => post == pre && lines == seq![
                        "Failed to store data with error "@ + e.message_text(),
                    ],
                }
            }
        },
        DebugCommand::PEEK(format, Location::Register(reg)) => {
            &&& post == pre
            &&& after == before
            &&& lines == seq![
                peek_line(format, Location::Register(reg), pre.registers[reg.index()]),
            ]
        },
        DebugCommand::PEEK(format, Location::Addr(addr)) => {
            &&& post == pre
            &&& after == before
            &&& if device_space(addr) {
                lines.len() == 1
            } else {
                match ram_word(pre, addr) {
                    Ok(value) => lines == seq![peek_line(format, Location::Addr(addr), value)],
                    Err(e) => lines == seq!["Failed to read data with error "@ + e.message_text()],
                }
            }
        },
        DebugCommand::WATCH(format, location) => {
            &&& post == pre
            &&& after == Controls {
                watchlist: before.watchlist.push(DebugCommand::PEEK(format, location)),
                ..before
            }
            &&& lines == none
        },
        DebugCommand::RMWATCH(location) => {
            &&& post == pre
            &&& after == Controls { watchlist: remaining(before.watchlist, location), ..before }
            &&& lines == none
        },
    }
}

/// A found place is a place of the list, and the first that holds the
/// value.
pub proof fn position_found(list: Seq<u32>, value: u32, from: int)
    requires
        0 <= from,
    ensures
        match position(list, value, from) {
            Some(i) => from <= i < list.len() && list[i] == value,
            None => forall|j: int| from <= j < list.len() ==> list[j] != value,
        },
    decreases list.len() - from,
{
    if from < list.len() && list[from] != value {
        position_found(list, value, from + 1);
    }
}

/// Where a value first stands in a list.
fn find(list: &Vec<u32>, value: u32) -> (r: Option<usize>)
    ensures
        match position(list@, value, 0) {
            Some(i) => r == Some(i as usize) && 0 <= i < list@.len(),
            None => r is None && !list@.contains(value),
        },
        r is Some <==> list@.contains(value),
{
    proof {
        position_found(list@, value, 0);
    }
    let mut i: usize = 0;
    while i < list.len()
        invariant
            i <= list@.len(),
            position(list@, value, 0) == position(list@, value, i as int),
        decreases list@.len() - i,
    {
        if list[i] == value {
            return Some(i);
        }
        i += 1;
    }
    None
}

impl Location {
    /// How the location is shown.
    pub fn text(&self) -> (r: String)
        ensures
            r@ == location_text(*self),
    {
        match self {
            Location::Register(reg) => String::from_str(reg.name()),
            Location::Addr(addr) => hex(*addr),
        }
    }
}

impl DisplayFormat {
    /// How a value is shown in the format.
    pub fn show(&self, value: u32) -> (r: String)
        ensures
            r@ == value_text(*self, value),
    {
        match self {
            DisplayFormat::Hex => upper_hex(value),
            DisplayFormat::Unsigned => decimal(value as u128),
            DisplayFormat::Signed => signed_decimal(i32_of(value)),
            DisplayFormat::Binary => binary(value),
        }
    }
}

impl Data {
    /// The word that the datum stands for in a register.
    pub fn widen(&self) -> (r: u32)
        ensures
            r == widened(*self),
    {
        match self {
            Data::Byte(d) => u32_of(*d as i32),
            Data::Halfword(d) => u32_of(*d as i32),
            Data::Word(d) => u32_of(*d),
        }
    }
}

/// The line that shows a peeked value.
fn show_peek(format: &DisplayFormat, location: &Location, value: u32) -> (r: String)
    ensures
        r@ == peek_line(*format, *location, value),
{
    let mut line = location.text();
    line.append(": ");
    line.append(format.show(value).as_str());
    line
}

/// The watches that stay when the watch of `location` is removed.
fn keep_others(watchlist: &Vec<DebugCommand>, location: &Location) -> (kept: Vec<DebugCommand>)
    ensures
        kept@ == remaining(watchlist@, *location),
{
    let mut kept: Vec<DebugCommand> = Vec::new();
    let mut i: usize = 0;
    assert(watchlist@.take(0) =~= Seq::empty());
    while i < watchlist.len()
        invariant
            i <= watchlist@.len(),
            kept@ == remaining(watchlist@.take(i as int), *location),
        decreases watchlist@.len() - i,
    {
        let watch = watchlist[i];
        proof {
            assert(watchlist@.take(i + 1).drop_last() =~= watchlist@.take(i as int));
            assert(watchlist@.take(i + 1).last() == watch);
        }
        let stay = match watch {
            DebugCommand::PEEK(_, watched) => watched != *location,
            _ => false,
        };
        if stay {
            kept.push(watch);
        }
        i += 1;
    }
    assert(watchlist@.take(i as int) =~= watchlist@);
    kept
}

impl DebugCommand {
    /// Return usage information for the debugger as a list of strings
    pub fn usage() -> (lines: Vec<&'static str>)
        ensures
            lines@.len() == usage_text().len(),
            forall|i: int| 0 <= i < lines@.len() ==> (#[trigger] lines@[i])@ == usage_text()[i],
    {
        let mut lines: Vec<&'static str> = Vec::new();
        lines.push(
            "PEEK    [format]    <addr/reg>      # Read data at a memory location or from a register",
        );
        lines.push(
            "                                    # Valid formats are /x (hex), /u (unsigned),",
        );
        lines.push("                                    # /i (integer), and /b (binary)");
        lines.push(
            "POKE    <addr/reg>      <data>      # Modify data at a memory location or in a register",
        );
        lines.push(
            "WATCH   [format]    <addr/reg>      # Read data every time control is returned",
        );
        lines.push("                                    # to the debugger");
        lines.push("RMWATCH             <addr/reg>      # Stop watching a variable");
        lines.push("STEP    [count]                     # Step once, or the given number of times");
        lines.push("BREAK   [address]                   # Set a breakpoint at the given address");
        lines.push(
            "RMBRK   [address/num]               # Remove a breakpoint at the given address",
        );
        lines.push("                                    # or by breakpoint index");
        lines.push("LSBRK                               # List out all breakpoints");
        lines.push("CONTINUE                            # Return control to the program and run");
        lines.push("                                    # until a breakpoint is hit");
        lines.push("RUN                                 # Synonym for CONTINUE");
        lines.push("EXIT                                # Close the emulator");
        lines.push("HELP                                # Show this help message");
        lines
    }

    /// The usage table as status lines.
    fn help() -> (status: Vec<String>)
        ensures
            lines_of(status@) == usage_text(),
    {
        let lines = DebugCommand::usage();
        let mut status: Vec<String> = Vec::new();
        let mut i: usize = 0;
        while i < lines.len()
            invariant
                i <= lines@.len() == usage_text().len(),
                status@.len() == i,
                forall|k: int| 0 <= k < lines@.len() ==> (#[trigger] lines@[k])@ == usage_text()[k],
                forall|k: int| 0 <= k < i ==> (#[trigger] status@[k])@ == usage_text()[k],
            decreases lines@.len() - i,
        {
            status.push(String::from_str(lines[i]));
            i += 1;
        }
        assert(lines_of(status@) =~= usage_text());
        status
    }

    /// The breakpoints as status lines, each with its index.
    fn list_breakpoints(list: &Vec<u32>) -> (status: Vec<String>)
        ensures
            status@.len() == list@.len(),
            forall|i: int|
                0 <= i < status@.len() ==> (#[trigger] status@[i])@ == breakpoint_line(i, list@[i]),
    {
        let mut status: Vec<String> = Vec::new();
        let mut i: usize = 0;
        while i < list.len()
            invariant
                i <= list@.len(),
                status@.len() == i,
                forall|k: int|
                    0 <= k < i ==> (#[trigger] status@[k])@ == breakpoint_line(k, list@[k]),
            decreases list@.len() - i,
        {
            let mut line = decimal(i as u128);
            line.append(": ");
            line.append(hex8(list[i]).as_str());
            status.push(line);
            i += 1;
        }
        status
    }

    /// Carries out a breakpoint command on the list of breakpoints.
    fn remove_breakpoint(list: &mut Vec<u32>, which: BreakpointIdentifier) -> (line: String)
        ensures
            ({
                let found = match which {
                    BreakpointIdentifier::Index(index) => if index < old(list)@.len() {
                        Some(index as int)
                    } else {
                        None
                    },
                    BreakpointIdentifier::Addr(addr) => position(old(list)@, addr, 0),
                };
                match found {
                    Some(index) => final(list)@ == old(list)@.remove(index) && line@
                        == "Successfully removed breakpoint "@ + decimal_text(index as nat),
                    None => final(list)@ == old(list)@ && line@ == "Unable to find breakpoint"@,
                }
            }),
    {
        let found = match which {
            BreakpointIdentifier::Index(index) => if index < list.len() {
                Some(index)
            } else {
                None
            },
            BreakpointIdentifier::Addr(addr) => find(list, addr),
        };
        match found {
            Some(index) => {
                let _ = list.remove(index);
                joined("Successfully removed breakpoint ", decimal(index as u128).as_str())
            },
            None => String::from_str("Unable to find breakpoint"),
        }
    }

    /// Adds a breakpoint to the list unless it is there already.
    fn add_breakpoint(list: &mut Vec<u32>, addr: u32) -> (line: String)
        ensures
            if old(list)@.contains(addr) {
                &&& final(list)@ == old(list)@
                &&& line@ == "Unable to insert duplicate breakpoint at "@ + hex8_text(addr)
            } else {
                &&& final(list)@ == old(list)@.push(addr)
                &&& line@ == "Added breakpoint "@ + decimal_text((old(list)@.len() + 1) as nat)
                    + " at "@ + hex8_text(addr)
            },
    {
        if find(list, addr).is_some() {
            joined("Unable to insert duplicate breakpoint at ", hex8(addr).as_str())
        } else {
            list.push(addr);
            let mut line = joined("Added breakpoint ", decimal(list.len() as u128).as_str());
            line.append(" at ");
            line.append(hex8(addr).as_str());
            line
        }
    }

    /// Carries out the command on the machine and the controls, and returns
    /// the status lines that it gives. `EXIT` fails with `HaltedByUser`;
    /// no other command fails.
    pub fn execute(
        &self,
        machine: &mut Machine,
        should_step: &mut Option<usize>,
        should_trigger_cmd: &mut bool,
        run: &mut bool,
        watchlist: &mut Vec<DebugCommand>,
    ) -> (r: Result<Vec<String>, ExecutionError>)
        requires
            old(machine).wf(),
        ensures
            final(machine).device_list() == old(machine).device_list(),
            final(machine).wf() == old(machine).wf(),
            match r {
                Ok(status) => command_post(
                    *self,
                    old(machine)@,
                    Controls {
                        should_step: *old(should_step),
                        prompting: *old(should_trigger_cmd),
                        run: *old(run),
                        watchlist: old(watchlist)@,
                    },
                    final(machine)@,
                    Controls {
                        should_step: *final(should_step),
                        prompting: *final(should_trigger_cmd),
                        run: *final(run),
                        watchlist: final(watchlist)@,
                    },
                    lines_of(status@),
                ),
                Err(e) => {
                    &&& *self == DebugCommand::EXIT
                    &&& e == ExecutionError::HaltedByUser
                    &&& final(machine)@ == old(machine)@
                    &&& *final(should_step) == *old(should_step)
                    &&& *final(should_trigger_cmd) == *old(should_trigger_cmd)
                    &&& *final(run) == *old(run)
                    &&& final(watchlist)@ == old(watchlist)@
                },
            },
    {
        let mut status: Vec<String> = Vec::new();
        let ghost none = Seq::<Seq<char>>::empty();
        assert(lines_of(status@) =~= none);
        match *self {
            DebugCommand::EXIT => { return Err(ExecutionError::HaltedByUser); },
            DebugCommand::HELP => {
                status = DebugCommand::help();
            },
            DebugCommand::CONTINUE => {
                *should_trigger_cmd = false;
                *run = true;
            },
            DebugCommand::STEP(count) => {
                *should_trigger_cmd = false;
                *should_step = Some(count);
                *run = true;
            },
            DebugCommand::BREAK(addr) => {
                let line = DebugCommand::add_breakpoint(machine.breakpoints(), addr);
                status.push(line);
                assert(lines_of(status@) =~= seq![line@]);
            },
            DebugCommand::RMBRK(which) => {
                let line = DebugCommand::remove_breakpoint(machine.breakpoints(), which);
                status.push(line);
                assert(lines_of(status@) =~= seq![line@]);
            },
            DebugCommand::LSBRK => {
                status = DebugCommand::list_breakpoints(machine.breakpoints());
            },
            DebugCommand::POKE(data, Location::Addr(addr)) => {
                let stored = match data {
                    Data::Byte(d) => machine.store_byte(crate::bits::u8_of(d), addr),
                    Data::Halfword(d) => machine.store_halfword(crate::bits::u16_of(d), addr),
                    Data::Word(d) => machine.store_word(u32_of(d), addr),
                };
                match stored {
                    Ok(()) => (),
                    Err(e) => {
                        let line = joined("Failed to store data with error ", e.message().as_str());
                        status.push(line);
                        assert(lines_of(status@) =~= seq![line@]);
                    },
                }
            },
            DebugCommand::POKE(data, Location::Register(reg)) => {
                machine.set_reg(reg, data.widen());
            },
            DebugCommand::PEEK(format, location) => {
                let read = match location {
                    Location::Register(reg) => Ok(machine.get_reg(reg)),
                    Location::Addr(addr) => machine.read_word(addr),
                };
                let line = match read {
                    Ok(data) => show_peek(&format, &location, data),
                    Err(e) => joined("Failed to read data with error ", e.message().as_str()),
                };
                status.push(line);
                assert(lines_of(status@) =~= seq![line@]);
            },
            // The watchlist holds the commands that are carried out each
            // time the status is printed: only commands that print.
            DebugCommand::WATCH(format, location) => {
                watchlist.push(DebugCommand::PEEK(format, location));
            },
            DebugCommand::RMWATCH(location) => {
                *watchlist = keep_others(watchlist, &location);
            },
        }
        Ok(status)
    }
}

/// A command leaves a list of `PEEK`s a list of `PEEK`s.
pub proof fn watches_stay_peeks(cmd: DebugCommand, before: Seq<DebugCommand>, after: Seq<DebugCommand>)
    requires
        forall|i: int| 0 <= i < before.len() ==> (#[trigger] before[i]) is PEEK,
        after == before || (cmd matches DebugCommand::WATCH(format, location) && after
            == before.push(DebugCommand::PEEK(format, location))) || (cmd matches DebugCommand::RMWATCH(
            location,
        ) && after == remaining(before, location)),
    ensures
        forall|i: int| 0 <= i < after.len() ==> (#[trigger] after[i]) is PEEK,
{
    if let DebugCommand::RMWATCH(location) = cmd {
        if after == remaining(before, location) {
            remaining_are_peeks(before, location);
        }
    }
}

/// The watches that stay are `PEEK`s.
pub proof fn remaining_are_peeks(watchlist: Seq<DebugCommand>, location: Location)
    ensures
        forall|i: int|
            0 <= i < remaining(watchlist, location).len() ==> (#[trigger] remaining(
                watchlist,
                location,
            )[i]) is PEEK,
    decreases watchlist.len(),
{
    if watchlist.len() > 0 {
        remaining_are_peeks(watchlist.drop_last(), location);
    }
}

} // verus!
