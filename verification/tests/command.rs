use remu::debugger::{BreakpointIdentifier, Data, DebugCommand, DisplayFormat, Location};
use remu::error::ExecutionError;
use remu::machine::Machine;
use remu::register::Register;

struct Console {
    machine: Machine,
    should_step: Option<usize>,
    prompting: bool,
    run: bool,
    watchlist: Vec<DebugCommand>,
}

impl Console {
    fn new() -> Console {
        Console {
            machine: Machine::new(
                0,
                Some(0),
                64,
                vec![0; 64].into_boxed_slice(),
                false,
                Vec::new(),
            ),
            should_step: None,
            prompting: true,
            run: false,
            watchlist: Vec::new(),
        }
    }

    fn run(&mut self, cmd: DebugCommand) -> Result<Vec<String>, ExecutionError> {
        cmd.execute(
            &mut self.machine,
            &mut self.should_step,
            &mut self.prompting,
            &mut self.run,
            &mut self.watchlist,
        )
    }
}

#[test]
fn exit_halts() {
    let mut console = Console::new();
    assert_eq!(console.run(DebugCommand::EXIT), Err(ExecutionError::HaltedByUser));
}

#[test]
fn help_prints_the_usage_table() {
    let mut console = Console::new();
    let lines = console.run(DebugCommand::HELP).unwrap();
    assert_eq!(lines, DebugCommand::usage());
    assert_eq!(lines.len(), 17);
    assert_eq!(
        lines[0],
        "PEEK    [format]    <addr/reg>      # Read data at a memory location or from a register"
    );
    assert_eq!(lines[16], "HELP                                # Show this help message");
    assert!(console.prompting);
}

#[test]
fn continue_and_step_let_the_machine_run() {
    let mut console = Console::new();
    assert_eq!(console.run(DebugCommand::CONTINUE), Ok(vec![]));
    assert!(!console.prompting);
    assert!(console.run);
    assert_eq!(console.should_step, None);
    let mut console = Console::new();
    assert_eq!(console.run(DebugCommand::STEP(5)), Ok(vec![]));
    assert!(!console.prompting);
    assert!(console.run);
    assert_eq!(console.should_step, Some(5));
}

#[test]
fn breakpoints_are_added_once_listed_and_removed() {
    let mut console = Console::new();
    assert_eq!(
        console.run(DebugCommand::BREAK(0x10)),
        Ok(vec!["Added breakpoint 1 at 0x00000010".to_string()])
    );
    assert_eq!(
        console.run(DebugCommand::BREAK(0x20)),
        Ok(vec!["Added breakpoint 2 at 0x00000020".to_string()])
    );
    assert_eq!(
        console.run(DebugCommand::BREAK(0x10)),
        Ok(vec!["Unable to insert duplicate breakpoint at 0x00000010".to_string()])
    );
    assert_eq!(*console.machine.breakpoints(), vec![0x10, 0x20]);
    assert_eq!(
        console.run(DebugCommand::LSBRK),
        Ok(vec!["0: 0x00000010".to_string(), "1: 0x00000020".to_string()])
    );
    assert_eq!(
        console.run(DebugCommand::RMBRK(BreakpointIdentifier::Index(2))),
        Ok(vec!["Unable to find breakpoint".to_string()])
    );
    assert_eq!(
        console.run(DebugCommand::RMBRK(BreakpointIdentifier::Addr(0x30))),
        Ok(vec!["Unable to find breakpoint".to_string()])
    );
    assert_eq!(
        console.run(DebugCommand::RMBRK(BreakpointIdentifier::Addr(0x20))),
        Ok(vec!["Successfully removed breakpoint 1".to_string()])
    );
    assert_eq!(
        console.run(DebugCommand::RMBRK(BreakpointIdentifier::Index(0))),
        Ok(vec!["Successfully removed breakpoint 0".to_string()])
    );
    assert!(console.machine.breakpoints().is_empty());
    assert_eq!(console.run(DebugCommand::LSBRK), Ok(vec![]));
}

#[test]
fn poke_writes_the_width_of_its_data() {
    let mut console = Console::new();
    console.machine.store_word(0xFFFF_FFFF, 8).unwrap();
    assert_eq!(console.run(DebugCommand::POKE(Data::Byte(0x12), Location::Addr(8))), Ok(vec![]));
    assert_eq!(console.machine.read_word(8), Ok(0xFFFF_FF12));
    assert_eq!(
        console.run(DebugCommand::POKE(Data::Halfword(0x3456), Location::Addr(10))),
        Ok(vec![])
    );
    assert_eq!(console.machine.read_word(8), Ok(0x3456_FF12));
    assert_eq!(console.run(DebugCommand::POKE(Data::Word(-2), Location::Addr(8))), Ok(vec![]));
    assert_eq!(console.machine.read_word(8), Ok(0xFFFF_FFFE));
    assert_eq!(
        console.run(DebugCommand::POKE(Data::Word(1), Location::Addr(62))),
        Ok(vec![
            "Failed to store data with error Exception while loading value at address 0x3e"
                .to_string()
        ])
    );
}

#[test]
fn poke_widens_for_a_register() {
    let mut console = Console::new();
    console.run(DebugCommand::POKE(Data::Byte(-1), Location::Register(Register::T2))).unwrap();
    assert_eq!(console.machine.get_reg(Register::T2), 0xFFFF_FFFF);
    console.run(DebugCommand::POKE(Data::Halfword(0x1234), Location::Register(Register::T2))).unwrap();
    assert_eq!(console.machine.get_reg(Register::T2), 0x1234);
    console.run(DebugCommand::POKE(Data::Word(7), Location::Register(Register::Zero))).unwrap();
    assert_eq!(console.machine.get_reg(Register::Zero), 0);
}

#[test]
fn peek_shows_a_word_in_each_format() {
    let mut console = Console::new();
    console.machine.set_reg(Register::T2, 0xFFFF_FFFE);
    console.machine.store_word(0xAB, 0x10).unwrap();
    let reg = Location::Register(Register::T2);
    assert_eq!(
        console.run(DebugCommand::PEEK(DisplayFormat::Hex, reg)),
        Ok(vec!["T2: 0xFFFFFFFE".to_string()])
    );
    assert_eq!(
        console.run(DebugCommand::PEEK(DisplayFormat::Unsigned, reg)),
        Ok(vec!["T2: 4294967294".to_string()])
    );
    assert_eq!(
        console.run(DebugCommand::PEEK(DisplayFormat::Signed, reg)),
        Ok(vec!["T2: -2".to_string()])
    );
    assert_eq!(
        console.run(DebugCommand::PEEK(DisplayFormat::Binary, Location::Addr(0x10))),
        Ok(vec!["0x10: 0b10101011".to_string()])
    );
    assert_eq!(
        console.run(DebugCommand::PEEK(DisplayFormat::Hex, Location::Addr(0x10))),
        Ok(vec!["0x10: 0xAB".to_string()])
    );
    assert_eq!(
        console.run(DebugCommand::PEEK(DisplayFormat::Hex, Location::Register(Register::Zero))),
        Ok(vec!["Zero: 0x0".to_string()])
    );
    assert_eq!(
        console.run(DebugCommand::PEEK(DisplayFormat::Hex, Location::Addr(0x100))),
        Ok(vec![
            "Failed to read data with error Exception while loading value at address 0x100"
                .to_string()
        ])
    );
}

#[test]
fn watches_are_peeks_and_are_removed_by_location() {
    let mut console = Console::new();
    let t2 = Location::Register(Register::T2);
    console.run(DebugCommand::WATCH(DisplayFormat::Hex, t2)).unwrap();
    console.run(DebugCommand::WATCH(DisplayFormat::Signed, Location::Addr(8))).unwrap();
    console.run(DebugCommand::WATCH(DisplayFormat::Binary, t2)).unwrap();
    assert_eq!(
        console.watchlist,
        vec![
            DebugCommand::PEEK(DisplayFormat::Hex, t2),
            DebugCommand::PEEK(DisplayFormat::Signed, Location::Addr(8)),
            DebugCommand::PEEK(DisplayFormat::Binary, t2),
        ]
    );
    console.run(DebugCommand::RMWATCH(t2)).unwrap();
    assert_eq!(console.watchlist, vec![DebugCommand::PEEK(DisplayFormat::Signed, Location::Addr(8))]);
    console.run(DebugCommand::RMWATCH(t2)).unwrap();
    assert_eq!(console.watchlist.len(), 1);
    console.run(DebugCommand::RMWATCH(Location::Addr(8))).unwrap();
    assert!(console.watchlist.is_empty());
}
