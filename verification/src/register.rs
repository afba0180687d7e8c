use vstd::prelude::*;

use crate::text::{chars_of, is_name, same_ignoring_case};

verus! {

/// A general-purpose register, named by the RISC-V calling convention.
///
/// `S0` and `FP` are two names of register 8; every other register has one name.
#[derive(Clone, Copy, Debug, PartialEq, Eq, Structural)]
pub enum Register {
    Zero,
    RA,
    SP,
    GP,
    TP,
    T0,
    T1,
    T2,
    T3,
    T4,
    T5,
    T6,
    S0,
    FP,
    S1,
    S2,
    S3,
    S4,
    S5,
    S6,
    S7,
    S8,
    S9,
    S10,
    S11,
    A0,
    A1,
    A2,
    A3,
    A4,
    A5,
    A6,
    A7,
}

impl Register {
    /// The register's number in the instruction encoding, 0 to 31.
    pub open spec fn index(self) -> int {
        match self {
            Register::Zero => 0,
            Register::RA => 1,
            Register::SP => 2,
            Register::GP => 3,
            Register::TP => 4,
            Register::T0 => 5,
            Register::T1 => 6,
            Register::T2 => 7,
            Register::T3 => 28,
            Register::T4 => 29,
            Register::T5 => 30,
            Register::T6 => 31,
            Register::S0 => 8,
            Register::FP => 8,
            Register::S1 => 9,
            Register::S2 => 18,
            Register::S3 => 19,
            Register::S4 => 20,
            Register::S5 => 21,
            Register::S6 => 22,
            Register::S7 => 23,
            Register::S8 => 24,
            Register::S9 => 25,
            Register::S10 => 26,
            Register::S11 => 27,
            Register::A0 => 10,
            Register::A1 => 11,
            Register::A2 => 12,
            Register::A3 => 13,
            Register::A4 => 14,
            Register::A5 => 15,
            Register::A6 => 16,
            Register::A7 => 17,
        }
    }

    /// The register that the decoder names for a number: the one with that
    /// index which is not the alias `FP`. Numbers above 31 stand for `Zero`.
    pub open spec fn numbered(n: int) -> Register {
        if n == 1 {
            Register::RA
        } else if n == 2 {
            Register::SP
        } else if n == 3 {
            Register::GP
        } else if n == 4 {
            Register::TP
        } else if n == 5 {
            Register::T0
        } else if n == 6 {
            Register::T1
        } else if n == 7 {
            Register::T2
        } else if n == 8 {
            Register::S0
        } else if n == 9 {
            Register::S1
        } else if n == 10 {
            Register::A0
        } else if n == 11 {
            Register::A1
        } else if n == 12 {
            Register::A2
        } else if n == 13 {
            Register::A3
        } else if n == 14 {
            Register::A4
        } else if n == 15 {
            Register::A5
        } else if n == 16 {
            Register::A6
        } else if n == 17 {
            Register::A7
        } else if n == 18 {
            Register::S2
        } else if n == 19 {
            Register::S3
        } else if n == 20 {
            Register::S4
        } else if n == 21 {
            Register::S5
        } else if n == 22 {
            Register::S6
        } else if n == 23 {
            Register::S7
        } else if n == 24 {
            Register::S8
        } else if n == 25 {
            Register::S9
        } else if n == 26 {
            Register::S10
        } else if n == 27 {
            Register::S11
        } else if n == 28 {
            Register::T3
        } else if n == 29 {
            Register::T4
        } else if n == 30 {
            Register::T5
        } else if n == 31 {
            Register::T6
        } else {
            Register::Zero
        }
    }

    /// A register's number is below 32.
    pub proof fn index_in_range(self)
        ensures
            0 <= self.index() < 32,
    {
    }

    /// Numbering a register and naming the number again gives the register
    /// back, `FP` excepted, which comes back as `S0`.
    pub proof fn numbered_index(self)
        ensures
            self != Register::FP ==> Register::numbered(self.index()) == self,
            Register::numbered(Register::FP.index()) == Register::S0,
    {
    }

    /// Naming a number below 32 and numbering the name gives the number back,
    /// and the name is never the alias `FP`.
    pub proof fn index_numbered(n: int)
        requires
            0 <= n < 32,
        ensures
            Register::numbered(n).index() == n,
            Register::numbered(n) != Register::FP,
    {
    }

    /// The register's number in the instruction encoding.
    pub fn to_num(&self) -> (n: usize)
        ensures
            n == self.index(),
            n < 32,
    {
        match *self {
            Register::Zero => 0,
            Register::RA => 1,
            Register::SP => 2,
            Register::GP => 3,
            Register::TP => 4,
            Register::T0 => 5,
            Register::T1 => 6,
            Register::T2 => 7,
            Register::T3 => 28,
            Register::T4 => 29,
            Register::T5 => 30,
            Register::T6 => 31,
            Register::S0 => 8,
            Register::FP => 8,
            Register::S1 => 9,
            Register::S2 => 18,
            Register::S3 => 19,
            Register::S4 => 20,
            Register::S5 => 21,
            Register::S6 => 22,
            Register::S7 => 23,
            Register::S8 => 24,
            Register::S9 => 25,
            Register::S10 => 26,
            Register::S11 => 27,
            Register::A0 => 10,
            Register::A1 => 11,
            Register::A2 => 12,
            Register::A3 => 13,
            Register::A4 => 14,
            Register::A5 => 15,
            Register::A6 => 16,
            Register::A7 => 17,
        }
    }

    /// The register with a number; `None` above 31.
    pub fn from_num(num: u32) -> (r: Option<Register>)
        ensures
            num < 32 ==> r == Some(Register::numbered(num as int)),
            num >= 32 ==> r is None,
    {
        match num {
            0 => Some(Register::Zero),
            1 => Some(Register::RA),
            2 => Some(Register::SP),
            3 => Some(Register::GP),
            4 => Some(Register::TP),
            5 => Some(Register::T0),
            6 => Some(Register::T1),
            7 => Some(Register::T2),
            8 => Some(Register::S0),
            9 => Some(Register::S1),
            10 => Some(Register::A0),
            11 => Some(Register::A1),
            12 => Some(Register::A2),
            13 => Some(Register::A3),
            14 => Some(Register::A4),
            15 => Some(Register::A5),
            16 => Some(Register::A6),
            17 => Some(Register::A7),
            18 => Some(Register::S2),
            19 => Some(Register::S3),
            20 => Some(Register::S4),
            21 => Some(Register::S5),
            22 => Some(Register::S6),
            23 => Some(Register::S7),
            24 => Some(Register::S8),
            25 => Some(Register::S9),
            26 => Some(Register::S10),
            27 => Some(Register::S11),
            28 => Some(Register::T3),
            29 => Some(Register::T4),
            30 => Some(Register::T5),
            31 => Some(Register::T6),
            _ => None,
        }
    }

    /// The register's name as it is written.
    pub open spec fn name_text(self) -> Seq<char> {
        match self {
            Register::Zero => "Zero"@,
            Register::RA => "RA"@,
            Register::SP => "SP"@,
            Register::GP => "GP"@,
            Register::TP => "TP"@,
            Register::T0 => "T0"@,
            Register::T1 => "T1"@,
            Register::T2 => "T2"@,
            Register::T3 => "T3"@,
            Register::T4 => "T4"@,
            Register::T5 => "T5"@,
            Register::T6 => "T6"@,
            Register::S0 => "S0"@,
            Register::FP => "FP"@,
            Register::S1 => "S1"@,
            Register::S2 => "S2"@,
            Register::S3 => "S3"@,
            Register::S4 => "S4"@,
            Register::S5 => "S5"@,
            Register::S6 => "S6"@,
            Register::S7 => "S7"@,
            Register::S8 => "S8"@,
            Register::S9 => "S9"@,
            Register::S10 => "S10"@,
            Register::S11 => "S11"@,
            Register::A0 => "A0"@,
            Register::A1 => "A1"@,
            Register::A2 => "A2"@,
            Register::A3 => "A3"@,
            Register::A4 => "A4"@,
            Register::A5 => "A5"@,
            Register::A6 => "A6"@,
            Register::A7 => "A7"@,
        }
    }

    /// The register that a text names, whatever the case of its letters.
    /// Both `S0` and `FP` are names.
    pub open spec fn named(text: Seq<char>) -> Option<Register> {
        if same_ignoring_case(text, "Zero"@) {
            Some(Register::Zero)
        } else if same_ignoring_case(text, "RA"@) {
            Some(Register::RA)
        } else if same_ignoring_case(text, "SP"@) {
            Some(Register::SP)
        } else if same_ignoring_case(text, "GP"@) {
            Some(Register::GP)
        } else if same_ignoring_case(text, "TP"@) {
            Some(Register::TP)
        } else if same_ignoring_case(text, "T0"@) {
            Some(Register::T0)
        } else if same_ignoring_case(text, "T1"@) {
            Some(Register::T1)
        } else if same_ignoring_case(text, "T2"@) {
            Some(Register::T2)
        } else if same_ignoring_case(text, "T3"@) {
            Some(Register::T3)
        } else if same_ignoring_case(text, "T4"@) {
            Some(Register::T4)
        } else if same_ignoring_case(text, "T5"@) {
            Some(Register::T5)
        } else if same_ignoring_case(text, "T6"@) {
            Some(Register::T6)
        } else if same_ignoring_case(text, "S0"@) {
            Some(Register::S0)
        } else if same_ignoring_case(text, "FP"@) {
            Some(Register::FP)
        } else if same_ignoring_case(text, "S1"@) {
            Some(Register::S1)
        } else if same_ignoring_case(text, "S2"@) {
            Some(Register::S2)
        } else if same_ignoring_case(text, "S3"@) {
            Some(Register::S3)
        } else if same_ignoring_case(text, "S4"@) {
            Some(Register::S4)
        } else if same_ignoring_case(text, "S5"@) {
            Some(Register::S5)
        } else if same_ignoring_case(text, "S6"@) {
            Some(Register::S6)
        } else if same_ignoring_case(text, "S7"@) {
            Some(Register::S7)
        } else if same_ignoring_case(text, "S8"@) {
            Some(Register::S8)
        } else if same_ignoring_case(text, "S9"@) {
            Some(Register::S9)
        } else if same_ignoring_case(text, "S10"@) {
            Some(Register::S10)
        } else if same_ignoring_case(text, "S11"@) {
            Some(Register::S11)
        } else if same_ignoring_case(text, "A0"@) {
            Some(Register::A0)
        } else if same_ignoring_case(text, "A1"@) {
            Some(Register::A1)
        } else if same_ignoring_case(text, "A2"@) {
            Some(Register::A2)
        } else if same_ignoring_case(text, "A3"@) {
            Some(Register::A3)
        } else if same_ignoring_case(text, "A4"@) {
            Some(Register::A4)
        } else if same_ignoring_case(text, "A5"@) {
            Some(Register::A5)
        } else if same_ignoring_case(text, "A6"@) {
            Some(Register::A6)
        } else if same_ignoring_case(text, "A7"@) {
            Some(Register::A7)
        } else {
            None
        }
    }

    /// The register's name as it is written.
    pub fn name(&self) -> (r: &'static str)
        ensures
            r@ == self.name_text(),
    {
        match self {
            Register::Zero => "Zero",
            Register::RA => "RA",
            Register::SP => "SP",
            Register::GP => "GP",
            Register::TP => "TP",
            Register::T0 => "T0",
            Register::T1 => "T1",
            Register::T2 => "T2",
            Register::T3 => "T3",
            Register::T4 => "T4",
            Register::T5 => "T5",
            Register::T6 => "T6",
            Register::S0 => "S0",
            Register::FP => "FP",
            Register::S1 => "S1",
            Register::S2 => "S2",
            Register::S3 => "S3",
            Register::S4 => "S4",
            Register::S5 => "S5",
            Register::S6 => "S6",
            Register::S7 => "S7",
            Register::S8 => "S8",
            Register::S9 => "S9",
            Register::S10 => "S10",
            Register::S11 => "S11",
            Register::A0 => "A0",
            Register::A1 => "A1",
            Register::A2 => "A2",
            Register::A3 => "A3",
            Register::A4 => "A4",
            Register::A5 => "A5",
            Register::A6 => "A6",
            Register::A7 => "A7",
        }
    }

    /// The register that a text names.
    pub fn from_name(s: &str) -> (r: Option<Register>)
        ensures
            r == Register::named(s@),
    {
        let chars = chars_of(s);
        if is_name(&chars, "Zero") {
            Some(Register::Zero)
        } else if is_name(&chars, "RA") {
            Some(Register::RA)
        } else if is_name(&chars, "SP") {
            Some(Register::SP)
        } else if is_name(&chars, "GP") {
            Some(Register::GP)
        } else if is_name(&chars, "TP") {
            Some(Register::TP)
        } else if is_name(&chars, "T0") {
            Some(Register::T0)
        } else if is_name(&chars, "T1") {
            Some(Register::T1)
        } else if is_name(&chars, "T2") {
            Some(Register::T2)
        } else if is_name(&chars, "T3") {
            Some(Register::T3)
        } else if is_name(&chars, "T4") {
            Some(Register::T4)
        } else if is_name(&chars, "T5") {
            Some(Register::T5)
        } else if is_name(&chars, "T6") {
            Some(Register::T6)
        } else if is_name(&chars, "S0") {
            Some(Register::S0)
        } else if is_name(&chars, "FP") {
            Some(Register::FP)
        } else if is_name(&chars, "S1") {
            Some(Register::S1)
        } else if is_name(&chars, "S2") {
            Some(Register::S2)
        } else if is_name(&chars, "S3") {
            Some(Register::S3)
        } else if is_name(&chars, "S4") {
            Some(Register::S4)
        } else if is_name(&chars, "S5") {
            Some(Register::S5)
        } else if is_name(&chars, "S6") {
            Some(Register::S6)
        } else if is_name(&chars, "S7") {
            Some(Register::S7)
        } else if is_name(&chars, "S8") {
            Some(Register::S8)
        } else if is_name(&chars, "S9") {
            Some(Register::S9)
        } else if is_name(&chars, "S10") {
            Some(Register::S10)
        } else if is_name(&chars, "S11") {
            Some(Register::S11)
        } else if is_name(&chars, "A0") {
            Some(Register::A0)
        } else if is_name(&chars, "A1") {
            Some(Register::A1)
        } else if is_name(&chars, "A2") {
            Some(Register::A2)
        } else if is_name(&chars, "A3") {
            Some(Register::A3)
        } else if is_name(&chars, "A4") {
            Some(Register::A4)
        } else if is_name(&chars, "A5") {
            Some(Register::A5)
        } else if is_name(&chars, "A6") {
            Some(Register::A6)
        } else if is_name(&chars, "A7") {
            Some(Register::A7)
        } else {
            None
        }
    }

    /// Every register has a name of two letters at least.
    pub proof fn name_is_not_empty(self)
        ensures
            self.name_text().len() >= 2,
    {
        reveal_strlit("Zero");
        reveal_strlit("RA");
        reveal_strlit("SP");
        reveal_strlit("GP");
        reveal_strlit("TP");
        reveal_strlit("T0");
        reveal_strlit("T1");
        reveal_strlit("T2");
        reveal_strlit("T3");
        reveal_strlit("T4");
        reveal_strlit("T5");
        reveal_strlit("T6");
        reveal_strlit("S0");
        reveal_strlit("FP");
        reveal_strlit("S1");
        reveal_strlit("S2");
        reveal_strlit("S3");
        reveal_strlit("S4");
        reveal_strlit("S5");
        reveal_strlit("S6");
        reveal_strlit("S7");
        reveal_strlit("S8");
        reveal_strlit("S9");
        reveal_strlit("S10");
        reveal_strlit("S11");
        reveal_strlit("A0");
        reveal_strlit("A1");
        reveal_strlit("A2");
        reveal_strlit("A3");
        reveal_strlit("A4");
        reveal_strlit("A5");
        reveal_strlit("A6");
        reveal_strlit("A7");
    }
}

} // verus!
