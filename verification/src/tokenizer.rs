//! The instruction decoder: from one or two 16-bit words to a typed
//! instruction.

use vstd::prelude::*;
use crate::narrow::{i3_value, i7_value, u3_value};
use crate::word::{signed, to_signed};

verus! {

/// The operations of the instruction set.
#[allow(non_camel_case_types)]
#[derive(Debug, PartialEq, Eq, Structural, Clone, Copy)]
pub enum Operation {
    ADD,
    ADDi,
    ADDi16,
    ADDa,
    AND,
    ANDi,
    ANDi16,
    ANDa,
    XOR,
    XORi,
    XORi16,
    XORa,
    BR,
    JUMP,
    RET,
    JSR,
    JSRR,
    LD,
    LDa,
    ST,
    STR,
    STR16,
    NOT,
    TRAP,
    RTI,
    LSD,
    LPN,
    CLRP,
    HALT,
    PUTS,
    GETC,
    OUT,
    IN,
    PUTSP,
}

impl Operation {
    /// Whether the operation's encoding takes two words.
    pub open spec fn double(self) -> bool {
        self == Operation::ADDi16 || self == Operation::ADDa || self == Operation::ANDi16 || self
            == Operation::ANDa || self == Operation::XORi16 || self == Operation::XORa || self
            == Operation::BR || self == Operation::JSR || self == Operation::LDa || self
            == Operation::ST || self == Operation::STR16
    }

    /// Whether the operation's encoding takes two words.
    pub fn is_double(&self) -> (double: bool)
        ensures
            double == self.double(),
    {
        match self {
            Operation::ADDi16 => true,
            Operation::ADDa => true,
            Operation::ANDi16 => true,
            Operation::ANDa => true,
            Operation::XORi16 => true,
            Operation::XORa => true,
            Operation::BR => true,
            Operation::JSR => true,
            Operation::LDa => true,
            Operation::ST => true,
            Operation::STR16 => true,
            _ => false,
        }
    }
}

/// The condition flags that a branch tests.
#[derive(Debug, PartialEq, Eq, Structural, Clone, Copy)]
pub struct Flags {
    pub n: bool,
    pub z: bool,
    pub p: bool,
}

/// One operand of an instruction.
#[derive(Debug, PartialEq, Eq, Structural, Clone, Copy)]
pub enum Operand {
    /// The flags on which a branch is taken.
    BR(Flags),
    /// A memory address.
    Address(u16),
    /// A 16-bit signed immediate.
    Imm16(i16),
    /// A 7-bit signed immediate, in -64..=63.
    Imm7(i8),
    /// A 3-bit signed immediate, in -4..=3.
    Imm3(i8),
    /// A trap vector.
    TrapVect(u8),
    /// A register index, in 0..=7.
    Register(u8),
}

impl Operand {
    /// Whether the operand's value lies in the range of its kind.
    pub open spec fn wf(self) -> bool {
        match self {
            Operand::Imm7(value) => -64 <= value <= 63,
            Operand::Imm3(value) => -4 <= value <= 3,
            Operand::Register(index) => index <= 7,
            _ => true,
        }
    }
}

/// A decoded instruction: an operation and up to three operands.
#[derive(Debug, PartialEq, Eq, Structural, Clone, Copy)]
pub struct Instruction {
    pub operation: Operation,
    pub dr: Option<Operand>,
    pub operand1: Option<Operand>,
    pub operand2: Option<Operand>,
}

impl Instruction {
    /// Whether every operand present lies in the range of its kind.
    pub open spec fn wf(self) -> bool {
        &&& self.dr matches Some(operand) ==> operand.wf()
        &&& self.operand1 matches Some(operand) ==> operand.wf()
        &&& self.operand2 matches Some(operand) ==> operand.wf()
    }
}

/// Why a word, or a pair of words, is no instruction.
#[derive(Debug, PartialEq, Eq, Structural, Clone, Copy)]
pub enum DecodeError {
    /// The top five bits select no opcode family.
    InvalidOpcode,
    /// A trap whose vector names no service routine.
    UnsupportedTrap,
    /// A double-word operation without its second word.
    MissingSecondWord,
    /// A double-word operation handed to the single-word parser.
    LongInstruction,
    /// A single-word operation handed to the double-word parser.
    ShortInstruction,
}

impl DecodeError {
    /// The error in words.
    pub open spec fn text(self) -> Seq<char> {
        match self {
            DecodeError::InvalidOpcode => "invalid instruction"@,
            DecodeError::UnsupportedTrap => "unexpected TRAP instruction not supported"@,
            DecodeError::MissingSecondWord => "32 bit operand parse error"@,
            DecodeError::LongInstruction => "long instruction in parse_single"@,
            DecodeError::ShortInstruction => "short instruction in parse_double"@,
        }
    }

    /// The error in words.
    pub fn message(&self) -> (message: String)
        ensures
            message@ == self.text(),
    {
        match self {
            DecodeError::InvalidOpcode => "invalid instruction".to_owned(),
            DecodeError::UnsupportedTrap => "unexpected TRAP instruction not supported".to_owned(),
            DecodeError::MissingSecondWord => "32 bit operand parse error".to_owned(),
            DecodeError::LongInstruction => "long instruction in parse_single".to_owned(),
            DecodeError::ShortInstruction => "short instruction in parse_double".to_owned(),
        }
    }
}

/// Bits 15 to 11 of the first word: the opcode family.
pub open spec fn opcode_field(word: u16) -> u16 {
    word / 2048
}

/// Bit 10 of the first word, which tells a double-word encoding from a
/// single-word one.
pub open spec fn length_bit(word: u16) -> bool {
    (word / 1024) % 2 == 1
}

/// Bit 3 of the first word, which tells an immediate form from a register or
/// memory form.
pub open spec fn immediate_bit(word: u16) -> bool {
    (word / 8) % 2 == 1
}

/// Bits 9 to 7: the destination register.
pub open spec fn dr_field(word: u16) -> u8 {
    ((word / 128) % 8) as u8
}

/// Bits 6 to 4: the first source register.
pub open spec fn sr1_field(word: u16) -> u8 {
    ((word / 16) % 8) as u8
}

/// Bits 2 to 0: the second source register.
pub open spec fn sr2_field(word: u16) -> u8 {
    (word % 8) as u8
}

/// Bits 2 to 0 read as a two's-complement number.
pub open spec fn imm3_field(word: u16) -> i8 {
    if word % 8 >= 4 {
        (word % 8 - 8) as i8
    } else {
        (word % 8) as i8
    }
}

/// Bits 6 to 0 read as a two's-complement number.
pub open spec fn imm7_field(word: u16) -> i8 {
    if word % 128 >= 64 {
        (word % 128 - 128) as i8
    } else {
        (word % 128) as i8
    }
}

/// Bits 7 to 0: the trap vector.
pub open spec fn vector_field(word: u16) -> u16 {
    word % 256
}

/// Bits 9, 8 and 7: the flags on which a branch is taken.
pub open spec fn flags_field(word: u16) -> Flags {
    Flags { n: (word / 512) % 2 == 1, z: (word / 256) % 2 == 1, p: (word / 128) % 2 == 1 }
}

/// The member of an arithmetic family that bits 10 and 3 select: register,
/// 3-bit immediate, memory operand or 16-bit immediate form.
pub open spec fn family_member(
    word: u16,
    register: Operation,
    immediate: Operation,
    memory: Operation,
    immediate16: Operation,
) -> Operation {
    if !length_bit(word) {
        if immediate_bit(word) {
            immediate
        } else {
            register
        }
    } else {
        if immediate_bit(word) {
            immediate16
        } else {
            memory
        }
    }
}

/// The service routine that a trap vector names, or the bare trap.
pub open spec fn trap_of(word: u16) -> Operation {
    let vector = vector_field(word);
    if vector == 0x20 {
        Operation::GETC
    } else if vector == 0x21 {
        Operation::OUT
    } else if vector == 0x22 {
        Operation::PUTS
    } else if vector == 0x23 {
        Operation::IN
    } else if vector == 0x24 {
        Operation::PUTSP
    } else if vector == 0x25 {
        Operation::HALT
    } else if vector == 0x26 {
        Operation::LSD
    } else if vector == 0x27 {
        Operation::LPN
    } else if vector == 0x28 {
        Operation::CLRP
    } else {
        Operation::TRAP
    }
}

/// The operation that a first word encodes, if its opcode family is valid.
pub open spec fn operation_of(word: u16) -> Option<Operation> {
    let family = opcode_field(word);
    if family == 0b00001 {
        Some(
            family_member(
                word,
                Operation::ADD,
                Operation::ADDi,
                Operation::ADDa,
                Operation::ADDi16,
            ),
        )
    } else if family == 0b00010 {
        Some(
            family_member(
                word,
                Operation::AND,
                Operation::ANDi,
                Operation::ANDa,
                Operation::ANDi16,
            ),
        )
    } else if family == 0b00011 {
        Some(
            family_member(
                word,
                Operation::XOR,
                Operation::XORi,
                Operation::XORa,
                Operation::XORi16,
            ),
        )
    } else if family == 0b00100 {
        Some(Operation::BR)
    } else if family == 0b00101 {
        Some(
            if dr_field(word) == 0b111 {
                Operation::RET
            } else {
                Operation::JUMP
            },
        )
    } else if family == 0b00110 {
        Some(
            if length_bit(word) {
                Operation::JSR
            } else {
                Operation::JSRR
            },
        )
    } else if family == 0b00111 {
        Some(
            if length_bit(word) {
                Operation::STR16
            } else {
                Operation::STR
            },
        )
    } else if family == 0b01000 {
        Some(
            if length_bit(word) {
                Operation::LDa
            } else {
                Operation::LD
            },
        )
    } else if family == 0b01001 {
        Some(Operation::ST)
    } else if family == 0b01010 {
        Some(Operation::NOT)
    } else if family == 0b01100 {
        Some(trap_of(word))
    } else if family == 0b01101 {
        Some(Operation::RTI)
    } else {
        None
    }
}

/// The destination slot of an instruction with the given operation.
pub open spec fn dr_slot(operation: Operation, word: u16) -> Option<Operand> {
    match operation {
        Operation::ADD
        | Operation::ADDi
        | Operation::ADDi16
        | Operation::ADDa
        | Operation::AND
        | Operation::ANDi
        | Operation::ANDi16
        | Operation::ANDa
        | Operation::XOR
        | Operation::XORi
        | Operation::XORi16
        | Operation::XORa
        | Operation::JUMP
        | Operation::JSRR
        | Operation::LD
        | Operation::LDa
        | Operation::ST
        | Operation::STR
        | Operation::STR16
        | Operation::NOT => Some(Operand::Register(dr_field(word))),
        _ => None,
    }
}

/// The first operand slot of an instruction with the given operation.
pub open spec fn operand1_slot(operation: Operation, word: u16) -> Option<Operand> {
    match operation {
        Operation::ADD
        | Operation::ADDi
        | Operation::ADDi16
        | Operation::ADDa
        | Operation::AND
        | Operation::ANDi
        | Operation::ANDi16
        | Operation::ANDa
        | Operation::XOR
        | Operation::XORi
        | Operation::XORi16
        | Operation::XORa
        | Operation::NOT => Some(Operand::Register(sr1_field(word))),
        Operation::LD | Operation::STR => Some(Operand::Imm7(imm7_field(word))),
        Operation::BR => Some(Operand::BR(flags_field(word))),
        _ => None,
    }
}

/// The second operand slot of an instruction with the given operation;
/// `second` is the second word, which only double-word operations read.
pub open spec fn operand2_slot(operation: Operation, word: u16, second: u16) -> Option<Operand> {
    match operation {
        Operation::ADD | Operation::AND | Operation::XOR => Some(
            Operand::Register(sr2_field(word)),
        ),
        Operation::ADDi | Operation::ANDi | Operation::XORi => Some(
            Operand::Imm3(imm3_field(word)),
        ),
        Operation::ADDi16 | Operation::ANDi16 | Operation::XORi16 | Operation::STR16 => Some(
            Operand::Imm16(signed(second)),
        ),
        Operation::ADDa
        | Operation::ANDa
        | Operation::XORa
        | Operation::BR
        | Operation::JSR
        | Operation::LDa
        | Operation::ST => Some(Operand::Address(second)),
        _ => None,
    }
}

/// The instruction with the given operation whose operands are read from
/// `word` and, for a double-word operation, from `second`.
pub open spec fn instruction_of(operation: Operation, word: u16, second: u16) -> Instruction {
    Instruction {
        operation,
        dr: dr_slot(operation, word),
        operand1: operand1_slot(operation, word),
        operand2: operand2_slot(operation, word, second),
    }
}

/// What a first word and an optional second word decode to.
///
/// A word of no valid opcode family is rejected, and so is a trap of unknown
/// vector. A double-word operation needs its second word; a single-word
/// operation ignores one.
pub open spec fn decode(word: u16, second: Option<u16>) -> Result<Instruction, DecodeError> {
    match operation_of(word) {
        None => Err(DecodeError::InvalidOpcode),
        Some(operation) => if operation.double() {
            match second {
                Some(operand) => Ok(instruction_of(operation, word, operand)),
                None => Err(DecodeError::MissingSecondWord),
            }
        } else if operation == Operation::TRAP {
            Err(DecodeError::UnsupportedTrap)
        } else {
            Ok(instruction_of(operation, word, 0))
        },
    }
}

proof fn lemma_fields(word: u16)
    by (bit_vector)
    ensures
        (word >> 11) & 0b11111 == word / 2048,
        (word >> 10) & 0b1 == (word / 1024) % 2,
        (word >> 3) & 0b1 == (word / 8) % 2,
        (word >> 7) & 0b111 == (word / 128) % 8,
        (word >> 4) & 0b111 == (word / 16) % 8,
        word & 0b111 == word % 8,
        word & 0b11111111 == word % 256,
        ((word >> 7) & 0b111) >> 2 == (word / 512) % 2,
        (((word >> 7) & 0b111) >> 1) & 0b1 == (word / 256) % 2,
        ((word >> 7) & 0b111) & 0b1 == (word / 128) % 2,
{
}

proof fn lemma_immediates(word: u16)
    by (bit_vector)
    ensures
        (word >> 2) & 0b1 == 1 ==> (word | 0b1111_1111_1111_1100) as i8 == imm3_field(word),
        (word >> 2) & 0b1 != 1 ==> (word & 0b0000_0000_0000_0011) as i8 == imm3_field(word),
        (word >> 6) & 0b1 == 1 ==> (word | 0b1111_1111_1100_0000) as i8 == imm7_field(word),
        (word >> 6) & 0b1 != 1 ==> (word & 0b0000_0000_0011_1111) as i8 == imm7_field(word),
        -4 <= imm3_field(word) <= 3,
        -64 <= imm7_field(word) <= 63,
{
}

/// Decodes one instruction from its first word and, where the caller fetched
/// one, its second word.
pub fn tokenize(encoded_instruction: u16, second_operand: Option<u16>) -> (decoded: Result<
    Instruction,
    DecodeError,
>)
    ensures
        decoded == decode(encoded_instruction, second_operand),
        decoded matches Ok(instruction) ==> instruction.wf(),
{
    let operation = match match_opcode(encoded_instruction) {
        Ok(operation) => operation,
        Err(error) => {
            return Err(error);
        },
    };
    if operation.is_double() {
        match second_operand {
            Some(operand) => parse_double(operation, encoded_instruction, operand),
            None => Err(DecodeError::MissingSecondWord),
        }
    } else {
        parse_single(operation, encoded_instruction)
    }
}

/// Reads the operation from an instruction's first word.
pub fn match_opcode(instruction: u16) -> (operation: Result<Operation, DecodeError>)
    ensures
        operation == match operation_of(instruction) {
            Some(found) => Ok::<Operation, DecodeError>(found),
            None => Err(DecodeError::InvalidOpcode),
        },
{
    proof {
        lemma_fields(instruction);
    }
    match instruction >> 11 & 0b11111 {
        0b00001 => Ok(parse_add(instruction)),
        0b00010 => Ok(parse_and(instruction)),
        0b00011 => Ok(parse_xor(instruction)),
        0b00100 => Ok(Operation::BR),
        0b00101 => {
            if instruction >> 7 & 0b111 == 0b111 {
                Ok(Operation::RET)
            } else {
                Ok(Operation::JUMP)
            }
        },
        0b00110 => {
            if check_instruction_double(instruction) {
                Ok(Operation::JSR)
            } else {
                Ok(Operation::JSRR)
            }
        },
        0b01000 => {
            if check_instruction_double(instruction) {
                Ok(Operation::LDa)
            } else {
                Ok(Operation::LD)
            }
        },
        0b01001 => Ok(Operation::ST),
        0b00111 => {
            if check_instruction_double(instruction) {
                Ok(Operation::STR16)
            } else {
                Ok(Operation::STR)
            }
        },
        0b01010 => Ok(Operation::NOT),
        0b01100 => Ok(parse_trap(instruction)),
        0b01101 => Ok(Operation::RTI),
        _ => Err(DecodeError::InvalidOpcode),
    }
}

/// Whether bit 10 of an instruction's first word marks a double-word
/// encoding.
pub fn check_instruction_double(instruction: u16) -> (double: bool)
    ensures
        double == length_bit(instruction),
{
    proof {
        lemma_fields(instruction);
    }
    instruction >> 10 & 0b1 == 1
}

/// Reads the service routine from a trap's vector.
pub fn parse_trap(instruction: u16) -> (operation: Operation)
    ensures
        operation == trap_of(instruction),
{
    proof {
        lemma_fields(instruction);
    }
    let instruction = instruction & 0b11111111;
    match instruction {
        0x20 => Operation::GETC,
        0x21 => Operation::OUT,
        0x22 => Operation::PUTS,
        0x23 => Operation::IN,
        0x24 => Operation::PUTSP,
        0x25 => Operation::HALT,
        0x26 => Operation::LSD,
        0x27 => Operation::LPN,
        0x28 => Operation::CLRP,
        _ => Operation::TRAP,
    }
}

/// Reads the form of an addition from bits 10 and 3.
pub fn parse_add(instruction: u16) -> (operation: Operation)
    ensures
        operation == family_member(
            instruction,
            Operation::ADD,
            Operation::ADDi,
            Operation::ADDa,
            Operation::ADDi16,
        ),
{
    proof {
        lemma_fields(instruction);
    }
    if instruction >> 10 & 0b1 == 0 {
        if instruction >> 3 & 0b1 == 1 {
            Operation::ADDi
        } else {
            Operation::ADD
        }
    } else {
        if instruction >> 3 & 0b1 == 1 {
            Operation::ADDi16
        } else {
            Operation::ADDa
        }
    }
}

/// Reads the form of a bitwise and from bits 10 and 3.
pub fn parse_and(instruction: u16) -> (operation: Operation)
    ensures
        operation == family_member(
            instruction,
            Operation::AND,
            Operation::ANDi,
            Operation::ANDa,
            Operation::ANDi16,
        ),
{
    proof {
        lemma_fields(instruction);
    }
    if instruction >> 10 & 0b1 == 0 {
        if instruction >> 3 & 0b1 == 1 {
            Operation::ANDi
        } else {
            Operation::AND
        }
    } else {
        if instruction >> 3 & 0b1 == 1 {
            Operation::ANDi16
        } else {
            Operation::ANDa
        }
    }
}

/// Reads the form of an exclusive or from bits 10 and 3.
pub fn parse_xor(instruction: u16) -> (operation: Operation)
    ensures
        operation == family_member(
            instruction,
            Operation::XOR,
            Operation::XORi,
            Operation::XORa,
            Operation::XORi16,
        ),
{
    proof {
        lemma_fields(instruction);
    }
    if instruction >> 10 & 0b1 == 0 {
        if instruction >> 3 & 0b1 == 1 {
            Operation::XORi
        } else {
            Operation::XOR
        }
    } else {
        if instruction >> 3 & 0b1 == 1 {
            Operation::XORi16
        } else {
            Operation::XORa
        }
    }
}

/// Reads the operands of a single-word operation.
pub fn parse_single(operation: Operation, instruction: u16) -> (parsed: Result<
    Instruction,
    DecodeError,
>)
    ensures
        parsed == if operation.double() {
            Err::<Instruction, DecodeError>(DecodeError::LongInstruction)
        } else if operation == Operation::TRAP {
            Err(DecodeError::UnsupportedTrap)
        } else {
            Ok(instruction_of(operation, instruction, 0))
        },
        parsed matches Ok(found) ==> found.wf(),
{
    match operation {
        Operation::ADD => Ok(parse_def(operation, instruction)),
        Operation::ADDi => Ok(parse_i(operation, instruction)),
        Operation::AND => Ok(parse_def(operation, instruction)),
        Operation::ANDi => Ok(parse_i(operation, instruction)),
        Operation::XOR => Ok(parse_def(operation, instruction)),
        Operation::XORi => Ok(parse_i(operation, instruction)),
        Operation::JUMP => Ok(parse_single_reg(operation, instruction)),
        Operation::RET => Ok(operation_to_instruction(operation)),
        Operation::JSRR => Ok(parse_single_reg(operation, instruction)),
        Operation::LD => Ok(
            Instruction {
                operation,
                dr: Some(get_dr(instruction)),
                operand1: Some(get_imm7(instruction)),
                operand2: None,
            },
        ),
        Operation::STR => Ok(
            Instruction {
                operation,
                dr: Some(get_dr(instruction)),
                operand1: Some(get_imm7(instruction)),
                operand2: None,
            },
        ),
        Operation::NOT => Ok(
            Instruction {
                operation,
                dr: Some(get_dr(instruction)),
                operand1: Some(get_sr(instruction)),
                operand2: None,
            },
        ),
        Operation::TRAP => Err(DecodeError::UnsupportedTrap),
        Operation::RTI => Ok(operation_to_instruction(operation)),
        Operation::LSD => Ok(operation_to_instruction(operation)),
        Operation::LPN => Ok(operation_to_instruction(operation)),
        Operation::CLRP => Ok(operation_to_instruction(operation)),
        Operation::HALT => Ok(operation_to_instruction(operation)),
        Operation::PUTS => Ok(operation_to_instruction(operation)),
        Operation::GETC => Ok(operation_to_instruction(operation)),
        Operation::OUT => Ok(operation_to_instruction(operation)),
        Operation::IN => Ok(operation_to_instruction(operation)),
        Operation::PUTSP => Ok(operation_to_instruction(operation)),
        _ => Err(DecodeError::LongInstruction),
    }
}

/// An instruction whose only operand is its destination register.
pub fn parse_single_reg(operation: Operation, instruction: u16) -> (parsed: Instruction)
    ensures
        parsed == (Instruction {
            operation,
            dr: Some(Operand::Register(dr_field(instruction))),
            operand1: None,
            operand2: None,
        }),
{
    Instruction { operation, dr: Some(get_dr(instruction)), operand1: None, operand2: None }
}

/// An instruction in register form: destination and two source registers.
pub fn parse_def(operation: Operation, instruction: u16) -> (parsed: Instruction)
    ensures
        parsed == (Instruction {
            operation,
            dr: Some(Operand::Register(dr_field(instruction))),
            operand1: Some(Operand::Register(sr1_field(instruction))),
            operand2: Some(Operand::Register(sr2_field(instruction))),
        }),
{
    Instruction {
        operation,
        dr: Some(get_dr(instruction)),
        operand1: Some(get_sr(instruction)),
        operand2: Some(get_sr2(instruction)),
    }
}

/// An instruction in immediate form: destination, source register and a
/// 3-bit immediate.
pub fn parse_i(operation: Operation, instruction: u16) -> (parsed: Instruction)
    ensures
        parsed == (Instruction {
            operation,
            dr: Some(Operand::Register(dr_field(instruction))),
            operand1: Some(Operand::Register(sr1_field(instruction))),
            operand2: Some(Operand::Imm3(imm3_field(instruction))),
        }),
{
    Instruction {
        operation,
        dr: Some(get_dr(instruction)),
        operand1: Some(get_sr(instruction)),
        operand2: Some(get_imm3(instruction)),
    }
}

/// An instruction without operands.
pub fn operation_to_instruction(operation: Operation) -> (parsed: Instruction)
    ensures
        parsed == (Instruction { operation, dr: None, operand1: None, operand2: None }),
{
    Instruction { operation, dr: None, operand1: None, operand2: None }
}

/// Reads the operands of a double-word operation; `operand` is the second
/// word.
pub fn parse_double(operation: Operation, instruction: u16, operand: u16) -> (parsed: Result<
    Instruction,
    DecodeError,
>)
    ensures
        parsed == if operation.double() {
            Ok::<Instruction, DecodeError>(instruction_of(operation, instruction, operand))
        } else {
            Err(DecodeError::ShortInstruction)
        },
        parsed matches Ok(found) ==> found.wf(),
{
    match operation {
        Operation::ADDi16 => Ok(parse_i16(operation, instruction, operand)),
        Operation::ADDa => Ok(parse_a(operation, instruction, operand)),
        Operation::ANDi16 => Ok(parse_i16(operation, instruction, operand)),
        Operation::ANDa => Ok(parse_a(operation, instruction, operand)),
        Operation::XORi16 => Ok(parse_i16(operation, instruction, operand)),
        Operation::XORa => Ok(parse_a(operation, instruction, operand)),
        Operation::BR => Ok(parse_br(instruction, operand)),
        Operation::JSR => Ok(
            Instruction { operation, dr: None, operand1: None, operand2: Some(get_addr(operand)) },
        ),
        Operation::LDa => Ok(
            Instruction {
                operation,
                dr: Some(get_dr(instruction)),
                operand1: None,
                operand2: Some(get_addr(operand)),
            },
        ),
        Operation::ST => Ok(
            Instruction {
                operation,
                dr: Some(get_dr(instruction)),
                operand1: None,
                operand2: Some(get_addr(operand)),
            },
        ),
        Operation::STR16 => Ok(
            Instruction {
                operation,
                dr: Some(get_dr(instruction)),
                operand1: None,
                operand2: Some(get_imm16(operand)),
            },
        ),
        _ => Err(DecodeError::ShortInstruction),
    }
}

/// A branch: its flags from bits 9 to 7, its target from the second word.
pub fn parse_br(instruction: u16, operand: u16) -> (parsed: Instruction)
    ensures
        parsed == (Instruction {
            operation: Operation::BR,
            dr: None,
            operand1: Some(Operand::BR(flags_field(instruction))),
            operand2: Some(Operand::Address(operand)),
        }),
{
    proof {
        lemma_fields(instruction);
    }
    let bits: u16 = instruction >> 7 & 0b111;
    let flag = Operand::BR(Flags { n: bits >> 2 == 1, z: bits >> 1 & 0b1 == 1, p: bits & 0b1 == 1 });
    Instruction {
        operation: Operation::BR,
        dr: None,
        operand1: Some(flag),
        operand2: Some(Operand::Address(operand)),
    }
}

/// An instruction in memory form: destination, source register and the
/// address of the second source.
pub fn parse_a(operation: Operation, instruction: u16, operand: u16) -> (parsed: Instruction)
    ensures
        parsed == (Instruction {
            operation,
            dr: Some(Operand::Register(dr_field(instruction))),
            operand1: Some(Operand::Register(sr1_field(instruction))),
            operand2: Some(Operand::Address(operand)),
        }),
{
    Instruction {
        operation,
        dr: Some(get_dr(instruction)),
        operand1: Some(get_sr(instruction)),
        operand2: Some(get_addr(operand)),
    }
}

/// An instruction in long immediate form: destination, source register and a
/// 16-bit immediate.
pub fn parse_i16(operation: Operation, instruction: u16, operand: u16) -> (parsed: Instruction)
    ensures
        parsed == (Instruction {
            operation,
            dr: Some(Operand::Register(dr_field(instruction))),
            operand1: Some(Operand::Register(sr1_field(instruction))),
            operand2: Some(Operand::Imm16(signed(operand))),
        }),
{
    Instruction {
        operation,
        dr: Some(get_dr(instruction)),
        operand1: Some(get_sr(instruction)),
        operand2: Some(get_imm16(operand)),
    }
}

/// The second word as an address.
pub fn get_addr(address: u16) -> (operand: Operand)
    ensures
        operand == Operand::Address(address),
{
    Operand::Address(address)
}

/// The destination register, from bits 9 to 7.
pub fn get_dr(instruction: u16) -> (operand: Operand)
    ensures
        operand == Operand::Register(dr_field(instruction)),
        operand.wf(),
{
    proof {
        lemma_fields(instruction);
    }
    Operand::Register(u3_value((instruction >> 7 & 0b111u16) as u8))
}

/// The first source register, from bits 6 to 4.
pub fn get_sr(instruction: u16) -> (operand: Operand)
    ensures
        operand == Operand::Register(sr1_field(instruction)),
        operand.wf(),
{
    proof {
        lemma_fields(instruction);
    }
    Operand::Register(u3_value((instruction >> 4 & 0b111u16) as u8))
}

/// The second source register, from bits 2 to 0.
pub fn get_sr2(instruction: u16) -> (operand: Operand)
    ensures
        operand == Operand::Register(sr2_field(instruction)),
        operand.wf(),
{
    proof {
        lemma_fields(instruction);
    }
    Operand::Register(u3_value((instruction & 0b111u16) as u8))
}

/// The 3-bit immediate of bits 2 to 0, sign-extended from bit 2.
pub fn get_imm3(instruction: u16) -> (operand: Operand)
    ensures
        operand == Operand::Imm3(imm3_field(instruction)),
        operand.wf(),
{
    proof {
        lemma_immediates(instruction);
    }
    Operand::Imm3(
        if instruction >> 2 & 0b1 == 1 {
            let num = instruction | 0b1111_1111_1111_1100;
            i3_value(num as i8)
        } else {
            let num = instruction & 0b0000_0000_0000_0011;
            i3_value(num as i8)
        },
    )
}

/// The 7-bit immediate of bits 6 to 0, sign-extended from bit 6.
pub fn get_imm7(instruction: u16) -> (operand: Operand)
    ensures
        operand == Operand::Imm7(imm7_field(instruction)),
        operand.wf(),
{
    proof {
        lemma_immediates(instruction);
    }
    Operand::Imm7(
        if instruction >> 6 & 0b1 == 1 {
            let num = instruction | 0b1111_1111_1100_0000;
            i7_value(num as i8)
        } else {
            let num = instruction & 0b0000_0000_0011_1111;
            i7_value(num as i8)
        },
    )
}

/// The second word as a signed 16-bit immediate.
pub fn get_imm16(operand: u16) -> (immediate: Operand)
    ensures
        immediate == Operand::Imm16(signed(operand)),
{
    Operand::Imm16(to_signed(operand))
}

/// Whether the top five bits of a word select an opcode family.
pub open spec fn valid_family(word: u16) -> bool {
    let family = opcode_field(word);
    1 <= family <= 10 || family == 12 || family == 13
}

/// Decoding rejects a word as of invalid opcode exactly when its top five
/// bits select no family, whatever second word comes with it. A word of a
/// valid family decodes unless it is a trap of unknown vector or a
/// double-word operation that lacks its second word.
pub proof fn lemma_decode_total(word: u16, second: Option<u16>)
    ensures
        !valid_family(word) <==> decode(word, second) == Err::<Instruction, DecodeError>(
            DecodeError::InvalidOpcode,
        ),
        valid_family(word) ==> operation_of(word) is Some,
        valid_family(word) ==> (decode(word, second) is Ok <==> operation_of(word)
            != Some(Operation::TRAP) && (operation_of(word).unwrap().double() ==> second is Some)),
        decode(word, second) matches Ok(instruction) ==> instruction.wf()
            && Some(instruction.operation) == operation_of(word),
{
}

/// A double-word operation is rejected when its second word is missing.
pub proof fn lemma_double_needs_second_word(word: u16)
    requires
        operation_of(word) matches Some(operation) && operation.double(),
    ensures
        decode(word, None) == Err::<Instruction, DecodeError>(DecodeError::MissingSecondWord),
{
}

/// The first word of a double-word operation has bit 10 set. The branch and
/// store families are double-word whatever bit 10 holds, so their words with
/// bit 10 clear are left out.
pub proof fn lemma_double_sets_length_bit(word: u16)
    requires
        operation_of(word) matches Some(operation) && operation.double(),
        !((opcode_field(word) == 0b00100 || opcode_field(word) == 0b01001) && !length_bit(word)),
    ensures
        length_bit(word),
{
}

} // verus!
