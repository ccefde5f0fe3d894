//! The execution engine: registers, flags, memory and the meaning of every
//! operation.
//!
//! The engine owns no terminal. A step hands the host an [`Action`] to carry
//! out, and the host hands a [`Key`] back when the machine waits for one.
//!
//! A handler of a control transfer (`BR`, `JUMP`, `RET`, `JSR`, `JSRR`,
//! `RTI`) leaves the program counter at the address where execution goes on.
//! After every other handler the dispatcher moves the counter past the
//! instruction, by one word or by two. A handler that fails leaves the
//! machine as it found it.

use vstd::prelude::*;
use crate::narrow::u3_value;
use crate::prng::{asg_run, asg_word, AsgState, ASG};
use crate::tokenizer::{
    check_instruction_double, decode, length_bit, tokenize, DecodeError, Flags, Instruction,
    Operand, Operation,
};
use crate::text::{binary, binary_text, decimal, decimal_text, hex, hex_text};
use crate::word::{lemma_bitwise_range, signed, to_signed, to_unsigned, unsigned};

verus! {

/// The kinds of operand that a handler may ask an instruction for.
#[derive(Debug, PartialEq, Eq, Structural, Clone, Copy)]
pub enum OperandKind {
    Register,
    Address,
    Imm3,
    Imm7,
    Imm16,
    Flags,
    /// The second operand of an arithmetic instruction, of whichever kind.
    Second,
}

/// Why the machine stops with an error.
#[derive(Debug, PartialEq, Eq, Structural, Clone, Copy)]
pub enum Fault {
    /// The words at the program counter are no instruction.
    Decode(DecodeError),
    /// The instruction lacks an operand that its handler needs.
    MissingOperand(OperandKind),
    /// The instruction holds an operand of another kind, or out of range.
    WrongOperand(OperandKind),
    /// The handler does not implement the instruction's operation.
    WrongOperation,
    /// A write to privileged memory outside supervisor mode.
    AccessViolation,
    /// A return from interrupt outside supervisor mode.
    PrivilegeMode,
    /// The host could not write to the terminal.
    WriteFailed,
    /// The host could not read from the terminal.
    ReadFailed,
}

impl Fault {
    /// The fault in words.
    pub open spec fn text(self) -> Seq<char> {
        match self {
            Fault::Decode(error) => error.text(),
            Fault::MissingOperand(OperandKind::Register) => "no destination register specified"@,
            Fault::MissingOperand(OperandKind::Address) => "no address specified"@,
            Fault::MissingOperand(OperandKind::Imm3) => "no imm3"@,
            Fault::MissingOperand(OperandKind::Imm7) => "no imm7"@,
            Fault::MissingOperand(OperandKind::Imm16) => "no imm16"@,
            Fault::MissingOperand(OperandKind::Flags) => "BR does not have flag"@,
            Fault::MissingOperand(OperandKind::Second) => "no second operand"@,
            Fault::WrongOperand(OperandKind::Register) => "dr is not a register"@,
            Fault::WrongOperand(OperandKind::Address) => "incorrect operand2, not address"@,
            Fault::WrongOperand(OperandKind::Imm3) => "incorrect operand 2, not imm3"@,
            Fault::WrongOperand(OperandKind::Imm7) => "incorrect operand 1, not imm7"@,
            Fault::WrongOperand(OperandKind::Imm16) => "incorrect operand 2, not imm16"@,
            Fault::WrongOperand(OperandKind::Flags) => "br came with something other than flags"@,
            Fault::WrongOperand(OperandKind::Second) => "unexpected second operand"@,
            Fault::WrongOperation => "unexpected operation"@,
            Fault::AccessViolation => "ACV exception, privileged memory in non supervisor"@,
            Fault::PrivilegeMode => "privilege mode exception"@,
            Fault::WriteFailed => "couldn't write to terminal"@,
            Fault::ReadFailed => "couldn't read input"@,
        }
    }

    /// The fault in words.
    pub fn message(&self) -> (message: String)
        ensures
            message@ == self.text(),
    {
        match self {
            Fault::Decode(error) => error.message(),
            Fault::MissingOperand(kind) => match kind {
                OperandKind::Register => "no destination register specified".to_owned(),
                OperandKind::Address => "no address specified".to_owned(),
                OperandKind::Imm3 => "no imm3".to_owned(),
                OperandKind::Imm7 => "no imm7".to_owned(),
                OperandKind::Imm16 => "no imm16".to_owned(),
                OperandKind::Flags => "BR does not have flag".to_owned(),
                OperandKind::Second => "no second operand".to_owned(),
            },
            Fault::WrongOperand(kind) => match kind {
                OperandKind::Register => "dr is not a register".to_owned(),
                OperandKind::Address => "incorrect operand2, not address".to_owned(),
                OperandKind::Imm3 => "incorrect operand 2, not imm3".to_owned(),
                OperandKind::Imm7 => "incorrect operand 1, not imm7".to_owned(),
                OperandKind::Imm16 => "incorrect operand 2, not imm16".to_owned(),
                OperandKind::Flags => "br came with something other than flags".to_owned(),
                OperandKind::Second => "unexpected second operand".to_owned(),
            },
            Fault::WrongOperation => "unexpected operation".to_owned(),
            Fault::AccessViolation => "ACV exception, privileged memory in non supervisor".to_owned(),
            Fault::PrivilegeMode => "privilege mode exception".to_owned(),
            Fault::WriteFailed => "couldn't write to terminal".to_owned(),
            Fault::ReadFailed => "couldn't read input".to_owned(),
        }
    }
}

/// What the host read from the terminal for a waiting machine.
#[derive(Debug, PartialEq, Eq, Structural, Clone, Copy)]
pub enum Key {
    Byte(u8),
    EndOfInput,
    Failed,
}

/// What the host is to do after a step.
#[derive(Debug, PartialEq, Eq)]
pub enum Action {
    /// Nothing: step again.
    Continue,
    /// The run is over.
    Stop,
    /// Write the bytes to the terminal and flush it: after every byte where
    /// `flush_each` holds, else once after the last.
    Write { bytes: Vec<u8>, flush_each: bool },
    /// Write the prompt and flush, unless the prompt is empty; then read one
    /// byte and hand it to the next step.
    Read { prompt: Vec<u8> },
}

/// An [`Action`] as a value of specifications.
pub enum Effect {
    Continue,
    Stop,
    Write { bytes: Seq<u8>, flush_each: bool },
    Read { prompt: Seq<u8> },
}

impl View for Action {
    type V = Effect;

    open spec fn view(&self) -> Effect {
        match *self {
            Action::Continue => Effect::Continue,
            Action::Stop => Effect::Stop,
            Action::Write { bytes, flush_each } => Effect::Write { bytes: bytes@, flush_each },
            Action::Read { prompt } => Effect::Read { prompt: prompt@ },
        }
    }
}

/// Whether an address lies outside user memory, `0x3000..=0xFDFF`.
pub open spec fn privileged(address: u16) -> bool {
    address < 0x3000 || address > 0xFDFF
}

/// The state of the machine as a mathematical value.
#[verifier::ext_equal]
pub struct MachineState {
    /// The 65536 words of memory.
    pub memory: Seq<u16>,
    /// The eight general registers.
    pub register: Seq<i16>,
    pub pc: u16,
    pub priority: u8,
    pub supervisor: bool,
    pub n: bool,
    pub z: bool,
    pub p: bool,
    pub usp: u16,
    pub ssp: u16,
    pub prng: AsgState,
    /// Whether the machine has yet to halt.
    pub running: bool,
}

impl MachineState {
    /// Whether the state has its 65536 words of memory and eight registers.
    pub open spec fn wf(self) -> bool {
        self.memory.len() == 65536 && self.register.len() == 8
    }

    /// What the words at the program counter decode to. The second word is
    /// read only where bit 10 of the first is set.
    pub open spec fn fetch(self) -> Result<Instruction, DecodeError> {
        let word = self.memory[self.pc as int];
        decode(
            word,
            if length_bit(word) {
                Some(self.memory[self.pc.wrapping_add(1) as int])
            } else {
                None
            },
        )
    }

    /// The state with the condition flags set by the sign of `value`.
    pub open spec fn setcc(self, value: i16) -> MachineState {
        MachineState { n: value < 0, z: value == 0, p: value > 0, ..self }
    }

    /// The state with `value` in register `dr`, the flags untouched.
    pub open spec fn with_register(self, dr: usize, value: i16) -> MachineState {
        MachineState { register: self.register.update(dr as int, value), ..self }
    }

    /// The state after an instruction produced `value` for register `dr`:
    /// the flags follow the value and the register holds it.
    pub open spec fn produce(self, dr: usize, value: i16) -> MachineState {
        self.setcc(value).with_register(dr, value)
    }

    /// The state after a write of `word` to `address`, which privileged
    /// memory refuses outside supervisor mode.
    pub open spec fn write(self, address: u16, word: u16) -> Result<MachineState, Fault> {
        if privileged(address) && !self.supervisor {
            Err(Fault::AccessViolation)
        } else {
            Ok(MachineState { memory: self.memory.update(address as int, word), ..self })
        }
    }

    /// The state with the program counter at `target`.
    pub open spec fn goto(self, target: u16) -> MachineState {
        MachineState { pc: target, ..self }
    }

    /// The state with the program counter `words` further on, wrapping at
    /// sixteen bits.
    pub open spec fn advance(self, words: u16) -> MachineState {
        MachineState { pc: self.pc.wrapping_add(words), ..self }
    }
}

/// A register operand's index.
pub open spec fn register_of(operand: Option<Operand>) -> Result<usize, Fault> {
    match operand {
        None => Err(Fault::MissingOperand(OperandKind::Register)),
        Some(Operand::Register(index)) => if index <= 7 {
            Ok(index as usize)
        } else {
            Err(Fault::WrongOperand(OperandKind::Register))
        },
        Some(_) => Err(Fault::WrongOperand(OperandKind::Register)),
    }
}

/// The address that a second operand gives: an address operand's value, or
/// the bit pattern of a 16-bit immediate.
pub open spec fn address_of(operand: Option<Operand>) -> Result<u16, Fault> {
    match operand {
        None => Err(Fault::MissingOperand(OperandKind::Address)),
        Some(Operand::Address(address)) => Ok(address),
        Some(Operand::Imm16(value)) => Ok(unsigned(value)),
        Some(_) => Err(Fault::WrongOperand(OperandKind::Address)),
    }
}

/// A 3-bit immediate operand's value.
pub open spec fn imm3_of(operand: Option<Operand>) -> Result<i16, Fault> {
    match operand {
        None => Err(Fault::MissingOperand(OperandKind::Imm3)),
        Some(Operand::Imm3(value)) => if -4 <= value <= 3 {
            Ok(value as i16)
        } else {
            Err(Fault::WrongOperand(OperandKind::Imm3))
        },
        Some(_) => Err(Fault::WrongOperand(OperandKind::Imm3)),
    }
}

/// A 7-bit immediate operand's value.
pub open spec fn imm7_of(operand: Option<Operand>) -> Result<i16, Fault> {
    match operand {
        None => Err(Fault::MissingOperand(OperandKind::Imm7)),
        Some(Operand::Imm7(value)) => if -64 <= value <= 63 {
            Ok(value as i16)
        } else {
            Err(Fault::WrongOperand(OperandKind::Imm7))
        },
        Some(_) => Err(Fault::WrongOperand(OperandKind::Imm7)),
    }
}

/// A 16-bit immediate operand's value.
pub open spec fn imm16_of(operand: Option<Operand>) -> Result<i16, Fault> {
    match operand {
        None => Err(Fault::MissingOperand(OperandKind::Imm16)),
        Some(Operand::Imm16(value)) => Ok(value),
        Some(_) => Err(Fault::WrongOperand(OperandKind::Imm16)),
    }
}

/// A branch's flags operand.
pub open spec fn flags_of(operand: Option<Operand>) -> Result<Flags, Fault> {
    match operand {
        None => Err(Fault::MissingOperand(OperandKind::Flags)),
        Some(Operand::BR(flags)) => Ok(flags),
        Some(_) => Err(Fault::WrongOperand(OperandKind::Flags)),
    }
}

/// Whether a handler left the machine as `expected` says: in the state it
/// names, or unchanged and with the fault it names.
pub open spec fn settled(
    before: MachineState,
    after: MachineState,
    result: Result<(), Fault>,
    expected: Result<MachineState, Fault>,
) -> bool {
    match expected {
        Ok(state) => result is Ok && after == state,
        Err(fault) => result == Err::<(), Fault>(fault) && after == before,
    }
}

/// What an arithmetic or logic operation computes from its two inputs:
/// a wrapping sum, a bitwise and, or a bitwise exclusive or.
pub open spec fn alu(operation: Operation, left: i16, right: i16) -> i16 {
    match operation {
        Operation::ADD | Operation::ADDi | Operation::ADDi16 | Operation::ADDa => left.wrapping_add(
            right,
        ),
        Operation::AND | Operation::ANDi | Operation::ANDi16 | Operation::ANDa => left & right,
        _ => left ^ right,
    }
}

/// The bytes that `PUTS` writes for the string at `address`: the low byte of
/// each word up to the first zero word, or to the end of memory.
pub open spec fn puts_text(memory: Seq<u16>, address: int) -> Seq<u8>
    decreases memory.len() - address,
{
    if address < 0 || address >= memory.len() || memory[address] == 0 {
        Seq::empty()
    } else {
        seq![(memory[address] % 256) as u8] + puts_text(memory, address + 1)
    }
}

/// The bytes that `PUTSP` writes for the packed string at `address`: the
/// high and then the low byte of each word up to the first word whose high
/// byte is zero, or to the end of memory.
pub open spec fn putsp_text(memory: Seq<u16>, address: int) -> Seq<u8>
    decreases memory.len() - address,
{
    if address < 0 || address >= memory.len() || memory[address] / 256 == 0 {
        Seq::empty()
    } else {
        seq![(memory[address] / 256) as u8, (memory[address] % 256) as u8] + putsp_text(
            memory,
            address + 1,
        )
    }
}

/// The prompt that `IN` writes before it reads: a line break and `input: `.
pub open spec fn in_prompt() -> Seq<u8> {
    seq![0x0Au8, 0x0D, 0x69, 0x6E, 0x70, 0x75, 0x74, 0x3A, 0x20]
}

/// The byte that a key stands for: itself, or zero at the end of input.
pub open spec fn key_byte(key: Key) -> u8 {
    match key {
        Key::Byte(byte) => byte,
        _ => 0,
    }
}

/// What `IN` writes after it read `key`: the byte and a line break.
pub open spec fn in_echo(key: Key) -> Seq<u8> {
    seq![key_byte(key), 0x0Au8, 0x0D]
}

/// A handler's outcome followed by the move to the next instruction, `words`
/// further on.
pub open spec fn then_advance(outcome: Result<MachineState, Fault>, words: u16) -> Result<
    (MachineState, Effect),
    Fault,
> {
    match outcome {
        Ok(state) => Ok((state.advance(words), Effect::Continue)),
        Err(fault) => Err(fault),
    }
}

/// The outcome of a handler that sets the program counter itself.
pub open spec fn then_continue(outcome: Result<MachineState, Fault>) -> Result<
    (MachineState, Effect),
    Fault,
> {
    match outcome {
        Ok(state) => Ok((state, Effect::Continue)),
        Err(fault) => Err(fault),
    }
}

impl MachineState {
    /// The second input of a single-word arithmetic instruction: a
    /// register's contents in register form, the immediate in immediate form.
    pub open spec fn short_operand(self, instruction: Instruction) -> Result<i16, Fault> {
        match instruction.operand2 {
            None => Err(Fault::MissingOperand(OperandKind::Second)),
            Some(Operand::Imm3(_)) | Some(Operand::Register(_)) => match instruction.operation {
                Operation::ADD | Operation::AND | Operation::XOR => match register_of(
                    instruction.operand2,
                ) {
                    Ok(sr2) => Ok(self.register[sr2 as int]),
                    Err(fault) => Err(fault),
                },
                Operation::ADDi | Operation::ANDi | Operation::XORi => imm3_of(
                    instruction.operand2,
                ),
                _ => Err(Fault::WrongOperation),
            },
            Some(_) => Err(Fault::WrongOperand(OperandKind::Second)),
        }
    }

    /// `ADD`, `AND`, `XOR` and their 3-bit immediate forms: the destination
    /// register receives the result and the flags follow it.
    pub open spec fn execute_def(self, instruction: Instruction) -> Result<MachineState, Fault> {
        match (
            register_of(instruction.dr),
            register_of(instruction.operand1),
            self.short_operand(instruction),
        ) {
            (Err(fault), _, _) => Err(fault),
            (_, Err(fault), _) => Err(fault),
            (_, _, Err(fault)) => Err(fault),
            (Ok(dr), Ok(sr1), Ok(second)) => Ok(
                self.produce(dr, alu(instruction.operation, self.register[sr1 as int], second)),
            ),
        }
    }

    /// The second input of a double-word arithmetic instruction: the 16-bit
    /// immediate, or the word at the address in memory form, read as a
    /// two's-complement number.
    pub open spec fn long_operand(self, instruction: Instruction) -> Result<i16, Fault> {
        match instruction.operand2 {
            None => Err(Fault::MissingOperand(OperandKind::Second)),
            Some(Operand::Imm16(_)) | Some(Operand::Address(_)) => match instruction.operation {
                Operation::ADDi16 | Operation::ANDi16 | Operation::XORi16 => imm16_of(
                    instruction.operand2,
                ),
                Operation::ADDa | Operation::ANDa | Operation::XORa => match address_of(
                    instruction.operand2,
                ) {
                    Ok(address) => Ok(signed(self.memory[address as int])),
                    Err(fault) => Err(fault),
                },
                _ => Err(Fault::WrongOperation),
            },
            Some(_) => Err(Fault::WrongOperand(OperandKind::Second)),
        }
    }

    /// The 16-bit immediate and memory forms of `ADD`, `AND` and `XOR`.
    pub open spec fn execute_double_def(self, instruction: Instruction) -> Result<
        MachineState,
        Fault,
    > {
        match (
            register_of(instruction.dr),
            register_of(instruction.operand1),
            self.long_operand(instruction),
        ) {
            (Err(fault), _, _) => Err(fault),
            (_, Err(fault), _) => Err(fault),
            (_, _, Err(fault)) => Err(fault),
            (Ok(dr), Ok(sr1), Ok(second)) => Ok(
                self.produce(dr, alu(instruction.operation, self.register[sr1 as int], second)),
            ),
        }
    }

    /// `NOT`: the destination receives the complement of the source.
    pub open spec fn not(self, instruction: Instruction) -> Result<MachineState, Fault> {
        match (register_of(instruction.dr), register_of(instruction.operand1)) {
            (Err(fault), _) => Err(fault),
            (_, Err(fault)) => Err(fault),
            (Ok(dr), Ok(sr)) => Ok(self.produce(dr, !self.register[sr as int])),
        }
    }

    /// `LD`: the destination receives the 7-bit immediate.
    pub open spec fn ld(self, instruction: Instruction) -> Result<MachineState, Fault> {
        match (register_of(instruction.dr), imm7_of(instruction.operand1)) {
            (Err(fault), _) => Err(fault),
            (_, Err(fault)) => Err(fault),
            (Ok(dr), Ok(value)) => Ok(self.produce(dr, value)),
        }
    }

    /// `LDa`: the destination receives the word at the address.
    pub open spec fn lda(self, instruction: Instruction) -> Result<MachineState, Fault> {
        match (register_of(instruction.dr), address_of(instruction.operand2)) {
            (Err(fault), _) => Err(fault),
            (_, Err(fault)) => Err(fault),
            (Ok(dr), Ok(address)) => Ok(self.produce(dr, signed(self.memory[address as int]))),
        }
    }

    /// `ST`: the word at the address receives the register's contents.
    pub open spec fn st(self, instruction: Instruction) -> Result<MachineState, Fault> {
        match (register_of(instruction.dr), address_of(instruction.operand2)) {
            (Err(fault), _) => Err(fault),
            (_, Err(fault)) => Err(fault),
            (Ok(sr), Ok(address)) => self.write(address, unsigned(self.register[sr as int])),
        }
    }

    /// `STR`: the word whose address is the register's index receives the
    /// 7-bit immediate.
    pub open spec fn str(self, instruction: Instruction) -> Result<MachineState, Fault> {
        match (register_of(instruction.dr), imm7_of(instruction.operand1)) {
            (Err(fault), _) => Err(fault),
            (_, Err(fault)) => Err(fault),
            (Ok(dr), Ok(value)) => self.write(dr as u16, unsigned(value)),
        }
    }

    /// `STR16`: the word whose address the register holds receives the
    /// 16-bit immediate.
    pub open spec fn str16(self, instruction: Instruction) -> Result<MachineState, Fault> {
        match (register_of(instruction.dr), imm16_of(instruction.operand2)) {
            (Err(fault), _) => Err(fault),
            (_, Err(fault)) => Err(fault),
            (Ok(dr), Ok(value)) => self.write(unsigned(self.register[dr as int]), unsigned(value)),
        }
    }

    /// `JUMP`: execution goes on at the address that the register holds.
    pub open spec fn jump(self, instruction: Instruction) -> Result<MachineState, Fault> {
        match register_of(instruction.dr) {
            Err(fault) => Err(fault),
            Ok(dr) => Ok(self.goto(unsigned(self.register[dr as int]))),
        }
    }

    /// `RET`: execution goes on at the address that register 7 holds.
    pub open spec fn ret(self) -> MachineState {
        self.goto(unsigned(self.register[7]))
    }

    /// `JSR`: register 7 receives the address of the next instruction and
    /// execution goes on at the target.
    pub open spec fn jsr(self, instruction: Instruction) -> Result<MachineState, Fault> {
        match address_of(instruction.operand2) {
            Err(fault) => Err(fault),
            Ok(address) => Ok(self.with_register(7, signed(self.pc.wrapping_add(2))).goto(address)),
        }
    }

    /// `JSRR`: register 7 receives the program counter, and execution then
    /// goes on at the address that the named register holds.
    pub open spec fn jsrr(self, instruction: Instruction) -> Result<MachineState, Fault> {
        match register_of(instruction.dr) {
            Err(fault) => Err(fault),
            Ok(dr) => {
                let linked = self.with_register(7, signed(self.pc));
                Ok(linked.goto(unsigned(linked.register[dr as int])))
            },
        }
    }

    /// Whether a branch on `flags` is taken: one of the flags it names is
    /// set.
    pub open spec fn taken(self, flags: Flags) -> bool {
        (flags.n && self.n) || (flags.z && self.z) || (flags.p && self.p)
    }

    /// `BR`: execution goes on at the target if the branch is taken, and at
    /// the next instruction if not.
    pub open spec fn br(self, instruction: Instruction) -> Result<MachineState, Fault> {
        match (address_of(instruction.operand2), flags_of(instruction.operand1)) {
            (Err(fault), _) => Err(fault),
            (_, Err(fault)) => Err(fault),
            (Ok(address), Ok(flags)) => Ok(
                if self.taken(flags) {
                    self.goto(address)
                } else {
                    self.advance(2)
                },
            ),
        }
    }

    /// `RTI`: in supervisor mode execution goes on at the address stored
    /// where register 6 points; outside it the instruction is refused.
    pub open spec fn rti(self) -> Result<MachineState, Fault> {
        if !self.supervisor {
            Err(Fault::PrivilegeMode)
        } else {
            Ok(self.goto(self.memory[unsigned(self.register[6]) as int]))
        }
    }

    /// `LSD`: the generator is seeded from registers 0, 1 and 2.
    pub open spec fn lsd(self) -> MachineState {
        MachineState {
            prng: AsgState {
                clock: unsigned(self.register[0]),
                first: unsigned(self.register[1]),
                second: unsigned(self.register[2]),
            },
            ..self
        }
    }

    /// `LPN`: register 0 receives the generator's next sixteen bits.
    pub open spec fn lpn(self) -> MachineState {
        MachineState {
            prng: asg_run(self.prng, 16),
            ..self.with_register(0, signed(asg_word(self.prng, 16) as u16))
        }
    }

    /// `CLRP`: the generator is seeded with zeros.
    pub open spec fn clrp(self) -> MachineState {
        MachineState { prng: AsgState { clock: 0, first: 0, second: 0 }, ..self }
    }

    /// `HALT`: the machine stops running.
    pub open spec fn halt(self) -> MachineState {
        MachineState { running: false, ..self }
    }

    /// The end of `GETC` and of `IN`: register 0 receives the byte read,
    /// zero at the end of input; a failed read is a fault.
    pub open spec fn receive(self, key: Key) -> Result<MachineState, Fault> {
        match key {
            Key::Failed => Err(Fault::ReadFailed),
            _ => Ok(self.with_register(0, key_byte(key) as i16)),
        }
    }

    /// The bytes that `OUT` writes: the low byte of register 0.
    pub open spec fn out(self) -> Seq<u8> {
        seq![(unsigned(self.register[0]) % 256) as u8]
    }

    /// What the instruction does to the machine and asks of the host.
    /// `key` is what the host read for a machine that waited; `GETC` and
    /// `IN` ask for a read when there is none.
    pub open spec fn dispatch(self, instruction: Instruction, key: Option<Key>) -> Result<
        (MachineState, Effect),
        Fault,
    > {
        match instruction.operation {
            Operation::ADD
            | Operation::ADDi
            | Operation::AND
            | Operation::ANDi
            | Operation::XOR
            | Operation::XORi => then_advance(self.execute_def(instruction), 1),
            Operation::ADDi16
            | Operation::ADDa
            | Operation::ANDi16
            | Operation::ANDa
            | Operation::XORi16
            | Operation::XORa => then_advance(self.execute_double_def(instruction), 2),
            Operation::BR => then_continue(self.br(instruction)),
            Operation::JUMP => then_continue(self.jump(instruction)),
            Operation::RET => Ok((self.ret(), Effect::Continue)),
            Operation::JSR => then_continue(self.jsr(instruction)),
            Operation::JSRR => then_continue(self.jsrr(instruction)),
            Operation::LD => then_advance(self.ld(instruction), 1),
            Operation::LDa => then_advance(self.lda(instruction), 2),
            Operation::ST => then_advance(self.st(instruction), 2),
            Operation::STR => then_advance(self.str(instruction), 1),
            Operation::STR16 => then_advance(self.str16(instruction), 2),
            Operation::NOT => then_advance(self.not(instruction), 1),
            Operation::TRAP => Err(Fault::Decode(DecodeError::UnsupportedTrap)),
            Operation::RTI => then_continue(self.rti()),
            Operation::LSD => Ok((self.lsd().advance(1), Effect::Continue)),
            Operation::LPN => Ok((self.lpn().advance(1), Effect::Continue)),
            Operation::CLRP => Ok((self.clrp().advance(1), Effect::Continue)),
            Operation::HALT => Ok((self.halt().advance(1), Effect::Continue)),
            Operation::PUTS => Ok(
                (
                    self.advance(1),
                    Effect::Write {
                        bytes: puts_text(self.memory, unsigned(self.register[0]) as int),
                        flush_each: true,
                    },
                ),
            ),
            Operation::PUTSP => Ok(
                (
                    self.advance(1),
                    Effect::Write {
                        bytes: putsp_text(self.memory, unsigned(self.register[0]) as int),
                        flush_each: false,
                    },
                ),
            ),
            Operation::OUT => Ok(
                (self.advance(1), Effect::Write { bytes: self.out(), flush_each: false }),
            ),
            Operation::GETC => match key {
                None => Ok((self, Effect::Read { prompt: Seq::empty() })),
                Some(key) => then_advance(self.receive(key), 1),
            },
            Operation::IN => match key {
                None => Ok((self, Effect::Read { prompt: in_prompt() })),
                Some(key) => match self.receive(key) {
                    Ok(state) => Ok(
                        (
                            state.advance(1),
                            Effect::Write { bytes: in_echo(key), flush_each: false },
                        ),
                    ),
                    Err(fault) => Err(fault),
                },
            },
        }
    }

    /// One instruction: the word at the program counter is fetched, with the
    /// next word if its bit 10 is set, decoded and carried out. A
    /// single-word operation in a double-word encoding is refused.
    pub open spec fn simulate_instruction(self, key: Option<Key>) -> Result<
        (MachineState, Effect),
        Fault,
    > {
        match self.fetch() {
            Err(error) => Err(Fault::Decode(error)),
            Ok(instruction) => if length_bit(self.memory[self.pc as int])
                && !instruction.operation.double() {
                Err(Fault::Decode(DecodeError::ShortInstruction))
            } else {
                self.dispatch(instruction, key)
            },
        }
    }

    /// Whether the run is over: the machine has halted or the program
    /// counter has left the memory below `0xFE00`.
    pub open spec fn stopped(self) -> bool {
        !self.running || self.pc >= 0xFE00
    }

    /// One turn of the run: nothing once the run is over; the halt, without
    /// fault, on a zero word; else one instruction.
    pub open spec fn step(self, key: Option<Key>) -> Result<(MachineState, Effect), Fault> {
        if self.stopped() {
            Ok((self, Effect::Stop))
        } else if self.memory[self.pc as int] == 0 {
            Ok((self.halt(), Effect::Stop))
        } else {
            self.simulate_instruction(key)
        }
    }
}

/// Whether a step left the machine and answered as `expected` says.
pub open spec fn stepped(
    before: MachineState,
    after: MachineState,
    result: Result<Action, Fault>,
    expected: Result<(MachineState, Effect), Fault>,
) -> bool {
    match expected {
        Ok((state, effect)) => after == state && (result matches Ok(action) && action@ == effect),
        Err(fault) => after == before && (result matches Err(found) && found == fault),
    }
}

/// The bytes that an effect has the host write.
pub open spec fn effect_bytes(effect: Effect) -> Seq<u8> {
    match effect {
        Effect::Write { bytes, .. } => bytes,
        Effect::Read { prompt } => prompt,
        _ => Seq::empty(),
    }
}

/// The key that a read finds on a scripted terminal whose unread keys are
/// `pending`.
pub open spec fn first_key(pending: Seq<u8>) -> Key {
    if pending.len() > 0 {
        Key::Byte(pending[0])
    } else {
        Key::EndOfInput
    }
}

/// The unread keys after a read.
pub open spec fn after_key(pending: Seq<u8>) -> Seq<u8> {
    if pending.len() > 0 {
        pending.skip(1)
    } else {
        pending
    }
}

/// A machine together with a scripted terminal: the bytes written so far
/// and the keys yet unread. `outcome` tells whether the run is over, or
/// which fault ended it.
pub struct Run {
    pub state: MachineState,
    pub written: Seq<u8>,
    pub pending: Seq<u8>,
    pub outcome: Result<bool, Fault>,
}

/// One turn of a run on a scripted terminal: a step, whose bytes are
/// written; and where the step asks for a read, the read and the step that
/// takes the key.
pub open spec fn turn(state: MachineState, written: Seq<u8>, pending: Seq<u8>) -> Run {
    match state.step(None) {
        Err(fault) => Run { state, written, pending, outcome: Err(fault) },
        Ok((waiting, Effect::Read { prompt })) => match waiting.step(Some(first_key(pending))) {
            Err(fault) => Run {
                state: waiting,
                written: written + prompt,
                pending: after_key(pending),
                outcome: Err(fault),
            },
            Ok((next, effect)) => Run {
                state: next,
                written: written + prompt + effect_bytes(effect),
                pending: after_key(pending),
                outcome: Ok(effect is Stop),
            },
        },
        Ok((next, effect)) => Run {
            state: next,
            written: written + effect_bytes(effect),
            pending,
            outcome: Ok(effect is Stop),
        },
    }
}

/// A run of at most `turns` turns on a scripted terminal. It ends early
/// when the machine stops or faults.
pub open spec fn run(state: MachineState, written: Seq<u8>, pending: Seq<u8>, turns: nat) -> Run
    decreases turns,
{
    if turns == 0 {
        Run { state, written, pending, outcome: Ok(false) }
    } else {
        let after = turn(state, written, pending);
        if after.outcome == Ok::<bool, Fault>(false) {
            run(after.state, after.written, after.pending, (turns - 1) as nat)
        } else {
            after
        }
    }
}

/// The dump of the first `count` registers: for each its name, a colon,
/// its contents in decimal, a tab and a space.
pub open spec fn registers_text(register: Seq<i16>, count: nat) -> Seq<char>
    decreases count,
{
    if count == 0 {
        Seq::empty()
    } else {
        registers_text(register, (count - 1) as nat) + "R"@ + decimal_text(count - 1) + ": "@
            + decimal_text(register[count - 1] as int) + "\t "@
    }
}

/// One line of a memory dump: the address in hexadecimal, a colon and the
/// word in binary.
pub open spec fn memory_line(memory: Seq<u16>, address: u16) -> Seq<char> {
    "0x"@ + hex_text(address) + ": "@ + binary_text(memory[address as int]) + "\n"@
}

/// The dump of the two words at the program counter.
pub open spec fn memory_text(state: MachineState) -> Seq<char> {
    memory_line(state.memory, state.pc) + memory_line(state.memory, state.pc.wrapping_add(1))
}

/// The dump of a state: the program counter, the registers and the two
/// words at the program counter.
pub open spec fn state_text(state: MachineState) -> Seq<char> {
    "PC: "@ + decimal_text(state.pc as int) + " "@ + registers_text(state.register, 8) + "\n"@
        + memory_text(state) + "\n"@
}

struct PSR {
    priority: u8,
    supervisor: bool,
    n: bool,
    p: bool,
    z: bool,
}

/// The machine: memory, registers, status and the random number generator.
pub struct Machine {
    halt_flag: bool,
    asg: ASG,
    memory: [u16; 65536],
    pc: u16,
    register: [i16; 8],
    usp: u16,
    ssp: u16,
    psr: PSR,
}

impl View for Machine {
    type V = MachineState;

    closed spec fn view(&self) -> MachineState {
        MachineState {
            memory: self.memory@,
            register: self.register@,
            pc: self.pc,
            priority: self.psr.priority,
            supervisor: self.psr.supervisor,
            n: self.psr.n,
            z: self.psr.z,
            p: self.psr.p,
            usp: self.usp,
            ssp: self.ssp,
            prng: self.asg@,
            running: self.halt_flag,
        }
    }
}

/// The state in which a machine starts on the memory image `memory`.
pub open spec fn initial_state(memory: Seq<u16>) -> MachineState {
    MachineState {
        memory,
        register: Seq::new(8, |i: int| 0i16),
        pc: 0x3000,
        priority: 0,
        supervisor: false,
        n: false,
        z: false,
        p: false,
        usp: 0xFDFF,
        ssp: 0x2FFF,
        prng: AsgState { clock: 0, first: 0, second: 0 },
        running: true,
    }
}

impl Machine {
    /// A machine always has its 65536 words of memory and eight registers.
    pub proof fn lemma_wf(&self)
        ensures
            self@.wf(),
    {
    }

    /// A machine at its reset state, on the given memory image or, without
    /// one, on memory that is zero throughout.
    pub fn new(mem: Option<[u16; 65536]>) -> (machine: Machine)
        ensures
            machine@ == initial_state(
                match mem {
                    Some(image) => image@,
                    None => Seq::new(65536, |i: int| 0u16),
                },
            ),
    {
        let memory = match mem {
            Some(image) => image,
            None => [0b0u16;65536],
        };
        let machine = Machine {
            halt_flag: true,
            asg: ASG::new(),
            memory,
            pc: 0x3000,
            register: [0b0i16;8],
            usp: 0xFDFF,
            ssp: 0x2FFF,
            psr: PSR { priority: u3_value(0), supervisor: false, n: false, p: false, z: false },
        };
        assert(machine.memory@ =~= match mem {
            Some(image) => image@,
            None => Seq::new(65536, |i: int| 0u16),
        });
        assert(machine.register@ =~= Seq::new(8, |i: int| 0i16));
        machine
    }

    /// Sets the condition flags by the sign of `value`: exactly one of them.
    pub fn setcc(&mut self, value: i16)
        ensures
            final(self)@ == old(self)@.setcc(value),
    {
        if value > 0 {
            self.psr.p = true;
            self.psr.n = false;
            self.psr.z = false;
        } else if value == 0 {
            self.psr.p = false;
            self.psr.n = false;
            self.psr.z = true;
        } else {
            self.psr.p = false;
            self.psr.n = true;
            self.psr.z = false;
        }
    }
}

impl Machine {
    /// `PUTS`: the bytes of the string at the address in register 0.
    pub fn puts(&self) -> (bytes: Vec<u8>)
        ensures
            bytes@ == puts_text(self@.memory, unsigned(self@.register[0]) as int),
    {
        let start: usize = to_unsigned(self.register[0]) as usize;
        let mut addr: usize = start;
        let mut bytes: Vec<u8> = Vec::new();
        while addr < 65536 && self.memory[addr] != 0
            invariant
                start <= addr <= 65536,
                bytes@ + puts_text(self.memory@, addr as int) == puts_text(
                    self.memory@,
                    start as int,
                ),
            decreases 65536 - addr,
        {
            let out: u8 = (self.memory[addr] % 256) as u8;
            assert(puts_text(self.memory@, addr as int) == seq![out] + puts_text(
                self.memory@,
                addr + 1,
            ));
            bytes.push(out);
            addr += 1;
        }
        assert(puts_text(self.memory@, addr as int) == Seq::<u8>::empty());
        bytes
    }

    /// `IN`, once the host has read: register 0 receives the byte, and the
    /// bytes to echo come back.
    pub fn in_trap(&mut self, key: Key) -> (result: Result<Vec<u8>, Fault>)
        ensures
            match old(self)@.receive(key) {
                Ok(state) => final(self)@ == state && (result matches Ok(echo) && echo@ == in_echo(
                    key,
                )),
                Err(fault) => final(self)@ == old(self)@ && (result matches Err(found) && found
                    == fault),
            },
    {
        let key: u8 = match key {
            Key::Byte(key) => key,
            Key::EndOfInput => 0,
            Key::Failed => {
                return Err(Fault::ReadFailed);
            },
        };
        let mut echo: Vec<u8> = Vec::new();
        echo.push(key);
        echo.push(0x0A);
        echo.push(0x0D);
        self.register[0] = key as i16;
        assert(echo@ == seq![key, 0x0Au8, 0x0D]);
        Ok(echo)
    }

    /// `GETC`, once the host has read: register 0 receives the byte.
    pub fn getc(&mut self, key: Key) -> (result: Result<(), Fault>)
        ensures
            settled(old(self)@, final(self)@, result, old(self)@.receive(key)),
    {
        let key: u8 = match key {
            Key::Byte(key) => key,
            Key::EndOfInput => 0,
            Key::Failed => {
                return Err(Fault::ReadFailed);
            },
        };
        self.register[0] = key as i16;
        Ok(())
    }

    /// `OUT`: the low byte of register 0.
    pub fn out(&self) -> (bytes: Vec<u8>)
        ensures
            bytes@ == self@.out(),
    {
        let mut bytes: Vec<u8> = Vec::new();
        bytes.push((to_unsigned(self.register[0]) % 256) as u8);
        assert(bytes@ == seq![(unsigned(self.register[0]) % 256) as u8]);
        bytes
    }

    /// `PUTSP`: the bytes of the packed string at the address in register 0.
    pub fn putsp(&self) -> (bytes: Vec<u8>)
        ensures
            bytes@ == putsp_text(self@.memory, unsigned(self@.register[0]) as int),
    {
        let start: usize = to_unsigned(self.register[0]) as usize;
        let mut addr: usize = start;
        let mut bytes: Vec<u8> = Vec::new();
        while addr < 65536 && self.memory[addr] / 256 != 0
            invariant
                start <= addr <= 65536,
                bytes@ + putsp_text(self.memory@, addr as int) == putsp_text(
                    self.memory@,
                    start as int,
                ),
            decreases 65536 - addr,
        {
            let high: u8 = (self.memory[addr] / 256) as u8;
            let low: u8 = (self.memory[addr] % 256) as u8;
            assert(putsp_text(self.memory@, addr as int) == seq![high, low] + putsp_text(
                self.memory@,
                addr + 1,
            ));
            bytes.push(high);
            bytes.push(low);
            addr += 1;
        }
        assert(putsp_text(self.memory@, addr as int) == Seq::<u8>::empty());
        bytes
    }

    /// `STR16`: stores the 16-bit immediate where the register points.
    pub fn str16(&mut self, instruction: Instruction) -> (result: Result<(), Fault>)
        ensures
            settled(old(self)@, final(self)@, result, old(self)@.str16(instruction)),
    {
        let dr = instruction_to_dr(&instruction)?;
        let value = instruction_to_imm16(&instruction)?;
        let addr = to_unsigned(self.register[dr]);
        self.acv_exception(addr as usize)?;
        self.memory[addr as usize] = to_unsigned(value);
        Ok(())
    }

    /// `ST`: stores the register at the address.
    pub fn st(&mut self, instruction: Instruction) -> (result: Result<(), Fault>)
        ensures
            settled(old(self)@, final(self)@, result, old(self)@.st(instruction)),
    {
        let sr = instruction_to_dr(&instruction)?;
        let addr = instruction_to_addr(&instruction)? as usize;
        self.acv_exception(addr)?;
        self.memory[addr] = to_unsigned(self.register[sr]);
        Ok(())
    }

    /// `LDa`: loads the register from the address and sets the flags.
    pub fn lda(&mut self, instruction: Instruction) -> (result: Result<(), Fault>)
        ensures
            settled(old(self)@, final(self)@, result, old(self)@.lda(instruction)),
    {
        let dr = instruction_to_dr(&instruction)?;
        let addr = instruction_to_addr(&instruction)? as usize;
        let value = to_signed(self.memory[addr]);
        self.setcc(value);
        self.register[dr] = value;
        Ok(())
    }

    /// `JSR`: links through register 7 and jumps to the address.
    pub fn jsr(&mut self, instruction: &Instruction) -> (result: Result<(), Fault>)
        ensures
            settled(old(self)@, final(self)@, result, old(self)@.jsr(*instruction)),
    {
        let addr = instruction_to_addr(instruction)?;
        self.register[7] = to_signed(self.pc.wrapping_add(2));
        self.pc = addr;
        Ok(())
    }

    /// `BR`: jumps to the address if a flag that the branch names is set,
    /// and moves past the branch if none is.
    pub fn br(&mut self, instruction: &Instruction) -> (result: Result<(), Fault>)
        ensures
            settled(old(self)@, final(self)@, result, old(self)@.br(*instruction)),
    {
        let addr = instruction_to_addr(instruction)?;
        match &instruction.operand1 {
            Some(br) => match br {
                Operand::BR(flag) => {
                    if (flag.n && self.psr.n) || (flag.z && self.psr.z) || (flag.p && self.psr.p) {
                        self.pc = addr;
                    } else {
                        self.pc = self.pc.wrapping_add(2);
                    }
                    Ok(())
                },
                _ => Err(Fault::WrongOperand(OperandKind::Flags)),
            },
            None => Err(Fault::MissingOperand(OperandKind::Flags)),
        }
    }

    /// `CLRP`: seeds the generator with zeros.
    pub fn clrp(&mut self) -> (result: Result<(), Fault>)
        ensures
            result is Ok,
            final(self)@ == old(self)@.clrp(),
    {
        self.asg.set_seed(0, 0, 0);
        Ok(())
    }

    /// `LPN`: loads register 0 with the generator's next sixteen bits.
    pub fn lpn(&mut self) -> (result: Result<(), Fault>)
        ensures
            result is Ok,
            final(self)@ == old(self)@.lpn(),
    {
        self.register[0] = to_signed(self.asg.clock_16());
        Ok(())
    }

    /// `LSD`: seeds the generator from registers 0, 1 and 2.
    pub fn lsd(&mut self) -> (result: Result<(), Fault>)
        ensures
            result is Ok,
            final(self)@ == old(self)@.lsd(),
    {
        let clock = to_unsigned(self.register[0]);
        let first = to_unsigned(self.register[1]);
        let second = to_unsigned(self.register[2]);
        self.asg.set_seed(clock, first, second);
        Ok(())
    }

    /// `RTI`: in supervisor mode, jumps to the address stored where register
    /// 6 points.
    pub fn rti(&mut self) -> (result: Result<(), Fault>)
        ensures
            settled(old(self)@, final(self)@, result, old(self)@.rti()),
    {
        if !self.psr.supervisor {
            return Err(Fault::PrivilegeMode);
        }
        self.pc = self.memory[to_unsigned(self.register[6]) as usize];
        Ok(())
    }

    /// `NOT`: complements the source into the destination and sets the
    /// flags.
    pub fn not(&mut self, instruction: Instruction) -> (result: Result<(), Fault>)
        ensures
            settled(old(self)@, final(self)@, result, old(self)@.not(instruction)),
    {
        let dr = instruction_to_dr(&instruction)?;
        let sr = instruction_to_sr1(&instruction)?;
        proof {
            lemma_bitwise_range(self.register[sr as int], 0);
        }
        let value = !self.register[sr];
        self.setcc(value);
        self.register[dr] = value;
        Ok(())
    }

    /// `STR`: stores the 7-bit immediate at the address that equals the
    /// register's index.
    pub fn str(&mut self, instruction: Instruction) -> (result: Result<(), Fault>)
        ensures
            settled(old(self)@, final(self)@, result, old(self)@.str(instruction)),
    {
        let dest_addr = instruction_to_dr(&instruction)?;
        let value = instruction_to_imm7(&instruction)?;
        self.acv_exception(dest_addr)?;
        self.memory[dest_addr] = to_unsigned(value);
        Ok(())
    }

    /// Refuses a write to privileged memory outside supervisor mode.
    pub fn acv_exception(&self, addr: usize) -> (result: Result<(), Fault>)
        ensures
            result == if !(0x3000 <= addr <= 0xFDFF) && !self@.supervisor {
                Err::<(), Fault>(Fault::AccessViolation)
            } else {
                Ok(())
            },
    {
        if address_privileged(addr) && !self.psr.supervisor {
            return Err(Fault::AccessViolation);
        }
        Ok(())
    }

    /// `LD`: loads the register with the 7-bit immediate and sets the flags.
    pub fn ld(&mut self, instruction: Instruction) -> (result: Result<(), Fault>)
        ensures
            settled(old(self)@, final(self)@, result, old(self)@.ld(instruction)),
    {
        let dr = instruction_to_dr(&instruction)?;
        let num = instruction_to_imm7(&instruction)?;
        self.setcc(num);
        self.register[dr] = num;
        Ok(())
    }

    /// `JUMP`: jumps to the address in the register.
    pub fn jump(&mut self, instruction: Instruction) -> (result: Result<(), Fault>)
        ensures
            settled(old(self)@, final(self)@, result, old(self)@.jump(instruction)),
    {
        let reg = instruction_to_dr(&instruction)?;
        self.pc = to_unsigned(self.register[reg]);
        Ok(())
    }

    /// `RET`: jumps to the address in register 7.
    pub fn ret(&mut self) -> (result: Result<(), Fault>)
        ensures
            result is Ok,
            final(self)@ == old(self)@.ret(),
    {
        self.pc = to_unsigned(self.register[7]);
        Ok(())
    }

    /// `JSRR`: links through register 7 and jumps to the address in the
    /// register.
    pub fn jsrr(&mut self, instruction: Instruction) -> (result: Result<(), Fault>)
        ensures
            settled(old(self)@, final(self)@, result, old(self)@.jsrr(instruction)),
    {
        let reg = instruction_to_dr(&instruction)?;
        self.register[7] = to_signed(self.pc);
        self.pc = to_unsigned(self.register[reg]);
        Ok(())
    }
}

impl Machine {
    /// `ADD`, `AND`, `XOR` and their 3-bit immediate forms.
    pub fn execute_def(&mut self, instruction: Instruction) -> (result: Result<(), Fault>)
        ensures
            settled(old(self)@, final(self)@, result, old(self)@.execute_def(instruction)),
    {
        let dr: usize = instruction_to_dr(&instruction)?;
        let sr1: usize = instruction_to_sr1(&instruction)?;
        let sr2: i16 = match &instruction.operand2 {
            Some(op) => match op {
                Operand::Imm3(_) | Operand::Register(_) => match instruction.operation {
                    Operation::ADD | Operation::AND | Operation::XOR => {
                        let index = instruction_to_sr2(&instruction)?;
                        self.register[index]
                    },
                    Operation::ADDi | Operation::ANDi | Operation::XORi => instruction_to_imm3(
                        &instruction,
                    )?,
                    _ => {
                        return Err(Fault::WrongOperation);
                    },
                },
                _ => {
                    return Err(Fault::WrongOperand(OperandKind::Second));
                },
            },
            None => {
                return Err(Fault::MissingOperand(OperandKind::Second));
            },
        };
        proof {
            lemma_bitwise_range(self.register[sr1 as int], sr2);
        }
        let value: i16 = match instruction.operation {
            Operation::ADD | Operation::ADDi => self.register[sr1].wrapping_add(sr2),
            Operation::AND | Operation::ANDi => self.register[sr1] & sr2,
            _ => self.register[sr1] ^ sr2,
        };
        self.setcc(value);
        self.register[dr] = value;
        Ok(())
    }

    /// The 16-bit immediate and memory forms of `ADD`, `AND` and `XOR`.
    pub fn execute_double_def(&mut self, instruction: Instruction) -> (result: Result<(), Fault>)
        ensures
            settled(old(self)@, final(self)@, result, old(self)@.execute_double_def(instruction)),
    {
        let dr: usize = instruction_to_dr(&instruction)?;
        let sr1: usize = instruction_to_sr1(&instruction)?;
        let sr2: i16 = match &instruction.operand2 {
            Some(op) => match op {
                Operand::Imm16(_) | Operand::Address(_) => match instruction.operation {
                    Operation::ADDi16 | Operation::ANDi16 | Operation::XORi16 => {
                        instruction_to_imm16(&instruction)?
                    },
                    Operation::ADDa | Operation::ANDa | Operation::XORa => {
                        let address = instruction_to_addr(&instruction)?;
                        to_signed(self.memory[address as usize])
                    },
                    _ => {
                        return Err(Fault::WrongOperation);
                    },
                },
                _ => {
                    return Err(Fault::WrongOperand(OperandKind::Second));
                },
            },
            None => {
                return Err(Fault::MissingOperand(OperandKind::Second));
            },
        };
        proof {
            lemma_bitwise_range(self.register[sr1 as int], sr2);
        }
        let value: i16 = match instruction.operation {
            Operation::ADDi16 | Operation::ADDa => self.register[sr1].wrapping_add(sr2),
            Operation::ANDi16 | Operation::ANDa => self.register[sr1] & sr2,
            _ => self.register[sr1] ^ sr2,
        };
        self.setcc(value);
        self.register[dr] = value;
        Ok(())
    }

    /// Moves the program counter `words` further on.
    fn advance(&mut self, words: u16)
        ensures
            final(self)@ == old(self)@.advance(words),
    {
        self.pc = self.pc.wrapping_add(words);
    }

    /// Carries out the instruction at the program counter.
    ///
    /// `key` is what the host read after the machine asked for it; without
    /// one, `GETC` and `IN` leave the machine as it is and ask for a read.
    /// A fault leaves the machine unchanged.
    pub fn simulate_instruction(&mut self, key: Option<Key>) -> (result: Result<Action, Fault>)
        ensures
            stepped(old(self)@, final(self)@, result, old(self)@.simulate_instruction(key)),
    {
        let word: u16 = self.memory[self.pc as usize];
        let double: bool = check_instruction_double(word);
        if double {
            let second: u16 = self.memory[self.pc.wrapping_add(1) as usize];
            match tokenize(word, Some(second)) {
                Ok(instruction) => match instruction.operation {
                    Operation::ADDi16
                    | Operation::ADDa
                    | Operation::ANDi16
                    | Operation::ANDa
                    | Operation::XORi16
                    | Operation::XORa => {
                        self.execute_double_def(instruction)?;
                        self.advance(2);
                        Ok(Action::Continue)
                    },
                    Operation::BR => {
                        self.br(&instruction)?;
                        Ok(Action::Continue)
                    },
                    Operation::JSR => {
                        self.jsr(&instruction)?;
                        Ok(Action::Continue)
                    },
                    Operation::LDa => {
                        self.lda(instruction)?;
                        self.advance(2);
                        Ok(Action::Continue)
                    },
                    Operation::ST => {
                        self.st(instruction)?;
                        self.advance(2);
                        Ok(Action::Continue)
                    },
                    Operation::STR16 => {
                        self.str16(instruction)?;
                        self.advance(2);
                        Ok(Action::Continue)
                    },
                    _ => Err(Fault::Decode(DecodeError::ShortInstruction)),
                },
                Err(error) => Err(Fault::Decode(error)),
            }
        } else {
            match tokenize(word, None) {
                Ok(instruction) => match instruction.operation {
                    Operation::ADD
                    | Operation::ADDi
                    | Operation::AND
                    | Operation::ANDi
                    | Operation::XOR
                    | Operation::XORi => {
                        self.execute_def(instruction)?;
                        self.advance(1);
                        Ok(Action::Continue)
                    },
                    Operation::JUMP => {
                        self.jump(instruction)?;
                        Ok(Action::Continue)
                    },
                    Operation::RET => {
                        self.ret()?;
                        Ok(Action::Continue)
                    },
                    Operation::JSRR => {
                        self.jsrr(instruction)?;
                        Ok(Action::Continue)
                    },
                    Operation::LD => {
                        self.ld(instruction)?;
                        self.advance(1);
                        Ok(Action::Continue)
                    },
                    Operation::STR => {
                        self.str(instruction)?;
                        self.advance(1);
                        Ok(Action::Continue)
                    },
                    Operation::NOT => {
                        self.not(instruction)?;
                        self.advance(1);
                        Ok(Action::Continue)
                    },
                    Operation::TRAP => Err(Fault::Decode(DecodeError::UnsupportedTrap)),
                    Operation::RTI => {
                        self.rti()?;
                        Ok(Action::Continue)
                    },
                    Operation::LSD => {
                        self.lsd()?;
                        self.advance(1);
                        Ok(Action::Continue)
                    },
                    Operation::LPN => {
                        self.lpn()?;
                        self.advance(1);
                        Ok(Action::Continue)
                    },
                    Operation::CLRP => {
                        self.clrp()?;
                        self.advance(1);
                        Ok(Action::Continue)
                    },
                    Operation::HALT => {
                        self.halt_flag = false;
                        self.advance(1);
                        Ok(Action::Continue)
                    },
                    Operation::PUTS => {
                        let bytes = self.puts();
                        self.advance(1);
                        Ok(Action::Write { bytes, flush_each: true })
                    },
                    Operation::GETC => match key {
                        Some(key) => {
                            self.getc(key)?;
                            self.advance(1);
                            Ok(Action::Continue)
                        },
                        None => Ok(Action::Read { prompt: Vec::new() }),
                    },
                    Operation::OUT => {
                        let bytes = self.out();
                        self.advance(1);
                        Ok(Action::Write { bytes, flush_each: false })
                    },
                    Operation::IN => match key {
                        Some(key) => {
                            let bytes = self.in_trap(key)?;
                            self.advance(1);
                            Ok(Action::Write { bytes, flush_each: false })
                        },
                        None => Ok(Action::Read { prompt: in_prompt_bytes() }),
                    },
                    Operation::PUTSP => {
                        let bytes = self.putsp();
                        self.advance(1);
                        Ok(Action::Write { bytes, flush_each: false })
                    },
                    _ => Err(Fault::Decode(DecodeError::LongInstruction)),
                },
                Err(error) => Err(Fault::Decode(error)),
            }
        }
    }

    /// One turn of the run: tells the host to stop once the machine has
    /// halted or left the memory below `0xFE00`; halts on a zero word; else
    /// carries out one instruction.
    pub fn step(&mut self, key: Option<Key>) -> (result: Result<Action, Fault>)
        ensures
            stepped(old(self)@, final(self)@, result, old(self)@.step(key)),
    {
        if !(self.halt_flag && self.pc < 0xFE00) {
            Ok(Action::Stop)
        } else if self.memory[self.pc as usize] == 0 {
            self.halt_flag = false;
            Ok(Action::Stop)
        } else {
            self.simulate_instruction(key)
        }
    }
}

impl Machine {
    /// Runs the machine on a scripted terminal until it stops, faults, or
    /// has taken `limit` turns.
    ///
    /// Reads take the bytes of `input` in order, and find the end of input
    /// after the last. What the machine writes is appended to `output`,
    /// also when a fault ends the run. The result is `true` when the machine
    /// stopped and `false` when the limit ended the run.
    pub fn run_machine(&mut self, input: &Vec<u8>, output: &mut Vec<u8>, limit: u64) -> (result:
        Result<bool, Fault>)
        ensures
            final(self)@ == run(old(self)@, old(output)@, input@, limit as nat).state,
            final(output)@ == run(old(self)@, old(output)@, input@, limit as nat).written,
            result == run(old(self)@, old(output)@, input@, limit as nat).outcome,
    {
        let mut next: usize = 0;
        let mut turns: u64 = 0;
        assert(input@.skip(0) == input@);
        while turns < limit
            invariant
                next <= input.len(),
                turns <= limit,
                run(old(self)@, old(output)@, input@, limit as nat) == run(
                    self@,
                    output@,
                    input@.skip(next as int),
                    (limit - turns) as nat,
                ),
            decreases limit - turns,
        {
            let ghost before = self@;
            let ghost written = output@;
            let ghost pending = input@.skip(next as int);
            match self.step(None) {
                Err(fault) => {
                    return Err(fault);
                },
                Ok(action) => match action {
                    Action::Stop => {
                        assert(output@ == written + effect_bytes(Effect::Stop));
                        return Ok(true);
                    },
                    Action::Continue => {
                        assert(output@ == written + effect_bytes(Effect::Continue));
                    },
                    Action::Write { bytes, flush_each } => {
                        let mut bytes = bytes;
                        output.append(&mut bytes);
                    },
                    Action::Read { prompt } => {
                        let mut prompt = prompt;
                        output.append(&mut prompt);
                        let key = if next < input.len() {
                            let byte = input[next];
                            next += 1;
                            Key::Byte(byte)
                        } else {
                            Key::EndOfInput
                        };
                        assert(key == first_key(pending));
                        assert(input@.skip(next as int) == after_key(pending));
                        match self.step(Some(key)) {
                            Err(fault) => {
                                return Err(fault);
                            },
                            Ok(action) => match action {
                                Action::Stop => {
                                    assert(output@ == output@ + effect_bytes(Effect::Stop));
                                    return Ok(true);
                                },
                                Action::Continue => {
                                    assert(output@ == output@ + effect_bytes(Effect::Continue));
                                },
                                Action::Write { bytes, flush_each } => {
                                    let mut bytes = bytes;
                                    output.append(&mut bytes);
                                },
                                Action::Read { prompt } => {
                                    let mut prompt = prompt;
                                    output.append(&mut prompt);
                                },
                            },
                        }
                    },
                },
            }
            assert(turn(before, written, pending).outcome == Ok::<bool, Fault>(false));
            assert(turn(before, written, pending).state == self@);
            assert(turn(before, written, pending).written == output@);
            assert(turn(before, written, pending).pending == input@.skip(next as int));
            turns += 1;
        }
        Ok(false)
    }
}

impl Machine {
    /// The program counter.
    pub fn pc(&self) -> (pc: u16)
        ensures
            pc == self@.pc,
    {
        self.pc
    }

    /// The contents of a register.
    pub fn register(&self, index: usize) -> (value: i16)
        requires
            index < 8,
        ensures
            value == self@.register[index as int],
    {
        self.register[index]
    }

    /// Loads a register; the flags stay as they are.
    pub fn set_register(&mut self, index: usize, value: i16)
        requires
            index < 8,
        ensures
            final(self)@ == old(self)@.with_register(index, value),
    {
        self.register[index] = value;
    }

    /// The word at an address.
    pub fn memory(&self, address: u16) -> (word: u16)
        ensures
            word == self@.memory[address as int],
    {
        self.memory[address as usize]
    }

    /// The condition flags.
    pub fn flags(&self) -> (flags: Flags)
        ensures
            flags == (Flags { n: self@.n, z: self@.z, p: self@.p }),
    {
        Flags { n: self.psr.n, z: self.psr.z, p: self.psr.p }
    }

    /// Whether the machine is in supervisor mode.
    pub fn supervisor(&self) -> (supervisor: bool)
        ensures
            supervisor == self@.supervisor,
    {
        self.psr.supervisor
    }

    /// Whether the machine has yet to halt.
    pub fn running(&self) -> (running: bool)
        ensures
            running == self@.running,
    {
        self.halt_flag
    }

    /// The dump of the state that follows each instruction in a trace.
    pub fn pretty_print(&self) -> (out: String)
        ensures
            out@ == state_text(self@),
    {
        let mut out = String::new();
        out.append("PC: ");
        out.append(decimal(self.pc as i32).as_str());
        out.append(" ");
        out.append(self.print_registers().as_str());
        out.append("\n");
        out.append(self.print_pretty_memory().as_str());
        out.append("\n");
        out
    }

    /// The dump of the two words at the program counter.
    pub fn print_pretty_memory(&self) -> (out: String)
        ensures
            out@ == memory_text(self@),
    {
        let mut out: String = String::new();
        let mut i: u16 = self.pc;
        let mut count: u8 = 0;
        while count < 2
            invariant
                count <= 2,
                i == if count == 0 {
                    self.pc
                } else {
                    self.pc.wrapping_add(1)
                },
                out@ == if count == 0 {
                    Seq::<char>::empty()
                } else if count == 1 {
                    memory_line(self.memory@, self.pc)
                } else {
                    memory_text(self@)
                },
            decreases 2 - count,
        {
            out.append("0x");
            out.append(hex(i).as_str());
            out.append(": ");
            out.append(binary(self.memory[i as usize]).as_str());
            out.append("\n");
            i = self.pc.wrapping_add(1);
            count += 1;
        }
        out
    }

    /// The dump of the eight registers.
    pub fn print_registers(&self) -> (out: String)
        ensures
            out@ == registers_text(self@.register, 8),
    {
        let mut out: String = String::new();
        let mut i: usize = 0;
        while i < 8
            invariant
                i <= 8,
                out@ == registers_text(self.register@, i as nat),
            decreases 8 - i,
        {
            out.append("R");
            out.append(decimal(i as i32).as_str());
            out.append(": ");
            out.append(decimal(self.register[i] as i32).as_str());
            out.append("\t ");
            i += 1;
        }
        out
    }
}

/// The prompt that `IN` writes before it reads.
pub fn in_prompt_bytes() -> (prompt: Vec<u8>)
    ensures
        prompt@ == in_prompt(),
{
    let mut prompt: Vec<u8> = Vec::new();
    prompt.push(0x0A);
    prompt.push(0x0D);
    prompt.push(0x69);
    prompt.push(0x6E);
    prompt.push(0x70);
    prompt.push(0x75);
    prompt.push(0x74);
    prompt.push(0x3A);
    prompt.push(0x20);
    assert(prompt@ == in_prompt());
    prompt
}

/// The index of a register operand.
pub fn register_to_index(register: &Operand) -> (index: Result<usize, Fault>)
    ensures
        index == register_of(Some(*register)),
{
    match register {
        Operand::Register(reg) => {
            if *reg <= 7 {
                Ok(*reg as usize)
            } else {
                Err(Fault::WrongOperand(OperandKind::Register))
            }
        },
        _ => Err(Fault::WrongOperand(OperandKind::Register)),
    }
}

/// The index of an instruction's destination register.
pub fn instruction_to_dr(instruction: &Instruction) -> (index: Result<usize, Fault>)
    ensures
        index == register_of(instruction.dr),
{
    match &instruction.dr {
        Some(operand) => register_to_index(operand),
        None => Err(Fault::MissingOperand(OperandKind::Register)),
    }
}

/// The address in an instruction's second operand.
pub fn instruction_to_addr(instruction: &Instruction) -> (address: Result<u16, Fault>)
    ensures
        address == address_of(instruction.operand2),
{
    match &instruction.operand2 {
        Some(addr) => match addr {
            Operand::Address(addr) => Ok(*addr),
            Operand::Imm16(num) => Ok(to_unsigned(*num)),
            _ => Err(Fault::WrongOperand(OperandKind::Address)),
        },
        None => Err(Fault::MissingOperand(OperandKind::Address)),
    }
}

/// The index of an instruction's first source register.
pub fn instruction_to_sr1(instruction: &Instruction) -> (index: Result<usize, Fault>)
    ensures
        index == register_of(instruction.operand1),
{
    match &instruction.operand1 {
        Some(operand) => register_to_index(operand),
        None => Err(Fault::MissingOperand(OperandKind::Register)),
    }
}

/// The index of an instruction's second source register.
pub fn instruction_to_sr2(instruction: &Instruction) -> (index: Result<usize, Fault>)
    ensures
        index == register_of(instruction.operand2),
{
    match &instruction.operand2 {
        Some(operand) => register_to_index(operand),
        None => Err(Fault::MissingOperand(OperandKind::Register)),
    }
}

/// The 3-bit immediate in an instruction's second operand.
pub fn instruction_to_imm3(instruction: &Instruction) -> (value: Result<i16, Fault>)
    ensures
        value == imm3_of(instruction.operand2),
{
    match &instruction.operand2 {
        Some(number) => match number {
            Operand::Imm3(number) => {
                if -4 <= *number && *number <= 3 {
                    Ok(*number as i16)
                } else {
                    Err(Fault::WrongOperand(OperandKind::Imm3))
                }
            },
            _ => Err(Fault::WrongOperand(OperandKind::Imm3)),
        },
        None => Err(Fault::MissingOperand(OperandKind::Imm3)),
    }
}

/// The 7-bit immediate in an instruction's first operand.
pub fn instruction_to_imm7(instruction: &Instruction) -> (value: Result<i16, Fault>)
    ensures
        value == imm7_of(instruction.operand1),
{
    match &instruction.operand1 {
        Some(number) => match number {
            Operand::Imm7(number) => {
                if -64 <= *number && *number <= 63 {
                    Ok(*number as i16)
                } else {
                    Err(Fault::WrongOperand(OperandKind::Imm7))
                }
            },
            _ => Err(Fault::WrongOperand(OperandKind::Imm7)),
        },
        None => Err(Fault::MissingOperand(OperandKind::Imm7)),
    }
}

/// The 16-bit immediate in an instruction's second operand.
pub fn instruction_to_imm16(instruction: &Instruction) -> (value: Result<i16, Fault>)
    ensures
        value == imm16_of(instruction.operand2),
{
    match &instruction.operand2 {
        Some(number) => match number {
            Operand::Imm16(number) => Ok(*number),
            _ => Err(Fault::WrongOperand(OperandKind::Imm16)),
        },
        None => Err(Fault::MissingOperand(OperandKind::Imm16)),
    }
}

/// Whether an address lies outside user memory.
pub fn address_privileged(addr: usize) -> (outside: bool)
    ensures
        outside == !(0x3000 <= addr <= 0xFDFF),
{
    !(0x3000 <= addr && addr <= 0xFDFF)
}

} // verus!
