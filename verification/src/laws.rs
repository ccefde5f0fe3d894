//! What holds of every instruction and every state of the machine.

use vstd::prelude::*;
use crate::machine::{
    address_of, alu, imm16_of, imm7_of, privileged, register_of, Effect, Fault, Key, MachineState,
};
use crate::tokenizer::{lemma_decode_total, length_bit, Instruction, Operand, Operation};
use crate::word::{lemma_bitwise_range, lemma_signed_unsigned, signed, unsigned};

verus! {

/// Whether exactly one condition flag is set, and it is the one for the
/// sign of `value`.
pub open spec fn flags_show(state: MachineState, value: i16) -> bool {
    &&& state.n == (value < 0)
    &&& state.z == (value == 0)
    &&& state.p == (value > 0)
}

/// Whether exactly one of the three condition flags is set.
pub open spec fn one_flag(state: MachineState) -> bool {
    (state.n && !state.z && !state.p) || (!state.n && state.z && !state.p) || (!state.n
        && !state.z && state.p)
}

/// The operations that produce a result for their destination register.
pub open spec fn produces_result(operation: Operation) -> bool {
    match operation {
        Operation::ADD
        | Operation::ADDi
        | Operation::ADDi16
        | Operation::ADDa
        | Operation::AND
        | Operation::ANDi
        | Operation::ANDi16
        | Operation::ANDa
        | Operation::XOR
        | Operation::XORi
        | Operation::XORi16
        | Operation::XORa
        | Operation::NOT
        | Operation::LD
        | Operation::LDa => true,
        _ => false,
    }
}

/// After an instruction that produces a result, exactly one condition flag
/// is set, and it is the one for the sign of what the destination register
/// then holds.
pub proof fn lemma_result_sets_flags(
    state: MachineState,
    instruction: Instruction,
    key: Option<Key>,
)
    requires
        state.wf(),
        produces_result(instruction.operation),
        state.dispatch(instruction, key) is Ok,
    ensures
        register_of(instruction.dr) matches Ok(dr) && ({
            let after = state.dispatch(instruction, key).unwrap().0;
            flags_show(after, after.register[dr as int]) && one_flag(after)
        }),
{
    let dr = register_of(instruction.dr).unwrap();
    match instruction.operation {
        Operation::ADD
        | Operation::ADDi
        | Operation::AND
        | Operation::ANDi
        | Operation::XOR
        | Operation::XORi => {
            let sr1 = register_of(instruction.operand1).unwrap();
            let second = state.short_operand(instruction).unwrap();
            lemma_bitwise_range(state.register[sr1 as int], second);
            assert(state.execute_def(instruction) == Ok::<MachineState, Fault>(
                state.produce(
                    dr,
                    alu(instruction.operation, state.register[sr1 as int], second),
                ),
            ));
        },
        Operation::ADDi16
        | Operation::ADDa
        | Operation::ANDi16
        | Operation::ANDa
        | Operation::XORi16
        | Operation::XORa => {
            let sr1 = register_of(instruction.operand1).unwrap();
            let second = state.long_operand(instruction).unwrap();
            lemma_bitwise_range(state.register[sr1 as int], second);
            assert(state.execute_double_def(instruction) == Ok::<MachineState, Fault>(
                state.produce(
                    dr,
                    alu(instruction.operation, state.register[sr1 as int], second),
                ),
            ));
        },
        Operation::NOT => {
            let sr = register_of(instruction.operand1).unwrap();
            lemma_bitwise_range(state.register[sr as int], 0);
            assert(state.not(instruction) == Ok::<MachineState, Fault>(
                state.produce(dr, !state.register[sr as int]),
            ));
        },
        Operation::LD => {
            assert(state.ld(instruction) == Ok::<MachineState, Fault>(
                state.produce(dr, imm7_of(instruction.operand1).unwrap()),
            ));
        },
        _ => {
            assert(state.lda(instruction) == Ok::<MachineState, Fault>(
                state.produce(
                    dr,
                    signed(state.memory[address_of(instruction.operand2).unwrap() as int]),
                ),
            ));
        },
    }
}

/// The same of a step: where the words at the program counter decode to an
/// instruction that produces a result and the step succeeds, exactly one
/// flag is set afterwards, by the sign of the destination register.
pub proof fn lemma_step_sets_flags(state: MachineState, key: Option<Key>)
    requires
        state.wf(),
        !state.stopped(),
        state.memory[state.pc as int] != 0,
        state.fetch() matches Ok(instruction) && produces_result(instruction.operation),
        state.step(key) is Ok,
    ensures
        register_of(state.fetch().unwrap().dr) matches Ok(dr) && ({
            let after = state.step(key).unwrap().0;
            flags_show(after, after.register[dr as int]) && one_flag(after)
        }),
{
    lemma_result_sets_flags(state, state.fetch().unwrap(), key);
}

/// The address and the word of the write that a store instruction asks for,
/// where its operands are as the operation takes them.
pub open spec fn store_of(state: MachineState, instruction: Instruction) -> Option<(u16, u16)> {
    match instruction.operation {
        Operation::ST => match (register_of(instruction.dr), address_of(instruction.operand2)) {
            (Ok(sr), Ok(address)) => Some((address, unsigned(state.register[sr as int]))),
            _ => None,
        },
        Operation::STR => match (register_of(instruction.dr), imm7_of(instruction.operand1)) {
            (Ok(dr), Ok(value)) => Some((dr as u16, unsigned(value))),
            _ => None,
        },
        Operation::STR16 => match (register_of(instruction.dr), imm16_of(instruction.operand2)) {
            (Ok(dr), Ok(value)) => Some((unsigned(state.register[dr as int]), unsigned(value))),
            _ => None,
        },
        _ => None,
    }
}

/// A store to an address outside `0x3000..=0xFDFF` fails with an access
/// violation unless the machine is in supervisor mode. Every other store
/// succeeds: the word stands at the address afterwards, the program counter
/// has moved past the instruction, and nothing else has changed, neither
/// another cell of memory nor a register nor a flag.
pub proof fn lemma_store_access(state: MachineState, instruction: Instruction, key: Option<Key>)
    requires
        state.wf(),
        store_of(state, instruction) is Some,
    ensures
        ({
            let (address, word) = store_of(state, instruction).unwrap();
            if privileged(address) && !state.supervisor {
                state.dispatch(instruction, key) == Err::<(MachineState, Effect), Fault>(
                    Fault::AccessViolation,
                )
            } else {
                &&& state.dispatch(instruction, key) matches Ok((after, effect))
                &&& after == (MachineState {
                    memory: state.memory.update(address as int, word),
                    ..state
                }).advance(
                    if instruction.operation == Operation::STR {
                        1
                    } else {
                        2
                    },
                )
                &&& after.memory[address as int] == word
                &&& effect == Effect::Continue
            }
        }),
{
}

/// A store of a register followed by a load from the same address, into any
/// register, yields the value stored and sets the flags by its sign.
pub proof fn lemma_store_load_round_trip(
    state: MachineState,
    source: u8,
    destination: u8,
    address: u16,
    key: Option<Key>,
)
    requires
        state.wf(),
        source <= 7,
        destination <= 7,
        state.dispatch(
            Instruction {
                operation: Operation::ST,
                dr: Some(Operand::Register(source)),
                operand1: None,
                operand2: Some(Operand::Address(address)),
            },
            key,
        ) is Ok,
    ensures
        ({
            let stored = state.dispatch(
                Instruction {
                    operation: Operation::ST,
                    dr: Some(Operand::Register(source)),
                    operand1: None,
                    operand2: Some(Operand::Address(address)),
                },
                key,
            ).unwrap().0;
            let loaded = stored.dispatch(
                Instruction {
                    operation: Operation::LDa,
                    dr: Some(Operand::Register(destination)),
                    operand1: None,
                    operand2: Some(Operand::Address(address)),
                },
                key,
            );
            &&& loaded matches Ok((after, effect))
            &&& after.register[destination as int] == state.register[source as int]
            &&& flags_show(after, state.register[source as int])
            &&& one_flag(after)
        }),
{
    lemma_signed_unsigned(state.register[source as int], 0);
}

/// A step never fails for want of an operand: what the decoder yields, every
/// handler accepts. A step fails only on words that are no instruction, on a
/// single-word operation in a double-word encoding, on a write to privileged
/// memory or a return from interrupt outside supervisor mode, and on a read
/// that the host reports as failed.
pub proof fn lemma_step_faults(state: MachineState, key: Option<Key>)
    requires
        state.wf(),
    ensures
        state.step(key) matches Err(fault) ==> {
            ||| fault is Decode
            ||| fault == Fault::AccessViolation
            ||| fault == Fault::PrivilegeMode
            ||| fault == Fault::ReadFailed && key == Some(Key::Failed)
        },
{
    let word = state.memory[state.pc as int];
    let second = if length_bit(word) {
        Some(state.memory[state.pc.wrapping_add(1) as int])
    } else {
        None
    };
    lemma_decode_total(word, second);
}

/// A step changes memory only by a store: after a step that succeeds, every
/// cell holds what it held, but for the one cell that a store instruction
/// at the program counter wrote.
pub proof fn lemma_step_memory(state: MachineState, key: Option<Key>, address: u16)
    requires
        state.wf(),
        state.step(key) is Ok,
    ensures
        ({
            let after = state.step(key).unwrap().0;
            after.memory[address as int] != state.memory[address as int] ==> {
                &&& state.fetch() matches Ok(instruction)
                &&& store_of(state, instruction) matches Some((target, word))
                &&& target == address
                &&& (!privileged(address) || state.supervisor)
            }
        }),
{
}

} // verus!
