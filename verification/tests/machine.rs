use lc4::machine::{
    address_privileged, in_prompt_bytes, instruction_to_addr, instruction_to_dr,
    instruction_to_imm16, instruction_to_imm3, instruction_to_imm7, instruction_to_sr1,
    instruction_to_sr2, register_to_index, Action, Fault, Key, Machine, OperandKind,
};
use lc4::tokenizer::{DecodeError, Flags, Instruction, Operand, Operation};

fn image(words: &[(u16, u16)]) -> Option<[u16; 65536]> {
    let mut memory = [0u16; 65536];
    for (address, word) in words {
        memory[*address as usize] = *word;
    }
    Some(memory)
}

fn program(words: &[u16]) -> Machine {
    let mut memory = [0u16; 65536];
    for (offset, word) in words.iter().enumerate() {
        memory[0x3000 + offset] = *word;
    }
    Machine::new(Some(memory))
}

fn flags(n: bool, z: bool, p: bool) -> Flags {
    Flags { n, z, p }
}

fn instruction(
    operation: Operation,
    dr: Option<Operand>,
    operand1: Option<Operand>,
    operand2: Option<Operand>,
) -> Instruction {
    Instruction { operation, dr, operand1, operand2 }
}

fn registers(machine: &Machine) -> [i16; 8] {
    let mut out = [0i16; 8];
    for index in 0..8 {
        out[index] = machine.register(index);
    }
    out
}

// first words of instructions
fn add(dr: u16, sr1: u16, sr2: u16) -> u16 {
    0x0800 | (dr << 7) | (sr1 << 4) | sr2
}

fn op3(family: u16, dr: u16, sr1: u16, low: u16) -> u16 {
    (family << 11) | (dr << 7) | (sr1 << 4) | low
}

const LONG: u16 = 0x0400;
const IMM: u16 = 0x0008;

#[test]
fn new_machine_is_at_reset() {
    let machine = Machine::new(None);
    assert_eq!(machine.pc(), 0x3000);
    assert_eq!(registers(&machine), [0; 8]);
    assert_eq!(machine.flags(), flags(false, false, false));
    assert!(!machine.supervisor());
    assert!(machine.running());
    for address in [0u16, 0x2FFF, 0x3000, 0x8000, 0xFDFF, 0xFFFF] {
        assert_eq!(machine.memory(address), 0);
    }
    let machine = Machine::new(image(&[(0x0000, 7), (0x3000, 0x0890), (0xFFFF, 0xABCD)]));
    assert_eq!(machine.memory(0x0000), 7);
    assert_eq!(machine.memory(0x3000), 0x0890);
    assert_eq!(machine.memory(0xFFFF), 0xABCD);
    assert_eq!(machine.memory(0x3001), 0);
    assert_eq!(machine.pc(), 0x3000);
}

#[test]
fn single_add_in_register_form() {
    let mut machine = program(&[add(1, 1, 0)]);
    machine.set_register(0, 5);
    machine.set_register(1, 7);
    assert_eq!(machine.step(None), Ok(Action::Continue));
    assert_eq!(machine.register(1), 12);
    assert_eq!(machine.register(0), 5);
    assert_eq!(machine.flags(), flags(false, false, true));
    assert_eq!(machine.pc(), 0x3001);
}

#[test]
fn the_word_0a20_adds_r2_and_r0_into_r4() {
    let mut machine = program(&[0x0A20]);
    machine.set_register(0, 5);
    machine.set_register(2, 7);
    assert_eq!(machine.step(None), Ok(Action::Continue));
    assert_eq!(registers(&machine), [5, 0, 7, 0, 12, 0, 0, 0]);
    assert_eq!(machine.flags(), flags(false, false, true));
    assert_eq!(machine.pc(), 0x3001);
}

#[test]
fn add_of_a_16_bit_immediate() {
    let mut machine = program(&[add(1, 1, 0) | LONG | IMM, 0xFFFE]);
    machine.set_register(1, 3);
    assert_eq!(machine.step(None), Ok(Action::Continue));
    assert_eq!(machine.register(1), 1);
    assert_eq!(machine.flags(), flags(false, false, true));
    assert_eq!(machine.pc(), 0x3002);
}

#[test]
fn the_words_0e08_fffe_add_minus_two_to_r0_into_r4() {
    let mut machine = program(&[0x0E08, 0xFFFE]);
    machine.set_register(0, 3);
    assert_eq!(machine.step(None), Ok(Action::Continue));
    assert_eq!(registers(&machine), [3, 0, 0, 0, 1, 0, 0, 0]);
    assert_eq!(machine.flags(), flags(false, false, true));
    assert_eq!(machine.pc(), 0x3002);
}

#[test]
fn branch_taken_after_a_positive_result() {
    let mut machine = program(&[add(1, 1, 0), 0x2480, 0x3010]);
    machine.set_register(0, 5);
    machine.set_register(1, 7);
    assert_eq!(machine.step(None), Ok(Action::Continue));
    assert_eq!(machine.step(None), Ok(Action::Continue));
    assert_eq!(machine.pc(), 0x3010);
    assert_eq!(machine.register(1), 12);
}

#[test]
fn branch_tests_each_flag_it_names() {
    // (result that sets the flags, flag bits n z p of the branch, taken)
    let cases: [(i16, u16, bool); 12] = [
        (-1, 0b100, true),
        (-1, 0b010, false),
        (-1, 0b001, false),
        (-1, 0b011, false),
        (0, 0b010, true),
        (0, 0b101, false),
        (0, 0b111, true),
        (1, 0b001, true),
        (1, 0b110, false),
        (1, 0b101, true),
        (1, 0b000, false),
        (0, 0b000, false),
    ];
    for (value, bits, taken) in cases {
        // LDa R0 <- [0x4000]; BR bits, 0x5000
        let mut machine = Machine::new(image(&[
            (0x3000, 0x4400),
            (0x3001, 0x4000),
            (0x3002, 0x2400 | (bits << 7)),
            (0x3003, 0x5000),
            (0x4000, value as u16),
        ]));
        assert_eq!(machine.step(None), Ok(Action::Continue));
        assert_eq!(machine.step(None), Ok(Action::Continue));
        assert_eq!(machine.pc(), if taken { 0x5000 } else { 0x3004 }, "{} {:03b}", value, bits);
    }
}

#[test]
fn branch_before_any_result_falls_through() {
    let mut machine = program(&[0x2400 | (0b111 << 7), 0x5000]);
    assert_eq!(machine.step(None), Ok(Action::Continue));
    assert_eq!(machine.pc(), 0x3002);
}

#[test]
fn puts_writes_the_string_and_no_more() {
    let mut machine = Machine::new(image(&[
        (0x3000, 0x6022),
        (0x4000, 0x0068),
        (0x4001, 0x0069),
        (0x4002, 0x0000),
        (0x4003, 0x0021),
    ]));
    machine.set_register(0, 0x4000);
    assert_eq!(
        machine.step(None),
        Ok(Action::Write { bytes: vec![0x68, 0x69], flush_each: true })
    );
    assert_eq!(machine.pc(), 0x3001);
    assert_eq!(machine.register(0), 0x4000);
    assert_eq!(machine.flags(), flags(false, false, false));

    let mut machine = Machine::new(image(&[
        (0x3000, 0x6022),
        (0x4000, 0x0068),
        (0x4001, 0x0069),
        (0x4002, 0x0000),
    ]));
    machine.set_register(0, 0x4000);
    let mut screen = Vec::new();
    assert_eq!(machine.run_machine(&Vec::new(), &mut screen, 100), Ok(true));
    assert_eq!(screen, vec![0x68, 0x69]);
}

#[test]
fn puts_writes_low_bytes_and_stops_at_a_zero_word_only() {
    let mut machine = Machine::new(image(&[
        (0x3000, 0x6022),
        (0x9000, 0x1241),
        (0x9001, 0x0100),
        (0x9002, 0xFF42),
        (0x9003, 0x0000),
    ]));
    machine.set_register(0, 0x9000u16 as i16);
    assert_eq!(
        machine.step(None),
        Ok(Action::Write { bytes: vec![0x41, 0x00, 0x42], flush_each: true })
    );
    // an empty string
    let mut machine = program(&[0x6022]);
    machine.set_register(0, 0x5000);
    assert_eq!(machine.puts(), Vec::<u8>::new());
    // a string that runs to the end of memory
    let mut machine = Machine::new(image(&[(0xFFFE, 0x0061), (0xFFFF, 0x0062)]));
    machine.set_register(0, -2);
    assert_eq!(machine.puts(), vec![0x61, 0x62]);
}

#[test]
fn putsp_writes_two_bytes_a_word_until_a_zero_high_byte() {
    let mut machine = Machine::new(image(&[
        (0x3000, 0x6024),
        (0x4000, 0x6869),
        (0x4001, 0x2100),
        (0x4002, 0x0041),
        (0x4003, 0x4242),
    ]));
    machine.set_register(0, 0x4000);
    assert_eq!(
        machine.step(None),
        Ok(Action::Write { bytes: vec![0x68, 0x69, 0x21, 0x00], flush_each: false })
    );
    assert_eq!(machine.pc(), 0x3001);
    let mut machine = Machine::new(image(&[(0xFFFF, 0x4142)]));
    machine.set_register(0, -1);
    assert_eq!(machine.putsp(), vec![0x41, 0x42]);
    machine.set_register(0, 0x3000);
    assert_eq!(machine.putsp(), Vec::<u8>::new());
}

#[test]
fn out_writes_the_low_byte_of_r0() {
    let mut machine = program(&[0x6021]);
    machine.set_register(0, 0x1241);
    assert_eq!(machine.step(None), Ok(Action::Write { bytes: vec![0x41], flush_each: false }));
    assert_eq!(machine.pc(), 0x3001);
    machine.set_register(0, -1);
    assert_eq!(machine.out(), vec![0xFF]);
    machine.set_register(0, -256);
    assert_eq!(machine.out(), vec![0x00]);
}

#[test]
fn getc_waits_for_a_key_and_loads_it() {
    let mut machine = program(&[0x6020, 0x6020]);
    machine.set_register(0, 77);
    assert_eq!(machine.step(None), Ok(Action::Read { prompt: vec![] }));
    assert_eq!(machine.pc(), 0x3000);
    assert_eq!(machine.register(0), 77);
    assert_eq!(machine.step(Some(Key::Byte(0xE9))), Ok(Action::Continue));
    assert_eq!(machine.register(0), 0x00E9);
    assert_eq!(machine.pc(), 0x3001);
    assert_eq!(machine.flags(), flags(false, false, false));
    assert_eq!(machine.step(None), Ok(Action::Read { prompt: vec![] }));
    assert_eq!(machine.step(Some(Key::EndOfInput)), Ok(Action::Continue));
    assert_eq!(machine.register(0), 0);
    assert_eq!(machine.pc(), 0x3002);
}

#[test]
fn in_prompts_reads_and_echoes() {
    let mut machine = program(&[0x6023]);
    assert_eq!(machine.step(None), Ok(Action::Read { prompt: b"\n\rinput: ".to_vec() }));
    assert_eq!(machine.pc(), 0x3000);
    assert_eq!(
        machine.step(Some(Key::Byte(b'x'))),
        Ok(Action::Write { bytes: vec![b'x', b'\n', b'\r'], flush_each: false })
    );
    assert_eq!(machine.register(0), 0x78);
    assert_eq!(machine.pc(), 0x3001);
    assert_eq!(machine.flags(), flags(false, false, false));
    assert_eq!(in_prompt_bytes(), b"\n\rinput: ".to_vec());

    let mut machine = program(&[0x6023]);
    machine.set_register(0, 9);
    assert_eq!(machine.in_trap(Key::EndOfInput), Ok(vec![0, b'\n', b'\r']));
    assert_eq!(machine.register(0), 0);
}

#[test]
fn a_failed_read_is_a_fault_and_changes_nothing() {
    for trap in [0x6020u16, 0x6023] {
        let mut machine = program(&[trap]);
        machine.set_register(0, 9);
        assert_eq!(machine.step(Some(Key::Failed)), Err(Fault::ReadFailed));
        assert_eq!(machine.register(0), 9);
        assert_eq!(machine.pc(), 0x3000);
    }
    let mut machine = Machine::new(None);
    assert_eq!(machine.getc(Key::Failed), Err(Fault::ReadFailed));
    assert_eq!(machine.in_trap(Key::Failed), Err(Fault::ReadFailed));
    assert_eq!(machine.getc(Key::Byte(200)), Ok(()));
    assert_eq!(machine.register(0), 200);
}

#[test]
fn seeded_generator_gives_the_same_numbers_on_every_run() {
    let mut first = Vec::new();
    for _ in 0..2 {
        let mut machine = program(&[0x6026, 0x6027, 0x6027]);
        machine.set_register(0, 0x1234);
        machine.set_register(1, 0x1234);
        machine.set_register(2, 0x1234);
        assert_eq!(machine.step(None), Ok(Action::Continue));
        assert_eq!(registers(&machine), [0x1234, 0x1234, 0x1234, 0, 0, 0, 0, 0]);
        assert_eq!(machine.step(None), Ok(Action::Continue));
        let one = machine.register(0);
        assert_eq!(machine.step(None), Ok(Action::Continue));
        let two = machine.register(0);
        assert_eq!(machine.pc(), 0x3003);
        assert_eq!(machine.flags(), flags(false, false, false));
        first.push((one, two));
    }
    assert_eq!(first[0], first[1]);
    assert_eq!(first[0], (0x158A, 0xA220u16 as i16));
}

#[test]
fn clrp_seeds_the_generator_with_zeros() {
    let mut machine = program(&[0x6026, 0x6028, 0x6027]);
    machine.set_register(0, 0x1234);
    machine.set_register(1, 0x1234);
    machine.set_register(2, 0x1234);
    assert_eq!(machine.run_machine(&Vec::new(), &mut Vec::new(), 3), Ok(false));
    assert_eq!(machine.register(0), 0);
    assert_eq!(machine.pc(), 0x3003);
    // without a seed the generator yields zero
    let mut machine = program(&[0x6027]);
    machine.set_register(0, 5);
    assert_eq!(machine.step(None), Ok(Action::Continue));
    assert_eq!(machine.register(0), 0);
}

#[test]
fn str16_to_privileged_memory_is_an_access_violation() {
    // STR16 [R1] <- 0xBEEF
    let mut machine = program(&[0x3C00 | (1 << 7), 0xBEEF]);
    machine.set_register(1, 0x0100);
    assert_eq!(machine.step(None), Err(Fault::AccessViolation));
    assert_eq!(machine.memory(0x0100), 0);
    assert_eq!(machine.pc(), 0x3000);
    let mut machine = program(&[0x3C00 | (1 << 7), 0xBEEF]);
    machine.set_register(1, 0x0100);
    assert_eq!(
        machine.run_machine(&Vec::new(), &mut Vec::new(), 100),
        Err(Fault::AccessViolation)
    );
    assert_eq!(machine.memory(0x0100), 0);
    assert!(machine.running());
}

#[test]
fn str16_stores_where_the_register_points() {
    let mut machine = program(&[0x3C00 | (1 << 7), 0xBEEF]);
    machine.set_register(1, 0x4000);
    assert_eq!(machine.step(None), Ok(Action::Continue));
    assert_eq!(machine.memory(0x4000), 0xBEEF);
    assert_eq!(machine.pc(), 0x3002);
    assert_eq!(machine.flags(), flags(false, false, false));
    // an address above 0x7FFF is a negative register value
    let mut machine = program(&[0x3C00 | (6 << 7), 0x0001]);
    machine.set_register(6, 0xFDFFu16 as i16);
    assert_eq!(machine.step(None), Ok(Action::Continue));
    assert_eq!(machine.memory(0xFDFF), 1);
}

#[test]
fn stores_outside_user_memory_fail_and_inside_succeed() {
    for (address, allowed) in [
        (0x0000u16, false),
        (0x0100, false),
        (0x2FFF, false),
        (0x3000, true),
        (0x3001, true),
        (0x8000, true),
        (0xFDFF, true),
        (0xFE00, false),
        (0xFFFF, false),
    ] {
        // ST R3 -> [address]
        let mut machine = program(&[0x4C00 | (3 << 7), address]);
        machine.set_register(3, 0x1357);
        let before = machine.memory(address);
        let result = machine.step(None);
        if allowed {
            assert_eq!(result, Ok(Action::Continue), "{:#06x}", address);
            assert_eq!(machine.memory(address), 0x1357);
            assert_eq!(machine.pc(), 0x3002);
        } else {
            assert_eq!(result, Err(Fault::AccessViolation), "{:#06x}", address);
            assert_eq!(machine.memory(address), before);
            assert_eq!(machine.pc(), 0x3000);
        }
        // STR16 [R3] <- 0x2468
        let mut machine = program(&[0x3C00 | (3 << 7), 0x2468]);
        machine.set_register(3, address as i16);
        let result = machine.step(None);
        if allowed {
            assert_eq!(result, Ok(Action::Continue), "{:#06x}", address);
            assert_eq!(machine.memory(address), 0x2468);
        } else {
            assert_eq!(result, Err(Fault::AccessViolation), "{:#06x}", address);
            assert_eq!(machine.memory(address), 0);
        }
    }
}

#[test]
fn str_takes_the_register_index_as_the_address() {
    // STR 5 <- #-3: address 5 is privileged
    let mut machine = program(&[0x3800 | (5 << 7) | 0x7D]);
    machine.set_register(5, 0x4000);
    assert_eq!(machine.step(None), Err(Fault::AccessViolation));
    assert_eq!(machine.memory(5), 0);
    assert_eq!(machine.memory(0x4000), 0);
    assert_eq!(machine.pc(), 0x3000);
}

#[test]
fn store_then_load_gives_the_value_back() {
    for value in [0i16, 1, -1, 12345, -12345, i16::MAX, i16::MIN] {
        for destination in 0..8u16 {
            // ST R2 -> [0x4321]; LDa Rd <- [0x4321]
            let mut machine = program(&[0x4C00 | (2 << 7), 0x4321, 0x4400 | (destination << 7), 0x4321]);
            machine.set_register(2, value);
            assert_eq!(machine.step(None), Ok(Action::Continue));
            assert_eq!(machine.memory(0x4321), value as u16);
            assert_eq!(machine.flags(), flags(false, false, false));
            assert_eq!(machine.step(None), Ok(Action::Continue));
            assert_eq!(machine.register(destination as usize), value);
            assert_eq!(machine.flags(), flags(value < 0, value == 0, value > 0));
            assert_eq!(machine.pc(), 0x3004);
        }
    }
}

#[test]
fn results_set_exactly_one_flag_by_their_sign() {
    // (first word, second word, R1, R2, result in R3)
    let cases: [(u16, Option<u16>, i16, i16, i16); 16] = [
        (op3(1, 3, 1, 2), None, 5, 7, 12),
        (op3(1, 3, 1, 2), None, 5, -5, 0),
        (op3(1, 3, 1, 2), None, 5, -7, -2),
        (op3(1, 3, 1, 2), None, i16::MAX, 1, i16::MIN),
        (op3(1, 3, 1, 2), None, i16::MIN, -1, i16::MAX),
        (op3(1, 3, 1, IMM | 0b111), None, 1, 0, 0),
        (op3(1, 3, 1, IMM | 0b100), None, 1, 0, -3),
        (op3(1, 3, 1, IMM | 0b011), None, 1, 0, 4),
        (op3(2, 3, 1, 2), None, 0x0FF0, 0x00FF, 0x00F0),
        (op3(2, 3, 1, IMM | 0b110), None, 0x7FFF, 0, 0x7FFE),
        (op3(3, 3, 1, 2), None, 0x0FF0, 0x00FF, 0x0F0F),
        (op3(3, 3, 1, IMM | 0b111), None, 0x1234, 0, !0x1234),
        (op3(1, 3, 1, LONG | IMM), Some(0x8000), -1, 0, i16::MAX),
        (op3(2, 3, 1, LONG | IMM), Some(0xF00F), -1, 0, 0xF00Fu16 as i16),
        (op3(3, 3, 1, LONG | IMM), Some(0xFFFF), 0x5555, 0, !0x5555),
        (op3(10, 3, 1, 0), None, 0, 0, -1),
    ];
    for (first, second, r1, r2, expected) in cases {
        let mut machine = program(&[first, second.unwrap_or(0)]);
        machine.set_register(1, r1);
        machine.set_register(2, r2);
        assert_eq!(machine.step(None), Ok(Action::Continue));
        assert_eq!(machine.register(3), expected, "{:#06x}", first);
        assert_eq!(
            machine.flags(),
            flags(expected < 0, expected == 0, expected > 0),
            "{:#06x}",
            first
        );
        assert_eq!(machine.register(1), r1);
        assert_eq!(machine.register(2), r2);
        assert_eq!(machine.pc(), if second.is_some() { 0x3002 } else { 0x3001 });
    }
}

#[test]
fn memory_forms_read_the_word_at_the_address() {
    for (family, expected) in [(1u16, 0x0FF0 + 0x00FF), (2, 0x00F0), (3, 0x0F0F)] {
        let mut machine = Machine::new(image(&[
            (0x3000, op3(family, 4, 6, LONG)),
            (0x3001, 0x9000),
            (0x9000, 0x00FF),
        ]));
        machine.set_register(6, 0x0FF0);
        assert_eq!(machine.step(None), Ok(Action::Continue));
        assert_eq!(machine.register(4), expected);
        assert_eq!(machine.flags(), flags(false, false, true));
        assert_eq!(machine.pc(), 0x3002);
    }
    // the word is read as a two's-complement number
    let mut machine =
        Machine::new(image(&[(0x3000, op3(1, 4, 6, LONG)), (0x3001, 0x0010), (0x0010, 0xFFFF)]));
    machine.set_register(6, 1);
    assert_eq!(machine.step(None), Ok(Action::Continue));
    assert_eq!(machine.register(4), 0);
    assert_eq!(machine.flags(), flags(false, true, false));
}

#[test]
fn ld_loads_the_immediate_and_lda_the_word() {
    let mut machine = Machine::new(image(&[
        (0x3000, 0x4000 | (2 << 7) | 0x40),
        (0x3001, 0x4000 | (3 << 7) | 0x3F),
        (0x3002, 0x4000 | (4 << 7)),
        (0x3003, 0x4400 | (5 << 7)),
        (0x3004, 0xFFFF),
        (0xFFFF, 0x8001),
    ]));
    assert_eq!(machine.step(None), Ok(Action::Continue));
    assert_eq!(machine.register(2), -64);
    assert_eq!(machine.flags(), flags(true, false, false));
    assert_eq!(machine.step(None), Ok(Action::Continue));
    assert_eq!(machine.register(3), 63);
    assert_eq!(machine.flags(), flags(false, false, true));
    assert_eq!(machine.step(None), Ok(Action::Continue));
    assert_eq!(machine.register(4), 0);
    assert_eq!(machine.flags(), flags(false, true, false));
    assert_eq!(machine.step(None), Ok(Action::Continue));
    assert_eq!(machine.register(5), -32767);
    assert_eq!(machine.flags(), flags(true, false, false));
    assert_eq!(machine.pc(), 0x3005);
}

#[test]
fn jumps_and_links() {
    // JUMP R3
    let mut machine = program(&[0x2800 | (3 << 7)]);
    machine.set_register(3, 0x4567);
    assert_eq!(machine.step(None), Ok(Action::Continue));
    assert_eq!(machine.pc(), 0x4567);
    assert_eq!(registers(&machine), [0, 0, 0, 0x4567, 0, 0, 0, 0]);
    // JUMP to an address above 0x7FFF
    let mut machine = program(&[0x2800 | (3 << 7)]);
    machine.set_register(3, -2);
    assert_eq!(machine.step(None), Ok(Action::Continue));
    assert_eq!(machine.pc(), 0xFFFE);
    // RET
    let mut machine = program(&[0x2800 | (7 << 7)]);
    machine.set_register(7, 0x3456);
    assert_eq!(machine.step(None), Ok(Action::Continue));
    assert_eq!(machine.pc(), 0x3456);
    // JSR 0x5000 links the address after its two words
    let mut machine = Machine::new(image(&[(0x3004, 0x3400), (0x3005, 0x5000), (0x3000, 0x2800)]));
    machine.set_register(0, 0x3004);
    assert_eq!(machine.step(None), Ok(Action::Continue));
    assert_eq!(machine.step(None), Ok(Action::Continue));
    assert_eq!(machine.pc(), 0x5000);
    assert_eq!(machine.register(7), 0x3006);
    // JSRR R2 links the address of the instruction itself
    let mut machine = program(&[0x3000 | (2 << 7)]);
    machine.set_register(2, 0x6000);
    assert_eq!(machine.step(None), Ok(Action::Continue));
    assert_eq!(machine.pc(), 0x6000);
    assert_eq!(machine.register(7), 0x3000);
    // JSRR R7 jumps to the link it has just written
    let mut machine = program(&[0x3000 | (7 << 7)]);
    machine.set_register(7, 0x6000);
    assert_eq!(machine.step(None), Ok(Action::Continue));
    assert_eq!(machine.pc(), 0x3000);
    assert_eq!(machine.register(7), 0x3000);
    // none of them touches the flags
    assert_eq!(machine.flags(), flags(false, false, false));
}

#[test]
fn rti_outside_supervisor_mode_is_refused() {
    let mut machine = program(&[0x6800]);
    machine.set_register(6, 0x4000);
    assert_eq!(machine.step(None), Err(Fault::PrivilegeMode));
    assert_eq!(machine.pc(), 0x3000);
    assert_eq!(machine.rti(), Err(Fault::PrivilegeMode));
}

#[test]
fn words_that_are_no_instruction_are_decode_faults() {
    // an invalid family
    let mut machine = program(&[0x5800]);
    assert_eq!(machine.step(None), Err(Fault::Decode(DecodeError::InvalidOpcode)));
    // a trap of unknown vector
    let mut machine = program(&[0x6029]);
    assert_eq!(machine.step(None), Err(Fault::Decode(DecodeError::UnsupportedTrap)));
    // a branch whose bit 10 is clear: its second word is not fetched
    let mut machine = program(&[0x2080, 0x3010]);
    assert_eq!(machine.step(None), Err(Fault::Decode(DecodeError::MissingSecondWord)));
    // single-word operations in a double-word encoding
    for first in [0x2800 | LONG, 0x2B80 | LONG, 0x5000 | LONG, 0x6025 | LONG, 0x6800 | LONG] {
        let mut machine = program(&[first, 0x1234]);
        assert_eq!(machine.step(None), Err(Fault::Decode(DecodeError::ShortInstruction)));
        assert_eq!(machine.pc(), 0x3000);
        assert!(machine.running());
    }
}

#[test]
fn halt_stops_the_run() {
    let mut machine = program(&[0x6025, add(1, 1, 1)]);
    assert_eq!(machine.step(None), Ok(Action::Continue));
    assert!(!machine.running());
    assert_eq!(machine.pc(), 0x3001);
    assert_eq!(machine.step(None), Ok(Action::Stop));
    assert_eq!(machine.step(None), Ok(Action::Stop));
    assert_eq!(machine.pc(), 0x3001);
}

#[test]
fn a_zero_word_ends_the_program() {
    let mut machine = program(&[0x4000 | (1 << 7) | 5, 0x0000, 0x6025]);
    assert_eq!(machine.step(None), Ok(Action::Continue));
    assert!(machine.running());
    assert_eq!(machine.step(None), Ok(Action::Stop));
    assert!(!machine.running());
    assert_eq!(machine.pc(), 0x3001);
    assert_eq!(machine.register(1), 5);
}

#[test]
fn the_run_stops_where_user_memory_ends() {
    // JUMP R0 with R0 = 0xFE00, where a valid instruction stands
    let mut machine = Machine::new(image(&[(0x3000, 0x2800), (0xFE00, add(1, 1, 1))]));
    machine.set_register(0, 0xFE00u16 as i16);
    assert_eq!(machine.step(None), Ok(Action::Continue));
    assert_eq!(machine.pc(), 0xFE00);
    assert_eq!(machine.step(None), Ok(Action::Stop));
    assert!(machine.running());
    // the last instruction below 0xFE00 still runs, its second word at 0xFE00
    let mut machine =
        Machine::new(image(&[(0x3000, 0x2800), (0xFDFF, 0x4400 | (2 << 7)), (0xFE00, 0x3000)]));
    machine.set_register(0, 0xFDFFu16 as i16);
    assert_eq!(machine.run_machine(&Vec::new(), &mut Vec::new(), 10), Ok(true));
    assert_eq!(machine.register(2), 0x2800);
    assert_eq!(machine.pc(), 0xFE01);
    // execution below user memory goes on
    let mut machine = Machine::new(image(&[(0x3000, 0x2800), (0x0010, 0x4000 | (1 << 7) | 9)]));
    machine.set_register(0, 0x0010);
    assert_eq!(machine.run_machine(&Vec::new(), &mut Vec::new(), 10), Ok(true));
    assert_eq!(machine.register(1), 9);
    assert_eq!(machine.pc(), 0x0011);
}

#[test]
fn run_machine_plays_a_script() {
    // IN; OUT; GETC; OUT; GETC; PUTS; HALT
    let mut machine = Machine::new(image(&[
        (0x3000, 0x6023),
        (0x3001, 0x6021),
        (0x3002, 0x6020),
        (0x3003, 0x6021),
        (0x3004, 0x6020),
        (0x3005, 0x4000 | 0x3F),
        (0x3006, 0x6024),
        (0x3007, 0x6025),
        (0x003F, 0x4F4B),
    ]));
    let mut screen = vec![b'>'];
    assert_eq!(machine.run_machine(&vec![b'a', b'b'], &mut screen, 1000), Ok(true));
    assert_eq!(screen, b">\n\rinput: a\n\rabOK".to_vec());
    assert_eq!(machine.pc(), 0x3008);
    assert!(!machine.running());
    assert_eq!(machine.register(0), 0x3F);
}

#[test]
fn run_machine_stops_at_its_limit() {
    // a loop: LD R1 <- 1; BR p, 0x3000
    let words = [0x4000 | (1 << 7) | 1, 0x2480, 0x3000];
    let mut machine = program(&words);
    assert_eq!(machine.run_machine(&Vec::new(), &mut Vec::new(), 0), Ok(false));
    assert_eq!(machine.pc(), 0x3000);
    assert_eq!(machine.run_machine(&Vec::new(), &mut Vec::new(), 1), Ok(false));
    assert_eq!(machine.pc(), 0x3001);
    assert_eq!(machine.run_machine(&Vec::new(), &mut Vec::new(), 1000), Ok(false));
    assert_eq!(machine.pc(), 0x3001);
    assert!(machine.running());
    assert_eq!(machine.run_machine(&Vec::new(), &mut Vec::new(), 1001), Ok(false));
    assert_eq!(machine.pc(), 0x3000);
}

#[test]
fn run_machine_keeps_what_was_written_before_a_fault() {
    // OUT; RTI
    let mut machine = program(&[0x6021, 0x6800]);
    machine.set_register(0, 0x41);
    let mut screen = Vec::new();
    assert_eq!(machine.run_machine(&Vec::new(), &mut screen, 10), Err(Fault::PrivilegeMode));
    assert_eq!(screen, vec![0x41]);
    assert_eq!(machine.pc(), 0x3001);
}

#[test]
fn setcc_sets_one_flag() {
    let mut machine = Machine::new(None);
    machine.setcc(-5);
    assert_eq!(machine.flags(), flags(true, false, false));
    machine.setcc(0);
    assert_eq!(machine.flags(), flags(false, true, false));
    machine.setcc(i16::MAX);
    assert_eq!(machine.flags(), flags(false, false, true));
    machine.setcc(i16::MIN);
    assert_eq!(machine.flags(), flags(true, false, false));
}

#[test]
fn address_privileged_is_all_but_user_memory() {
    assert!(address_privileged(0));
    assert!(address_privileged(0x2FFF));
    assert!(!address_privileged(0x3000));
    assert!(!address_privileged(0xFDFF));
    assert!(address_privileged(0xFE00));
    assert!(address_privileged(0xFFFF));
    assert!(address_privileged(0x10000));
    let machine = Machine::new(None);
    assert_eq!(machine.acv_exception(0x2FFF), Err(Fault::AccessViolation));
    assert_eq!(machine.acv_exception(0x3000), Ok(()));
}

#[test]
fn operand_readers_name_what_is_missing_or_wrong() {
    let register = Some(Operand::Register(7));
    let bad_register = Some(Operand::Register(8));
    let address = Some(Operand::Address(0xFFFE));
    let imm16 = Some(Operand::Imm16(-2));
    let imm3 = Some(Operand::Imm3(-4));
    let imm7 = Some(Operand::Imm7(63));
    let branch = Some(Operand::BR(flags(true, false, true)));
    let vector = Some(Operand::TrapVect(0x25));
    let with = |dr, operand1, operand2| instruction(Operation::ADD, dr, operand1, operand2);

    assert_eq!(register_to_index(&Operand::Register(0)), Ok(0));
    assert_eq!(register_to_index(&Operand::Register(7)), Ok(7));
    assert_eq!(
        register_to_index(&Operand::Register(8)),
        Err(Fault::WrongOperand(OperandKind::Register))
    );
    assert_eq!(
        register_to_index(&Operand::Imm3(1)),
        Err(Fault::WrongOperand(OperandKind::Register))
    );

    assert_eq!(instruction_to_dr(&with(register, None, None)), Ok(7));
    assert_eq!(
        instruction_to_dr(&with(None, register, register)),
        Err(Fault::MissingOperand(OperandKind::Register))
    );
    assert_eq!(
        instruction_to_dr(&with(bad_register, None, None)),
        Err(Fault::WrongOperand(OperandKind::Register))
    );
    assert_eq!(instruction_to_sr1(&with(None, register, None)), Ok(7));
    assert_eq!(
        instruction_to_sr1(&with(register, None, register)),
        Err(Fault::MissingOperand(OperandKind::Register))
    );
    assert_eq!(
        instruction_to_sr1(&with(None, imm7, None)),
        Err(Fault::WrongOperand(OperandKind::Register))
    );
    assert_eq!(instruction_to_sr2(&with(None, None, register)), Ok(7));
    assert_eq!(
        instruction_to_sr2(&with(register, register, None)),
        Err(Fault::MissingOperand(OperandKind::Register))
    );
    assert_eq!(
        instruction_to_sr2(&with(None, None, address)),
        Err(Fault::WrongOperand(OperandKind::Register))
    );

    assert_eq!(instruction_to_addr(&with(None, None, address)), Ok(0xFFFE));
    assert_eq!(instruction_to_addr(&with(None, None, imm16)), Ok(0xFFFE));
    assert_eq!(
        instruction_to_addr(&with(address, address, None)),
        Err(Fault::MissingOperand(OperandKind::Address))
    );
    assert_eq!(
        instruction_to_addr(&with(None, None, register)),
        Err(Fault::WrongOperand(OperandKind::Address))
    );

    assert_eq!(instruction_to_imm3(&with(None, None, imm3)), Ok(-4));
    assert_eq!(instruction_to_imm3(&with(None, None, Some(Operand::Imm3(3)))), Ok(3));
    assert_eq!(
        instruction_to_imm3(&with(imm3, imm3, None)),
        Err(Fault::MissingOperand(OperandKind::Imm3))
    );
    assert_eq!(
        instruction_to_imm3(&with(None, None, imm7)),
        Err(Fault::WrongOperand(OperandKind::Imm3))
    );
    assert_eq!(
        instruction_to_imm3(&with(None, None, Some(Operand::Imm3(4)))),
        Err(Fault::WrongOperand(OperandKind::Imm3))
    );
    assert_eq!(
        instruction_to_imm3(&with(None, None, Some(Operand::Imm3(-5)))),
        Err(Fault::WrongOperand(OperandKind::Imm3))
    );

    assert_eq!(instruction_to_imm7(&with(None, imm7, None)), Ok(63));
    assert_eq!(instruction_to_imm7(&with(None, Some(Operand::Imm7(-64)), None)), Ok(-64));
    assert_eq!(
        instruction_to_imm7(&with(imm7, None, imm7)),
        Err(Fault::MissingOperand(OperandKind::Imm7))
    );
    assert_eq!(
        instruction_to_imm7(&with(None, imm3, None)),
        Err(Fault::WrongOperand(OperandKind::Imm7))
    );
    assert_eq!(
        instruction_to_imm7(&with(None, Some(Operand::Imm7(64)), None)),
        Err(Fault::WrongOperand(OperandKind::Imm7))
    );

    assert_eq!(instruction_to_imm16(&with(None, None, imm16)), Ok(-2));
    assert_eq!(
        instruction_to_imm16(&with(imm16, imm16, None)),
        Err(Fault::MissingOperand(OperandKind::Imm16))
    );
    assert_eq!(
        instruction_to_imm16(&with(None, None, address)),
        Err(Fault::WrongOperand(OperandKind::Imm16))
    );
    assert_eq!(
        instruction_to_imm16(&with(None, None, vector)),
        Err(Fault::WrongOperand(OperandKind::Imm16))
    );
    assert_eq!(
        instruction_to_imm16(&with(None, None, branch)),
        Err(Fault::WrongOperand(OperandKind::Imm16))
    );
}

#[test]
fn handlers_refuse_instructions_that_lack_their_operands() {
    let register = |index| Some(Operand::Register(index));
    let mut machine = Machine::new(None);
    machine.set_register(1, 11);

    // the arithmetic handlers
    assert_eq!(
        machine.execute_def(instruction(Operation::ADD, None, register(1), register(2))),
        Err(Fault::MissingOperand(OperandKind::Register))
    );
    assert_eq!(
        machine.execute_def(instruction(Operation::ADD, register(0), register(1), None)),
        Err(Fault::MissingOperand(OperandKind::Second))
    );
    assert_eq!(
        machine.execute_def(instruction(
            Operation::ADD,
            register(0),
            register(1),
            Some(Operand::Address(3))
        )),
        Err(Fault::WrongOperand(OperandKind::Second))
    );
    assert_eq!(
        machine.execute_def(instruction(
            Operation::ADD,
            register(0),
            register(1),
            Some(Operand::Imm3(1))
        )),
        Err(Fault::WrongOperand(OperandKind::Register))
    );
    assert_eq!(
        machine.execute_def(instruction(Operation::ADDi, register(0), register(1), register(2))),
        Err(Fault::WrongOperand(OperandKind::Imm3))
    );
    assert_eq!(
        machine.execute_def(instruction(Operation::NOT, register(0), register(1), register(2))),
        Err(Fault::WrongOperation)
    );
    assert_eq!(
        machine.execute_double_def(instruction(Operation::ANDa, register(0), None, None)),
        Err(Fault::MissingOperand(OperandKind::Register))
    );
    assert_eq!(
        machine.execute_double_def(instruction(Operation::ANDa, register(0), register(1), None)),
        Err(Fault::MissingOperand(OperandKind::Second))
    );
    assert_eq!(
        machine.execute_double_def(instruction(
            Operation::ANDa,
            register(0),
            register(1),
            register(2)
        )),
        Err(Fault::WrongOperand(OperandKind::Second))
    );
    assert_eq!(
        machine.execute_double_def(instruction(
            Operation::ANDi16,
            register(0),
            register(1),
            Some(Operand::Address(1))
        )),
        Err(Fault::WrongOperand(OperandKind::Imm16))
    );
    assert_eq!(
        machine.execute_double_def(instruction(
            Operation::ADD,
            register(0),
            register(1),
            Some(Operand::Address(1))
        )),
        Err(Fault::WrongOperation)
    );
    // a memory form takes the bit pattern of an immediate as its address
    let mut loaded = Machine::new(image(&[(0xFFFE, 30)]));
    loaded.set_register(1, 12);
    assert_eq!(
        loaded.execute_double_def(instruction(
            Operation::ADDa,
            register(0),
            register(1),
            Some(Operand::Imm16(-2))
        )),
        Ok(())
    );
    assert_eq!(loaded.register(0), 42);

    // the others
    let none = instruction(Operation::TRAP, None, None, None);
    assert_eq!(machine.not(none), Err(Fault::MissingOperand(OperandKind::Register)));
    assert_eq!(machine.ld(none), Err(Fault::MissingOperand(OperandKind::Register)));
    assert_eq!(
        machine.ld(instruction(Operation::LD, register(1), None, None)),
        Err(Fault::MissingOperand(OperandKind::Imm7))
    );
    assert_eq!(
        machine.ld(instruction(Operation::LD, register(1), register(1), None)),
        Err(Fault::WrongOperand(OperandKind::Imm7))
    );
    assert_eq!(
        machine.lda(instruction(Operation::LDa, register(1), None, None)),
        Err(Fault::MissingOperand(OperandKind::Address))
    );
    assert_eq!(
        machine.st(instruction(Operation::ST, register(1), None, register(1))),
        Err(Fault::WrongOperand(OperandKind::Address))
    );
    assert_eq!(
        machine.str(instruction(Operation::STR, register(1), None, None)),
        Err(Fault::MissingOperand(OperandKind::Imm7))
    );
    assert_eq!(
        machine.str16(instruction(Operation::STR16, register(1), None, None)),
        Err(Fault::MissingOperand(OperandKind::Imm16))
    );
    assert_eq!(machine.jump(none), Err(Fault::MissingOperand(OperandKind::Register)));
    assert_eq!(machine.jsrr(none), Err(Fault::MissingOperand(OperandKind::Register)));
    assert_eq!(machine.jsr(&none), Err(Fault::MissingOperand(OperandKind::Address)));
    assert_eq!(machine.br(&none), Err(Fault::MissingOperand(OperandKind::Address)));
    assert_eq!(
        machine.br(&instruction(Operation::BR, None, None, Some(Operand::Address(1)))),
        Err(Fault::MissingOperand(OperandKind::Flags))
    );
    assert_eq!(
        machine.br(&instruction(Operation::BR, None, register(1), Some(Operand::Address(1)))),
        Err(Fault::WrongOperand(OperandKind::Flags))
    );
    // none of it changed the machine
    assert_eq!(registers(&machine), [0, 11, 0, 0, 0, 0, 0, 0]);
    assert_eq!(machine.pc(), 0x3000);
    assert_eq!(machine.flags(), flags(false, false, false));
}

#[test]
fn faults_have_messages() {
    let cases = [
        (Fault::Decode(DecodeError::InvalidOpcode), "invalid instruction"),
        (Fault::Decode(DecodeError::ShortInstruction), "short instruction in parse_double"),
        (Fault::MissingOperand(OperandKind::Register), "no destination register specified"),
        (Fault::MissingOperand(OperandKind::Address), "no address specified"),
        (Fault::MissingOperand(OperandKind::Imm3), "no imm3"),
        (Fault::MissingOperand(OperandKind::Imm7), "no imm7"),
        (Fault::MissingOperand(OperandKind::Imm16), "no imm16"),
        (Fault::MissingOperand(OperandKind::Flags), "BR does not have flag"),
        (Fault::MissingOperand(OperandKind::Second), "no second operand"),
        (Fault::WrongOperand(OperandKind::Register), "dr is not a register"),
        (Fault::WrongOperand(OperandKind::Address), "incorrect operand2, not address"),
        (Fault::WrongOperand(OperandKind::Imm3), "incorrect operand 2, not imm3"),
        (Fault::WrongOperand(OperandKind::Imm7), "incorrect operand 1, not imm7"),
        (Fault::WrongOperand(OperandKind::Imm16), "incorrect operand 2, not imm16"),
        (Fault::WrongOperand(OperandKind::Flags), "br came with something other than flags"),
        (Fault::WrongOperand(OperandKind::Second), "unexpected second operand"),
        (Fault::WrongOperation, "unexpected operation"),
        (Fault::AccessViolation, "ACV exception, privileged memory in non supervisor"),
        (Fault::PrivilegeMode, "privilege mode exception"),
        (Fault::WriteFailed, "couldn't write to terminal"),
        (Fault::ReadFailed, "couldn't read input"),
    ];
    for (fault, message) in cases {
        assert_eq!(fault.message(), message);
    }
}

#[test]
fn state_dumps() {
    let mut machine = Machine::new(image(&[(0x3000, 0x0890), (0x3001, 0xFFFF)]));
    machine.set_register(0, 5);
    machine.set_register(1, -7);
    machine.set_register(6, i16::MIN);
    machine.set_register(7, i16::MAX);
    assert_eq!(
        machine.print_registers(),
        "R0: 5\t R1: -7\t R2: 0\t R3: 0\t R4: 0\t R5: 0\t R6: -32768\t R7: 32767\t "
    );
    assert_eq!(
        machine.print_pretty_memory(),
        "0x3000: 0000100010010000\n0x3001: 1111111111111111\n"
    );
    assert_eq!(
        machine.pretty_print(),
        "PC: 12288 R0: 5\t R1: -7\t R2: 0\t R3: 0\t R4: 0\t R5: 0\t R6: -32768\t R7: 32767\t \n\
         0x3000: 0000100010010000\n0x3001: 1111111111111111\n\n"
    );
    // at the top of memory the second word is the first of memory
    let mut machine = Machine::new(image(&[(0x3000, 0x2800), (0xFFFF, 0x00AB), (0x0000, 0x8001)]));
    machine.set_register(0, -1);
    assert_eq!(machine.step(None), Ok(Action::Continue));
    assert_eq!(
        machine.print_pretty_memory(),
        "0xffff: 0000000010101011\n0x0000: 1000000000000001\n"
    );
}
