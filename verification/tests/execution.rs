//! Tests of decoding and of the fetch-decode-execute engine, including
//! the end-to-end scenarios and the determinism of seeded runs.
//!
//! Where the instruction set leaves room for more than one reading,
//! these tests pin the semantics this crate implements: every
//! comparison variant compares exactly the register it names, and the
//! equality variants test true equality.

use tinyvm::machine::Machine;
use tinyvm::opcode::OpCode;
use tinyvm::runtime::Runtime;

// Opcode byte values, as assigned by the decode mapping.
const OP_LOAD_B: u8 = 2;
const OP_STORE_C: u8 = 7;
const OP_SET_FLAG: u8 = 9;
const OP_ADD_BA: u8 = 12;
const OP_ADD_BC: u8 = 16;
const OP_SUB_CD: u8 = 33;
const OP_JMP: u8 = 37;
const OP_JMP_REL: u8 = 38;
const OP_WRITE_IP: u8 = 39;
const OP_BRANCH: u8 = 40;
const OP_LESS_THAN_B: u8 = 44;
const OP_EQUAL_TO_C: u8 = 49;
const OP_ROL_D: u8 = 95;
const OP_PRINT: u8 = 100;
const OP_ATTEMPT_HALT: u8 = 255;

/// A machine loaded with `program` at address 0.
fn machine_with(program: &[u8]) -> Machine {
    let mut m = Machine::new();
    for (i, &b) in program.iter().enumerate() {
        m.poke_mem(i as u16, b);
    }
    m
}

#[test]
fn every_byte_decodes_and_unassigned_bytes_are_nop() {
    for b in 0..=255u8 {
        let op = OpCode::from(b);
        if b == 0 || (101..=254).contains(&b) {
            assert_eq!(op, OpCode::Nop);
        } else {
            assert_ne!(op, OpCode::Nop);
        }
    }
}

#[test]
fn decode_spot_checks() {
    assert_eq!(OpCode::from(1), OpCode::LoadA);
    assert_eq!(OpCode::from(10), OpCode::ClearFlag);
    assert_eq!(OpCode::from(23), OpCode::AddDD);
    assert_eq!(OpCode::from(37), OpCode::Jmp);
    assert_eq!(OpCode::from(40), OpCode::Branch);
    assert_eq!(OpCode::from(52), OpCode::EqualToD);
    assert_eq!(OpCode::from(53), OpCode::AndAA);
    assert_eq!(OpCode::from(91), OpCode::OrDD);
    assert_eq!(OpCode::from(96), OpCode::RorA);
    assert_eq!(OpCode::from(100), OpCode::Print);
    assert_eq!(OpCode::from(255), OpCode::AttemptHalt);
}

#[test]
fn absolute_jump_scenario() {
    // Zero-filled memory, except: byte 0 is the absolute-jump opcode
    // and bytes 1-2 hold 0x0010 little-endian. One step sets the
    // pointer to 0x0010 and changes nothing else.
    let mut m = machine_with(&[OP_JMP, 0x10, 0x00]);
    m.step();
    assert_eq!(m.ip(), 0x0010);
    assert_eq!(m.regs(), [0, 0, 0, 0]);
    assert!(!m.flag());
    assert!(!m.halt);
    assert_eq!(m.peek_mem(0), OP_JMP);
    assert_eq!(m.peek_mem(1), 0x10);
    assert_eq!(m.peek_mem(2), 0x00);
    assert_eq!(m.take_output(), Vec::<u8>::new());
}

#[test]
fn register_addition_scenario() {
    // The instruction set exposes no opcode for `A := A + B`; the
    // addition of A and B it offers is `AddBA`, `B := B + A`. With
    // A = 5 and B = 3 the sum lands in B and A is unchanged.
    let mut m = machine_with(&[OP_ADD_BA]);
    m.poke_reg(0, 5);
    m.poke_reg(1, 3);
    m.step();
    assert_eq!(m.peek_reg(1), 8);
    assert_eq!(m.peek_reg(0), 5);
    assert_eq!(m.ip(), 1);
}

#[test]
fn arithmetic_opcodes_name_destination_then_source() {
    let mut m = machine_with(&[OP_ADD_BC]);
    m.poke_reg(1, 10);
    m.poke_reg(2, 4);
    m.step();
    assert_eq!(m.peek_reg(1), 14);
    assert_eq!(m.peek_reg(2), 4);

    let mut m = machine_with(&[OP_SUB_CD]);
    m.poke_reg(2, 4);
    m.poke_reg(3, 9);
    m.step();
    assert_eq!(m.peek_reg(2), 251);
    assert_eq!(m.peek_reg(3), 9);
}

#[test]
fn load_store_and_rotate_opcodes_consume_their_operands() {
    let mut m = machine_with(&[OP_LOAD_B, 0x00, 0x20]);
    m.poke_mem(0x2000, 99);
    m.step();
    assert_eq!(m.peek_reg(1), 99);
    assert_eq!(m.ip(), 3);

    let mut m = machine_with(&[OP_STORE_C, 0x00, 0x30]);
    m.poke_reg(2, 55);
    m.step();
    assert_eq!(m.peek_mem(0x3000), 55);
    assert_eq!(m.ip(), 3);

    let mut m = machine_with(&[OP_ROL_D, 3]);
    m.poke_reg(3, 0b0001_0001);
    m.step();
    assert_eq!(m.peek_reg(3), 0b1000_1000);
    assert_eq!(m.ip(), 2);
}

#[test]
fn relative_jump_adds_to_the_pointer() {
    let mut m = machine_with(&[OP_JMP_REL, 0x05, 0x00]);
    m.step();
    // The pointer stands at 3 after the operand, plus 5.
    assert_eq!(m.ip(), 8);
}

#[test]
fn branch_opcode_consumes_the_flag_once() {
    let mut m = machine_with(&[OP_SET_FLAG, OP_BRANCH, 10, OP_BRANCH, 10]);
    m.step();
    assert!(m.flag());
    // First branch: pointer stands at 3 after its operand, plus 10.
    m.step();
    assert_eq!(m.ip(), 13);
    assert!(!m.flag());
    // A later branch with the flag down does not move the pointer
    // beyond its own operand.
    m.jump(3);
    m.step();
    assert_eq!(m.ip(), 5);
    assert!(!m.flag());
}

#[test]
fn comparison_opcodes_use_the_register_they_name() {
    // LessThanB reads register B: B = 1 against memory byte 5 raises
    // the flag even though A would fail the comparison.
    let mut m = machine_with(&[OP_LESS_THAN_B, 0x40, 0x00]);
    m.poke_reg(0, 200);
    m.poke_reg(1, 1);
    m.poke_mem(0x0040, 5);
    m.step();
    assert!(m.flag());
    assert_eq!(m.ip(), 3);

    // With B failing the comparison the flag stays down, whatever A
    // holds.
    let mut m = machine_with(&[OP_LESS_THAN_B, 0x40, 0x00]);
    m.poke_reg(0, 1);
    m.poke_reg(1, 200);
    m.poke_mem(0x0040, 5);
    m.step();
    assert!(!m.flag());
}

#[test]
fn equality_opcode_tests_true_equality() {
    let mut m = machine_with(&[OP_EQUAL_TO_C, 0x40, 0x00]);
    m.poke_reg(2, 9);
    m.poke_mem(0x0040, 9);
    m.step();
    assert!(m.flag());

    // Greater is not equal: 12 against 9 leaves the flag down.
    let mut m = machine_with(&[OP_EQUAL_TO_C, 0x40, 0x00]);
    m.poke_reg(2, 12);
    m.poke_mem(0x0040, 9);
    m.step();
    assert!(!m.flag());
}

#[test]
fn comparison_step_never_clears_a_raised_flag() {
    let mut m = machine_with(&[OP_LESS_THAN_B, 0x40, 0x00]);
    m.poke_reg(1, 200);
    m.poke_mem(0x0040, 5);
    m.flag_set();
    m.step();
    // 200 < 5 is false, yet the flag stays up.
    assert!(m.flag());
}

#[test]
fn self_write_round_trip() {
    // WriteIp targeting X = 0x1000: after its two operand bytes the
    // pointer equals 3, so memory[X] = 3 and memory[X + 1] = 0.
    let mut m = machine_with(&[OP_WRITE_IP, 0x00, 0x10]);
    m.step();
    assert_eq!(m.ip(), 3);
    assert_eq!(m.peek_mem(0x1000), 3);
    assert_eq!(m.peek_mem(0x1001), 0);
}

#[test]
fn self_write_round_trip_with_wrapped_pointer() {
    // The same opcode at the top of memory: the pointer wraps past
    // 65535 while consuming the operand, and the stored word is the
    // wrapped pointer 2.
    let mut m = Machine::new();
    m.poke_mem(65535, OP_WRITE_IP);
    m.poke_mem(0, 0x00);
    m.poke_mem(1, 0x10);
    m.jump(65535);
    m.step();
    assert_eq!(m.ip(), 2);
    assert_eq!(m.peek_mem(0x1000), 2);
    assert_eq!(m.peek_mem(0x1001), 0);
}

#[test]
fn halt_gate_requires_all_registers_and_the_flag() {
    // Three registers at 0xFF and one at 0xFE: no halt, and nothing
    // but the pointer changes.
    let mut m = machine_with(&[OP_ATTEMPT_HALT]);
    m.poke_reg(0, 0xFF);
    m.poke_reg(1, 0xFF);
    m.poke_reg(2, 0xFF);
    m.poke_reg(3, 0xFE);
    m.flag_set();
    m.step();
    assert!(!m.halt);
    assert!(!m.is_halted());
    assert_eq!(m.ip(), 1);
    assert_eq!(m.regs(), [0xFF, 0xFF, 0xFF, 0xFE]);
    assert!(m.flag());

    // All registers at 0xFF but the flag down: still no halt.
    let mut m = machine_with(&[OP_ATTEMPT_HALT]);
    for r in 0..4usize {
        m.poke_reg(r, 0xFF);
    }
    m.step();
    assert!(!m.halt);

    // The full gate: all four registers at 0xFF and the flag up.
    let mut m = machine_with(&[OP_ATTEMPT_HALT]);
    for r in 0..4usize {
        m.poke_reg(r, 0xFF);
    }
    m.flag_set();
    m.step();
    assert!(m.halt);
    assert!(m.is_halted());
    assert_eq!(m.ip(), 1);
}

#[test]
fn print_opcode_emits_the_addressed_byte() {
    let mut m = machine_with(&[OP_PRINT, 0x20, 0x00, OP_PRINT, 0x21, 0x00]);
    m.poke_mem(0x20, 0x68);
    m.poke_mem(0x21, 0x69);
    m.step();
    m.step();
    assert_eq!(m.take_output(), vec![0x68, 0x69]);
}

#[test]
fn unassigned_bytes_execute_as_nop() {
    let mut m = machine_with(&[150, 200, 254]);
    m.flag_set();
    m.poke_reg(0, 42);
    for _ in 0..3 {
        m.step();
    }
    assert_eq!(m.ip(), 3);
    assert_eq!(m.peek_reg(0), 42);
    assert!(m.flag());
    assert!(!m.halt);
}

#[test]
fn run_stops_at_the_step_ceiling() {
    // An endless stretch of no-ops: run exactly as many cycles as
    // asked and stop.
    let mut m = Machine::new();
    m.run(25);
    assert_eq!(m.ip(), 25);
    assert!(!m.halt);
}

#[test]
fn run_stops_when_the_machine_halts() {
    let mut m = machine_with(&[OP_SET_FLAG, OP_ATTEMPT_HALT]);
    for r in 0..4usize {
        m.poke_reg(r, 0xFF);
    }
    m.run(1000);
    assert!(m.halt);
    assert_eq!(m.ip(), 2);
    // Further running a halted machine changes nothing.
    m.run(1000);
    assert_eq!(m.ip(), 2);
}

#[test]
fn identically_seeded_machines_run_identically() {
    // Two machines seeded from the same deterministic byte sequence
    // and stepped the same number of times end in identical states.
    let mut a = Machine::new();
    let mut b = Machine::new();
    let mut x: u32 = 1;
    for i in 0..=65535u16 {
        // A simple linear congruential byte stream.
        x = x.wrapping_mul(1103515245).wrapping_add(12345);
        a.poke_mem(i, (x >> 16) as u8);
        b.poke_mem(i, (x >> 16) as u8);
    }
    a.run(5000);
    b.run(5000);
    assert_eq!(a.regs(), b.regs());
    assert_eq!(a.ip(), b.ip());
    assert_eq!(a.flag(), b.flag());
    assert_eq!(a.halt, b.halt);
    for i in 0..=65535u16 {
        assert_eq!(a.peek_mem(i), b.peek_mem(i));
    }
    assert_eq!(a.take_output(), b.take_output());
}

#[test]
fn run_random_completes_within_its_ceiling() {
    Machine::run_random(10_000);
}
