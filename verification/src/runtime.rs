//! The execution engine. `spec_step` is the mathematical small-step
//! semantics of the instruction set: it says, for every machine state,
//! exactly what one fetch-decode-dispatch cycle yields. The `Runtime`
//! trait's `step` is proved to implement it, so a whole run is pinned
//! down by the initial state alone.

use vstd::prelude::*;
use crate::machine::{
    Machine, MachineView, hi8, lo8, rol8, ror8, wrap_add8, wrap_add16, wrap_sub8,
};
use crate::opcode::{OpCode, spec_decode};

verus! {

pub const REG_A: usize = 0;
pub const REG_B: usize = 1;
pub const REG_C: usize = 2;
pub const REG_D: usize = 3;

/// `reg := memory[operand address]`, consuming a two-byte operand.
pub open spec fn load_op(v: MachineView, r: int) -> MachineView {
    v.advanced(2).with_reg(r, v.byte_at(v.word_at(v.ip)))
}

/// `memory[operand address] := reg`, consuming a two-byte operand.
pub open spec fn store_op(v: MachineView, r: int) -> MachineView {
    v.advanced(2).with_mem(v.word_at(v.ip), v.reg(r))
}

pub open spec fn add_op(v: MachineView, d: int, s: int) -> MachineView {
    v.with_reg(d, wrap_add8(v.reg(d), v.reg(s)))
}

pub open spec fn sub_op(v: MachineView, d: int, s: int) -> MachineView {
    v.with_reg(d, wrap_sub8(v.reg(d), v.reg(s)))
}

pub open spec fn and_op(v: MachineView, d: int, s: int) -> MachineView {
    v.with_reg(d, v.reg(d) & v.reg(s))
}

pub open spec fn xor_op(v: MachineView, d: int, s: int) -> MachineView {
    v.with_reg(d, v.reg(d) ^ v.reg(s))
}

pub open spec fn or_op(v: MachineView, d: int, s: int) -> MachineView {
    v.with_reg(d, v.reg(d) | v.reg(s))
}

/// Absolute jump to a two-byte operand address.
pub open spec fn jmp_op(v: MachineView) -> MachineView {
    v.advanced(2).with_ip(v.word_at(v.ip))
}

/// Relative jump by a two-byte operand displacement.
pub open spec fn jmp_rel_op(v: MachineView) -> MachineView {
    v.advanced(2).advanced(v.word_at(v.ip))
}

/// Store the instruction pointer (as it stands after the operand was
/// consumed) little-endian at the operand address.
pub open spec fn write_ip_op(v: MachineView) -> MachineView {
    v.advanced(2).with_mem(v.word_at(v.ip), lo8(v.advanced(2).ip)).with_mem(
        wrap_add16(v.word_at(v.ip), 1),
        hi8(v.advanced(2).ip),
    )
}

/// Consume a one-byte displacement; a raised flag is lowered and the
/// pointer moves forward by it, a lowered flag changes nothing more.
pub open spec fn branch_op(v: MachineView) -> MachineView {
    if v.flag {
        v.advanced(1).with_flag(false).advanced(v.byte_at(v.ip) as u16)
    } else {
        v.advanced(1)
    }
}

/// Raise the flag if `reg < memory[operand address]`; never lower it.
pub open spec fn lt_op(v: MachineView, r: int) -> MachineView {
    v.advanced(2).with_flag(v.flag || v.reg(r) < v.byte_at(v.word_at(v.ip)))
}

/// Raise the flag if `reg > memory[operand address]`; never lower it.
pub open spec fn gt_op(v: MachineView, r: int) -> MachineView {
    v.advanced(2).with_flag(v.flag || v.reg(r) > v.byte_at(v.word_at(v.ip)))
}

/// Raise the flag if `reg == memory[operand address]`; never lower it.
pub open spec fn eq_op(v: MachineView, r: int) -> MachineView {
    v.advanced(2).with_flag(v.flag || v.reg(r) == v.byte_at(v.word_at(v.ip)))
}

/// Rotate a register left by a one-byte operand, modulo 8.
pub open spec fn rol_op(v: MachineView, r: int) -> MachineView {
    v.advanced(1).with_reg(r, rol8(v.reg(r), v.byte_at(v.ip)))
}

/// Rotate a register right by a one-byte operand, modulo 8.
pub open spec fn ror_op(v: MachineView, r: int) -> MachineView {
    v.advanced(1).with_reg(r, ror8(v.reg(r), v.byte_at(v.ip)))
}

/// Append `memory[operand address]` to the output sink.
pub open spec fn print_op(v: MachineView) -> MachineView {
    v.advanced(2).with_out(v.byte_at(v.word_at(v.ip)))
}

/// The halt gate: all four registers at the maximum byte value and the
/// flag raised, simultaneously.
pub open spec fn halt_gate(v: MachineView) -> bool {
    v.reg(0) == 0xFF && v.reg(1) == 0xFF && v.reg(2) == 0xFF && v.reg(3) == 0xFF && v.flag
}

/// Raise the halt flag when `halt_gate` is satisfied; otherwise leave
/// the state exactly as it was.
pub open spec fn attempt_halt_op(v: MachineView) -> MachineView {
    if halt_gate(v) {
        v.halted()
    } else {
        v
    }
}

/// What executing `op` does to a state in which the opcode byte has
/// already been consumed.
pub open spec fn spec_execute(op: OpCode, v: MachineView) -> MachineView {
    match op {
        OpCode::Nop => v,
        OpCode::LoadA => load_op(v, 0),
        OpCode::LoadB => load_op(v, 1),
        OpCode::LoadC => load_op(v, 2),
        OpCode::LoadD => load_op(v, 3),
        OpCode::StoreA => store_op(v, 0),
        OpCode::StoreB => store_op(v, 1),
        OpCode::StoreC => store_op(v, 2),
        OpCode::StoreD => store_op(v, 3),
        OpCode::SetFlag => v.with_flag(true),
        OpCode::ClearFlag => v.with_flag(false),
        OpCode::AddAA => add_op(v, 0, 0),
        OpCode::AddBA => add_op(v, 1, 0),
        OpCode::AddCA => add_op(v, 2, 0),
        OpCode::AddDA => add_op(v, 3, 0),
        OpCode::AddBB => add_op(v, 1, 1),
        OpCode::AddBC => add_op(v, 1, 2),
        OpCode::AddBD => add_op(v, 1, 3),
        OpCode::AddCB => add_op(v, 2, 1),
        OpCode::AddCC => add_op(v, 2, 2),
        OpCode::AddCD => add_op(v, 2, 3),
        OpCode::AddDB => add_op(v, 3, 1),
        OpCode::AddDC => add_op(v, 3, 2),
        OpCode::AddDD => add_op(v, 3, 3),
        OpCode::SubAA => sub_op(v, 0, 0),
        OpCode::SubBA => sub_op(v, 1, 0),
        OpCode::SubCA => sub_op(v, 2, 0),
        OpCode::SubDA => sub_op(v, 3, 0),
        OpCode::SubBB => sub_op(v, 1, 1),
        OpCode::SubBC => sub_op(v, 1, 2),
        OpCode::SubBD => sub_op(v, 1, 3),
        OpCode::SubCB => sub_op(v, 2, 1),
        OpCode::SubCC => sub_op(v, 2, 2),
        OpCode::SubCD => sub_op(v, 2, 3),
        OpCode::SubDB => sub_op(v, 3, 1),
        OpCode::SubDC => sub_op(v, 3, 2),
        OpCode::SubDD => sub_op(v, 3, 3),
        OpCode::Jmp => jmp_op(v),
        OpCode::JmpRel => jmp_rel_op(v),
        OpCode::WriteIp => write_ip_op(v),
        OpCode::Branch => branch_op(v),
        OpCode::LessThanA => lt_op(v, 0),
        OpCode::GreaterThanA => gt_op(v, 0),
        OpCode::EqualToA => eq_op(v, 0),
        OpCode::LessThanB => lt_op(v, 1),
        OpCode::GreaterThanB => gt_op(v, 1),
        OpCode::EqualToB => eq_op(v, 1),
        OpCode::LessThanC => lt_op(v, 2),
        OpCode::GreaterThanC => gt_op(v, 2),
        OpCode::EqualToC => eq_op(v, 2),
        OpCode::LessThanD => lt_op(v, 3),
        OpCode::GreaterThanD => gt_op(v, 3),
        OpCode::EqualToD => eq_op(v, 3),
        OpCode::AndAA => and_op(v, 0, 0),
        OpCode::AndBA => and_op(v, 1, 0),
        OpCode::AndCA => and_op(v, 2, 0),
        OpCode::AndDA => and_op(v, 3, 0),
        OpCode::AndBB => and_op(v, 1, 1),
        OpCode::AndBC => and_op(v, 1, 2),
        OpCode::AndBD => and_op(v, 1, 3),
        OpCode::AndCB => and_op(v, 2, 1),
        OpCode::AndCC => and_op(v, 2, 2),
        OpCode::AndCD => and_op(v, 2, 3),
        OpCode::AndDB => and_op(v, 3, 1),
        OpCode::AndDC => and_op(v, 3, 2),
        OpCode::AndDD => and_op(v, 3, 3),
        OpCode::XorAA => xor_op(v, 0, 0),
        OpCode::XorBA => xor_op(v, 1, 0),
        OpCode::XorCA => xor_op(v, 2, 0),
        OpCode::XorDA => xor_op(v, 3, 0),
        OpCode::XorBB => xor_op(v, 1, 1),
        OpCode::XorBC => xor_op(v, 1, 2),
        OpCode::XorBD => xor_op(v, 1, 3),
        OpCode::XorCB => xor_op(v, 2, 1),
        OpCode::XorCC => xor_op(v, 2, 2),
        OpCode::XorCD => xor_op(v, 2, 3),
        OpCode::XorDB => xor_op(v, 3, 1),
        OpCode::XorDC => xor_op(v, 3, 2),
        OpCode::XorDD => xor_op(v, 3, 3),
        OpCode::OrAA => or_op(v, 0, 0),
        OpCode::OrBA => or_op(v, 1, 0),
        OpCode::OrCA => or_op(v, 2, 0),
        OpCode::OrDA => or_op(v, 3, 0),
        OpCode::OrBB => or_op(v, 1, 1),
        OpCode::OrBC => or_op(v, 1, 2),
        OpCode::OrBD => or_op(v, 1, 3),
        OpCode::OrCB => or_op(v, 2, 1),
        OpCode::OrCC => or_op(v, 2, 2),
        OpCode::OrCD => or_op(v, 2, 3),
        OpCode::OrDB => or_op(v, 3, 1),
        OpCode::OrDC => or_op(v, 3, 2),
        OpCode::OrDD => or_op(v, 3, 3),
        OpCode::RolA => rol_op(v, 0),
        OpCode::RolB => rol_op(v, 1),
        OpCode::RolC => rol_op(v, 2),
        OpCode::RolD => rol_op(v, 3),
        OpCode::RorA => ror_op(v, 0),
        OpCode::RorB => ror_op(v, 1),
        OpCode::RorC => ror_op(v, 2),
        OpCode::RorD => ror_op(v, 3),
        OpCode::Print => print_op(v),
        OpCode::AttemptHalt => attempt_halt_op(v),
    }
}

/// One full cycle: decode the byte under the instruction pointer, move
/// the pointer past it, and execute the decoded opcode.
pub open spec fn spec_step(v: MachineView) -> MachineView {
    spec_execute(spec_decode(v.byte_at(v.ip)), v.advanced(1))
}

/// Up to `n` cycles, stopping early once the halt flag is up.
pub open spec fn spec_run(v: MachineView, n: nat) -> MachineView
    decreases n,
{
    if n == 0 || v.halt {
        v
    } else {
        spec_run(spec_step(v), (n - 1) as nat)
    }
}

/// The twelve comparison opcodes.
pub open spec fn is_comparison(op: OpCode) -> bool {
    ||| op is LessThanA
    ||| op is GreaterThanA
    ||| op is EqualToA
    ||| op is LessThanB
    ||| op is GreaterThanB
    ||| op is EqualToB
    ||| op is LessThanC
    ||| op is GreaterThanC
    ||| op is EqualToC
    ||| op is LessThanD
    ||| op is GreaterThanD
    ||| op is EqualToD
}

/// The only opcodes that ever lower the flag: the explicit clear, and
/// the conditional branch that consumes a raised flag.
pub open spec fn clears_flag(op: OpCode) -> bool {
    op is ClearFlag || op is Branch
}

/// The halt flag is monotonic: no step of any program ever lowers it.
pub proof fn lemma_halt_monotonic(v: MachineView)
    ensures
        v.halt ==> spec_step(v).halt,
{
}

/// The flag is sticky: a step keeps a raised flag up unless its opcode
/// is the explicit clear or a branch that consumes it.
pub proof fn lemma_flag_sticky(v: MachineView)
    requires
        v.flag,
        !clears_flag(spec_decode(v.byte_at(v.ip))),
    ensures
        spec_step(v).flag,
{
}

/// A comparison never clears the flag: whatever its condition
/// evaluates to, a raised flag stays up.
pub proof fn lemma_comparison_never_clears(v: MachineView)
    requires
        v.flag,
        is_comparison(spec_decode(v.byte_at(v.ip))),
    ensures
        spec_step(v).flag,
{
}

/// The halt attempt transitions to the halted state exactly when all
/// four registers hold the maximum byte value and the flag is up;
/// otherwise the step changes nothing but the instruction pointer.
pub proof fn lemma_halt_gating(v: MachineView)
    requires
        spec_decode(v.byte_at(v.ip)) is AttemptHalt,
    ensures
        halt_gate(v) ==> spec_step(v) == v.advanced(1).halted(),
        !halt_gate(v) ==> spec_step(v) == v.advanced(1),
{
}

/// The self-write round trip: executing the write-instruction-pointer
/// opcode with operand address `x` stores, little-endian at `x`, the
/// pointer as it stands after the operand was consumed — so reading
/// the word back from `x` yields exactly where execution resumes.
pub proof fn lemma_write_ip_round_trip(v: MachineView)
    requires
        v.wf(),
        spec_decode(v.byte_at(v.ip)) is WriteIp,
    ensures
        ({
            let x = v.word_at(wrap_add16(v.ip, 1));
            let p = wrap_add16(v.ip, 3);
            &&& spec_step(v).byte_at(x) == lo8(p)
            &&& spec_step(v).byte_at(wrap_add16(x, 1)) == hi8(p)
            &&& spec_step(v).word_at(x) == p
            &&& spec_step(v).ip == p
        }),
{
}

/// Determinism: execution is a function of the machine state alone,
/// so two machines started from the same state — for instance, seeded
/// from the same random-byte sequence — agree after any number of
/// steps.
pub proof fn lemma_run_deterministic(a: MachineView, b: MachineView, n: nat)
    requires
        a == b,
    ensures
        spec_run(a, n) == spec_run(b, n),
{
}

/// An execution engine over the machine state `st`.
pub trait Runtime: Sized {
    /// The machine state this runtime steps.
    spec fn st(&self) -> MachineView;

    /// Execute one fetch-decode-dispatch cycle.
    fn step(&mut self)
        ensures
            final(self).st() == spec_step(old(self).st()),
    ;

    /// Step the machine until it halts or `max_steps` cycles have run,
    /// whichever comes first.
    fn run(&mut self, max_steps: u64)
        ensures
            final(self).st() == spec_run(old(self).st(), max_steps as nat),
    ;

    /// Build a randomly seeded machine and run it as `run` does.
    fn run_random(max_steps: u64);
}

impl Runtime for Machine {
    open spec fn st(&self) -> MachineView {
        self@
    }

    fn step(&mut self) {
        let inst = self.fetch_inst();
        match inst {
            OpCode::Nop => {},
            OpCode::LoadA => {
                let address = self.fetch_two();
                self.load(address, REG_A);
            }
            OpCode::LoadB => {
                let address = self.fetch_two();
                self.load(address, REG_B);
            }
            OpCode::LoadC => {
                let address = self.fetch_two();
                self.load(address, REG_C);
            }
            OpCode::LoadD => {
                let address = self.fetch_two();
                self.load(address, REG_D);
            }
            OpCode::StoreA => {
                let address = self.fetch_two();
                self.store(REG_A, address);
            }
            OpCode::StoreB => {
                let address = self.fetch_two();
                self.store(REG_B, address);
            }
            OpCode::StoreC => {
                let address = self.fetch_two();
                self.store(REG_C, address);
            }
            OpCode::StoreD => {
                let address = self.fetch_two();
                self.store(REG_D, address);
            }
            OpCode::SetFlag => {
                self.flag_set();
            }
            OpCode::ClearFlag => {
                self.flag_clear();
            }
            OpCode::AddAA => {
                self.add(REG_A, REG_A);
            }
            OpCode::AddBA => {
                self.add(REG_B, REG_A);
            }
            OpCode::AddCA => {
                self.add(REG_C, REG_A);
            }
            OpCode::AddDA => {
                self.add(REG_D, REG_A);
            }
            OpCode::AddBB => {
                self.add(REG_B, REG_B);
            }
            OpCode::AddBC => {
                self.add(REG_B, REG_C);
            }
            OpCode::AddBD => {
                self.add(REG_B, REG_D);
            }
            OpCode::AddCB => {
                self.add(REG_C, REG_B);
            }
            OpCode::AddCC => {
                self.add(REG_C, REG_C);
            }
            OpCode::AddCD => {
                self.add(REG_C, REG_D);
            }
            OpCode::AddDB => {
                self.add(REG_D, REG_B);
            }
            OpCode::AddDC => {
                self.add(REG_D, REG_C);
            }
            OpCode::AddDD => {
                self.add(REG_D, REG_D);
            }
            OpCode::SubAA => {
                self.sub(REG_A, REG_A);
            }
            OpCode::SubBA => {
                self.sub(REG_B, REG_A);
            }
            OpCode::SubCA => {
                self.sub(REG_C, REG_A);
            }
            OpCode::SubDA => {
                self.sub(REG_D, REG_A);
            }
            OpCode::SubBB => {
                self.sub(REG_B, REG_B);
            }
            OpCode::SubBC => {
                self.sub(REG_B, REG_C);
            }
            OpCode::SubBD => {
                self.sub(REG_B, REG_D);
            }
            OpCode::SubCB => {
                self.sub(REG_C, REG_B);
            }
            OpCode::SubCC => {
                self.sub(REG_C, REG_C);
            }
            OpCode::SubCD => {
                self.sub(REG_C, REG_D);
            }
            OpCode::SubDB => {
                self.sub(REG_D, REG_B);
            }
            OpCode::SubDC => {
                self.sub(REG_D, REG_C);
            }
            OpCode::SubDD => {
                self.sub(REG_D, REG_D);
            }
            OpCode::Jmp => {
                let address = self.fetch_two();
                self.jump(address);
            }
            OpCode::JmpRel => {
                let address = self.fetch_two();
                self.advance_by(address);
            }
            OpCode::WriteIp => {
                let address = self.fetch_two();
                self.write_ip(address);
            }
            OpCode::Branch => {
                let displacement = self.fetch_one();
                self.branch(displacement);
            }
            OpCode::LessThanA => {
                let address = self.fetch_two();
                self.less_than(REG_A, address);
            }
            OpCode::GreaterThanA => {
                let address = self.fetch_two();
                self.greater_than(REG_A, address);
            }
            OpCode::EqualToA => {
                let address = self.fetch_two();
                self.equal_to(REG_A, address);
            }
            OpCode::LessThanB => {
                let address = self.fetch_two();
                self.less_than(REG_B, address);
            }
            OpCode::GreaterThanB => {
                let address = self.fetch_two();
                self.greater_than(REG_B, address);
            }
            OpCode::EqualToB => {
                let address = self.fetch_two();
                self.equal_to(REG_B, address);
            }
            OpCode::LessThanC => {
                let address = self.fetch_two();
                self.less_than(REG_C, address);
            }
            OpCode::GreaterThanC => {
                let address = self.fetch_two();
                self.greater_than(REG_C, address);
            }
            OpCode::EqualToC => {
                let address = self.fetch_two();
                self.equal_to(REG_C, address);
            }
            OpCode::LessThanD => {
                let address = self.fetch_two();
                self.less_than(REG_D, address);
            }
            OpCode::GreaterThanD => {
                let address = self.fetch_two();
                self.greater_than(REG_D, address);
            }
            OpCode::EqualToD => {
                let address = self.fetch_two();
                self.equal_to(REG_D, address);
            }
            OpCode::AndAA => {
                self.and(REG_A, REG_A);
            }
            OpCode::AndBA => {
                self.and(REG_B, REG_A);
            }
            OpCode::AndCA => {
                self.and(REG_C, REG_A);
            }
            OpCode::AndDA => {
                self.and(REG_D, REG_A);
            }
            OpCode::AndBB => {
                self.and(REG_B, REG_B);
            }
            OpCode::AndBC => {
                self.and(REG_B, REG_C);
            }
            OpCode::AndBD => {
                self.and(REG_B, REG_D);
            }
            OpCode::AndCB => {
                self.and(REG_C, REG_B);
            }
            OpCode::AndCC => {
                self.and(REG_C, REG_C);
            }
            OpCode::AndCD => {
                self.and(REG_C, REG_D);
            }
            OpCode::AndDB => {
                self.and(REG_D, REG_B);
            }
            OpCode::AndDC => {
                self.and(REG_D, REG_C);
            }
            OpCode::AndDD => {
                self.and(REG_D, REG_D);
            }
            OpCode::XorAA => {
                self.xor(REG_A, REG_A);
            }
            OpCode::XorBA => {
                self.xor(REG_B, REG_A);
            }
            OpCode::XorCA => {
                self.xor(REG_C, REG_A);
            }
            OpCode::XorDA => {
                self.xor(REG_D, REG_A);
            }
            OpCode::XorBB => {
                self.xor(REG_B, REG_B);
            }
            OpCode::XorBC => {
                self.xor(REG_B, REG_C);
            }
            OpCode::XorBD => {
                self.xor(REG_B, REG_D);
            }
            OpCode::XorCB => {
                self.xor(REG_C, REG_B);
            }
            OpCode::XorCC => {
                self.xor(REG_C, REG_C);
            }
            OpCode::XorCD => {
                self.xor(REG_C, REG_D);
            }
            OpCode::XorDB => {
                self.xor(REG_D, REG_B);
            }
            OpCode::XorDC => {
                self.xor(REG_D, REG_C);
            }
            OpCode::XorDD => {
                self.xor(REG_D, REG_D);
            }
            OpCode::OrAA => {
                self.or(REG_A, REG_A);
            }
            OpCode::OrBA => {
                self.or(REG_B, REG_A);
            }
            OpCode::OrCA => {
                self.or(REG_C, REG_A);
            }
            OpCode::OrDA => {
                self.or(REG_D, REG_A);
            }
            OpCode::OrBB => {
                self.or(REG_B, REG_B);
            }
            OpCode::OrBC => {
                self.or(REG_B, REG_C);
            }
            OpCode::OrBD => {
                self.or(REG_B, REG_D);
            }
            OpCode::OrCB => {
                self.or(REG_C, REG_B);
            }
            OpCode::OrCC => {
                self.or(REG_C, REG_C);
            }
            OpCode::OrCD => {
                self.or(REG_C, REG_D);
            }
            OpCode::OrDB => {
                self.or(REG_D, REG_B);
            }
            OpCode::OrDC => {
                self.or(REG_D, REG_C);
            }
            OpCode::OrDD => {
                self.or(REG_D, REG_D);
            }
            OpCode::RolA => {
                let shift = self.fetch_one();
                self.rotate_left(REG_A, shift);
            }
            OpCode::RolB => {
                let shift = self.fetch_one();
                self.rotate_left(REG_B, shift);
            }
            OpCode::RolC => {
                let shift = self.fetch_one();
                self.rotate_left(REG_C, shift);
            }
            OpCode::RolD => {
                let shift = self.fetch_one();
                self.rotate_left(REG_D, shift);
            }
            OpCode::RorA => {
                let shift = self.fetch_one();
                self.rotate_right(REG_A, shift);
            }
            OpCode::RorB => {
                let shift = self.fetch_one();
                self.rotate_right(REG_B, shift);
            }
            OpCode::RorC => {
                let shift = self.fetch_one();
                self.rotate_right(REG_C, shift);
            }
            OpCode::RorD => {
                let shift = self.fetch_one();
                self.rotate_right(REG_D, shift);
            }
            OpCode::AttemptHalt => {
                let a = self.peek_reg(REG_A) == 0xFF;
                let b = self.peek_reg(REG_B) == 0xFF;
                let c = self.peek_reg(REG_C) == 0xFF;
                let d = self.peek_reg(REG_D) == 0xFF;
                if a && b && c && d && self.flag() {
                    self.halt();
                }
            }
            OpCode::Print => {
                let address = self.fetch_two();
                self.print_byte(address);
            }
        }
    }

    fn run(&mut self, max_steps: u64) {
        let mut steps: u64 = 0;
        while steps < max_steps
            invariant
                steps <= max_steps,
                spec_run(old(self)@, max_steps as nat) == spec_run(
                    self@,
                    (max_steps - steps) as nat,
                ),
            decreases max_steps - steps,
        {
            if self.is_halted() {
                return;
            }
            self.step();
            steps = steps + 1;
        }
    }

    fn run_random(max_steps: u64) {
        let mut machine = Machine::new_random();
        machine.run(max_steps);
    }
}

} // verus!
