//! The machine state: four byte-wide registers, a 16-bit instruction
//! pointer, 64 KiB of byte-addressable memory, a sticky condition flag,
//! a monotonic halt flag, and an append-only output sink. Every address
//! is a full 16-bit value and the memory spans the whole address range,
//! so no access is ever out of bounds; all arithmetic wraps.

use vstd::prelude::*;
use crate::opcode::{OpCode, spec_decode};

verus! {

pub const MEMORY_SIZE: usize = 65536;

/// 16-bit addition modulo 65536, the instruction-pointer arithmetic.
pub open spec fn wrap_add16(a: u16, d: u16) -> u16 {
    ((a + d) % 0x10000) as u16
}

/// 8-bit addition modulo 256, the register arithmetic.
pub open spec fn wrap_add8(x: u8, y: u8) -> u8 {
    ((x + y) % 0x100) as u8
}

/// 8-bit subtraction modulo 256.
pub open spec fn wrap_sub8(x: u8, y: u8) -> u8 {
    ((x - y) % 0x100) as u8
}

/// The low byte of a 16-bit word.
pub open spec fn lo8(w: u16) -> u8 {
    (w % 0x100) as u8
}

/// The high byte of a 16-bit word.
pub open spec fn hi8(w: u16) -> u8 {
    (w / 0x100) as u8
}

/// A 16-bit word assembled from its bytes, least-significant first.
pub open spec fn le16(lo: u8, hi: u8) -> u16 {
    (lo + hi * 0x100) as u16
}

/// Left rotation of an 8-bit value by `n mod 8` positions.
pub open spec fn rol8(x: u8, n: u8) -> u8 {
    let k = n % 8;
    if k == 0 {
        x
    } else {
        (x << k) | (x >> (8 - k))
    }
}

/// Right rotation of an 8-bit value by `n mod 8` positions.
pub open spec fn ror8(x: u8, n: u8) -> u8 {
    let k = n % 8;
    if k == 0 {
        x
    } else {
        (x >> k) | (x << (8 - k))
    }
}

/// The mathematical state of a machine: everything an execution step
/// reads or writes.
#[verifier::ext_equal]
pub struct MachineView {
    pub regs: Seq<u8>,
    pub ip: u16,
    pub mem: Seq<u8>,
    pub flag: bool,
    pub halt: bool,
    pub out: Seq<u8>,
}

impl MachineView {
    /// Shape of every reachable state: four registers and one byte of
    /// memory for each 16-bit address.
    pub open spec fn wf(self) -> bool {
        self.regs.len() == 4 && self.mem.len() == 0x10000
    }

    /// The all-zero initial state.
    pub open spec fn zeroed() -> MachineView {
        MachineView {
            regs: Seq::new(4, |i: int| 0u8),
            ip: 0u16,
            mem: Seq::new(0x10000, |i: int| 0u8),
            flag: false,
            halt: false,
            out: Seq::empty(),
        }
    }

    pub open spec fn reg(self, r: int) -> u8 {
        self.regs[r]
    }

    pub open spec fn byte_at(self, a: u16) -> u8 {
        self.mem[a as int]
    }

    /// The 16-bit word stored little-endian at `a`, its second byte
    /// wrapping around the end of memory.
    pub open spec fn word_at(self, a: u16) -> u16 {
        le16(self.byte_at(a), self.byte_at(wrap_add16(a, 1)))
    }

    pub open spec fn with_reg(self, r: int, x: u8) -> MachineView {
        MachineView { regs: self.regs.update(r, x), ..self }
    }

    pub open spec fn with_mem(self, a: u16, x: u8) -> MachineView {
        MachineView { mem: self.mem.update(a as int, x), ..self }
    }

    pub open spec fn with_ip(self, ip: u16) -> MachineView {
        MachineView { ip, ..self }
    }

    /// The state with the instruction pointer moved forward by `n`,
    /// wrapping modulo 65536.
    pub open spec fn advanced(self, n: u16) -> MachineView {
        self.with_ip(wrap_add16(self.ip, n))
    }

    pub open spec fn with_flag(self, f: bool) -> MachineView {
        MachineView { flag: f, ..self }
    }

    pub open spec fn halted(self) -> MachineView {
        MachineView { halt: true, ..self }
    }

    pub open spec fn with_out(self, b: u8) -> MachineView {
        MachineView { out: self.out.push(b), ..self }
    }
}

/// The virtual CPU. Its memory holds code and data in one address
/// space, so a running program may overwrite its own instructions.
pub struct Machine {
    regs: [u8; 4],
    ip: u16,
    memory: [u8; MEMORY_SIZE],
    flag: bool,
    pub halt: bool,
    out: Vec<u8>,
}

impl View for Machine {
    type V = MachineView;

    closed spec fn view(&self) -> MachineView {
        MachineView {
            regs: self.regs@,
            ip: self.ip,
            mem: self.memory@,
            flag: self.flag,
            halt: self.halt,
            out: self.out@,
        }
    }
}

/// Relies on rand::random: a value drawn from the thread-local
/// generator. Nothing is promised of the result; callers state what
/// holds of every outcome.
pub assume_specification<T>[ rand::random::<T> ]() -> (r: T)
    where
        rand::distributions::Standard: rand::distributions::Distribution<T>,
;

impl Machine {
    /// Whether the halt flag is up.
    pub fn is_halted(&self) -> (b: bool)
        ensures
            b == self@.halt,
    {
        self.halt
    }

    /// A machine with zeroed registers and memory, pointer at 0, both
    /// flags down, and an empty output sink.
    pub fn new() -> (m: Machine)
        ensures
            m@ == MachineView::zeroed(),
    {
        let m = Machine {
            regs: [0u8; 4],
            ip: 0,
            memory: [0u8; MEMORY_SIZE],
            flag: false,
            halt: false,
            out: Vec::new(),
        };
        proof {
            assert(m@.regs =~= MachineView::zeroed().regs);
            assert(m@.mem =~= MachineView::zeroed().mem);
            assert(m@.out =~= MachineView::zeroed().out);
            assert(m@ =~= MachineView::zeroed());
        }
        m
    }

    /// A fresh machine whose memory is filled with one independently
    /// drawn random byte per cell; everything else starts as in `new`.
    pub fn new_random() -> (m: Machine)
        ensures
            m@.wf(),
            m@.regs == MachineView::zeroed().regs,
            m@.ip == 0u16,
            m@.flag == false,
            m@.halt == false,
            m@.out == Seq::<u8>::empty(),
    {
        let mut m = Self::new();
        let mut i: usize = 0;
        while i < MEMORY_SIZE
            invariant
                m@.regs == MachineView::zeroed().regs,
                m@.ip == 0u16,
                m@.flag == false,
                m@.halt == false,
                m@.out == Seq::<u8>::empty(),
            decreases MEMORY_SIZE - i,
        {
            let b: u8 = rand::random();
            m.memory[i] = b;
            i = i + 1;
        }
        m
    }

    /// Fetch the byte at the instruction pointer, decode it, and move
    /// the pointer past it.
    pub fn fetch_inst(&mut self) -> (op: OpCode)
        ensures
            op == spec_decode(old(self)@.byte_at(old(self)@.ip)),
            final(self)@ == old(self)@.advanced(1),
    {
        let inst = self.memory[self.ip as usize];
        self.advance();
        OpCode::from(inst)
    }

    /// Fetch one operand byte at the instruction pointer and move the
    /// pointer past it.
    pub fn fetch_one(&mut self) -> (b: u8)
        ensures
            b == old(self)@.byte_at(old(self)@.ip),
            final(self)@ == old(self)@.advanced(1),
    {
        let byte = self.memory[self.ip as usize];
        self.advance();
        byte
    }

    /// Fetch a 16-bit operand, least-significant byte first, moving the
    /// pointer past both bytes.
    pub fn fetch_two(&mut self) -> (w: u16)
        ensures
            w == old(self)@.word_at(old(self)@.ip),
            final(self)@ == old(self)@.advanced(2),
    {
        let lower = self.memory[self.ip as usize];
        self.advance();
        let upper = self.memory[self.ip as usize];
        self.advance();
        (lower as u16) + (upper as u16) * 0x100
    }

    pub fn ip(&self) -> (r: u16)
        ensures
            r == self@.ip,
    {
        self.ip
    }

    pub fn regs(&self) -> (r: [u8; 4])
        ensures
            r@ == self@.regs,
    {
        self.regs
    }

    pub fn flag(&self) -> (r: bool)
        ensures
            r == self@.flag,
    {
        self.flag
    }

    /// Move the instruction pointer forward by one, wrapping at the end
    /// of the address space.
    pub fn advance(&mut self)
        ensures
            final(self)@ == old(self)@.advanced(1),
    {
        self.ip = self.ip.wrapping_add(1);
    }

    /// Move the instruction pointer forward by `displacement`, wrapping
    /// modulo 65536.
    pub fn advance_by(&mut self, displacement: u16)
        ensures
            final(self)@ == old(self)@.advanced(displacement),
    {
        self.ip = self.ip.wrapping_add(displacement);
    }

    /// Move the instruction pointer backward by `displacement + 1`
    /// positions, by advancing the complementary distance.
    pub fn reverse_by(&mut self, displacement: u16)
        ensures
            final(self)@ == old(self)@.advanced((0xFFFF - displacement) as u16),
    {
        self.advance_by(0xFFFF - displacement);
    }

    /// Set the instruction pointer absolutely.
    pub fn jump(&mut self, address: u16)
        ensures
            final(self)@ == old(self)@.with_ip(address),
    {
        self.ip = address;
    }

    pub fn peek_mem(&self, at: u16) -> (b: u8)
        ensures
            b == self@.byte_at(at),
    {
        self.memory[at as usize]
    }

    pub fn peek_reg(&self, reg: usize) -> (b: u8)
        requires
            reg < 4,
        ensures
            b == self@.reg(reg as int),
    {
        self.regs[reg]
    }

    pub fn poke_mem(&mut self, address: u16, value: u8)
        ensures
            final(self)@ == old(self)@.with_mem(address, value),
    {
        self.memory[address as usize] = value;
    }

    pub fn poke_reg(&mut self, reg: usize, value: u8)
        requires
            reg < 4,
        ensures
            final(self)@ == old(self)@.with_reg(reg as int, value),
    {
        self.regs[reg] = value;
    }

    /// `reg := memory[address]`.
    pub fn load(&mut self, from: u16, to: usize)
        requires
            to < 4,
        ensures
            final(self)@ == old(self)@.with_reg(to as int, old(self)@.byte_at(from)),
    {
        let value = self.memory[from as usize];
        self.regs[to] = value;
    }

    /// `memory[address] := reg`.
    pub fn store(&mut self, from: usize, to: u16)
        requires
            from < 4,
        ensures
            final(self)@ == old(self)@.with_mem(to, old(self)@.reg(from as int)),
    {
        let value = self.regs[from];
        self.memory[to as usize] = value;
    }

    /// `acc := acc + rhs` modulo 256.
    pub fn add(&mut self, acc: usize, rhs: usize)
        requires
            acc < 4,
            rhs < 4,
        ensures
            final(self)@ == old(self)@.with_reg(
                acc as int,
                wrap_add8(old(self)@.reg(acc as int), old(self)@.reg(rhs as int)),
            ),
    {
        let value = self.regs[acc].wrapping_add(self.regs[rhs]);
        self.regs[acc] = value;
    }

    /// `acc := acc - rhs` modulo 256.
    pub fn sub(&mut self, acc: usize, rhs: usize)
        requires
            acc < 4,
            rhs < 4,
        ensures
            final(self)@ == old(self)@.with_reg(
                acc as int,
                wrap_sub8(old(self)@.reg(acc as int), old(self)@.reg(rhs as int)),
            ),
    {
        let value = self.regs[acc].wrapping_sub(self.regs[rhs]);
        self.regs[acc] = value;
    }

    /// `acc := acc & rhs`.
    pub fn and(&mut self, acc: usize, rhs: usize)
        requires
            acc < 4,
            rhs < 4,
        ensures
            final(self)@ == old(self)@.with_reg(
                acc as int,
                old(self)@.reg(acc as int) & old(self)@.reg(rhs as int),
            ),
    {
        let value = self.regs[acc] & self.regs[rhs];
        self.regs[acc] = value;
    }

    /// `acc := acc ^ rhs`.
    pub fn xor(&mut self, acc: usize, rhs: usize)
        requires
            acc < 4,
            rhs < 4,
        ensures
            final(self)@ == old(self)@.with_reg(
                acc as int,
                old(self)@.reg(acc as int) ^ old(self)@.reg(rhs as int),
            ),
    {
        let value = self.regs[acc] ^ self.regs[rhs];
        self.regs[acc] = value;
    }

    /// `acc := acc | rhs`.
    pub fn or(&mut self, acc: usize, rhs: usize)
        requires
            acc < 4,
            rhs < 4,
        ensures
            final(self)@ == old(self)@.with_reg(
                acc as int,
                old(self)@.reg(acc as int) | old(self)@.reg(rhs as int),
            ),
    {
        let value = self.regs[acc] | self.regs[rhs];
        self.regs[acc] = value;
    }

    /// Rotate `reg` left by `n mod 8` bit positions.
    pub fn rotate_left(&mut self, reg: usize, n: u8)
        requires
            reg < 4,
        ensures
            final(self)@ == old(self)@.with_reg(reg as int, rol8(old(self)@.reg(reg as int), n)),
    {
        let k = n % 8;
        let x = self.regs[reg];
        let value = if k == 0 {
            x
        } else {
            (x << k) | (x >> (8 - k))
        };
        self.regs[reg] = value;
    }

    /// Rotate `reg` right by `n mod 8` bit positions.
    pub fn rotate_right(&mut self, reg: usize, n: u8)
        requires
            reg < 4,
        ensures
            final(self)@ == old(self)@.with_reg(reg as int, ror8(old(self)@.reg(reg as int), n)),
    {
        let k = n % 8;
        let x = self.regs[reg];
        let value = if k == 0 {
            x
        } else {
            (x >> k) | (x << (8 - k))
        };
        self.regs[reg] = value;
    }

    pub fn flag_set(&mut self)
        ensures
            final(self)@ == old(self)@.with_flag(true),
    {
        self.flag = true;
    }

    pub fn flag_clear(&mut self)
        ensures
            final(self)@ == old(self)@.with_flag(false),
    {
        self.flag = false;
    }

    /// The one-shot conditional branch: a raised flag is consumed and
    /// the pointer moves forward by `displacement`; a lowered flag
    /// leaves everything unchanged.
    pub fn branch(&mut self, displacement: u8)
        ensures
            old(self)@.flag ==> final(self)@
                == old(self)@.with_flag(false).advanced(displacement as u16),
            !old(self)@.flag ==> final(self)@ == old(self)@,
    {
        if self.flag {
            self.flag_clear();
            self.advance_by(displacement as u16);
        }
    }

    /// Raise the flag if `regs[reg] < memory[address]`; a failed
    /// comparison never lowers it.
    pub fn less_than(&mut self, reg: usize, address: u16)
        requires
            reg < 4,
        ensures
            final(self)@ == old(self)@.with_flag(
                old(self)@.flag || old(self)@.reg(reg as int) < old(self)@.byte_at(address),
            ),
    {
        if self.regs[reg] < self.memory[address as usize] {
            self.flag_set();
        }
    }

    /// Raise the flag if `regs[reg] > memory[address]`; a failed
    /// comparison never lowers it.
    pub fn greater_than(&mut self, reg: usize, address: u16)
        requires
            reg < 4,
        ensures
            final(self)@ == old(self)@.with_flag(
                old(self)@.flag || old(self)@.reg(reg as int) > old(self)@.byte_at(address),
            ),
    {
        if self.regs[reg] > self.memory[address as usize] {
            self.flag_set();
        }
    }

    /// Raise the flag if `regs[reg] == memory[address]`; a failed
    /// comparison never lowers it.
    pub fn equal_to(&mut self, reg: usize, address: u16)
        requires
            reg < 4,
        ensures
            final(self)@ == old(self)@.with_flag(
                old(self)@.flag || old(self)@.reg(reg as int) == old(self)@.byte_at(address),
            ),
    {
        if self.regs[reg] == self.memory[address as usize] {
            self.flag_set();
        }
    }

    /// Store the instruction pointer little-endian into
    /// `memory[address]` and `memory[address + 1]`, the second address
    /// wrapping: the self-modification primitive.
    pub fn write_ip(&mut self, address: u16)
        ensures
            final(self)@ == old(self)@.with_mem(address, lo8(old(self)@.ip)).with_mem(
                wrap_add16(address, 1),
                hi8(old(self)@.ip),
            ),
    {
        let lower = (self.ip % 0x100) as u8;
        let upper = (self.ip / 0x100) as u8;
        self.poke_mem(address, lower);
        self.poke_mem(address.wrapping_add(1), upper);
    }

    /// Append the byte at `address` to the output sink.
    pub fn print_byte(&mut self, address: u16)
        ensures
            final(self)@ == old(self)@.with_out(old(self)@.byte_at(address)),
    {
        let byte = self.memory[address as usize];
        self.out.push(byte);
    }

    /// Raise the halt flag; nothing ever lowers it again.
    pub fn halt(&mut self)
        ensures
            final(self)@ == old(self)@.halted(),
    {
        self.halt = true;
    }

    /// Hand over everything emitted so far, leaving the sink empty.
    pub fn take_output(&mut self) -> (bytes: Vec<u8>)
        ensures
            bytes@ == old(self)@.out,
            final(self)@ == (MachineView { out: Seq::<u8>::empty(), ..old(self)@ }),
    {
        let bytes = self.out.split_off(0);
        proof {
            assert(bytes@ =~= old(self)@.out);
            assert(self@.out =~= Seq::<u8>::empty());
        }
        bytes
    }
}

} // verus!
