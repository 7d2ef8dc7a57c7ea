//! The thirteen addressing modes and how each finds its operand.

use crate::bus::{advance, Bus};
use crate::cpu::{machine, Cpu, Machine};
use vstd::prelude::*;

verus! {

#[derive(Clone, Copy, Debug, PartialEq, Eq, Structural)]
pub enum AddrMode {
    /// Implied: no operand.
    IMP,
    /// The accumulator.
    ACC,
    /// Immediate: the byte behind the opcode.
    IMM,
    /// Zero page.
    ZEP,
    /// Zero page plus X.
    ZPX,
    /// Zero page plus Y.
    ZPY,
    /// Indirect through zero page plus X.
    IZX,
    /// Indirect through zero page, plus Y.
    IZY,
    /// Absolute.
    ABS,
    /// Absolute plus X.
    ABX,
    /// Absolute plus Y.
    ABY,
    /// Indirect, for jumps.
    IND,
    /// Relative to the program counter, for branches.
    REL,
}

/// The addressing mode of each opcode.
pub const ADDR_MODES: [AddrMode; 256] = [
    AddrMode::IMP, AddrMode::IZX, AddrMode::IMP, AddrMode::IZX, AddrMode::ZEP, AddrMode::ZEP, AddrMode::ZEP, AddrMode::ZEP,
    AddrMode::IMP, AddrMode::IMM, AddrMode::ACC, AddrMode::IMP, AddrMode::ABS, AddrMode::ABS, AddrMode::ABS, AddrMode::ABS,
    AddrMode::REL, AddrMode::IZY, AddrMode::IMP, AddrMode::IZY, AddrMode::ZPX, AddrMode::ZPX, AddrMode::ZPX, AddrMode::ZPX,
    AddrMode::IMP, AddrMode::ABY, AddrMode::IMP, AddrMode::ABY, AddrMode::ABX, AddrMode::ABX, AddrMode::ABX, AddrMode::ABX,
    AddrMode::ABS, AddrMode::IZX, AddrMode::IMP, AddrMode::IZX, AddrMode::ZEP, AddrMode::ZEP, AddrMode::ZEP, AddrMode::ZEP,
    AddrMode::IMP, AddrMode::IMM, AddrMode::ACC, AddrMode::IMP, AddrMode::ABS, AddrMode::ABS, AddrMode::ABS, AddrMode::ABS,
    AddrMode::REL, AddrMode::IZY, AddrMode::IMP, AddrMode::IZY, AddrMode::ZPX, AddrMode::ZPX, AddrMode::ZPX, AddrMode::ZPX,
    AddrMode::IMP, AddrMode::ABY, AddrMode::IMP, AddrMode::ABY, AddrMode::ABX, AddrMode::ABX, AddrMode::ABX, AddrMode::ABX,
    AddrMode::IMP, AddrMode::IZX, AddrMode::IMP, AddrMode::IZX, AddrMode::ZEP, AddrMode::ZEP, AddrMode::ZEP, AddrMode::ZEP,
    AddrMode::IMP, AddrMode::IMM, AddrMode::ACC, AddrMode::IMP, AddrMode::ABS, AddrMode::ABS, AddrMode::ABS, AddrMode::ABS,
    AddrMode::REL, AddrMode::IZY, AddrMode::IMP, AddrMode::IZY, AddrMode::ZPX, AddrMode::ZPX, AddrMode::ZPX, AddrMode::ZPX,
    AddrMode::IMP, AddrMode::ABY, AddrMode::IMP, AddrMode::ABY, AddrMode::ABX, AddrMode::ABX, AddrMode::ABX, AddrMode::ABX,
    AddrMode::IMP, AddrMode::IZX, AddrMode::IMP, AddrMode::IZX, AddrMode::ZEP, AddrMode::ZEP, AddrMode::ZEP, AddrMode::ZEP,
    AddrMode::IMP, AddrMode::IMM, AddrMode::ACC, AddrMode::IMP, AddrMode::IND, AddrMode::ABS, AddrMode::ABS, AddrMode::ABS,
    AddrMode::REL, AddrMode::IZY, AddrMode::IMP, AddrMode::IZY, AddrMode::ZPX, AddrMode::ZPX, AddrMode::ZPX, AddrMode::ZPX,
    AddrMode::IMP, AddrMode::ABY, AddrMode::IMP, AddrMode::ABY, AddrMode::ABX, AddrMode::ABX, AddrMode::ABX, AddrMode::ABX,
    AddrMode::IMM, AddrMode::IZX, AddrMode::IMM, AddrMode::IZX, AddrMode::ZEP, AddrMode::ZEP, AddrMode::ZEP, AddrMode::ZEP,
    AddrMode::IMP, AddrMode::IMM, AddrMode::IMP, AddrMode::IMP, AddrMode::ABS, AddrMode::ABS, AddrMode::ABS, AddrMode::ABS,
    AddrMode::REL, AddrMode::IZY, AddrMode::IMP, AddrMode::IMP, AddrMode::ZPX, AddrMode::ZPX, AddrMode::ZPY, AddrMode::ZPY,
    AddrMode::IMP, AddrMode::ABY, AddrMode::IMP, AddrMode::IMP, AddrMode::IMP, AddrMode::ABX, AddrMode::IMP, AddrMode::IMP,
    AddrMode::IMM, AddrMode::IZX, AddrMode::IMM, AddrMode::IZX, AddrMode::ZEP, AddrMode::ZEP, AddrMode::ZEP, AddrMode::ZEP,
    AddrMode::IMP, AddrMode::IMM, AddrMode::IMP, AddrMode::IMP, AddrMode::ABS, AddrMode::ABS, AddrMode::ABS, AddrMode::ABS,
    AddrMode::REL, AddrMode::IZY, AddrMode::IMP, AddrMode::IZY, AddrMode::ZPX, AddrMode::ZPX, AddrMode::ZPY, AddrMode::ZPY,
    AddrMode::IMP, AddrMode::ABY, AddrMode::IMP, AddrMode::IMP, AddrMode::ABX, AddrMode::ABX, AddrMode::ABY, AddrMode::ABY,
    AddrMode::IMM, AddrMode::IZX, AddrMode::IMM, AddrMode::IZX, AddrMode::ZEP, AddrMode::ZEP, AddrMode::ZEP, AddrMode::ZEP,
    AddrMode::IMP, AddrMode::IMM, AddrMode::IMP, AddrMode::IMP, AddrMode::ABS, AddrMode::ABS, AddrMode::ABS, AddrMode::ABS,
    AddrMode::REL, AddrMode::IZY, AddrMode::IMP, AddrMode::IZY, AddrMode::ZPX, AddrMode::ZPX, AddrMode::ZPX, AddrMode::ZPX,
    AddrMode::IMP, AddrMode::ABY, AddrMode::IMP, AddrMode::ABY, AddrMode::ABX, AddrMode::ABX, AddrMode::ABX, AddrMode::ABX,
    AddrMode::IMM, AddrMode::IZX, AddrMode::IMM, AddrMode::IZX, AddrMode::ZEP, AddrMode::ZEP, AddrMode::ZEP, AddrMode::ZEP,
    AddrMode::IMP, AddrMode::IMM, AddrMode::IMP, AddrMode::IMM, AddrMode::ABS, AddrMode::ABS, AddrMode::ABS, AddrMode::ABS,
    AddrMode::REL, AddrMode::IZY, AddrMode::IMP, AddrMode::IZY, AddrMode::ZPX, AddrMode::ZPX, AddrMode::ZPX, AddrMode::ZPX,
    AddrMode::IMP, AddrMode::ABY, AddrMode::IMP, AddrMode::ABY, AddrMode::ABX, AddrMode::ABX, AddrMode::ABX, AddrMode::ABX,
];

/// Bus cycles that a mode takes to find its operand's address.
#[verifier::opaque]
pub open spec fn addr_cycles(mode: AddrMode) -> int {
    match mode {
        AddrMode::IMP | AddrMode::ACC | AddrMode::IMM => 0,
        AddrMode::ZEP | AddrMode::ZPX | AddrMode::ZPY | AddrMode::REL => 1,
        AddrMode::ABS | AddrMode::ABX | AddrMode::ABY => 2,
        AddrMode::IZX | AddrMode::IZY => 3,
        AddrMode::IND => 4,
    }
}

/// Whether two addresses lie on different pages of 256 bytes.
pub open spec fn pages_differ(a: u16, b: u16) -> bool {
    a / 256 != b / 256
}

/// The address `offset` bytes from `pc`, the offset read as a signed
/// byte.
pub open spec fn branch_target(pc: u16, offset: u8) -> u16 {
    if offset < 128 {
        ((pc + offset) % 0x10000) as u16
    } else {
        ((pc + offset + 0x10000 - 256) % 0x10000) as u16
    }
}

/// The address whose low byte is one more than that of `a`, on the same
/// page.
pub open spec fn next_in_page(a: u16) -> u16 {
    (a / 256 * 256 + (a % 256 + 1) % 256) as u16
}

impl Machine {
    /// The machine with `addr` as the operand's address and `cross` as
    /// the page-cross mark.
    pub open spec fn aimed(self, addr: u16, cross: bool) -> Machine {
        Machine { cpu: Cpu { op_address: addr, cross_page: cross, ..self.cpu }, ..self }
    }

    /// Immediate: the operand is the byte at the program counter, which
    /// steps over it.
    #[verifier::opaque]
    pub open spec fn immediate(self) -> Machine {
        Machine {
            cpu: Cpu {
                op_address: self.cpu.pc,
                pc: ((self.cpu.pc + 1) % 0x10000) as u16,
                ..self.cpu
            },
            ..self
        }
    }

    /// Zero page, plus `index`: the sum wraps within the zero page.
    #[verifier::opaque]
    pub open spec fn zero_paged(self, index: u8) -> Machine {
        let (m, b) = self.fetch_byte();
        m.aimed(((b + index) % 256) as u16, false)
    }

    /// Absolute, plus `index`: a carry into the high byte marks a page
    /// cross.
    #[verifier::opaque]
    pub open spec fn absolute(self, index: u8) -> Machine {
        let (m, base) = self.fetch_word();
        let addr = ((base + index) % 0x10000) as u16;
        m.aimed(addr, pages_differ(base, addr))
    }

    /// Indirect through the zero-page word at the operand byte plus X.
    #[verifier::opaque]
    pub open spec fn indexed_indirect(self) -> Machine {
        let (m, b) = self.fetch_byte();
        let zp = ((b + m.cpu.x) % 256) as u16;
        let (m1, lo) = m.read(zp);
        let (m2, hi) = m1.read(((zp + 1) % 256) as u16);
        m2.aimed((hi * 256 + lo) as u16, false)
    }

    /// Indirect through the zero-page word at the operand byte, plus Y.
    #[verifier::opaque]
    pub open spec fn indirect_indexed(self) -> Machine {
        let (m, b) = self.fetch_byte();
        let (m1, lo) = m.read(b as u16);
        let (m2, hi) = m1.read(((b + 1) % 256) as u16);
        let base = (hi * 256 + lo) as u16;
        let addr = ((base + m2.cpu.y) % 0x10000) as u16;
        m2.aimed(addr, pages_differ(base, addr))
    }

    /// Indirect, for jumps: the high byte of the target comes from the
    /// same page as the low byte.
    #[verifier::opaque]
    pub open spec fn indirect(self) -> Machine {
        let (m, base) = self.fetch_word();
        let (m1, lo) = m.read(base);
        let (m2, hi) = m1.read(next_in_page(base));
        m2.aimed((hi * 256 + lo) as u16, false)
    }

    /// Relative, for branches: the target is a signed byte away from the
    /// program counter behind the operand.
    #[verifier::opaque]
    pub open spec fn relative(self) -> Machine {
        let (m, rel) = self.fetch_byte();
        let addr = branch_target(m.cpu.pc, rel);
        m.aimed(addr, pages_differ(m.cpu.pc, addr))
    }

    /// The machine at the start of the location of an operand.
    pub open spec fn decoding(self, mode: AddrMode) -> Machine {
        Machine {
            cpu: Cpu { op_address: 0, op_mode: mode, cross_page: false, ..self.cpu },
            ..self
        }
    }

    /// The machine after the operand of opcode `op` was located.
    #[verifier::opaque]
    pub open spec fn addressed(self, op: u8) -> Machine {
        let mode = ADDR_MODES[op as int];
        let start = self.decoding(mode);
        match mode {
            AddrMode::IMP | AddrMode::ACC => start,
            AddrMode::IMM => start.immediate(),
            AddrMode::ZEP => start.zero_paged(0),
            AddrMode::ZPX => start.zero_paged(self.cpu.x),
            AddrMode::ZPY => start.zero_paged(self.cpu.y),
            AddrMode::IZX => start.indexed_indirect(),
            AddrMode::IZY => start.indirect_indexed(),
            AddrMode::ABS => start.absolute(0),
            AddrMode::ABX => start.absolute(self.cpu.x),
            AddrMode::ABY => start.absolute(self.cpu.y),
            AddrMode::IND => start.indirect(),
            AddrMode::REL => start.relative(),
        }
    }
}

/// What locating an operand leaves alone: the registers other than the
/// program counter, and the opcode.
pub open spec fn same_registers(a: Cpu, b: Cpu) -> bool {
    a.a == b.a && a.x == b.x && a.y == b.y && a.sp == b.sp && a.p == b.p && a.op == b.op
        && a.op_mode == b.op_mode
}

impl Cpu {
    fn address_immediate(&mut self, bus: &Bus)
        ensures
            machine(*final(self), *bus) == machine(*old(self), *bus).immediate(),
            same_registers(*final(self), *old(self)),
    {
        reveal(Machine::immediate);
        self.op_address = self.pc;
        self.pc = if self.pc == 0xffff { 0 } else { self.pc + 1 };
    }

    fn address_zero_page(&mut self, index: u8, bus: &mut Bus)
        ensures
            machine(*final(self), *final(bus)) == machine(*old(self), *old(bus)).zero_paged(index),
            same_registers(*final(self), *old(self)),
            final(bus).cycles == advance(old(bus).cycles, 1),
            final(bus).dma == old(bus).dma,
    {
        reveal(Machine::zero_paged);
        let b: u8 = self.fetch_byte(bus);
        self.op_address = (b as u16 + index as u16) % 256;
        self.cross_page = false;
    }

    fn address_absolute(&mut self, index: u8, bus: &mut Bus)
        ensures
            machine(*final(self), *final(bus)) == machine(*old(self), *old(bus)).absolute(index),
            same_registers(*final(self), *old(self)),
            final(bus).cycles == advance(old(bus).cycles, 2),
            final(bus).dma == old(bus).dma,
    {
        reveal(Machine::absolute);
        let base: u16 = self.fetch_word(bus);
        let addr: u16 = ((base as u32 + index as u32) % 0x10000) as u16;
        self.op_address = addr;
        self.cross_page = base / 256 != addr / 256;
    }

    fn address_indexed_indirect(&mut self, bus: &mut Bus)
        ensures
            machine(*final(self), *final(bus)) == machine(*old(self), *old(bus)).indexed_indirect(),
            same_registers(*final(self), *old(self)),
            final(bus).cycles == advance(old(bus).cycles, 3),
            final(bus).dma == old(bus).dma,
    {
        reveal(Machine::indexed_indirect);
        let ghost m0 = machine(*self, *bus);
        let b: u8 = self.fetch_byte(bus);
        let ghost m = machine(*self, *bus);
        assert((m, b) == m0.fetch_byte());
        let zp: u16 = (b as u16 + self.x as u16) % 256;
        let lo: u16 = bus.read(zp) as u16;
        let ghost m1 = machine(*self, *bus);
        assert((m1, lo as u8) == m.read(zp));
        let hi: u16 = bus.read((zp + 1) % 256) as u16;
        assert((machine(*self, *bus), hi as u8) == m1.read(((zp + 1) % 256) as u16));
        self.op_address = hi * 256 + lo;
        self.cross_page = false;
    }

    fn address_indirect_indexed(&mut self, bus: &mut Bus)
        ensures
            machine(*final(self), *final(bus)) == machine(*old(self), *old(bus)).indirect_indexed(),
            same_registers(*final(self), *old(self)),
            final(bus).cycles == advance(old(bus).cycles, 3),
            final(bus).dma == old(bus).dma,
    {
        reveal(Machine::indirect_indexed);
        let ghost m0 = machine(*self, *bus);
        let b: u8 = self.fetch_byte(bus);
        let ghost m = machine(*self, *bus);
        assert((m, b) == m0.fetch_byte());
        let lo: u16 = bus.read(b as u16) as u16;
        let ghost m1 = machine(*self, *bus);
        assert((m1, lo as u8) == m.read(b as u16));
        let hi: u16 = bus.read((b as u16 + 1) % 256) as u16;
        assert((machine(*self, *bus), hi as u8) == m1.read(((b + 1) % 256) as u16));
        let base: u16 = hi * 256 + lo;
        let addr: u16 = ((base as u32 + self.y as u32) % 0x10000) as u16;
        self.op_address = addr;
        self.cross_page = base / 256 != addr / 256;
    }

    fn address_indirect(&mut self, bus: &mut Bus)
        ensures
            machine(*final(self), *final(bus)) == machine(*old(self), *old(bus)).indirect(),
            same_registers(*final(self), *old(self)),
            final(bus).cycles == advance(old(bus).cycles, 4),
            final(bus).dma == old(bus).dma,
    {
        reveal(Machine::indirect);
        let ghost m0 = machine(*self, *bus);
        let base: u16 = self.fetch_word(bus);
        let ghost m = machine(*self, *bus);
        assert((m, base) == m0.fetch_word());
        let lo: u16 = bus.read(base) as u16;
        let ghost m1 = machine(*self, *bus);
        assert((m1, lo as u8) == m.read(base));
        let hi: u16 = bus.read(base / 256 * 256 + (base % 256 + 1) % 256) as u16;
        assert((machine(*self, *bus), hi as u8) == m1.read(next_in_page(base)));
        self.op_address = hi * 256 + lo;
        self.cross_page = false;
    }

    fn address_relative(&mut self, bus: &mut Bus)
        ensures
            machine(*final(self), *final(bus)) == machine(*old(self), *old(bus)).relative(),
            same_registers(*final(self), *old(self)),
            final(bus).cycles == advance(old(bus).cycles, 1),
            final(bus).dma == old(bus).dma,
    {
        reveal(Machine::relative);
        let rel: u8 = self.fetch_byte(bus);
        let pc: u32 = self.pc as u32;
        let addr: u16 = if rel < 128 {
            ((pc + rel as u32) % 0x10000) as u16
        } else {
            ((pc + rel as u32 + 0x10000 - 256) % 0x10000) as u16
        };
        self.op_address = addr;
        self.cross_page = self.pc / 256 != addr / 256;
    }

    /// Locates the operand of opcode `op`.
    pub fn addressing(&mut self, op: u8, bus: &mut Bus)
        ensures
            machine(*final(self), *final(bus)) == machine(*old(self), *old(bus)).addressed(op),
            final(self).op_mode == ADDR_MODES[op as int],
            final(self).op == old(self).op,
            final(self).p == old(self).p,
            final(bus).cycles == advance(old(bus).cycles, addr_cycles(ADDR_MODES[op as int])),
            0 <= addr_cycles(ADDR_MODES[op as int]) <= 4,
            final(bus).dma == old(bus).dma,
    {
        reveal(Machine::addressed);
        reveal(addr_cycles);
        let mode: AddrMode = ADDR_MODES[op as usize];
        let x: u8 = self.x;
        let y: u8 = self.y;
        self.op_address = 0;
        self.op_mode = mode;
        self.cross_page = false;
        assert(machine(*self, *bus) == machine(*old(self), *old(bus)).decoding(mode));
        match mode {
            AddrMode::IMP | AddrMode::ACC => {},
            AddrMode::IMM => self.address_immediate(bus),
            AddrMode::ZEP => self.address_zero_page(0, bus),
            AddrMode::ZPX => self.address_zero_page(x, bus),
            AddrMode::ZPY => self.address_zero_page(y, bus),
            AddrMode::IZX => self.address_indexed_indirect(bus),
            AddrMode::IZY => self.address_indirect_indexed(bus),
            AddrMode::ABS => self.address_absolute(0, bus),
            AddrMode::ABX => self.address_absolute(x, bus),
            AddrMode::ABY => self.address_absolute(y, bus),
            AddrMode::IND => self.address_indirect(bus),
            AddrMode::REL => self.address_relative(bus),
        }
    }

    /// Marks a page cross if the two addresses lie on different pages.
    pub fn check_page(&mut self, addr1: u16, addr2: u16)
        ensures
            *final(self) == (Cpu { cross_page: pages_differ(addr1, addr2), ..*old(self) }),
    {
        self.cross_page = addr1 / 256 != addr2 / 256;
    }
}

} // verus!
