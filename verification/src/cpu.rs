//! The 6502 core: registers, stack, interrupts and the instruction step.
//!
//! The CPU does not own the bus; every step borrows it. The
//! specifications therefore speak of a `Machine`, the CPU and the bus
//! side by side.

pub mod addressing;
pub mod alu;
pub mod op_code;
pub mod status;

use crate::bus::{advance, Bus};
use crate::cpu::addressing::AddrMode;
use crate::cpu::addressing::{addr_cycles, ADDR_MODES};
use crate::cpu::op_code::{
    branch_taken, decode, extra_cycles, instruction_cycles, lemma_advance_chain,
    lemma_instruction_cycles, op_cycles, Op, EXTRA_CYCLES, OPS,
};
use crate::cpu::status::Status;
use vstd::prelude::*;

verus! {

pub const NMI_VECTOR: u16 = 0xfffa;

pub const RESET_VECTOR: u16 = 0xfffc;

pub const IRQ_VECTOR: u16 = 0xfffe;

/// The three interrupts, from the one that yields to all others.
#[derive(Clone, Copy, Debug, PartialEq, Eq, Structural)]
pub enum Interrupt {
    NMI,
    RESET,
    IRQ,
}

/// An opcode that halts the processor.
#[derive(Clone, Copy, Debug, PartialEq, Eq, Structural)]
pub struct IllegalOpcode(pub u8);

#[derive(Clone, Copy, Debug, PartialEq, Eq, Structural)]
pub struct Cpu {
    pub a: u8,
    pub x: u8,
    pub y: u8,
    pub pc: u16,
    /// The stack pointer; the stack lives at `$0100 + sp`.
    pub sp: u8,
    pub p: Status,
    /// The opcode of the instruction in progress.
    pub op: u8,
    pub op_mode: AddrMode,
    /// Address of that instruction's operand.
    pub op_address: u16,
    /// Whether finding the operand crossed a page.
    pub cross_page: bool,
}

/// A snapshot of the registers.
#[derive(Clone, Copy, Debug, PartialEq, Eq, Structural)]
pub struct CpuStatus {
    pub a: u8,
    pub x: u8,
    pub y: u8,
    pub pc: u16,
    pub sp: u8,
    pub p: Status,
}

/// The CPU and the bus it works on.
pub struct Machine {
    pub cpu: Cpu,
    pub bus: Bus,
}

pub open spec fn machine(cpu: Cpu, bus: Bus) -> Machine {
    Machine { cpu, bus }
}

/// Where the CPU finds the handler of an interrupt.
pub open spec fn vector_of(kind: Interrupt) -> u16 {
    match kind {
        Interrupt::NMI => NMI_VECTOR,
        Interrupt::RESET => RESET_VECTOR,
        Interrupt::IRQ => IRQ_VECTOR,
    }
}

impl Cpu {
    /// The registers at power-on.
    pub open spec fn initial() -> Cpu {
        Cpu {
            a: 0,
            x: 0,
            y: 0,
            pc: 0,
            sp: 0xfd,
            p: Status { n: false, v: false, b: false, d: false, i: true, z: false, c: false },
            op: 0xea,
            op_mode: AddrMode::IMP,
            op_address: 0,
            cross_page: false,
        }
    }
}

impl Machine {
    /// One idle cycle.
    pub open spec fn ticked(self) -> Machine {
        Machine { bus: self.bus.ticked(), ..self }
    }

    /// `n` idle cycles.
    pub open spec fn idled(self, n: nat) -> Machine
        decreases n,
    {
        if n == 0 {
            self
        } else {
            self.ticked().idled((n - 1) as nat)
        }
    }

    /// A read cycle.
    pub open spec fn read(self, addr: u16) -> (Machine, u8) {
        (Machine { bus: self.bus.after_read(addr), ..self }, self.bus.read_value(addr))
    }

    /// A write cycle.
    pub open spec fn written(self, addr: u16, data: u8) -> Machine {
        Machine { bus: self.bus.written(addr, data), ..self }
    }

    /// Reads the byte at the program counter and steps over it.
    #[verifier::opaque]
    pub open spec fn fetch_byte(self) -> (Machine, u8) {
        let (m, b) = self.read(self.cpu.pc);
        (Machine { cpu: Cpu { pc: ((self.cpu.pc + 1) % 0x10000) as u16, ..m.cpu }, ..m }, b)
    }

    /// Reads the word at `addr`, low byte first.
    #[verifier::opaque]
    pub open spec fn read_word(self, addr: u16) -> (Machine, u16) {
        let (m1, lo) = self.read(addr);
        let (m2, hi) = m1.read(((addr + 1) % 0x10000) as u16);
        (m2, (hi * 256 + lo) as u16)
    }

    /// Reads the word at the program counter and steps over it.
    #[verifier::opaque]
    pub open spec fn fetch_word(self) -> (Machine, u16) {
        let (m, w) = self.read_word(self.cpu.pc);
        (Machine { cpu: Cpu { pc: ((self.cpu.pc + 2) % 0x10000) as u16, ..m.cpu }, ..m }, w)
    }

    /// Writes `b` at the stack pointer, which then moves down.
    #[verifier::opaque]
    pub open spec fn push_byte(self, b: u8) -> Machine {
        let m = self.written((0x100 + self.cpu.sp) as u16, b);
        Machine { cpu: Cpu { sp: ((self.cpu.sp + 255) % 256) as u8, ..m.cpu }, ..m }
    }

    /// Moves the stack pointer up and reads the byte there.
    #[verifier::opaque]
    pub open spec fn pop_byte(self) -> (Machine, u8) {
        let sp = ((self.cpu.sp + 1) % 256) as u8;
        Machine { cpu: Cpu { sp, ..self.cpu }, ..self }.read((0x100 + sp) as u16)
    }

    /// Pushes a word, high byte first.
    #[verifier::opaque]
    pub open spec fn push_word(self, w: u16) -> Machine {
        self.push_byte((w / 256) as u8).push_byte((w % 256) as u8)
    }

    /// Pops a word, low byte first.
    #[verifier::opaque]
    pub open spec fn pop_word(self) -> (Machine, u16) {
        let (m1, lo) = self.pop_byte();
        let (m2, hi) = m1.pop_byte();
        (m2, (hi * 256 + lo) as u16)
    }

    /// The machine after an interrupt was taken: two idle cycles, the
    /// program counter and the status go on the stack, the status with
    /// its break bit clear; interrupts are masked, and the program
    /// counter comes from the interrupt's vector. Seven cycles in all.
    #[verifier::opaque]
    pub open spec fn served(self, kind: Interrupt) -> Machine {
        let m = self.ticked().ticked().push_word(self.cpu.pc).push_byte(
            Status { b: false, ..self.cpu.p }.byte(),
        );
        let (m2, w) = Machine {
            cpu: Cpu { p: Status { i: true, ..m.cpu.p }, ..m.cpu },
            ..m
        }.read_word(vector_of(kind));
        Machine { cpu: Cpu { pc: w, ..m2.cpu }, ..m2 }
    }

    /// The machine after one instruction: the opcode is fetched, its
    /// operand located, its effect carried out, and the cycles that the
    /// instruction takes beyond its bus accesses are idled away. An
    /// opcode that halts the processor stops the step behind the fetch.
    #[verifier::opaque]
    pub open spec fn executed(self) -> Machine {
        let (m, op) = self.fetch_byte();
        let a = Machine { cpu: Cpu { op, ..m.cpu }, ..m }.addressed(op);
        if OPS[op as int] == Op::Stp {
            a
        } else {
            a.operated(OPS[op as int]).idled(EXTRA_CYCLES[op as int] as nat)
        }
    }

    /// The machine after a reset: the bus is reset, the registers return
    /// to their power-on values, and the reset interrupt is taken.
    #[verifier::opaque]
    pub open spec fn reset(self) -> Machine {
        Machine { cpu: Cpu::initial(), bus: self.bus.reset_state() }.served(Interrupt::RESET)
    }
}

impl Default for Cpu {
    fn default() -> (c: Self)
        ensures
            c == Cpu::initial(),
    {
        Cpu {
            a: 0,
            x: 0,
            y: 0,
            pc: 0,
            sp: 0xfd,
            p: Status { n: false, v: false, b: false, d: false, i: true, z: false, c: false },
            op: 0xea,
            op_mode: AddrMode::IMP,
            op_address: 0,
            cross_page: false,
        }
    }
}

impl Cpu {
    /// Resets bus and CPU and takes the reset interrupt.
    pub fn reset(&mut self, bus: &mut Bus)
        ensures
            machine(*final(self), *final(bus)) == machine(*old(self), *old(bus)).reset(),
            final(bus).cycles == 7,
    {
        reveal(Machine::reset);
        bus.ppu.reset();
        bus.apu.reset();
        bus.dma.reset();
        bus.cycles = 0;
        *self = Cpu {
            a: 0,
            x: 0,
            y: 0,
            pc: 0,
            sp: 0xfd,
            p: Status { n: false, v: false, b: false, d: false, i: true, z: false, c: false },
            op: 0xea,
            op_mode: AddrMode::IMP,
            op_address: 0,
            cross_page: false,
        };
        self.serve_interrupt(Interrupt::RESET, bus);
    }

    /// Lets `n` idle cycles pass.
    pub fn idle(&self, n: u8, bus: &mut Bus)
        ensures
            machine(*self, *final(bus)) == machine(*self, *old(bus)).idled(n as nat),
            final(bus).cycles == advance(old(bus).cycles, n as int),
            final(bus).dma == old(bus).dma,
    {
        let ghost before = machine(*self, *bus);
        let mut i: u8 = 0;
        while i < n
            invariant
                i <= n,
                before.idled(n as nat) == machine(*self, *bus).idled((n - i) as nat),
                bus.cycles == advance(before.bus.cycles, i as int),
                bus.dma == before.bus.dma,
            decreases n - i,
        {
            bus.tick();
            i = i + 1;
        }
    }

    /// Carries out one instruction.
    pub fn exec(&mut self, bus: &mut Bus) -> (r: Result<(), IllegalOpcode>)
        ensures
            machine(*final(self), *final(bus)) == machine(*old(self), *old(bus)).executed(),
            final(self).op == old(bus).read_value(old(self).pc),
            r == (if OPS[final(self).op as int] == Op::Stp {
                Err::<(), IllegalOpcode>(IllegalOpcode(final(self).op))
            } else {
                Ok(())
            }),
            r is Ok ==> final(bus).cycles == advance(
                old(bus).cycles,
                instruction_cycles(final(self).op, final(self).cross_page, old(self).p),
            ),
            final(bus).cycles > old(bus).cycles || final(bus).cycles == u64::MAX,
    {
        let ghost m0 = machine(*self, *bus);
        let op: u8 = self.fetch_byte(bus);
        assert(op == old(bus).read_value(old(self).pc)) by {
            reveal(Machine::fetch_byte);
        }
        let ghost m = machine(*self, *bus);
        assert((m, op) == m0.fetch_byte());
        self.op = op;
        let ghost m1 = Machine { cpu: Cpu { op, ..m.cpu }, ..m };
        assert(machine(*self, *bus) == m1);
        self.addressing(op, bus);
        let ghost m2 = m1.addressed(op);
        assert(machine(*self, *bus) == m2);
        let kind: Op = decode(op);
        if let Op::Stp = kind {
            assert(m2 == m0.executed()) by {
                reveal(Machine::executed);
            }
            return Err(IllegalOpcode(op));
        }
        proof {
            lemma_instruction_cycles(op, self.cross_page, m0.cpu.p);
        }
        self.operate(kind, bus);
        let ghost m3 = m2.operated(kind);
        assert(machine(*self, *bus) == m3);
        let extra: u8 = extra_cycles(op);
        self.idle(extra, bus);
        assert(machine(*self, *bus) == m0.executed()) by {
            reveal(Machine::executed);
        }
        proof {
            let a = addr_cycles(ADDR_MODES[op as int]);
            let o = op_cycles(kind, m2.cpu.op_mode, m2.cpu.cross_page, branch_taken(kind, m2.cpu.p));
            lemma_instruction_cycles(op, m2.cpu.cross_page, m0.cpu.p);
            lemma_advance_chain(
                m0.bus.cycles,
                m.bus.cycles,
                m2.bus.cycles,
                m3.bus.cycles,
                bus.cycles,
                a,
                o,
                extra as int,
            );
        }
        Ok(())
    }

    /// Takes an interrupt.
    pub fn serve_interrupt(&mut self, kind: Interrupt, bus: &mut Bus)
        ensures
            machine(*final(self), *final(bus)) == machine(*old(self), *old(bus)).served(kind),
            *final(self) == (Cpu {
                pc: final(self).pc,
                sp: final(self).sp,
                p: Status { i: true, ..old(self).p },
                ..*old(self)
            }),
            final(bus).cycles == advance(old(bus).cycles, 7),
            final(bus).dma == old(bus).dma,
    {
        let ghost m0 = machine(*self, *bus);
        bus.tick();
        bus.tick();
        assert(machine(*self, *bus) == m0.ticked().ticked());
        self.push_word(self.pc, bus);
        assert(machine(*self, *bus) == m0.ticked().ticked().push_word(m0.cpu.pc));
        let pushed: Status = Status { b: false, ..self.p };
        self.push_byte(pushed.to_u8(), bus);
        let ghost m1 = m0.ticked().ticked().push_word(m0.cpu.pc).push_byte(
            Status { b: false, ..m0.cpu.p }.byte(),
        );
        assert(machine(*self, *bus) == m1);
        self.p = Status { i: true, ..self.p };
        let ghost m2 = Machine { cpu: Cpu { p: Status { i: true, ..m1.cpu.p }, ..m1.cpu }, ..m1 };
        assert(machine(*self, *bus) == m2);
        let vector: u16 = match kind {
            Interrupt::NMI => NMI_VECTOR,
            Interrupt::RESET => RESET_VECTOR,
            Interrupt::IRQ => IRQ_VECTOR,
        };
        let w: u16 = self.read_word(vector, bus);
        assert((machine(*self, *bus), w) == m2.read_word(vector_of(kind)));
        self.pc = w;
        assert(machine(*self, *bus) == m0.served(kind)) by {
            reveal(Machine::served);
        }
    }

    /// Whether the CPU ignores maskable interrupts.
    pub fn interrupt_disabled(&self) -> (r: bool)
        ensures
            r == self.p.i,
    {
        self.p.i
    }

    pub fn set_pc(&mut self, addr: u16)
        ensures
            *final(self) == (Cpu { pc: addr, ..*old(self) }),
    {
        self.pc = addr;
    }

    pub fn status(&self) -> (s: CpuStatus)
        ensures
            s == (CpuStatus {
                a: self.a,
                x: self.x,
                y: self.y,
                pc: self.pc,
                sp: self.sp,
                p: self.p,
            }),
    {
        CpuStatus { a: self.a, x: self.x, y: self.y, pc: self.pc, sp: self.sp, p: self.p }
    }

    pub fn fetch_byte(&mut self, bus: &mut Bus) -> (b: u8)
        ensures
            (machine(*final(self), *final(bus)), b) == machine(*old(self), *old(bus)).fetch_byte(),
            *final(self) == (Cpu { pc: final(self).pc, ..*old(self) }),
            final(bus).cycles == advance(old(bus).cycles, 1),
            final(bus).dma == old(bus).dma,
    {
        reveal(Machine::fetch_byte);
        let b: u8 = bus.read(self.pc);
        self.pc = if self.pc == 0xffff { 0 } else { self.pc + 1 };
        b
    }

    pub fn fetch_word(&mut self, bus: &mut Bus) -> (w: u16)
        ensures
            (machine(*final(self), *final(bus)), w) == machine(*old(self), *old(bus)).fetch_word(),
            *final(self) == (Cpu { pc: final(self).pc, ..*old(self) }),
            final(bus).cycles == advance(old(bus).cycles, 2),
            final(bus).dma == old(bus).dma,
    {
        reveal(Machine::fetch_word);
        let w: u16 = self.read_word(self.pc, bus);
        self.pc = ((self.pc as u32 + 2) % 0x10000) as u16;
        w
    }

    pub fn read_word(&mut self, addr: u16, bus: &mut Bus) -> (w: u16)
        ensures
            (machine(*final(self), *final(bus)), w) == machine(*old(self), *old(bus)).read_word(
                addr,
            ),
            *final(self) == *old(self),
            final(bus).cycles == advance(old(bus).cycles, 2),
            final(bus).dma == old(bus).dma,
    {
        reveal(Machine::read_word);
        let lo: u16 = bus.read(addr) as u16;
        let hi: u16 = bus.read(if addr == 0xffff { 0 } else { addr + 1 }) as u16;
        hi * 256 + lo
    }

    pub fn push_byte(&mut self, b: u8, bus: &mut Bus)
        ensures
            machine(*final(self), *final(bus)) == machine(*old(self), *old(bus)).push_byte(b),
            *final(self) == (Cpu { sp: final(self).sp, ..*old(self) }),
            final(bus).cycles == advance(old(bus).cycles, 1),
            final(bus).dma == old(bus).dma,
    {
        reveal(Machine::push_byte);
        bus.write(0x100 + self.sp as u16, b);
        self.sp = if self.sp == 0 { 255 } else { self.sp - 1 };
    }

    pub fn pop_byte(&mut self, bus: &mut Bus) -> (b: u8)
        ensures
            (machine(*final(self), *final(bus)), b) == machine(*old(self), *old(bus)).pop_byte(),
            *final(self) == (Cpu { sp: final(self).sp, ..*old(self) }),
            final(bus).cycles == advance(old(bus).cycles, 1),
            final(bus).dma == old(bus).dma,
    {
        reveal(Machine::pop_byte);
        self.sp = if self.sp == 255 { 0 } else { self.sp + 1 };
        bus.read(0x100 + self.sp as u16)
    }

    pub fn push_word(&mut self, w: u16, bus: &mut Bus)
        ensures
            machine(*final(self), *final(bus)) == machine(*old(self), *old(bus)).push_word(w),
            *final(self) == (Cpu { sp: final(self).sp, ..*old(self) }),
            final(bus).cycles == advance(old(bus).cycles, 2),
            final(bus).dma == old(bus).dma,
    {
        reveal(Machine::push_word);
        self.push_byte((w / 256) as u8, bus);
        self.push_byte((w % 256) as u8, bus);
    }

    pub fn pop_word(&mut self, bus: &mut Bus) -> (w: u16)
        ensures
            (machine(*final(self), *final(bus)), w) == machine(*old(self), *old(bus)).pop_word(),
            *final(self) == (Cpu { sp: final(self).sp, ..*old(self) }),
            final(bus).cycles == advance(old(bus).cycles, 2),
            final(bus).dma == old(bus).dma,
    {
        reveal(Machine::pop_word);
        let lo: u16 = self.pop_byte(bus) as u16;
        let hi: u16 = self.pop_byte(bus) as u16;
        hi * 256 + lo
    }
}

/// A reset does not look at the registers: whatever the CPU held, the
/// machine behind the reset is the same.
pub proof fn lemma_reset_forgets_registers(a: Cpu, b: Cpu, bus: Bus)
    ensures
        machine(a, bus).reset() == machine(b, bus).reset(),
{
    reveal(Machine::reset);
}

} // verus!
