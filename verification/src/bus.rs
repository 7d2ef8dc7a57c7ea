//! The bus: 2 KB of RAM, the decode of the CPU's address space, and the
//! clock that keeps picture and sound unit in step with the CPU.

pub mod dma;
pub mod joystick;

use crate::apu::dmc::Dmc;
use crate::apu::Apu;
use crate::bus::dma::Dma;
use crate::bus::joystick::{InputStates, Joystick};
use crate::apu::units::frame::FrameCounter;
use crate::cart::Cartridge;
use crate::cpu::op_code::{Op, OPS};
use crate::cpu::{machine, Cpu, IllegalOpcode, Interrupt, Machine};
use crate::ppu::Ppu;
use vstd::array::spec_array_update;
use vstd::prelude::*;

verus! {

pub const RAM_SIZE: usize = 0x0800;

pub const REG_SIZE: usize = 0x20;

pub struct Bus {
    pub ram: [u8; RAM_SIZE],
    pub io_regs: [u8; REG_SIZE],
    pub apu: Apu,
    pub ppu: Ppu,
    pub cart: Cartridge,
    pub joystick: Joystick,
    pub dma: Dma,
    /// CPU cycles since the last reset; the count stops at `u64::MAX`.
    pub cycles: u64,
}

/// The cycle count `n` cycles after `c`; the count stops at `u64::MAX`.
pub open spec fn advance(c: u64, n: int) -> u64 {
    if c + n > u64::MAX {
        u64::MAX
    } else if n < 0 {
        c
    } else {
        (c + n) as u64
    }
}

impl Bus {
    /// The byte that the CPU sees at `addr`, as far as looking does not
    /// change it: RAM repeats every 2 KB up to `$1FFF`, the picture unit's
    /// registers every 8 bytes up to `$3FFF`; `$4000-$4015` belong to the
    /// sound unit, `$4016-$4017` to the controllers; the cartridge has the
    /// rest from `$4020` on.
    #[verifier::opaque]
    pub open spec fn value_at(self, addr: u16) -> u8 {
        if addr < 0x2000 {
            self.ram[addr as int % 0x800]
        } else if addr < 0x4000 {
            self.ppu.reg_value(self.cart, addr)
        } else if addr == 0x4014 {
            0
        } else if addr <= 0x4015 {
            self.apu.reg_value(addr)
        } else if addr <= 0x4017 {
            self.joystick.port_value(addr)
        } else if addr < 0x4020 {
            self.io_regs[addr - 0x4000]
        } else {
            self.cart.byte_at(addr)
        }
    }

    /// The bus after the effects of a read of `addr`.
    #[verifier::opaque]
    pub open spec fn touched(self, addr: u16) -> Bus {
        if 0x2000 <= addr < 0x4000 {
            Bus { ppu: self.ppu.reg_read(self.cart, addr), ..self }
        } else if addr == 0x4015 {
            Bus { apu: self.apu.reg_read(addr), ..self }
        } else if addr == 0x4016 || addr == 0x4017 {
            Bus { joystick: self.joystick.port_read(addr), ..self }
        } else {
            self
        }
    }

    /// The bus after the effects of a write of `data` to `addr`; a write
    /// to `$4014` starts the copy of a page to sprite memory.
    #[verifier::opaque]
    pub open spec fn stored(self, addr: u16, data: u8) -> Bus {
        if addr < 0x2000 {
            Bus { ram: spec_array_update(self.ram, addr as int % 0x800, data), ..self }
        } else if addr < 0x4000 {
            Bus {
                ppu: self.ppu.reg_written(self.cart, addr, data),
                cart: self.ppu.reg_written_cart(self.cart, addr, data),
                ..self
            }
        } else if addr == 0x4014 {
            Bus { dma: Dma::started(self.cycles, data), ..self }
        } else if addr <= 0x4013 || addr == 0x4015 || addr == 0x4017 {
            Bus { apu: self.apu.written(addr, data), ..self }
        } else if addr == 0x4016 {
            Bus { joystick: self.joystick.strobed(data), ..self }
        } else if addr < 0x4020 {
            Bus { io_regs: spec_array_update(self.io_regs, addr - 0x4000, data), ..self }
        } else {
            Bus { cart: self.cart.written(addr, data), ..self }
        }
    }

    /// The bus with the picture unit moved on by one dot.
    pub open spec fn dot_passed(self) -> Bus {
        Bus { ppu: self.ppu.ticked(self.cart), cart: self.ppu.ticked_cart(self.cart), ..self }
    }

    /// The bus with the picture unit moved on by the three dots of a CPU
    /// cycle.
    pub open spec fn dots_passed(self) -> Bus {
        self.dot_passed().dot_passed().dot_passed()
    }

    /// The bus one CPU cycle later. The cycle count goes up by one; the
    /// sound unit ticks once and the picture unit three times. If the
    /// sound unit asks for a sample byte, it is fetched and handed over
    /// between two such rounds of the picture unit.
    #[verifier::opaque]
    pub open spec fn ticked(self) -> Bus {
        let a = Bus { cycles: advance(self.cycles, 1), apu: self.apu.ticked(), ..self };
        match a.apu.dmc.sample_request {
            Some(addr) => {
                let asked = Bus {
                    apu: Apu { dmc: Dmc { sample_request: None, ..a.apu.dmc }, ..a.apu },
                    ..a
                };
                let data = asked.value_at(addr);
                let b = asked.dots_passed();
                Bus {
                    apu: Apu {
                        dmc: Dmc { bits_shifter: data, bits_remain: 8, ..b.apu.dmc },
                        ..b.apu
                    },
                    ..b
                }.dots_passed()
            },
            None => a.dots_passed(),
        }
    }

    /// The byte that a read cycle at `addr` returns.
    pub open spec fn read_value(self, addr: u16) -> u8 {
        self.ticked().value_at(addr)
    }

    /// The bus after a read cycle at `addr`.
    pub open spec fn after_read(self, addr: u16) -> Bus {
        self.ticked().touched(addr)
    }

    /// The bus after a write cycle of `data` to `addr`.
    pub open spec fn written(self, addr: u16, data: u8) -> Bus {
        self.ticked().stored(addr, data)
    }

    /// The bus after a reset, before the CPU fetches the reset vector.
    pub open spec fn reset_state(self) -> Bus {
        Bus {
            ppu: self.ppu.reset_state(),
            apu: self.apu.reset_state(),
            dma: Dma { dma_active: false, ..self.dma },
            cycles: 0,
            ..self
        }
    }

    /// The bus at power-on, with `cart` in the slot.
    pub open spec fn initial(cart: Cartridge) -> Bus {
        Bus {
            ram: [0u8;RAM_SIZE],
            io_regs: [0u8;REG_SIZE],
            apu: Apu::initial(),
            ppu: Ppu::initial(),
            cart,
            joystick: Joystick::initial(),
            dma: Dma::initial(),
            cycles: 0,
        }
    }

    pub fn new(cart: Cartridge) -> (b: Self)
        ensures
            b == Bus::initial(cart),
    {
        Bus {
            ram: [0u8;RAM_SIZE],
            io_regs: [0u8;REG_SIZE],
            apu: Apu::new(),
            ppu: Ppu::new(),
            cart,
            joystick: Joystick::new(),
            dma: Dma::new(),
            cycles: 0,
        }
    }

    fn tick_ppu(&mut self)
        ensures
            *final(self) == old(self).dots_passed(),
    {
        self.ppu.tick(&mut self.cart);
        self.ppu.tick(&mut self.cart);
        self.ppu.tick(&mut self.cart);
    }

    /// Lets one CPU cycle pass.
    pub fn tick(&mut self)
        ensures
            *final(self) == old(self).ticked(),
            final(self).cycles == advance(old(self).cycles, 1),
            final(self).dma == old(self).dma,
    {
        reveal(Bus::ticked);
        self.cycles = if self.cycles == u64::MAX { u64::MAX } else { self.cycles + 1 };
        self.apu.tick();
        match self.apu.dmc_request() {
            Some(addr) => {
                let data: u8 = self.inspect(addr);
                self.tick_ppu();
                self.apu.dmc_response(data);
                self.tick_ppu();
            },
            None => {
                self.tick_ppu();
            },
        }
    }

    /// A read cycle.
    pub fn read(&mut self, addr: u16) -> (r: u8)
        ensures
            r == old(self).read_value(addr),
            *final(self) == old(self).after_read(addr),
            final(self).cycles == advance(old(self).cycles, 1),
            final(self).dma == old(self).dma,
    {
        reveal(Bus::value_at);
        reveal(Bus::touched);
        self.tick();
        if 0x2000 <= addr && addr < 0x4000 {
            self.ppu.read(&self.cart, addr)
        } else if addr == 0x4015 {
            self.apu.read(addr)
        } else if addr == 0x4016 || addr == 0x4017 {
            self.joystick.read(addr)
        } else {
            self.inspect(addr)
        }
    }

    /// A write cycle.
    pub fn write(&mut self, addr: u16, data: u8)
        ensures
            *final(self) == old(self).written(addr, data),
            final(self).cycles == advance(old(self).cycles, 1),
            addr != 0x4014 ==> final(self).dma == old(self).dma,
            addr == 0x4014 ==> final(self).dma == Dma::started(final(self).cycles, data),
    {
        reveal(Bus::stored);
        self.tick();
        if addr < 0x2000 {
            let i: usize = (addr % 0x800) as usize;
            self.ram[i] = data;
            assert(self.ram =~= spec_array_update(old(self).ticked().ram, i as int, data));
        } else if addr < 0x4000 {
            self.ppu.write(&mut self.cart, addr, data);
        } else if addr == 0x4014 {
            self.dma.start(self.cycles, data);
        } else if addr <= 0x4013 || addr == 0x4015 || addr == 0x4017 {
            self.apu.write(addr, data);
        } else if addr == 0x4016 {
            self.joystick.write(addr, data);
        } else if addr < 0x4020 {
            let i: usize = (addr - 0x4000) as usize;
            self.io_regs[i] = data;
            assert(self.io_regs =~= spec_array_update(old(self).ticked().io_regs, i as int, data));
        } else {
            self.cart.write(addr, data);
        }
    }

    /// The byte at `addr`, read without a cycle and without effects.
    pub fn inspect(&self, addr: u16) -> (r: u8)
        ensures
            r == self.value_at(addr),
    {
        reveal(Bus::value_at);
        if addr < 0x2000 {
            self.ram[(addr % 0x800) as usize]
        } else if addr < 0x4000 {
            self.ppu.peek(&self.cart, addr)
        } else if addr == 0x4014 {
            0
        } else if addr <= 0x4015 {
            self.apu.peek(addr)
        } else if addr <= 0x4017 {
            self.joystick.peek(addr)
        } else if addr < 0x4020 {
            self.io_regs[(addr - 0x4000) as usize]
        } else {
            self.cart.read(addr)
        }
    }

    pub fn set_input0(&mut self, states: InputStates)
        ensures
            *final(self) == (Bus {
                joystick: Joystick {
                    input0: joystick::Input { states, ..old(self).joystick.input0 },
                    ..old(self).joystick
                },
                ..*old(self)
            }),
    {
        self.joystick.set_input0(states);
    }

    pub fn set_input1(&mut self, states: InputStates)
        ensures
            *final(self) == (Bus {
                joystick: Joystick {
                    input1: joystick::Input { states, ..old(self).joystick.input1 },
                    ..old(self).joystick
                },
                ..*old(self)
            }),
    {
        self.joystick.set_input1(states);
    }

    pub fn cycles(&self) -> (r: u64)
        ensures
            r == self.cycles,
    {
        self.cycles
    }

    /// Switches pulse 1, pulse 2, triangle, noise and delta modulation
    /// through to the mixer or cuts them off.
    pub fn set_audio_control(&mut self, states: &[bool; 5])
        ensures
            *final(self) == (Bus {
                apu: Apu { channel_ctrl: *states, ..old(self).apu },
                ..*old(self)
            }),
    {
        self.apu.set_channels(states);
    }

    pub fn load_cart(&mut self, cart: Cartridge)
        ensures
            *final(self) == (Bus { cart, ..*old(self) }),
    {
        self.cart = cart;
    }
}

impl Machine {
    /// The machine after one step of a running copy to sprite memory: the
    /// unit waits a cycle, or a byte of the page is read and written to
    /// the picture unit's port at `$2004`.
    #[verifier::opaque]
    pub open spec fn dma_stepped(self) -> Machine {
        let m = Machine { bus: Bus { dma: self.bus.dma.ticked(), ..self.bus }, ..self };
        match self.bus.dma.source() {
            Some(addr) => {
                let (m1, data) = m.read(addr);
                m1.written(0x2004, data)
            },
            None => m.ticked(),
        }
    }

    /// The machine after the interrupt lines were looked at behind an
    /// instruction. An NMI edge is consumed and served. Otherwise, unless
    /// the CPU masks interrupts, the sound unit's lines are read, which
    /// lowers the frame interrupt, and, only if those are low, the
    /// mapper's line, which lowers it; a line found high has the
    /// interrupt served.
    #[verifier::opaque]
    pub open spec fn interrupts_polled(self) -> Machine {
        let bus = self.bus;
        if bus.ppu.nmi {
            Machine { bus: Bus { ppu: Ppu { nmi: false, ..bus.ppu }, ..bus }, ..self }.served(
                Interrupt::NMI,
            )
        } else if self.cpu.p.i {
            self
        } else {
            let heard = Bus {
                apu: Apu { frame: FrameCounter { irq_level: false, ..bus.apu.frame }, ..bus.apu },
                ..bus
            };
            if bus.apu.irq_pending() {
                Machine { bus: heard, ..self }.served(Interrupt::IRQ)
            } else {
                let asked = Bus {
                    cart: Cartridge { mapper: bus.cart.mapper.irq_cleared(), ..bus.cart },
                    ..heard
                };
                if bus.cart.mapper.irq_pending() {
                    Machine { bus: asked, ..self }.served(Interrupt::IRQ)
                } else {
                    Machine { bus: asked, ..self }
                }
            }
        }
    }

    /// The machine one step later. While a copy to sprite memory runs, the
    /// CPU stands still and the copy moves on. Otherwise the CPU carries
    /// out one instruction, and the interrupt lines are looked at unless
    /// the instruction halted the processor.
    #[verifier::opaque]
    pub open spec fn stepped(self) -> Machine {
        if self.bus.dma.dma_active {
            self.dma_stepped()
        } else {
            let m = self.executed();
            if OPS[m.cpu.op as int] == Op::Stp {
                m
            } else {
                m.interrupts_polled()
            }
        }
    }

    /// Whether the next step halts the processor: no copy to sprite memory
    /// runs, and the opcode at the program counter is one that halts.
    pub open spec fn halts(self) -> bool {
        !self.bus.dma.dma_active && OPS[self.stepped().cpu.op as int] == Op::Stp
    }

    /// The machine `n` steps later.
    pub open spec fn run(self, n: nat) -> Machine
        decreases n,
    {
        if n == 0 {
            self
        } else {
            self.stepped().run((n - 1) as nat)
        }
    }
}

impl Bus {
    /// One step of a running copy to sprite memory.
    fn step_dma(&mut self, cpu: &Cpu)
        requires
            old(self).dma.dma_active,
        ensures
            machine(*cpu, *final(self)) == machine(*cpu, *old(self)).dma_stepped(),
            final(self).cycles > old(self).cycles || final(self).cycles == u64::MAX,
    {
        reveal(Machine::dma_stepped);
        match self.dma.tick() {
            Some(addr) => {
                let ghost m = machine(*cpu, *self);
                let data: u8 = self.read(addr);
                assert((machine(*cpu, *self), data) == m.read(addr));
                self.write(0x2004, data);
            },
            None => {
                self.tick();
            },
        }
    }

    /// Looks at the interrupt lines and serves the interrupt that is due.
    fn poll_interrupts(&mut self, cpu: &mut Cpu)
        ensures
            machine(*final(cpu), *final(self)) == machine(*old(cpu), *old(self)).interrupts_polled(),
            final(cpu).op == old(cpu).op,
            final(self).cycles >= old(self).cycles,
    {
        reveal(Machine::interrupts_polled);
        if self.ppu.poll_nmi() {
            cpu.serve_interrupt(Interrupt::NMI, self);
        } else if !cpu.interrupt_disabled() {
            if self.apu.poll_irq() {
                cpu.serve_interrupt(Interrupt::IRQ, self);
            } else if self.cart.poll_irq() {
                cpu.serve_interrupt(Interrupt::IRQ, self);
            }
        }
    }

    /// One step of the machine: a cycle or two of a running copy to sprite
    /// memory, or an instruction of the CPU with the interrupts behind it.
    #[verifier::spinoff_prover]
    pub fn exec(&mut self, cpu: &mut Cpu) -> (r: Result<(), IllegalOpcode>)
        ensures
            machine(*final(cpu), *final(self)) == machine(*old(cpu), *old(self)).stepped(),
            r is Err <==> machine(*old(cpu), *old(self)).halts(),
            r is Err ==> r == Err::<(), IllegalOpcode>(IllegalOpcode(final(cpu).op)),
            final(self).cycles > old(self).cycles || final(self).cycles == u64::MAX,
    {
        reveal(Machine::stepped);
        if self.dma.active() {
            self.step_dma(cpu);
            Ok(())
        } else {
            let ghost m0 = machine(*cpu, *self);
            let r = cpu.exec(self);
            assert(machine(*cpu, *self) == m0.executed());
            match r {
                Ok(()) => {
                    self.poll_interrupts(cpu);
                    Ok(())
                },
                Err(e) => Err(e),
            }
        }
    }

    /// Resets the machine and has the CPU take the reset interrupt.
    pub fn reset(&mut self, cpu: &mut Cpu)
        ensures
            machine(*final(cpu), *final(self)) == machine(*old(cpu), *old(self)).reset(),
            final(self).cycles == 7,
    {
        cpu.reset(self);
    }
}

impl Bus {
    /// The bus with the picture unit moved on by `n` dots.
    pub open spec fn dots(self, n: nat) -> Bus
        decreases n,
    {
        if n == 0 {
            self
        } else {
            self.dot_passed().dots((n - 1) as nat)
        }
    }

    /// The bus `n` idle CPU cycles later.
    pub open spec fn idle_cycles(self, n: nat) -> Bus
        decreases n,
    {
        if n == 0 {
            self
        } else {
            self.ticked().idle_cycles((n - 1) as nat)
        }
    }
}

/// A reset of a bus that was just reset changes nothing. (The reset of
/// the whole machine goes on to take the reset interrupt, whose seven
/// cycles move the sound unit's timers on each time.)
pub proof fn lemma_reset_idempotent(bus: Bus)
    ensures
        bus.reset_state().reset_state() == bus.reset_state(),
{
    crate::apu::lemma_reset_idempotent(bus.apu);
    crate::ppu::lemma_reset_idempotent(bus.ppu);
}

/// The dots of the picture unit touch neither the sound unit nor the
/// cycle count, nor anything else but the picture unit and the cartridge.
pub proof fn lemma_dots_frame(bus: Bus, apu: Apu, cycles: u64, n: nat)
    ensures
        (Bus { apu, cycles, ..bus }).dots(n) == (Bus { apu, cycles, ..bus.dots(n) }),
        bus.dots(n).ram == bus.ram,
        bus.dots(n).io_regs == bus.io_regs,
        bus.dots(n).joystick == bus.joystick,
        bus.dots(n).dma == bus.dma,
        bus.dots(n).apu == bus.apu,
        bus.dots(n).cycles == bus.cycles,
    decreases n,
{
    if n > 0 {
        lemma_dots_frame(bus.dot_passed(), apu, cycles, (n - 1) as nat);
        assert((Bus { apu, cycles, ..bus }).dot_passed() == (Bus {
            apu,
            cycles,
            ..bus.dot_passed()
        }));
    }
}

/// Dots add up.
pub proof fn lemma_dots_add(bus: Bus, a: nat, b: nat)
    ensures
        bus.dots(a).dots(b) == bus.dots(a + b),
    decreases a,
{
    if a > 0 {
        lemma_dots_add(bus.dot_passed(), (a - 1) as nat, b);
    }
}

/// One CPU cycle: the cycle count goes up by one, the sound unit ticks
/// once, and, unless it asks for a sample byte, the picture unit ticks
/// three times.
pub proof fn lemma_tick_cadence(bus: Bus)
    ensures
        bus.ticked().cycles == advance(bus.cycles, 1),
        bus.ticked().dma == bus.dma,
        bus.apu.ticked().dmc.sample_request is None ==> bus.ticked() == (Bus {
            cycles: advance(bus.cycles, 1),
            apu: bus.apu.ticked(),
            ..bus.dots(3)
        }),
{
    reveal(Bus::ticked);
    reveal_with_fuel(Bus::dots, 4);
    let a = Bus { cycles: advance(bus.cycles, 1), apu: bus.apu.ticked(), ..bus };
    lemma_dots_frame(bus, bus.apu.ticked(), advance(bus.cycles, 1), 3);
    assert(a.dots_passed() == a.dots(3));
    match a.apu.dmc.sample_request {
        Some(addr) => {
            let asked = Bus {
                apu: Apu { dmc: Dmc { sample_request: None, ..a.apu.dmc }, ..a.apu },
                ..a
            };
            let b = asked.dots_passed();
            assert(asked.dots_passed() == asked.dots(3));
            lemma_dots_frame(asked, asked.apu, asked.cycles, 3);
            let c = Bus {
                apu: Apu {
                    dmc: Dmc { bits_shifter: asked.value_at(addr), bits_remain: 8, ..b.apu.dmc },
                    ..b.apu
                },
                ..b
            };
            assert(c.dots_passed() == c.dots(3));
            lemma_dots_frame(c, c.apu, c.cycles, 3);
        },
        None => {},
    }
}

/// After `n` idle CPU cycles, with delta modulation quiet, the cycle
/// count went up by `n`, the sound unit ticked `n` times and the picture
/// unit `3 * n` times.
pub proof fn lemma_cycles_cadence(bus: Bus, n: nat)
    requires
        bus.apu.dmc_quiet(),
    ensures
        bus.idle_cycles(n) == (Bus {
            cycles: advance(bus.cycles, n as int),
            apu: bus.apu.ticks(n),
            ..bus.dots(3 * n)
        }),
    decreases n,
{
    if n > 0 {
        let next = bus.ticked();
        crate::apu::lemma_tick_keeps_dmc_quiet(bus.apu);
        lemma_tick_cadence(bus);
        assert(next == (Bus {
            cycles: advance(bus.cycles, 1),
            apu: bus.apu.ticked(),
            ..bus.dots(3)
        }));
        lemma_cycles_cadence(next, (n - 1) as nat);
        let k = (3 * (n - 1)) as nat;
        lemma_dots_frame(bus.dots(3), next.apu, next.cycles, k);
        lemma_dots_add(bus, 3, k);
        assert(next.dots(k) == (Bus { apu: next.apu, cycles: next.cycles, ..bus.dots(3 * n) }));
    } else {
        assert(bus.dots(0) == bus);
    }
}

/// A read cycle takes one cycle and leaves the copy unit alone.
pub proof fn lemma_read_cycle(bus: Bus, addr: u16)
    ensures
        bus.after_read(addr).cycles == advance(bus.cycles, 1),
        bus.after_read(addr).dma == bus.dma,
{
    reveal(Bus::touched);
    lemma_tick_cadence(bus);
}

/// A write cycle takes one cycle; only a write to `$4014` reaches the
/// copy unit.
pub proof fn lemma_write_cycle(bus: Bus, addr: u16, data: u8)
    ensures
        bus.written(addr, data).cycles == advance(bus.cycles, 1),
        addr != 0x4014 ==> bus.written(addr, data).dma == bus.dma,
        addr == 0x4014 ==> bus.written(addr, data).dma == Dma::started(
            advance(bus.cycles, 1),
            data,
        ),
{
    reveal(Bus::stored);
    lemma_tick_cadence(bus);
}

/// Steps that a running copy to sprite memory still takes.
pub open spec fn dma_steps_left(dma: Dma) -> nat {
    (dma.delay_ticks + (256 - dma.dma_step)) as nat
}

/// CPU cycles that a running copy to sprite memory still takes: one for
/// each cycle of waiting and two for each byte.
pub open spec fn dma_cycles_left(dma: Dma) -> int {
    dma.delay_ticks + 2 * (256 - dma.dma_step)
}

/// A step during a copy to sprite memory leaves the CPU alone and takes
/// one cycle of waiting or the two cycles of a byte.
pub proof fn lemma_dma_step(m: Machine)
    requires
        m.bus.dma.dma_active,
    ensures
        m.stepped().cpu == m.cpu,
        m.stepped().bus.dma == m.bus.dma.ticked(),
        m.stepped().bus.cycles == advance(
            m.bus.cycles,
            if m.bus.dma.delay_ticks > 0 { 1 } else { 2 },
        ),
{
    reveal(Machine::stepped);
    reveal(Machine::dma_stepped);
    let b = Bus { dma: m.bus.dma.ticked(), ..m.bus };
    match m.bus.dma.source() {
        Some(addr) => {
            lemma_read_cycle(b, addr);
            lemma_write_cycle(b.after_read(addr), 0x2004, b.read_value(addr));
        },
        None => {
            lemma_tick_cadence(b);
        },
    }
}

/// A running copy to sprite memory ends after the steps that are left to
/// it and not before; it takes the cycles that are left to it, and the
/// CPU stands still all the while.
pub proof fn lemma_dma_runs_out(m: Machine)
    requires
        m.bus.dma.dma_active,
        m.bus.dma.dma_step <= 255,
    ensures
        !m.run(dma_steps_left(m.bus.dma)).bus.dma.dma_active,
        m.run(dma_steps_left(m.bus.dma)).bus.cycles == advance(
            m.bus.cycles,
            dma_cycles_left(m.bus.dma),
        ),
        m.run(dma_steps_left(m.bus.dma)).cpu == m.cpu,
        forall|k: nat| k < dma_steps_left(m.bus.dma) ==> (#[trigger] m.run(k)).bus.dma.dma_active,
    decreases dma_steps_left(m.bus.dma),
{
    let left = dma_steps_left(m.bus.dma);
    let next = m.stepped();
    lemma_dma_step(m);
    assert(m.run(left) == next.run((left - 1) as nat));
    if next.bus.dma.dma_active {
        lemma_dma_runs_out(next);
        assert forall|k: nat| k < left implies (#[trigger] m.run(k)).bus.dma.dma_active by {
            if k > 0 {
                assert(m.run(k) == next.run((k - 1) as nat));
            }
        }
    } else {
        assert(left == 1);
        assert(next.run(0) == next);
        assert forall|k: nat| k < left implies (#[trigger] m.run(k)).bus.dma.dma_active by {
            assert(m.run(0) == m);
        }
    }
}

/// A copy to sprite memory that starts at an even cycle count holds the
/// CPU for 513 cycles, one that starts at an odd count for 514; the next
/// instruction runs behind them.
pub proof fn lemma_oam_dma_timing(m: Machine, page: u8)
    requires
        m.bus.dma == Dma::started(m.bus.cycles, page),
    ensures
        ({
            let wait: nat = if m.bus.cycles % 2 == 0 { 1 } else { 2 };
            &&& !m.run(wait + 256).bus.dma.dma_active
            &&& m.run(wait + 256).bus.cycles == advance(m.bus.cycles, wait as int + 512)
            &&& m.run(wait + 256).cpu == m.cpu
            &&& forall|k: nat| k < wait + 256 ==> (#[trigger] m.run(k)).bus.dma.dma_active
        }),
{
    lemma_dma_runs_out(m);
}

/// Running `n + 1` steps is running `n` steps and one more.
pub proof fn lemma_run_one_more(m: Machine, n: nat)
    ensures
        m.run(n + 1) == m.run(n).stepped(),
    decreases n,
{
    if n > 0 {
        lemma_run_one_more(m.stepped(), (n - 1) as nat);
        assert(m.run(n + 1) == m.stepped().run(n));
    } else {
        assert(m.run(1) == m.stepped().run(0));
    }
}

impl Bus {
    /// Steps the machine until the cycle count is at least `target` or
    /// the processor halts; returns the number of steps taken and the
    /// opcode that halted the processor, if one did.
    #[verifier::spinoff_prover]
    pub fn run_until(&mut self, cpu: &mut Cpu, target: u64) -> (r: (u64, Option<IllegalOpcode>))
        ensures
            machine(*final(cpu), *final(self)) == machine(*old(cpu), *old(self)).run(r.0 as nat),
            forall|k: nat|
                k < r.0 ==> (#[trigger] machine(*old(cpu), *old(self)).run(k)).bus.cycles < target,
            r.1 is None ==> final(self).cycles >= target,
            r.1 matches Some(e) ==> e == IllegalOpcode(final(cpu).op),
            r.1 is Some <==> r.0 > 0 && machine(*old(cpu), *old(self)).run(
                (r.0 - 1) as nat,
            ).halts(),
            forall|k: nat|
                k + 1 < r.0 ==> !(#[trigger] machine(*old(cpu), *old(self)).run(k)).halts(),
    {
        let ghost m0 = machine(*cpu, *self);
        let ghost start = self.cycles;
        let mut n: u64 = 0;
        let mut halted: Option<IllegalOpcode> = None;
        assert(m0.run(0) == m0);
        while self.cycles < target && halted.is_none()
            invariant
                machine(*cpu, *self) == m0.run(n as nat),
                n <= self.cycles - start,
                self.cycles >= start,
                forall|k: nat| k < n ==> (#[trigger] m0.run(k)).bus.cycles < target,
                halted matches Some(e) ==> e == IllegalOpcode(cpu.op),
                halted is Some <==> n > 0 && m0.run((n - 1) as nat).halts(),
                forall|k: nat| k + 1 < n ==> !(#[trigger] m0.run(k)).halts(),
            decreases
                    (if halted is None { 1int } else { 0 }),
                    (if self.cycles < target { target - self.cycles } else { 0 }),
        {
            let ghost before = self.cycles;
            assert(m0.run(n as nat).bus.cycles == before);
            proof {
                lemma_run_one_more(m0, n as nat);
            }
            let r = self.exec(cpu);
            assert(machine(*cpu, *self) == m0.run((n + 1) as nat));
            assert(r is Err <==> m0.run(n as nat).halts());
            assert forall|k: nat| k < n + 1 implies (#[trigger] m0.run(k)).bus.cycles < target by {
                if k == n {
                    assert(m0.run(k).bus.cycles == before);
                }
            }
            assert forall|k: nat| k + 1 < n + 1 implies !(#[trigger] m0.run(k)).halts() by {
                if k + 1 == n {
                    assert(halted is None);
                }
            }
            match r {
                Ok(()) => {
                    assert(self.cycles > before);
                },
                Err(e) => {
                    halted = Some(e);
                },
            }
            n = n + 1;
        }
        (n, halted)
    }
}

} // verus!
