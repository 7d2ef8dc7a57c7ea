//! The sound unit: two pulse channels, triangle, noise and delta
//! modulation, a frame sequencer that clocks them, and a mixer that feeds
//! the resampler once per CPU cycle.

pub mod dmc;
pub mod noise;
pub mod pulse;
pub mod resampler;
pub mod triangle;
pub mod units;

use crate::apu::dmc::Dmc;
use crate::apu::noise::Noise;
use crate::apu::pulse::Pulse;
use crate::apu::resampler::Resampler;
use crate::apu::triangle::Triangle;
use crate::apu::units::frame::{FrameCounter, Step};
use crate::bits::{bit_at, get_bit_u8, set_bit_u8, with_bit};
use vstd::prelude::*;

verus! {

/// Output of the pulse mixer for the sum `n` of both pulse channels,
/// `95.52 / (8128 / n + 100)` of full scale, in units of `1 / 32767`,
/// rounded to the nearest; sums over 30 count as 30. With numerator and
/// denominator scaled to integers this is `32767 * 9552 * n` over
/// `812800 + 10000 * n`.
pub open spec fn pulse_level(n: int) -> int {
    let m = if n > 30 { 30 } else { n };
    if m <= 0 {
        0
    } else {
        (625980768 * m + (812800 + 10000 * m)) / (2 * (812800 + 10000 * m))
    }
}

/// Output of the second mixer for `n = 3 * triangle + 2 * noise + dmc`,
/// `163.67 / (24329 / n + 100)` of full scale, in units of `1 / 32767`,
/// rounded to the nearest; values over 202 count as 202. With numerator
/// and denominator scaled to integers this is `32767 * 16367 * n` over
/// `2432900 + 10000 * n`.
pub open spec fn tnd_level(n: int) -> int {
    let m = if n > 202 { 202 } else { n };
    if m <= 0 {
        0
    } else {
        (1072594978 * m + (2432900 + 10000 * m)) / (2 * (2432900 + 10000 * m))
    }
}

/// The pulse mixer's output for the sum `n` of both pulse channels.
pub fn mix_pulse(n: u16) -> (r: u16)
    ensures
        r == pulse_level(n as int),
        r <= 16000,
{
    let m: u64 = if n > 30 { 30 } else { n as u64 };
    if m == 0 {
        0
    } else {
        let x: u64 = 625980768 * m + (812800 + 10000 * m);
        let y: u64 = 2 * (812800 + 10000 * m);
        assert(x / y <= 16000) by (nonlinear_arith)
            requires
                x <= 16000 * y,
                y > 0,
        ;
        (x / y) as u16
    }
}

/// The second mixer's output for `n = 3 * triangle + 2 * noise + dmc`.
pub fn mix_tnd(n: u16) -> (r: u16)
    ensures
        r == tnd_level(n as int),
        r <= 32000,
{
    let m: u64 = if n > 202 { 202 } else { n as u64 };
    if m == 0 {
        0
    } else {
        let x: u64 = 1072594978 * m + (2432900 + 10000 * m);
        let y: u64 = 2 * (2432900 + 10000 * m);
        assert(x / y <= 32000) by (nonlinear_arith)
            requires
                x <= 32000 * y,
                y > 0,
        ;
        (x / y) as u16
    }
}

pub struct Apu {
    pub frame: FrameCounter,
    pub pulse1: Pulse,
    pub pulse2: Pulse,
    pub triangle: Triangle,
    pub noise: Noise,
    pub dmc: Dmc,
    pub cycles: u64,
    pub resampler: Resampler,
    /// Which of pulse 1, pulse 2, triangle, noise and delta modulation
    /// reach the mixer.
    pub channel_ctrl: [bool; 5],
}

/// A channel's output if it is switched through to the mixer.
pub open spec fn gated(on: bool, v: u8) -> int {
    if on {
        v as int
    } else {
        0
    }
}

impl Apu {
    /// The unit with the clocks of `step` handed to the channels.
    pub open spec fn frame_clocked(self, step: Step) -> Apu {
        let a = if step.length {
            Apu {
                pulse1: self.pulse1.length_clocked(),
                pulse2: self.pulse2.length_clocked(),
                triangle: self.triangle.length_clocked(),
                noise: self.noise.length_clocked(),
                ..self
            }
        } else {
            self
        };
        if step.envelope {
            Apu {
                pulse1: a.pulse1.envelope_clocked(),
                pulse2: a.pulse2.envelope_clocked(),
                triangle: a.triangle.envelope_clocked(),
                noise: a.noise.envelope_clocked(),
                ..a
            }
        } else {
            a
        }
    }

    /// The amplitude that the mixer puts out, in units of `1 / 32767`.
    pub open spec fn mixed(self) -> int {
        let c = self.channel_ctrl;
        pulse_level(gated(c[0], self.pulse1.output()) + gated(c[1], self.pulse2.output()))
            + tnd_level(
            3 * gated(c[2], self.triangle.output()) + 2 * gated(c[3], self.noise.output()) + gated(
                c[4],
                self.dmc.output,
            ),
        )
    }

    /// The channels one CPU cycle later: the frame sequencer ticks and
    /// hands out its clocks; pulse, noise and delta modulation tick on
    /// every second cycle, the triangle on every cycle.
    pub open spec fn channels_ticked(self) -> Apu {
        let a = Apu { frame: self.frame.ticked(), ..self }.frame_clocked(self.frame.clocks());
        let cycles = if self.cycles == u64::MAX { 0 } else { (self.cycles + 1) as u64 };
        if cycles % 2 == 0 {
            Apu {
                cycles,
                pulse1: a.pulse1.ticked(),
                pulse2: a.pulse2.ticked(),
                noise: a.noise.ticked(),
                dmc: a.dmc.ticked(),
                triangle: a.triangle.ticked(),
                ..a
            }
        } else {
            Apu { cycles, triangle: a.triangle.ticked(), ..a }
        }
    }

    /// The unit one CPU cycle later: the channels tick, and the mixer's
    /// amplitude goes to the resampler.
    #[verifier::opaque]
    pub open spec fn ticked(self) -> Apu {
        let a = self.channels_ticked();
        Apu { resampler: a.resampler.sample_added(a.mixed() as u16), ..a }
    }

    /// What `$4015` shows: bit 7 the delta modulation interrupt, bit 6 the
    /// frame interrupt, bits 0-4 which channels still play.
    pub open spec fn status_value(self) -> u8 {
        ((if self.dmc.irq_level { 128int } else { 0 }) + (if self.frame.irq_level { 64int } else { 0 })
            + (if self.dmc.sample_remain > 0 { 16int } else { 0 }) + (if self.noise.len_counter.counter
            > 0 { 8int } else { 0 }) + (if self.triangle.len_counter.counter > 0 { 4int } else { 0 })
            + (if self.pulse2.len_counter.counter > 0 { 2int } else { 0 }) + (
        if self.pulse1.len_counter.counter > 0 { 1int } else { 0 })) as u8
    }

    /// What a read of `addr` returns.
    #[verifier::opaque]
    pub open spec fn reg_value(self, addr: u16) -> u8 {
        if addr == 0x4015 {
            self.status_value()
        } else {
            0
        }
    }

    /// The unit after a read of `addr`: reading `$4015` lowers the frame
    /// interrupt.
    #[verifier::opaque]
    pub open spec fn reg_read(self, addr: u16) -> Apu {
        if addr == 0x4015 {
            Apu { frame: FrameCounter { irq_level: false, ..self.frame }, ..self }
        } else {
            self
        }
    }

    /// The unit after a write of `data` to `addr`. `$4000-$4013` are the
    /// channels' registers, four each; `$4015` switches channels on and
    /// off; `$4017` loads the frame sequencer and, with bit 7 set, clocks
    /// lengths and envelopes at once.
    #[verifier::opaque]
    pub open spec fn written(self, addr: u16, data: u8) -> Apu {
        if 0x4000 <= addr < 0x4004 {
            Apu { pulse1: self.pulse1.written(addr - 0x4000, data), ..self }
        } else if 0x4004 <= addr < 0x4008 {
            Apu { pulse2: self.pulse2.written(addr - 0x4004, data), ..self }
        } else if 0x4008 <= addr < 0x400c {
            Apu { triangle: self.triangle.written(addr - 0x4008, data), ..self }
        } else if 0x400c <= addr < 0x4010 {
            Apu { noise: self.noise.written(addr - 0x400c, data), ..self }
        } else if 0x4010 <= addr < 0x4014 {
            Apu { dmc: self.dmc.written(addr - 0x4010, data), ..self }
        } else if addr == 0x4015 {
            Apu {
                dmc: self.dmc.enabled_as(bit_at(data as int, 4)),
                noise: Noise {
                    len_counter: self.noise.len_counter.enabled_as(bit_at(data as int, 3)),
                    ..self.noise
                },
                triangle: Triangle {
                    len_counter: self.triangle.len_counter.enabled_as(bit_at(data as int, 2)),
                    ..self.triangle
                },
                pulse2: Pulse {
                    len_counter: self.pulse2.len_counter.enabled_as(bit_at(data as int, 1)),
                    ..self.pulse2
                },
                pulse1: Pulse {
                    len_counter: self.pulse1.len_counter.enabled_as(bit_at(data as int, 0)),
                    ..self.pulse1
                },
                ..self
            }
        } else if addr == 0x4017 {
            let a = Apu { frame: self.frame.loaded(data), ..self };
            if bit_at(data as int, 7) {
                a.frame_clocked(Step::both())
            } else {
                a
            }
        } else {
            self
        }
    }

    /// The unit after a reset: all channels off, the resampler empty.
    pub open spec fn reset_state(self) -> Apu {
        let a = self.written(0x4015, 0);
        Apu { resampler: a.resampler.cleared(), ..a }
    }

    /// Whether the frame sequencer or delta modulation asks for an
    /// interrupt.
    pub open spec fn irq_pending(self) -> bool {
        self.frame.irq_level || self.dmc.irq_level
    }

    /// The unit at power-on: all channels silent and switched through,
    /// the resampler empty with room for 4096 samples.
    pub open spec fn initial() -> Apu {
        Apu {
            frame: FrameCounter::initial(),
            pulse1: Pulse::initial(false),
            pulse2: Pulse::initial(true),
            triangle: Triangle::initial(),
            noise: Noise::initial(),
            dmc: Dmc::initial(),
            cycles: 0,
            resampler: Resampler::empty(4096),
            channel_ctrl: [true, true, true, true, true],
        }
    }

    pub fn new() -> (a: Self)
        ensures
            a == Apu::initial(),
    {
        Apu {
            frame: FrameCounter::new(),
            pulse1: Pulse::new(false),
            pulse2: Pulse::new(true),
            triangle: Triangle::new(),
            noise: Noise::new(),
            dmc: Dmc::new(),
            cycles: 0,
            resampler: Resampler::new(4096),
            channel_ctrl: [true, true, true, true, true],
        }
    }

    fn frame_tick(&mut self, step: Step)
        ensures
            *final(self) == old(self).frame_clocked(step),
    {
        if step.length {
            self.pulse1.tick_len();
            self.pulse2.tick_len();
            self.triangle.tick_len();
            self.noise.tick_len();
            self.dmc.tick_len();
        }
        if step.envelope {
            self.pulse1.tick_eve();
            self.pulse2.tick_eve();
            self.triangle.tick_eve();
            self.noise.tick_eve();
            self.dmc.tick_eve();
        }
    }

    /// The mixer's amplitude for the channels' current outputs.
    fn mix(&self) -> (r: u16)
        ensures
            r == self.mixed(),
    {
        let first: u16 = if self.channel_ctrl[0] { self.pulse1.sample() as u16 } else { 0 };
        let second: u16 = if self.channel_ctrl[1] { self.pulse2.sample() as u16 } else { 0 };
        let t: u16 = if self.channel_ctrl[2] { self.triangle.sample() as u16 } else { 0 };
        let n: u16 = if self.channel_ctrl[3] { self.noise.sample() as u16 } else { 0 };
        let d: u16 = if self.channel_ctrl[4] { self.dmc.sample() as u16 } else { 0 };
        mix_pulse(first + second) + mix_tnd(3 * t + 2 * n + d)
    }

    pub fn tick(&mut self)
        ensures
            *final(self) == old(self).ticked(),
    {
        reveal(Apu::ticked);
        let step = self.frame.tick();
        self.frame_tick(step);
        self.cycles = if self.cycles == u64::MAX { 0 } else { self.cycles + 1 };
        if self.cycles % 2 == 0 {
            self.pulse1.tick();
            self.pulse2.tick();
            self.noise.tick();
            self.dmc.tick();
        }
        self.triangle.tick();
        let level: u16 = self.mix();
        self.resampler.add_sample(level);
    }

    /// Reads the interrupt lines and lowers that of the frame sequencer.
    pub fn poll_irq(&mut self) -> (r: bool)
        ensures
            r == old(self).irq_pending(),
            *final(self) == (Apu {
                frame: FrameCounter { irq_level: false, ..old(self).frame },
                ..*old(self)
            }),
    {
        let f: bool = self.frame.irq();
        let d: bool = self.dmc.irq();
        f || d
    }

    /// Takes the pending request for a sample byte, if there is one.
    pub fn dmc_request(&mut self) -> (r: Option<u16>)
        ensures
            r == old(self).dmc.sample_request,
            *final(self) == (Apu {
                dmc: Dmc { sample_request: None, ..old(self).dmc },
                ..*old(self)
            }),
    {
        self.dmc.read_sample()
    }

    /// Hands delta modulation the sample byte it asked for.
    pub fn dmc_response(&mut self, data: u8)
        ensures
            *final(self) == (Apu {
                dmc: Dmc { bits_shifter: data, bits_remain: 8, ..old(self).dmc },
                ..*old(self)
            }),
    {
        self.dmc.write_sample(data);
    }

    pub fn reset(&mut self)
        ensures
            *final(self) == old(self).reset_state(),
    {
        self.write(0x4015, 0x00);
        self.resampler.clear();
    }

    /// What a read of `addr` would return, without the read's effects.
    pub fn peek(&self, addr: u16) -> (r: u8)
        ensures
            r == self.reg_value(addr),
    {
        reveal(Apu::reg_value);
        if addr == 0x4015 {
            let mut data: u8 = 0;
            data = set_bit_u8(data, 7, self.dmc.irq());
            data = set_bit_u8(data, 6, self.frame.irq_level);
            data = set_bit_u8(data, 4, self.dmc.enabled());
            data = set_bit_u8(data, 3, self.noise.enabled());
            data = set_bit_u8(data, 2, self.triangle.enabled());
            data = set_bit_u8(data, 1, self.pulse2.enabled());
            data = set_bit_u8(data, 0, self.pulse1.enabled());
            data
        } else {
            0
        }
    }

    pub fn read(&mut self, addr: u16) -> (r: u8)
        ensures
            r == old(self).reg_value(addr),
            *final(self) == old(self).reg_read(addr),
    {
        reveal(Apu::reg_value);
        reveal(Apu::reg_read);
        let r: u8 = self.peek(addr);
        if addr == 0x4015 {
            self.frame.irq();
        }
        r
    }

    pub fn write(&mut self, addr: u16, data: u8)
        ensures
            *final(self) == old(self).written(addr, data),
    {
        reveal(Apu::written);
        if addr == 0x4000 {
            self.pulse1.write_reg0(data);
        } else if addr == 0x4001 {
            self.pulse1.write_reg1(data);
        } else if addr == 0x4002 {
            self.pulse1.write_reg2(data);
        } else if addr == 0x4003 {
            self.pulse1.write_reg3(data);
        } else if addr == 0x4004 {
            self.pulse2.write_reg0(data);
        } else if addr == 0x4005 {
            self.pulse2.write_reg1(data);
        } else if addr == 0x4006 {
            self.pulse2.write_reg2(data);
        } else if addr == 0x4007 {
            self.pulse2.write_reg3(data);
        } else if addr == 0x4008 {
            self.triangle.write_reg0(data);
        } else if addr == 0x4009 {
            self.triangle.write_reg1(data);
        } else if addr == 0x400a {
            self.triangle.write_reg2(data);
        } else if addr == 0x400b {
            self.triangle.write_reg3(data);
        } else if addr == 0x400c {
            self.noise.write_reg0(data);
        } else if addr == 0x400d {
            self.noise.write_reg1(data);
        } else if addr == 0x400e {
            self.noise.write_reg2(data);
        } else if addr == 0x400f {
            self.noise.write_reg3(data);
        } else if addr == 0x4010 {
            self.dmc.write_reg0(data);
        } else if addr == 0x4011 {
            self.dmc.write_reg1(data);
        } else if addr == 0x4012 {
            self.dmc.write_reg2(data);
        } else if addr == 0x4013 {
            self.dmc.write_reg3(data);
        } else if addr == 0x4015 {
            self.dmc.set_enable(get_bit_u8(data, 4));
            self.noise.set_enable(get_bit_u8(data, 3));
            self.triangle.set_enable(get_bit_u8(data, 2));
            self.pulse2.set_enable(get_bit_u8(data, 1));
            self.pulse1.set_enable(get_bit_u8(data, 0));
        } else if addr == 0x4017 {
            self.frame.load(data);
            if get_bit_u8(data, 7) {
                self.frame_tick(Step { length: true, envelope: true });
            }
        }
    }

    /// Switches pulse 1, pulse 2, triangle, noise and delta modulation
    /// through to the mixer or cuts them off.
    pub fn set_channels(&mut self, states: &[bool; 5])
        ensures
            *final(self) == (Apu { channel_ctrl: *states, ..*old(self) }),
    {
        self.channel_ctrl = *states;
    }
}

impl Apu {
    /// The unit `n` CPU cycles later, left to itself.
    pub open spec fn ticks(self, n: nat) -> Apu
        decreases n,
    {
        if n == 0 {
            self
        } else {
            self.ticked().ticks((n - 1) as nat)
        }
    }

    /// Whether delta modulation plays no sample and asks for no byte.
    pub open spec fn dmc_quiet(self) -> bool {
        self.dmc.sample_remain == 0 && self.dmc.sample_request is None
    }
}

/// A reset of a sound unit that was just reset changes nothing.
pub proof fn lemma_reset_idempotent(apu: Apu)
    ensures
        apu.reset_state().reset_state() == apu.reset_state(),
{
    reveal(Apu::written);
}

/// A tick leaves delta modulation quiet if it was quiet.
pub proof fn lemma_tick_keeps_dmc_quiet(apu: Apu)
    requires
        apu.dmc_quiet(),
    ensures
        apu.ticked().dmc_quiet(),
{
    reveal(Apu::ticked);
}

} // verus!
