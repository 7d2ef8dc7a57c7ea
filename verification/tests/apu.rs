use les_nes::apu::dmc::Dmc;
use les_nes::apu::noise::Noise;
use les_nes::apu::pulse::Pulse;
use les_nes::apu::triangle::Triangle;
use les_nes::apu::units::divider::Divider;
use les_nes::apu::units::envelope::Envelope;
use les_nes::apu::units::frame::{FrameCounter, Mode, Step};
use les_nes::apu::units::lencounter::LengthCounter;
use les_nes::apu::units::sweep::Sweep;
use les_nes::apu::{mix_pulse, mix_tnd, Apu};

#[test]
fn divider_fires_every_period() {
    let mut d = Divider::new();
    d.set_period(3);
    assert_eq!(d.period(), 3);
    assert!(d.tick());
    assert_eq!(d.count(), 3);
    assert!(!d.tick());
    assert!(!d.tick());
    assert!(d.tick());
    assert_eq!(d.count(), 3);
    d.tick();
    d.reset();
    assert_eq!(d.count(), 3);
}

#[test]
fn divider_period_from_registers() {
    let mut d = Divider::new();
    d.set_raw_period(0x1234);
    assert_eq!((d.period, d.raw_period), (0x1235, 0x1234));
    d.set_period_low(0xab);
    assert_eq!((d.period, d.raw_period), (0x12ac, 0x12ab));
    d.set_period_high(0xfd);
    assert_eq!((d.period, d.raw_period), (0x05ac, 0x05ab));
    d.raw_period = 0x12_3456;
    d.set_period_low(0x01);
    assert_eq!(d.raw_period, 0x3401);
}

#[test]
fn length_counter_loads_from_its_table() {
    let mut c = LengthCounter::new();
    c.load(0x08);
    assert_eq!(c.count(), 0);
    c.set_enable(true);
    c.load(0x08);
    assert_eq!(c.counter, 0xfe);
    c.load(0x18);
    assert_eq!(c.counter, 0x02);
    c.load(0xff);
    assert_eq!(c.counter, 0x1e);
    c.load(0x00);
    assert_eq!(c.counter, 0x0a);
    assert_eq!(c.count(), 1);
}

#[test]
fn length_counter_counts_down_unless_halted() {
    let mut c = LengthCounter::new();
    c.set_enable(true);
    c.load(0x18);
    c.tick();
    assert_eq!(c.counter, 1);
    c.set_halt(true);
    c.tick();
    assert_eq!(c.counter, 1);
    c.set_halt(false);
    c.tick();
    c.tick();
    assert_eq!(c.counter, 0);
    assert_eq!(c.count(), 0);
    c.load(0x18);
    c.set_enable(false);
    assert_eq!(c.counter, 0);
}

#[test]
fn envelope_constant_volume() {
    let mut e = Envelope::new();
    e.load(0b01_1011);
    assert_eq!(e.volume(), 11);
    assert!(e.constant);
    assert!(!e.looping);
    e.restart();
    e.tick();
    assert_eq!(e.volume(), 11);
}

#[test]
fn envelope_decays_and_loops() {
    let mut e = Envelope::new();
    e.load(0b10_0001);
    assert_eq!(e.divider.period, 2);
    e.restart();
    e.tick();
    assert_eq!(e.volume(), 15);
    e.tick();
    assert_eq!(e.volume(), 15);
    e.tick();
    assert_eq!(e.volume(), 14);
    for _ in 0..28 {
        e.tick();
    }
    assert_eq!(e.volume(), 0);
    e.tick();
    e.tick();
    assert_eq!(e.volume(), 15);
    let mut once = Envelope::new();
    once.load(0b00_0000);
    once.restart();
    for _ in 0..40 {
        once.tick();
    }
    assert_eq!(once.volume(), 0);
}

#[test]
fn sweep_finds_its_target() {
    let mut timer = Divider::new();
    timer.set_raw_period(0x100);
    let mut up = Sweep::new(0);
    up.load(0b1000_0010);
    up.sweep(&timer);
    assert_eq!(up.shifter, 0x140);
    assert!(!up.muting());

    let mut first = Sweep::new(1);
    first.load(0b1000_1010);
    first.sweep(&timer);
    assert_eq!(first.shifter, 0x0bf);
    let mut second = Sweep::new(0);
    second.load(0b1000_1010);
    second.sweep(&timer);
    assert_eq!(second.shifter, 0x0c0);
}

#[test]
fn sweep_mutes_at_the_ends() {
    let mut low = Divider::new();
    low.set_raw_period(7);
    let mut s = Sweep::new(0);
    s.load(0b1000_0001);
    s.sweep(&low);
    assert!(s.muting());
    let mut high = Divider::new();
    high.set_raw_period(0x600);
    s.sweep(&high);
    assert_eq!(s.shifter, 0x900);
    assert!(s.muting());
    let mut fine = Divider::new();
    fine.set_raw_period(0x400);
    s.load(0b1000_0010);
    s.sweep(&fine);
    assert_eq!(s.shifter, 0x500);
    assert!(!s.muting());
}

#[test]
fn sweep_moves_the_timer() {
    let mut timer = Divider::new();
    timer.set_raw_period(0x100);
    let mut s = Sweep::new(0);
    s.load(0b1001_0001);
    // the first clock reloads the sweep's divider
    s.tick(&mut timer);
    assert_eq!(timer.raw_period, 0x180);
    assert_eq!(s.divider.counter, 1);
    s.tick(&mut timer);
    assert_eq!(timer.raw_period, 0x180);
    s.tick(&mut timer);
    assert_eq!(timer.raw_period, 0x180);
    // disabled: the target is still worked out, the timer stays
    let mut off = Sweep::new(0);
    off.load(0b0001_0001);
    let mut t2 = Divider::new();
    t2.set_raw_period(0x100);
    off.tick(&mut t2);
    assert_eq!(t2.raw_period, 0x100);
    assert_eq!(off.shifter, 0x180);
}

fn steps_until_clock(f: &mut FrameCounter) -> (u32, Step) {
    let mut n = 0;
    loop {
        n += 1;
        let s = f.tick();
        if s.length || s.envelope || n > 20000 {
            return (n, s);
        }
    }
}

#[test]
fn frame_counter_four_steps() {
    let mut f = FrameCounter::new();
    f.load(0x00);
    assert_eq!(f.mode, Mode::Step4);
    assert_eq!(steps_until_clock(&mut f), (7457, Step { length: true, envelope: true }));
    assert_eq!(steps_until_clock(&mut f), (7457, Step { length: false, envelope: true }));
    assert!(!f.irq_level);
    assert_eq!(steps_until_clock(&mut f), (7458, Step { length: true, envelope: true }));
    assert!(f.irq());
    assert!(!f.irq());
    assert_eq!(steps_until_clock(&mut f), (7457, Step { length: false, envelope: true }));
    assert_eq!(steps_until_clock(&mut f), (7457, Step { length: true, envelope: true }));
}

#[test]
fn frame_counter_interrupt_can_be_switched_off() {
    let mut f = FrameCounter::new();
    f.load(0x40);
    for _ in 0..3 {
        steps_until_clock(&mut f);
    }
    assert_eq!(f.step, 3);
    assert!(!f.irq());
    f.load(0x00);
    for _ in 0..3 {
        steps_until_clock(&mut f);
    }
    assert!(f.irq_level);
    f.load(0x40);
    assert!(!f.irq_level);
}

#[test]
fn frame_counter_five_steps() {
    let mut f = FrameCounter::new();
    f.load(0x80);
    assert_eq!(f.mode, Mode::Step5);
    // step 1
    assert_eq!(steps_until_clock(&mut f), (7457, Step { length: false, envelope: true }));
    // step 2
    assert_eq!(steps_until_clock(&mut f), (7457, Step { length: true, envelope: true }));
    // step 3 hands out nothing; step 4 follows two periods later
    assert_eq!(steps_until_clock(&mut f), (7458 + 7457, Step { length: false, envelope: true }));
    assert_eq!(f.step, 4);
    // step 0
    assert_eq!(steps_until_clock(&mut f), (7457, Step { length: true, envelope: true }));
    assert_eq!(f.step, 0);
    assert!(!f.irq());
}

#[test]
fn pulse_plays_its_duty_cycle() {
    let mut p = Pulse::new(false);
    p.set_enable(true);
    p.write_reg0(0b1011_1111);
    p.write_reg2(0x08);
    p.write_reg3(0x08);
    assert!(p.enabled());
    assert_eq!(p.duty, 2);
    assert_eq!(p.timer.period, 9);
    assert_eq!(p.sample(), 0);
    let mut seen = Vec::new();
    for _ in 0..8 {
        p.tick();
        seen.push(p.sample());
        for _ in 0..8 {
            p.tick();
        }
    }
    assert_eq!(seen, vec![15, 15, 15, 15, 0, 0, 0, 0]);
}

#[test]
fn pulse_is_silent_without_length_or_with_a_short_period() {
    let mut p = Pulse::new(false);
    p.write_reg0(0b1011_1111);
    p.write_reg2(0x08);
    p.write_reg3(0x08);
    p.tick();
    assert!(!p.enabled());
    assert_eq!(p.sample(), 0);
    let mut q = Pulse::new(true);
    q.set_enable(true);
    q.write_reg0(0b1011_1111);
    q.write_reg2(0x05);
    q.write_reg3(0x08);
    q.tick();
    assert_eq!(q.sample(), 15);
    q.tick_len();
    assert_eq!(q.sample(), 0);
}

#[test]
fn pulse_sweeps_differ_by_one_on_the_way_down() {
    let mut first = Pulse::new(false);
    let mut second = Pulse::new(true);
    for p in [&mut first, &mut second] {
        p.write_reg2(0x00);
        p.write_reg3(0x01);
        p.write_reg1(0b1000_1010);
        p.tick_len();
    }
    assert_eq!(first.timer.raw_period, 0x0bf);
    assert_eq!(second.timer.raw_period, 0x0c0);
}

#[test]
fn triangle_walks_down_and_up() {
    let mut t = Triangle::new();
    t.set_enable(true);
    t.write_reg0(0x7f);
    t.write_reg2(0x02);
    t.write_reg3(0x08);
    t.tick_eve();
    assert_eq!(t.linear_counter, 0x7f);
    assert_eq!(t.sample(), 15);
    let mut seen = Vec::new();
    for _ in 0..33 {
        t.tick();
        seen.push(t.sample());
        t.tick();
        t.tick();
    }
    let mut wave: Vec<u8> = (0..15).rev().collect();
    wave.extend(0..16u8);
    wave.extend([15, 14]);
    assert_eq!(seen, wave);
}

#[test]
fn triangle_stands_still_without_counters_or_with_a_short_period() {
    let mut t = Triangle::new();
    t.set_enable(true);
    t.write_reg0(0x7f);
    t.write_reg2(0x01);
    t.write_reg3(0x08);
    t.tick_eve();
    for _ in 0..10 {
        t.tick();
    }
    assert_eq!(t.step, 0);
    let mut u = Triangle::new();
    u.write_reg2(0x10);
    for _ in 0..100 {
        u.tick();
    }
    assert_eq!(u.step, 0);
}

#[test]
fn triangle_linear_counter() {
    let mut t = Triangle::new();
    t.write_reg0(0x03);
    t.write_reg3(0x00);
    assert!(t.linear_reload);
    t.tick_eve();
    assert_eq!(t.linear_counter, 3);
    assert!(!t.linear_reload);
    t.tick_eve();
    t.tick_eve();
    t.tick_eve();
    t.tick_eve();
    assert_eq!(t.linear_counter, 0);
    t.write_reg0(0x85);
    t.write_reg3(0x00);
    t.tick_eve();
    t.tick_eve();
    assert_eq!(t.linear_counter, 5);
    assert!(t.linear_reload);
}

#[test]
fn noise_shifts_its_register() {
    let mut n = Noise::new();
    n.write_reg2(0x00);
    assert_eq!(n.timer.period, 4);
    n.tick();
    assert_eq!(n.lfsr, 0x4000);
    n.tick();
    n.tick();
    n.tick();
    assert_eq!(n.lfsr, 0x4000);
    n.tick();
    assert_eq!(n.lfsr, 0x2000);
    n.lfsr = 0b11;
    n.timer.counter = 0;
    n.tick();
    assert_eq!(n.lfsr, 0b1);
    n.write_reg2(0x80);
    assert_eq!(n.bit_index, 6);
    n.lfsr = 0b100_0001;
    n.timer.counter = 0;
    n.tick();
    assert_eq!(n.lfsr, 0b10_0000);
    n.write_reg2(0x0f);
    assert_eq!(n.timer.period, 4068);
    assert_eq!(n.bit_index, 1);
}

#[test]
fn noise_plays_while_bit_0_is_clear() {
    let mut n = Noise::new();
    n.set_enable(true);
    n.write_reg0(0b01_1001);
    n.write_reg3(0x08);
    assert_eq!(n.sample(), 0);
    n.lfsr = 0b10;
    assert_eq!(n.sample(), 9);
    n.set_enable(false);
    assert_eq!(n.sample(), 0);
}

#[test]
fn dmc_asks_for_bytes_and_plays_bits() {
    let mut d = Dmc::new();
    d.write_reg0(0x0f);
    d.write_reg1(0xc0);
    d.write_reg2(0x10);
    d.write_reg3(0x01);
    assert_eq!(d.timer.period, 27);
    assert_eq!(d.sample(), 0x40);
    assert_eq!(d.sample_start_address, 0xc400);
    assert_eq!(d.sample_len, 17);
    assert!(!d.enabled());
    d.set_enable(true);
    assert!(d.enabled());
    d.tick();
    assert_eq!(d.read_sample(), Some(0xc400));
    assert_eq!(d.read_sample(), None);
    assert_eq!(d.sample_address, 0xc401);
    assert_eq!(d.sample_remain, 16);
    d.write_sample(0b0000_0101);
    assert_eq!(d.bits_remain, 8);
    d.tick();
    assert_eq!(d.read_sample(), None);
    assert_eq!(d.sample(), 0x40);
    // the timer fired on the first tick; it fires again 27 ticks later
    for _ in 0..26 {
        d.tick();
    }
    assert_eq!(d.sample(), 0x42);
    for _ in 0..27 {
        d.tick();
    }
    assert_eq!(d.sample(), 0x40);
    for _ in 0..27 {
        d.tick();
    }
    assert_eq!(d.sample(), 0x42);
    assert_eq!(d.bits_remain, 5);
}

#[test]
fn dmc_output_stays_in_range() {
    let mut d = Dmc::new();
    d.write_reg0(0x0f);
    d.write_reg1(0x7f);
    d.write_sample(0xff);
    for _ in 0..27 * 8 {
        d.tick();
    }
    assert_eq!(d.sample(), 127);
    d.write_reg1(0x01);
    d.write_sample(0x00);
    for _ in 0..27 * 8 {
        d.tick();
    }
    assert_eq!(d.sample(), 1);
    d.write_reg1(0x7d);
    d.write_sample(0x01);
    for _ in 0..27 {
        d.tick();
    }
    assert_eq!(d.sample(), 127);
}

#[test]
fn dmc_wraps_loops_and_interrupts() {
    let mut d = Dmc::new();
    d.sample_address = 0xffff;
    d.sample_remain = 2;
    d.tick();
    assert_eq!(d.read_sample(), Some(0xffff));
    assert_eq!(d.sample_address, 0x8000);
    d.write_reg0(0x80);
    d.tick();
    assert_eq!(d.read_sample(), Some(0x8000));
    assert_eq!(d.sample_remain, 0);
    assert!(d.irq());
    d.write_reg0(0x00);
    assert!(!d.irq());

    let mut l = Dmc::new();
    l.write_reg0(0x40);
    l.write_reg2(0x01);
    l.write_reg3(0x00);
    l.set_enable(true);
    l.tick();
    assert_eq!(l.read_sample(), Some(0xc040));
    assert_eq!(l.sample_remain, 1);
    assert_eq!(l.sample_address, 0xc040);
    assert!(!l.irq());
}

#[test]
fn mixer_levels() {
    assert_eq!(mix_pulse(0), 0);
    assert_eq!(mix_pulse(1), 380);
    assert_eq!(mix_pulse(15), 4876);
    assert_eq!(mix_pulse(30), 8438);
    assert_eq!(mix_pulse(31), 8438);
    assert_eq!(mix_tnd(0), 0);
    assert_eq!(mix_tnd(1), 220);
    assert_eq!(mix_tnd(45), 8371);
    assert_eq!(mix_tnd(100), 15622);
    assert_eq!(mix_tnd(202), 24328);
    assert_eq!(mix_tnd(1000), 24328);
    for n in 1..=30u16 {
        let exact = 95.52 / (8128.0 / n as f64 + 100.0) * 32767.0;
        assert!((mix_pulse(n) as f64 - exact).abs() <= 0.5);
    }
    for n in 1..=202u16 {
        let exact = 163.67 / (24329.0 / n as f64 + 100.0) * 32767.0;
        assert!((mix_tnd(n) as f64 - exact).abs() <= 0.5);
    }
}

#[test]
fn apu_feeds_the_resampler_every_cycle() {
    let mut apu = Apu::new();
    apu.tick();
    // the triangle rests at 15: 3 * 15 = 45
    assert_eq!(apu.resampler.last_sample, 8371);
    assert_eq!(apu.resampler.clocks, 1);
    assert_eq!(apu.cycles, 1);
    apu.set_channels(&[true, true, false, true, true]);
    apu.tick();
    assert_eq!(apu.resampler.last_sample, 0);
    assert_eq!(apu.resampler.clocks, 2);
}

#[test]
fn apu_mixes_what_is_switched_through() {
    let mut apu = Apu::new();
    apu.write(0x4015, 0x01);
    apu.write(0x4000, 0b1011_1111);
    apu.write(0x4002, 0x08);
    apu.write(0x4003, 0x08);
    apu.write(0x4011, 0x20);
    apu.tick();
    apu.tick();
    assert_eq!(apu.pulse1.sample(), 15);
    assert_eq!(apu.resampler.last_sample, mix_pulse(15) + mix_tnd(45 + 32));
    apu.set_channels(&[false, true, true, true, false]);
    apu.tick();
    assert_eq!(apu.resampler.last_sample, mix_tnd(45));
}

#[test]
fn apu_ticks_pulse_on_every_second_cycle() {
    let mut apu = Apu::new();
    apu.write(0x4002, 0x03);
    apu.tick();
    assert_eq!(apu.pulse1.timer.counter, 0);
    apu.tick();
    assert_eq!(apu.pulse1.timer.counter, 4);
    apu.tick();
    assert_eq!(apu.pulse1.timer.counter, 4);
    apu.tick();
    assert_eq!(apu.pulse1.timer.counter, 3);
}

#[test]
fn apu_status_register() {
    let mut apu = Apu::new();
    assert_eq!(apu.read(0x4015), 0);
    apu.write(0x4015, 0x0f);
    apu.write(0x4003, 0x08);
    apu.write(0x400b, 0x08);
    assert_eq!(apu.peek(0x4015), 0b0000_0101);
    apu.write(0x4007, 0x08);
    apu.write(0x400f, 0x08);
    assert_eq!(apu.peek(0x4015), 0b0000_1111);
    apu.write(0x4015, 0x02);
    assert_eq!(apu.peek(0x4015), 0b0000_0010);
    apu.write(0x4013, 0x01);
    apu.write(0x4015, 0x10);
    assert_eq!(apu.peek(0x4015), 0b0001_0000);
    apu.frame.irq_level = true;
    assert_eq!(apu.peek(0x4015), 0b0101_0000);
    assert_eq!(apu.read(0x4015), 0b0101_0000);
    assert_eq!(apu.read(0x4015), 0b0001_0000);
    assert_eq!(apu.read(0x4000), 0);
}

#[test]
fn apu_frame_register_clocks_at_once_in_five_step_mode() {
    let mut apu = Apu::new();
    apu.write(0x4015, 0x01);
    apu.write(0x4003, 0x18);
    assert_eq!(apu.pulse1.len_counter.counter, 2);
    apu.write(0x4017, 0x00);
    assert_eq!(apu.pulse1.len_counter.counter, 2);
    apu.write(0x4017, 0x80);
    assert_eq!(apu.pulse1.len_counter.counter, 1);
    assert_eq!(apu.frame.mode, Mode::Step5);
}

#[test]
fn apu_interrupts() {
    let mut apu = Apu::new();
    assert!(!apu.poll_irq());
    apu.frame.irq_level = true;
    assert!(apu.poll_irq());
    assert!(!apu.poll_irq());
    apu.dmc.irq_level = true;
    assert!(apu.poll_irq());
    assert!(apu.poll_irq());
    apu.write(0x4015, 0x00);
    assert!(!apu.poll_irq());
}

#[test]
fn apu_hands_sample_bytes_to_delta_modulation() {
    let mut apu = Apu::new();
    apu.write(0x4012, 0x00);
    apu.write(0x4013, 0x00);
    apu.write(0x4015, 0x10);
    assert_eq!(apu.dmc_request(), None);
    apu.tick();
    apu.tick();
    assert_eq!(apu.dmc_request(), Some(0xc000));
    assert_eq!(apu.dmc_request(), None);
    apu.dmc_response(0xa5);
    assert_eq!(apu.dmc.bits_shifter, 0xa5);
    assert_eq!(apu.dmc.bits_remain, 8);
}

#[test]
fn apu_reset_silences_and_empties() {
    let mut apu = Apu::new();
    apu.write(0x4015, 0x1f);
    apu.write(0x4003, 0x08);
    for _ in 0..10 {
        apu.tick();
    }
    apu.reset();
    assert_eq!(apu.peek(0x4015), 0);
    assert_eq!(apu.resampler.clocks, 0);
    assert_eq!(apu.resampler.last_sample, 0);
    assert_eq!(apu.resampler.avail(), 0);
    let frame = apu.frame;
    let cycles = apu.cycles;
    apu.reset();
    assert_eq!(apu.frame, frame);
    assert_eq!(apu.cycles, cycles);
    assert_eq!(apu.peek(0x4015), 0);
}
