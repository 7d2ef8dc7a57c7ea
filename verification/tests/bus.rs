use les_nes::bus::dma::Dma;
use les_nes::bus::joystick::{InputStates, Joystick};
use les_nes::bus::Bus;
use les_nes::cart::Cartridge;
use les_nes::cpu::Cpu;

fn machine(program: &[u8]) -> (Cpu, Bus) {
    let mut bus = Bus::new(Cartridge::empty());
    for (i, b) in program.iter().enumerate() {
        bus.ram[0x200 + i] = *b;
    }
    let mut cpu = Cpu::default();
    cpu.pc = 0x200;
    (cpu, bus)
}

fn step(cpu: &mut Cpu, bus: &mut Bus) {
    if let Err(e) = bus.exec(cpu) {
        panic!("processor halted: {:?}", e);
    }
}

#[test]
fn ram_repeats_every_2_kb() {
    let mut bus = Bus::new(Cartridge::empty());
    bus.write(0x0001, 0x11);
    bus.write(0x0fff, 0x22);
    bus.write(0x1800, 0x33);
    assert_eq!(bus.inspect(0x0001), 0x11);
    assert_eq!(bus.inspect(0x0801), 0x11);
    assert_eq!(bus.inspect(0x1801), 0x11);
    assert_eq!(bus.inspect(0x07ff), 0x22);
    assert_eq!(bus.inspect(0x0000), 0x33);
    assert_eq!(bus.read(0x1001), 0x11);
    assert_eq!(bus.ram[0x7ff], 0x22);
}

#[test]
fn every_access_takes_a_cycle() {
    let mut bus = Bus::new(Cartridge::empty());
    assert_eq!(bus.cycles(), 0);
    bus.tick();
    assert_eq!(bus.cycles(), 1);
    bus.read(0x0000);
    bus.write(0x0000, 1);
    assert_eq!(bus.cycles(), 3);
    bus.inspect(0x0000);
    assert_eq!(bus.cycles(), 3);
    bus.cycles = u64::MAX - 1;
    bus.tick();
    bus.tick();
    assert_eq!(bus.cycles(), u64::MAX);
}

#[test]
fn units_keep_step_with_the_cpu() {
    let mut bus = Bus::new(Cartridge::empty());
    for _ in 0..100 {
        bus.tick();
    }
    assert_eq!(bus.cycles(), 100);
    assert_eq!(bus.apu.cycles, 100);
    assert_eq!(bus.apu.resampler.clocks, 100);
    assert_eq!(bus.ppu.timing(), (0, 300));
    for _ in 0..100 {
        bus.read(0x0000);
    }
    assert_eq!(bus.ppu.timing(), (1, 259));
    assert_eq!(bus.apu.cycles, 200);
}

#[test]
fn sample_fetch_lets_the_picture_unit_run_on() {
    let mut bus = Bus::new(Cartridge::empty());
    bus.write(0x4012, 0xfc);
    bus.write(0x4013, 0x00);
    bus.write(0x4015, 0x10);
    let cycles = bus.cycles();
    let (line, dot) = bus.ppu.timing();
    bus.tick();
    bus.tick();
    assert_eq!(bus.cycles(), cycles + 2);
    // one of the two cycles carried the fetch: 3 + 6 dots
    assert_eq!(bus.ppu.timing(), (line, dot + 9));
    // the byte at $FF00 of the empty cartridge
    assert_eq!(bus.apu.dmc.bits_shifter, 0x4c);
    assert_eq!(bus.apu.dmc.bits_remain, 8);
    assert_eq!(bus.apu.dmc.sample_request, None);
}

#[test]
fn registers_of_the_picture_unit_repeat_every_8_bytes() {
    let mut bus = Bus::new(Cartridge::empty());
    bus.write(0x3ff9, 0x1e);
    assert_eq!(bus.ppu.mask.0, 0x1e);
    bus.write(0x2006, 0x3f);
    bus.write(0x200e, 0x00);
    bus.write(0x2007, 0x2c);
    assert_eq!(bus.ppu.palettes[0], 0x2c);
    bus.ppu.status.set_vblank(true);
    assert_eq!(bus.inspect(0x2002) & 0x80, 0x80);
    assert_eq!(bus.read(0x3ffa) & 0x80, 0x80);
    assert_eq!(bus.inspect(0x2002) & 0x80, 0x00);
}

#[test]
fn io_registers_and_cartridge_space() {
    let mut bus = Bus::new(Cartridge::empty());
    bus.write(0x4018, 0x12);
    bus.write(0x401f, 0x34);
    assert_eq!(bus.inspect(0x4018), 0x12);
    assert_eq!(bus.read(0x401f), 0x34);
    assert_eq!(bus.io_regs[0x18], 0x12);
    bus.write(0x6123, 0x56);
    assert_eq!(bus.inspect(0x6123), 0x56);
    assert_eq!(bus.cart.prg_ram[0x123], 0x56);
    assert_eq!(bus.inspect(0xff00), 0x4c);
    assert_eq!(bus.inspect(0x4014), 0x00);
    assert_eq!(bus.inspect(0x4000), 0x00);
}

#[test]
fn sound_registers_are_reached() {
    let mut bus = Bus::new(Cartridge::empty());
    bus.write(0x4015, 0x01);
    bus.write(0x4003, 0x08);
    assert_eq!(bus.inspect(0x4015) & 1, 1);
    bus.write(0x4017, 0x80);
    assert_eq!(bus.apu.frame.step, 0);
    bus.apu.frame.irq_level = true;
    assert_eq!(bus.inspect(0x4015) & 0x40, 0x40);
    assert_eq!(bus.read(0x4015) & 0x40, 0x40);
    assert_eq!(bus.inspect(0x4015) & 0x40, 0x00);
    bus.set_audio_control(&[false, false, true, false, false]);
    assert_eq!(bus.apu.channel_ctrl, [false, false, true, false, false]);
}

#[test]
fn controller_shift_out() {
    let mut bus = Bus::new(Cartridge::empty());
    bus.set_input0(InputStates {
        a: true,
        b: false,
        select: false,
        start: false,
        up: true,
        down: false,
        left: false,
        right: false,
    });
    bus.write(0x4016, 1);
    bus.write(0x4016, 0);
    let mut bits = Vec::new();
    for _ in 0..8 {
        let v = bus.read(0x4016);
        assert_eq!(v & 0x40, 0x40);
        bits.push(v & 1);
    }
    assert_eq!(bits, vec![1, 0, 0, 0, 1, 0, 0, 0]);
    // behind the eighth button the port reads 1
    assert_eq!(bus.read(0x4016), 0x41);
    assert_eq!(bus.read(0x4016), 0x41);
}

#[test]
fn second_controller_and_strobe() {
    let mut pad = Joystick::new();
    let mut all = InputStates::default();
    assert_eq!(all.to_u8(), 0xff);
    all.b = true;
    all.right = true;
    assert_eq!(all.to_u8(), 0b0111_1101);
    pad.set_input1(all);
    pad.write(0x4016, 1);
    // while the strobe is high every read shows the first button
    assert_eq!(pad.read(0x4017), 0x40);
    assert_eq!(pad.read(0x4017), 0x40);
    assert_eq!(pad.peek(0x4016), 0x40);
    pad.write(0x4016, 0);
    let bits: Vec<u8> = (0..8).map(|_| pad.read(0x4017) & 1).collect();
    assert_eq!(bits, vec![0, 1, 0, 0, 0, 0, 0, 1]);
    // a write to the second port is not a strobe
    pad.write(0x4017, 1);
    assert!(pad.reading);
    // peeking does not shift
    pad.set_input0(all);
    pad.write(0x4016, 1);
    pad.write(0x4016, 0);
    assert_eq!(pad.peek(0x4016), 0x40);
    assert_eq!(pad.peek(0x4016), 0x40);
    assert_eq!(pad.read(0x4016), 0x40);
    assert_eq!(pad.peek(0x4016), 0x41);
}

#[test]
fn dma_unit_counts_256_bytes() {
    let mut even = Dma::new();
    assert!(!even.active());
    even.start(10, 0x03);
    assert!(even.active());
    assert_eq!(even.tick(), None);
    assert_eq!(even.tick(), Some(0x0300));
    assert_eq!(even.tick(), Some(0x0301));
    for _ in 0..253 {
        even.tick();
    }
    assert!(even.active());
    assert_eq!(even.tick(), Some(0x03ff));
    assert!(!even.active());
    let mut odd = Dma::new();
    odd.start(11, 0xff);
    assert_eq!(odd.tick(), None);
    assert_eq!(odd.tick(), None);
    assert_eq!(odd.tick(), Some(0xff00));
    odd.reset();
    assert!(!odd.active());
}

fn dma_cycles(program: &[u8], steps_before: usize) -> (u64, u64, Bus) {
    let (mut cpu, mut bus) = machine(program);
    for i in 0..256usize {
        bus.ram[0x300 + i] = i as u8 ^ 0x5a;
    }
    for _ in 0..steps_before {
        step(&mut cpu, &mut bus);
    }
    assert!(bus.dma.active());
    let at_write = bus.cycles();
    let pc = cpu.pc;
    while bus.dma.active() {
        step(&mut cpu, &mut bus);
        assert_eq!(cpu.pc, pc);
    }
    (at_write, bus.cycles() - at_write, bus)
}

#[test]
fn oam_dma_timing() {
    // LDA #$03; STA $4014
    let (at_write, taken, bus) = dma_cycles(&[0xa9, 0x03, 0x8d, 0x14, 0x40, 0xea], 2);
    assert_eq!(at_write, 6);
    assert_eq!(taken, 513);
    for i in 0..256usize {
        assert_eq!(bus.ppu.oam[i], i as u8 ^ 0x5a);
    }
    // LDA $10; LDA #$03; STA $4014
    let (at_write, taken, bus) = dma_cycles(&[0xa5, 0x10, 0xa9, 0x03, 0x8d, 0x14, 0x40, 0xea], 3);
    assert_eq!(at_write, 9);
    assert_eq!(taken, 514);
    assert_eq!(bus.ppu.oam[255], 255 ^ 0x5a);
}

#[test]
fn nmi_is_served_behind_the_instruction() {
    let (mut cpu, mut bus) = machine(&[0xea, 0xea]);
    cpu.sp = 0xff;
    cpu.p.c = true;
    cpu.p.i = false;
    bus.ppu.nmi = true;
    step(&mut cpu, &mut bus);
    assert_eq!(bus.cycles(), 2 + 7);
    assert!(!bus.ppu.nmi);
    assert_eq!(cpu.pc, 0x0000);
    assert_eq!(cpu.sp, 0xfc);
    assert!(cpu.p.i);
    assert_eq!(bus.ram[0x1ff], 0x02);
    assert_eq!(bus.ram[0x1fe], 0x01);
    assert_eq!(bus.ram[0x1fd], 0b0010_0001);
}

#[test]
fn irq_waits_for_the_mask() {
    let (mut cpu, mut bus) = machine(&[0xea, 0x58, 0xea]);
    bus.apu.dmc.irq_level = true;
    assert!(cpu.interrupt_disabled());
    step(&mut cpu, &mut bus);
    assert_eq!(cpu.pc, 0x0201);
    assert_eq!(bus.cycles(), 2);
    // CLI opens the mask; the interrupt follows at once
    step(&mut cpu, &mut bus);
    assert_eq!(bus.cycles(), 4 + 7);
    assert_eq!(cpu.pc, 0x0000);
    assert!(cpu.p.i);
    assert_eq!(bus.ram[0x1fd], 0x02);
    assert_eq!(bus.ram[0x1fc], 0x02);
    assert_eq!(bus.ram[0x1fb], 0b0010_0000);
}

#[test]
fn frame_interrupt_is_lowered_when_it_is_served() {
    let (mut cpu, mut bus) = machine(&[0xea, 0xea]);
    cpu.p.i = false;
    bus.apu.frame.irq_level = true;
    step(&mut cpu, &mut bus);
    assert!(!bus.apu.frame.irq_level);
    assert_eq!(cpu.pc, 0x0000);
    assert_eq!(bus.cycles(), 9);
}

#[test]
fn empty_cartridge() {
    let mut bus = Bus::new(Cartridge::empty());
    let mut cpu = Cpu::default();
    bus.reset(&mut cpu);
    assert_eq!(cpu.pc, 0xff00);
    assert_eq!(bus.cycles(), 7);
    assert_eq!(cpu.sp, 0xfa);
    for _ in 0..1000 {
        step(&mut cpu, &mut bus);
        assert_eq!(cpu.pc, 0xff00);
    }
    assert_eq!(bus.cycles(), 7 + 3000);
}

#[test]
fn reset_twice_is_reset_once_for_cpu_memory_and_picture() {
    let (mut cpu, mut bus) = machine(&[0xa9, 0x55, 0x85, 0x10, 0x8d, 0x01, 0x20]);
    for _ in 0..3 {
        step(&mut cpu, &mut bus);
    }
    bus.reset(&mut cpu);
    let once = (cpu, bus.ram, bus.cycles(), bus.ppu.timing(), bus.ppu.mask, bus.ppu.v, bus.dma);
    bus.reset(&mut cpu);
    let twice = (cpu, bus.ram, bus.cycles(), bus.ppu.timing(), bus.ppu.mask, bus.ppu.v, bus.dma);
    assert_eq!(once, twice);
    assert_eq!(bus.cycles(), 7);
    assert_eq!(bus.ppu.timing(), (0, 21));
    assert_eq!(bus.ram[0x10], 0x55);
    assert_eq!(bus.ppu.mask.0, 0x55);
    let mut other = cpu;
    other.reset(&mut bus);
    assert_eq!(other, cpu);
}

#[test]
fn run_until_reaches_the_cycle_count() {
    let mut bus = Bus::new(Cartridge::empty());
    let mut cpu = Cpu::default();
    bus.reset(&mut cpu);
    let (steps, halted) = bus.run_until(&mut cpu, 100);
    assert_eq!(halted, None);
    assert_eq!(steps, 31);
    assert_eq!(bus.cycles(), 100);
    let (steps, halted) = bus.run_until(&mut cpu, 100);
    assert_eq!((steps, halted), (0, None));
    let (steps, _) = bus.run_until(&mut cpu, 101);
    assert_eq!(steps, 1);
    assert_eq!(bus.cycles(), 103);
}

#[test]
fn cartridge_can_be_changed() {
    let mut bus = Bus::new(Cartridge::empty());
    let mut data = vec![0x4e, 0x45, 0x53, 0x1a, 1, 1, 0, 0];
    data.extend([0u8; 8]);
    data.extend(vec![0xeau8; 0x4000]);
    data.extend(vec![0u8; 0x2000]);
    let cart = match Cartridge::load(&data) {
        Ok(c) => c,
        Err(e) => panic!("image turned down: {:?}", e),
    };
    bus.load_cart(cart);
    assert_eq!(bus.inspect(0x8000), 0xea);
    assert_eq!(bus.inspect(0xfffc), 0xea);
}
