use les_nes::bus::Bus;
use les_nes::cart::Cartridge;
use les_nes::cpu::addressing::{AddrMode, ADDR_MODES};
use les_nes::cpu::op_code::{decode, extra_cycles, Op, BASE_CYCLES, OPS};
use les_nes::cpu::status::Status;
use les_nes::cpu::{Cpu, IllegalOpcode, Interrupt};

fn machine(program: &[u8]) -> (Cpu, Bus) {
    let mut bus = Bus::new(Cartridge::empty());
    for (i, b) in program.iter().enumerate() {
        bus.ram[0x200 + i] = *b;
    }
    let mut cpu = Cpu::default();
    cpu.pc = 0x200;
    cpu.p = Status::default();
    (cpu, bus)
}

/// Carries out one instruction and returns the cycles it took.
fn step(cpu: &mut Cpu, bus: &mut Bus) -> u64 {
    let before = bus.cycles();
    if let Err(e) = cpu.exec(bus) {
        panic!("processor halted: {:?}", e);
    }
    bus.cycles() - before
}

fn flags(cpu: &Cpu) -> String {
    cpu.p.text()
}

#[test]
fn power_on_state() {
    let cpu = Cpu::default();
    let s = cpu.status();
    assert_eq!((s.a, s.x, s.y, s.pc, s.sp), (0, 0, 0, 0, 0xfd));
    assert_eq!(s.p.to_u8(), 0x24);
    assert_eq!(s.p.text(), "-----I--");
    let mut c = cpu;
    c.set_pc(0x1234);
    assert_eq!(c.status().pc, 0x1234);
}

#[test]
fn status_round_trip() {
    for b in 0..=255u8 {
        let s = Status::from(b);
        assert!(!s.b);
        assert_eq!(s.to_u8(), (b & 0xcf) | 0x20);
        assert_eq!(Status::from(s.to_u8()), s);
    }
    let mut s = Status::default();
    s.set_zn(0);
    assert_eq!(s.text(), "------Z-");
    s.set_zn(0x80);
    assert_eq!(s.text(), "N-------");
    s.set_zn(0x7f);
    assert_eq!(s.text(), "--------");
    s.b = true;
    assert_eq!(s.to_u8(), 0x30);
    assert_eq!(s.zn(0).to_u8(), 0x32);
}

#[test]
fn loads_set_zero_and_negative() {
    let (mut cpu, mut bus) = machine(&[0xa9, 0x00, 0xa2, 0x80, 0xa0, 0x7f]);
    assert_eq!(step(&mut cpu, &mut bus), 2);
    assert_eq!((cpu.a, flags(&cpu).as_str()), (0x00, "------Z-"));
    assert_eq!(step(&mut cpu, &mut bus), 2);
    assert_eq!((cpu.x, flags(&cpu).as_str()), (0x80, "N-------"));
    assert_eq!(step(&mut cpu, &mut bus), 2);
    assert_eq!((cpu.y, flags(&cpu).as_str()), (0x7f, "--------"));
    assert_eq!(cpu.pc, 0x206);
}

#[test]
fn addressing_modes_find_their_operands() {
    let (mut cpu, mut bus) = machine(&[
        0xa5, 0x10, // LDA $10
        0xb5, 0xf0, // LDA $F0,X   wraps to $10 + ... within the zero page
        0xb6, 0x0f, // LDX $0F,Y
        0xad, 0x34, 0x06, // LDA $0634
        0xbd, 0x30, 0x06, // LDA $0630,X
        0xb9, 0xff, 0x05, // LDA $05FF,Y  crosses a page
        0xa1, 0x1e, // LDA ($1E,X)
        0xb1, 0x22, // LDA ($22),Y
    ]);
    bus.ram[0x10] = 0x11;
    bus.ram[0x20] = 0x22;
    bus.ram[0x634] = 0x33;
    bus.ram[0x22] = 0xff;
    bus.ram[0x23] = 0x05;
    bus.ram[0x600] = 0x44;
    bus.ram[0x5ff] = 0x55;
    cpu.x = 0x30;
    cpu.y = 0x01;
    assert_eq!(step(&mut cpu, &mut bus), 3);
    assert_eq!(cpu.a, 0x11);
    assert_eq!(step(&mut cpu, &mut bus), 4);
    assert_eq!(cpu.a, 0x22);
    assert_eq!(cpu.op_address, 0x0020);
    assert_eq!(step(&mut cpu, &mut bus), 4);
    assert_eq!(cpu.x, 0x11);
    cpu.x = 0x04;
    assert_eq!(step(&mut cpu, &mut bus), 4);
    assert_eq!(cpu.a, 0x33);
    assert_eq!(step(&mut cpu, &mut bus), 4);
    assert_eq!(cpu.a, 0x33);
    assert!(!cpu.cross_page);
    assert_eq!(step(&mut cpu, &mut bus), 5);
    assert_eq!(cpu.a, 0x44);
    assert!(cpu.cross_page);
    assert_eq!(step(&mut cpu, &mut bus), 6);
    assert_eq!(cpu.a, 0x55);
    assert_eq!(cpu.op_address, 0x05ff);
    assert_eq!(step(&mut cpu, &mut bus), 6);
    assert_eq!(cpu.a, 0x44);
    assert!(cpu.cross_page);
}

#[test]
fn indirect_through_the_end_of_the_zero_page_wraps() {
    let (mut cpu, mut bus) = machine(&[0xa1, 0xff, 0xb1, 0xff]);
    bus.ram[0xff] = 0x34;
    bus.ram[0x00] = 0x06;
    bus.ram[0x634] = 0x77;
    bus.ram[0x636] = 0x88;
    step(&mut cpu, &mut bus);
    assert_eq!(cpu.a, 0x77);
    cpu.y = 2;
    assert_eq!(step(&mut cpu, &mut bus), 5);
    assert_eq!(cpu.a, 0x88);
}

#[test]
fn stores() {
    let (mut cpu, mut bus) = machine(&[
        0x85, 0x10, // STA $10
        0x86, 0x11, // STX $11
        0x84, 0x12, // STY $12
        0x9d, 0xff, 0x05, // STA $05FF,X
        0x91, 0x20, // STA ($20),Y
        0x87, 0x13, // SAX $13
        0x96, 0x10, // STX $10,Y
    ]);
    cpu.a = 0xc3;
    cpu.x = 0x0f;
    cpu.y = 0x02;
    bus.ram[0x20] = 0xff;
    bus.ram[0x21] = 0x06;
    assert_eq!(step(&mut cpu, &mut bus), 3);
    assert_eq!(step(&mut cpu, &mut bus), 3);
    assert_eq!(step(&mut cpu, &mut bus), 3);
    assert_eq!(step(&mut cpu, &mut bus), 5);
    assert_eq!(step(&mut cpu, &mut bus), 6);
    assert_eq!(step(&mut cpu, &mut bus), 3);
    assert_eq!(step(&mut cpu, &mut bus), 4);
    assert_eq!(bus.ram[0x10], 0xc3);
    assert_eq!(bus.ram[0x11], 0x0f);
    assert_eq!(bus.ram[0x12], 0x0f);
    assert_eq!(bus.ram[0x60e], 0xc3);
    assert_eq!(bus.ram[0x701], 0xc3);
    assert_eq!(bus.ram[0x13], 0x03);
    assert_eq!(flags(&cpu), "--------");
}

#[test]
fn add_with_carry() {
    let (mut cpu, mut bus) = machine(&[0x69, 0x50, 0x69, 0x50, 0x69, 0x60, 0x69, 0xff]);
    step(&mut cpu, &mut bus);
    assert_eq!((cpu.a, flags(&cpu).as_str()), (0x50, "--------"));
    step(&mut cpu, &mut bus);
    assert_eq!((cpu.a, flags(&cpu).as_str()), (0xa0, "NV------"));
    step(&mut cpu, &mut bus);
    assert_eq!((cpu.a, flags(&cpu).as_str()), (0x00, "------ZC"));
    step(&mut cpu, &mut bus);
    assert_eq!((cpu.a, flags(&cpu).as_str()), (0x00, "------ZC"));
}

#[test]
fn subtract_with_borrow() {
    let (mut cpu, mut bus) = machine(&[0x38, 0xe9, 0x01, 0xe9, 0x01, 0xe9, 0x7f, 0xeb, 0x80]);
    cpu.a = 0x01;
    step(&mut cpu, &mut bus);
    step(&mut cpu, &mut bus);
    assert_eq!((cpu.a, flags(&cpu).as_str()), (0x00, "------ZC"));
    step(&mut cpu, &mut bus);
    assert_eq!((cpu.a, flags(&cpu).as_str()), (0xff, "N-------"));
    step(&mut cpu, &mut bus);
    assert_eq!((cpu.a, flags(&cpu).as_str()), (0x7f, "-V-----C"));
    // the unofficial opcode $EB subtracts as well
    assert_eq!(step(&mut cpu, &mut bus), 2);
    assert_eq!((cpu.a, flags(&cpu).as_str()), (0xff, "NV------"));
}

#[test]
fn decimal_flag_changes_no_sum() {
    let (mut cpu, mut bus) = machine(&[0xf8, 0x69, 0x09, 0xd8]);
    cpu.a = 0x09;
    step(&mut cpu, &mut bus);
    assert_eq!(flags(&cpu), "----D---");
    step(&mut cpu, &mut bus);
    assert_eq!(cpu.a, 0x12);
    step(&mut cpu, &mut bus);
    assert_eq!(flags(&cpu), "--------");
}

#[test]
fn logic() {
    let (mut cpu, mut bus) = machine(&[0x29, 0x0f, 0x09, 0x80, 0x49, 0xff, 0x24, 0x10, 0x2c, 0x11, 0x00]);
    cpu.a = 0x3c;
    bus.ram[0x10] = 0xc0;
    bus.ram[0x11] = 0x70;
    step(&mut cpu, &mut bus);
    assert_eq!((cpu.a, flags(&cpu).as_str()), (0x0c, "--------"));
    step(&mut cpu, &mut bus);
    assert_eq!((cpu.a, flags(&cpu).as_str()), (0x8c, "N-------"));
    step(&mut cpu, &mut bus);
    assert_eq!((cpu.a, flags(&cpu).as_str()), (0x73, "--------"));
    assert_eq!(step(&mut cpu, &mut bus), 3);
    assert_eq!((cpu.a, flags(&cpu).as_str()), (0x73, "NV------"));
    assert_eq!(step(&mut cpu, &mut bus), 4);
    assert_eq!(flags(&cpu), "-V------");
    cpu.a = 0x0f;
    cpu.pc = 0x206;
    bus.ram[0x10] = 0x30;
    step(&mut cpu, &mut bus);
    assert_eq!(flags(&cpu), "------Z-");
}

#[test]
fn comparisons() {
    let (mut cpu, mut bus) = machine(&[0xc9, 0x40, 0xc9, 0x41, 0xc9, 0x3f, 0xe0, 0x10, 0xc0, 0xff, 0xc9, 0xc0]);
    cpu.a = 0x40;
    cpu.x = 0x10;
    cpu.y = 0x01;
    step(&mut cpu, &mut bus);
    assert_eq!(flags(&cpu), "------ZC");
    step(&mut cpu, &mut bus);
    assert_eq!(flags(&cpu), "N-------");
    step(&mut cpu, &mut bus);
    assert_eq!(flags(&cpu), "-------C");
    step(&mut cpu, &mut bus);
    assert_eq!(flags(&cpu), "------ZC");
    step(&mut cpu, &mut bus);
    assert_eq!(flags(&cpu), "--------");
    step(&mut cpu, &mut bus);
    assert_eq!(flags(&cpu), "N-------");
    assert_eq!((cpu.a, cpu.x, cpu.y), (0x40, 0x10, 0x01));
}

#[test]
fn increments_and_decrements() {
    let (mut cpu, mut bus) = machine(&[
        0xe6, 0x10, // INC $10
        0xc6, 0x11, // DEC $11
        0xe8, 0xc8, 0xca, 0x88, // INX INY DEX DEY
        0xfe, 0x00, 0x06, // INC $0600,X
        0xce, 0x00, 0x06, // DEC $0600
    ]);
    bus.ram[0x10] = 0xff;
    bus.ram[0x11] = 0x00;
    cpu.x = 0xff;
    cpu.y = 0x7f;
    assert_eq!(step(&mut cpu, &mut bus), 5);
    assert_eq!((bus.ram[0x10], flags(&cpu).as_str()), (0x00, "------Z-"));
    assert_eq!(step(&mut cpu, &mut bus), 5);
    assert_eq!((bus.ram[0x11], flags(&cpu).as_str()), (0xff, "N-------"));
    assert_eq!(step(&mut cpu, &mut bus), 2);
    assert_eq!((cpu.x, flags(&cpu).as_str()), (0x00, "------Z-"));
    assert_eq!(step(&mut cpu, &mut bus), 2);
    assert_eq!((cpu.y, flags(&cpu).as_str()), (0x80, "N-------"));
    step(&mut cpu, &mut bus);
    assert_eq!((cpu.x, flags(&cpu).as_str()), (0xff, "N-------"));
    step(&mut cpu, &mut bus);
    assert_eq!((cpu.y, flags(&cpu).as_str()), (0x7f, "--------"));
    cpu.x = 0;
    assert_eq!(step(&mut cpu, &mut bus), 7);
    assert_eq!(bus.ram[0x600], 1);
    assert_eq!(step(&mut cpu, &mut bus), 6);
    assert_eq!((bus.ram[0x600], flags(&cpu).as_str()), (0, "------Z-"));
}

#[test]
fn shifts_and_rotates() {
    let (mut cpu, mut bus) = machine(&[
        0x0a, // ASL A
        0x4a, // LSR A
        0x2a, // ROL A
        0x6a, // ROR A
        0x06, 0x10, // ASL $10
        0x46, 0x10, // LSR $10
        0x26, 0x10, // ROL $10
        0x7e, 0x0f, 0x00, // ROR $000F,X
    ]);
    cpu.a = 0x81;
    assert_eq!(step(&mut cpu, &mut bus), 2);
    assert_eq!((cpu.a, flags(&cpu).as_str()), (0x02, "-------C"));
    step(&mut cpu, &mut bus);
    assert_eq!((cpu.a, flags(&cpu).as_str()), (0x01, "--------"));
    cpu.p.c = true;
    cpu.a = 0x80;
    step(&mut cpu, &mut bus);
    assert_eq!((cpu.a, flags(&cpu).as_str()), (0x01, "-------C"));
    step(&mut cpu, &mut bus);
    assert_eq!((cpu.a, flags(&cpu).as_str()), (0x80, "N------C"));
    bus.ram[0x10] = 0x40;
    assert_eq!(step(&mut cpu, &mut bus), 5);
    assert_eq!((bus.ram[0x10], flags(&cpu).as_str()), (0x80, "N-------"));
    assert_eq!(step(&mut cpu, &mut bus), 5);
    assert_eq!((bus.ram[0x10], flags(&cpu).as_str()), (0x40, "--------"));
    cpu.p.c = true;
    assert_eq!(step(&mut cpu, &mut bus), 5);
    assert_eq!((bus.ram[0x10], flags(&cpu).as_str()), (0x81, "N-------"));
    cpu.x = 1;
    assert_eq!(step(&mut cpu, &mut bus), 7);
    assert_eq!((bus.ram[0x10], flags(&cpu).as_str()), (0x40, "-------C"));
    assert_eq!(cpu.a, 0x80);
}

#[test]
fn transfers_and_flag_instructions() {
    let (mut cpu, mut bus) = machine(&[
        0xaa, 0xa8, 0x9a, 0xba, 0x8a, 0x98, // TAX TAY TXS TSX TXA TYA
        0x38, 0xf8, 0x78, 0x18, 0xd8, 0x58, 0xb8, // SEC SED SEI CLC CLD CLI CLV
    ]);
    cpu.a = 0x80;
    for _ in 0..2 {
        assert_eq!(step(&mut cpu, &mut bus), 2);
    }
    assert_eq!((cpu.x, cpu.y, flags(&cpu).as_str()), (0x80, 0x80, "N-------"));
    cpu.p.n = false;
    step(&mut cpu, &mut bus);
    assert_eq!((cpu.sp, flags(&cpu).as_str()), (0x80, "--------"));
    cpu.x = 0;
    step(&mut cpu, &mut bus);
    assert_eq!((cpu.x, flags(&cpu).as_str()), (0x80, "N-------"));
    cpu.x = 0;
    step(&mut cpu, &mut bus);
    assert_eq!((cpu.a, flags(&cpu).as_str()), (0x00, "------Z-"));
    step(&mut cpu, &mut bus);
    assert_eq!((cpu.a, flags(&cpu).as_str()), (0x80, "N-------"));
    cpu.p = Status::default();
    cpu.p.v = true;
    let want = ["-V-----C", "-V--D--C", "-V--DI-C", "-V--DI--", "-V---I--", "-V------", "--------"];
    for w in want {
        assert_eq!(step(&mut cpu, &mut bus), 2);
        assert_eq!(flags(&cpu), w);
    }
}

#[test]
fn stack_instructions() {
    let (mut cpu, mut bus) = machine(&[0x48, 0x08, 0x68, 0x28, 0x68]);
    cpu.a = 0x00;
    cpu.sp = 0x01;
    cpu.p.c = true;
    cpu.p.n = true;
    assert_eq!(step(&mut cpu, &mut bus), 3);
    assert_eq!((bus.ram[0x101], cpu.sp), (0x00, 0x00));
    assert_eq!(step(&mut cpu, &mut bus), 3);
    // the pushed status has bits 4 and 5 set
    assert_eq!((bus.ram[0x100], cpu.sp), (0b1011_0001, 0xff));
    assert!(!cpu.p.b);
    assert_eq!(step(&mut cpu, &mut bus), 4);
    assert_eq!((cpu.a, cpu.sp, flags(&cpu).as_str()), (0b1011_0001, 0x00, "N------C"));
    assert_eq!(step(&mut cpu, &mut bus), 4);
    assert_eq!((cpu.sp, flags(&cpu).as_str()), (0x01, "--------"));
    bus.ram[0x102] = 0x00;
    step(&mut cpu, &mut bus);
    assert_eq!((cpu.a, cpu.sp, flags(&cpu).as_str()), (0x00, 0x02, "------Z-"));
}

#[test]
fn plp_ignores_bits_4_and_5() {
    let (mut cpu, mut bus) = machine(&[0x28]);
    cpu.sp = 0x10;
    bus.ram[0x111] = 0xff;
    step(&mut cpu, &mut bus);
    assert_eq!(flags(&cpu), "NV--DIZC");
    assert_eq!(cpu.p.to_u8(), 0xef);
}

#[test]
fn jumps_and_subroutines() {
    let (mut cpu, mut bus) = machine(&[
        0x20, 0x10, 0x02, // JSR $0210
        0x4c, 0x20, 0x02, // JMP $0220
    ]);
    bus.ram[0x210] = 0x60; // RTS
    bus.ram[0x220] = 0x6c; // JMP ($05FF)
    bus.ram[0x221] = 0xff;
    bus.ram[0x222] = 0x05;
    bus.ram[0x5ff] = 0x34;
    bus.ram[0x500] = 0x07;
    bus.ram[0x600] = 0x02;
    assert_eq!(step(&mut cpu, &mut bus), 6);
    assert_eq!((cpu.pc, cpu.sp), (0x0210, 0xfb));
    assert_eq!((bus.ram[0x1fd], bus.ram[0x1fc]), (0x02, 0x02));
    assert_eq!(step(&mut cpu, &mut bus), 6);
    assert_eq!((cpu.pc, cpu.sp), (0x0203, 0xfd));
    assert_eq!(step(&mut cpu, &mut bus), 3);
    assert_eq!(cpu.pc, 0x0220);
    // the high byte comes from $0500, not from $0600
    assert_eq!(step(&mut cpu, &mut bus), 5);
    assert_eq!(cpu.pc, 0x0734);
}

#[test]
fn branches() {
    let (mut cpu, mut bus) = machine(&[
        0xd0, 0x02, // BNE +2   taken
        0xea, 0xea, //
        0xf0, 0x7f, // BEQ      not taken
        0x90, 0xf8, // BCC -8   taken, to $0200
    ]);
    assert_eq!(step(&mut cpu, &mut bus), 3);
    assert_eq!(cpu.pc, 0x0204);
    assert_eq!(step(&mut cpu, &mut bus), 2);
    assert_eq!(cpu.pc, 0x0206);
    assert_eq!(step(&mut cpu, &mut bus), 3);
    assert_eq!(cpu.pc, 0x0200);
    // a branch to another page takes one more cycle
    bus.ram[0x2f0] = 0x10; // BPL +$20
    bus.ram[0x2f1] = 0x20;
    cpu.pc = 0x02f0;
    assert_eq!(step(&mut cpu, &mut bus), 4);
    assert_eq!(cpu.pc, 0x0312);
    bus.ram[0x312] = 0x50; // BVC -$20
    bus.ram[0x313] = 0xe0;
    assert_eq!(step(&mut cpu, &mut bus), 4);
    assert_eq!(cpu.pc, 0x02f4);
}

#[test]
fn every_condition_has_its_flag() {
    let cases: [(u8, u8, bool); 8] = [
        (0x10, 0x80, false), // BPL
        (0x30, 0x80, true),  // BMI
        (0x50, 0x40, false), // BVC
        (0x70, 0x40, true),  // BVS
        (0x90, 0x01, false), // BCC
        (0xb0, 0x01, true),  // BCS
        (0xd0, 0x02, false), // BNE
        (0xf0, 0x02, true),  // BEQ
    ];
    for (op, flag, when_set) in cases {
        for set in [false, true] {
            let (mut cpu, mut bus) = machine(&[op, 0x10]);
            cpu.p = Status::from(if set { flag } else { 0 });
            let cycles = step(&mut cpu, &mut bus);
            let taken = set == when_set;
            assert_eq!(cpu.pc, if taken { 0x212 } else { 0x202 }, "opcode {:02x}", op);
            assert_eq!(cycles, if taken { 3 } else { 2 }, "opcode {:02x}", op);
        }
    }
}

#[test]
fn software_interrupt_and_return() {
    let (mut cpu, mut bus) = machine(&[0x00]);
    cpu.p.c = true;
    assert_eq!(step(&mut cpu, &mut bus), 7);
    assert_eq!(cpu.pc, 0x0000);
    assert_eq!(cpu.sp, 0xfa);
    assert_eq!(bus.ram[0x1fd], 0x02);
    assert_eq!(bus.ram[0x1fc], 0x01);
    assert_eq!(bus.ram[0x1fb], 0b0011_0001);
    assert_eq!(flags(&cpu), "-----I-C");
    bus.ram[0x000] = 0x40; // RTI
    cpu.p.c = false;
    assert_eq!(step(&mut cpu, &mut bus), 6);
    assert_eq!((cpu.pc, cpu.sp), (0x0201, 0xfd));
    assert_eq!(flags(&cpu), "-------C");
}

#[test]
fn interrupts_push_the_status_with_the_break_bit_clear() {
    let (mut cpu, mut bus) = machine(&[]);
    cpu.p.z = true;
    cpu.serve_interrupt(Interrupt::IRQ, &mut bus);
    assert_eq!(bus.cycles(), 7);
    assert_eq!(bus.ram[0x1fb], 0b0010_0010);
    assert_eq!(cpu.pc, 0x0000);
    assert!(cpu.interrupt_disabled());
    let (mut cpu, mut bus) = machine(&[]);
    cpu.serve_interrupt(Interrupt::RESET, &mut bus);
    assert_eq!(cpu.pc, 0xff00);
    let (mut cpu, mut bus) = machine(&[]);
    cpu.serve_interrupt(Interrupt::NMI, &mut bus);
    assert_eq!(cpu.pc, 0x0000);
    assert_eq!(cpu.sp, 0xfa);
}

#[test]
fn unofficial_loads_and_stores() {
    let (mut cpu, mut bus) = machine(&[0xa7, 0x10, 0x8f, 0x00, 0x06, 0xbf, 0xff, 0x05]);
    bus.ram[0x10] = 0x8f;
    assert_eq!(step(&mut cpu, &mut bus), 3);
    assert_eq!((cpu.a, cpu.x, flags(&cpu).as_str()), (0x8f, 0x8f, "N-------"));
    cpu.a = 0xf0;
    cpu.x = 0x3c;
    assert_eq!(step(&mut cpu, &mut bus), 4);
    assert_eq!(bus.ram[0x600], 0x30);
    cpu.y = 1;
    bus.ram[0x600] = 0x00;
    assert_eq!(step(&mut cpu, &mut bus), 5);
    assert_eq!((cpu.a, cpu.x, flags(&cpu).as_str()), (0x00, 0x00, "------Z-"));
}

#[test]
fn unofficial_combinations() {
    let (mut cpu, mut bus) = machine(&[
        0x07, 0x10, // SLO $10
        0x27, 0x11, // RLA $11
        0x47, 0x12, // SRE $12
        0x67, 0x13, // RRA $13
        0xc7, 0x14, // DCP $14
        0xe7, 0x15, // ISB $15
    ]);
    bus.ram[0x10] = 0x81;
    bus.ram[0x11] = 0x81;
    bus.ram[0x12] = 0x81;
    bus.ram[0x13] = 0x02;
    bus.ram[0x14] = 0x11;
    bus.ram[0x15] = 0x0f;
    cpu.a = 0x10;
    assert_eq!(step(&mut cpu, &mut bus), 5);
    assert_eq!((bus.ram[0x10], cpu.a, flags(&cpu).as_str()), (0x02, 0x12, "-------C"));
    assert_eq!(step(&mut cpu, &mut bus), 5);
    assert_eq!((bus.ram[0x11], cpu.a, flags(&cpu).as_str()), (0x03, 0x02, "-------C"));
    assert_eq!(step(&mut cpu, &mut bus), 5);
    assert_eq!((bus.ram[0x12], cpu.a, flags(&cpu).as_str()), (0x40, 0x42, "-------C"));
    assert_eq!(step(&mut cpu, &mut bus), 5);
    assert_eq!((bus.ram[0x13], cpu.a, flags(&cpu).as_str()), (0x81, 0xc3, "N-------"));
    cpu.a = 0x10;
    assert_eq!(step(&mut cpu, &mut bus), 5);
    assert_eq!((bus.ram[0x14], cpu.a, flags(&cpu).as_str()), (0x10, 0x10, "------ZC"));
    assert_eq!(step(&mut cpu, &mut bus), 5);
    assert_eq!((bus.ram[0x15], cpu.a, flags(&cpu).as_str()), (0x10, 0x00, "------ZC"));
}

#[test]
fn no_operations() {
    let (mut cpu, mut bus) = machine(&[
        0xea, // NOP
        0x1a, // NOP
        0x80, 0x00, // NOP #imm
        0x04, 0x10, // NOP $10
        0x14, 0x10, // NOP $10,X
        0x0c, 0x00, 0x06, // NOP $0600
        0x1c, 0xff, 0x05, // NOP $05FF,X
    ]);
    cpu.x = 1;
    let before = cpu.status();
    let cycles: Vec<u64> = (0..7).map(|_| step(&mut cpu, &mut bus)).collect();
    assert_eq!(cycles, vec![2, 2, 2, 3, 4, 4, 5]);
    let after = cpu.status();
    assert_eq!((after.a, after.x, after.y, after.sp, after.p), (before.a, before.x, before.y, before.sp, before.p));
    assert_eq!(after.pc, 0x20e);
}

#[test]
fn halting_opcodes_are_reported() {
    let (mut cpu, mut bus) = machine(&[0x02]);
    assert_eq!(cpu.exec(&mut bus), Err(IllegalOpcode(0x02)));
    assert_eq!(cpu.pc, 0x0201);
    assert_eq!(bus.cycles(), 1);
    let (mut cpu, mut bus) = machine(&[0xea, 0x9c]);
    assert_eq!(bus.exec(&mut cpu), Ok(()));
    assert_eq!(bus.exec(&mut cpu), Err(IllegalOpcode(0x9c)));
    let halting = (0..=255u8).filter(|op| decode(*op) == Op::Stp).count();
    assert_eq!(halting, 25);
}

#[test]
fn page_crosses_cost_reads_a_cycle_and_nothing_else() {
    // (opcode, cycles without a cross, cycles with one)
    let cases: [(u8, u64, u64); 12] = [
        (0xbd, 4, 5), // LDA abs,X
        (0x7d, 4, 5), // ADC abs,X
        (0xdd, 4, 5), // CMP abs,X
        (0x3c, 4, 5), // NOP abs,X
        (0xbc, 4, 5), // LDY abs,X
        (0x9d, 5, 5), // STA abs,X
        (0xfe, 7, 7), // INC abs,X
        (0x1e, 7, 7), // ASL abs,X
        (0x1f, 7, 7), // SLO abs,X
        (0xdf, 7, 7), // DCP abs,X
        (0x5d, 4, 5), // EOR abs,X
        (0x3d, 4, 5), // AND abs,X
    ];
    for (op, plain, crossed) in cases {
        let (mut cpu, mut bus) = machine(&[op, 0x80, 0x05]);
        cpu.x = 0x10;
        assert_eq!(step(&mut cpu, &mut bus), plain, "opcode {:02x}", op);
        assert!(!cpu.cross_page);
        let (mut cpu, mut bus) = machine(&[op, 0x80, 0x05]);
        cpu.x = 0x90;
        assert_eq!(step(&mut cpu, &mut bus), crossed, "opcode {:02x}", op);
        assert!(cpu.cross_page);
    }
    for (op, plain, crossed) in [(0xb1u8, 5u64, 6u64), (0x91, 6, 6), (0x13, 8, 8), (0xb3, 5, 6)] {
        for (y, want) in [(0x10u8, plain), (0x90, crossed)] {
            let (mut cpu, mut bus) = machine(&[op, 0x40]);
            bus.ram[0x40] = 0x80;
            bus.ram[0x41] = 0x05;
            cpu.y = y;
            assert_eq!(step(&mut cpu, &mut bus), want, "opcode {:02x}", op);
        }
    }
}

#[test]
fn every_instruction_takes_its_documented_cycles() {
    for op in 0..=255u8 {
        let kind = decode(op);
        if kind == Op::Stp {
            assert_eq!(BASE_CYCLES[op as usize], 0);
            continue;
        }
        let (mut cpu, mut bus) = machine(&[op, 0x10, 0x04]);
        // all flags clear: BPL, BVC, BCC and BNE are taken
        let taken = matches!(kind, Op::Bpl | Op::Bvc | Op::Bcc | Op::Bne);
        let cycles = step(&mut cpu, &mut bus);
        let want = BASE_CYCLES[op as usize] as u64 + if taken { 1 } else { 0 };
        assert_eq!(cycles, want, "opcode {:02x}", op);
        assert_eq!(cpu.op, op);
        assert_eq!(cpu.op_mode, ADDR_MODES[op as usize]);
        assert!(extra_cycles(op) <= 3);
    }
    assert_eq!(BASE_CYCLES[0x00], 7);
    assert_eq!(BASE_CYCLES[0xa9], 2);
    assert_eq!(BASE_CYCLES[0x6c], 5);
    assert_eq!(BASE_CYCLES[0xfe], 7);
    assert_eq!(OPS[0xa9], Op::Lda);
    assert_eq!(ADDR_MODES[0x6c], AddrMode::IND);
}

#[test]
fn program_counter_and_stack_pointer_wrap() {
    let mut bus = Bus::new(Cartridge::empty());
    let mut cpu = Cpu::default();
    cpu.pc = 0xffff;
    let b = cpu.fetch_byte(&mut bus);
    assert_eq!(b, 0x00);
    assert_eq!(cpu.pc, 0x0000);
    cpu.sp = 0x00;
    cpu.push_word(0x1234, &mut bus);
    assert_eq!(cpu.sp, 0xfe);
    assert_eq!((bus.ram[0x100], bus.ram[0x1ff]), (0x12, 0x34));
    assert_eq!(cpu.pop_word(&mut bus), 0x1234);
    assert_eq!(cpu.sp, 0x00);
    bus.ram[0x7ff] = 0xcd;
    bus.ram[0x000] = 0xab;
    assert_eq!(cpu.read_word(0x07ff, &mut bus), 0xabcd);
    cpu.pc = 0x07ff;
    assert_eq!(cpu.fetch_word(&mut bus), 0xabcd);
    assert_eq!(cpu.pc, 0x0801);
    cpu.push_byte(0x55, &mut bus);
    assert_eq!(cpu.pop_byte(&mut bus), 0x55);
    cpu.idle(3, &mut bus);
    cpu.check_page(0x01ff, 0x0200);
    assert!(cpu.cross_page);
    cpu.check_page(0x0200, 0x02ff);
    assert!(!cpu.cross_page);
}
