use les_nes::bus::joystick::InputStates;
use les_nes::cart::LoadError;
use les_nes::cpu::IllegalOpcode;
use les_nes::emu::{ControlEvent, EmuContext, FrameReport};

fn image(prg_fill: u8) -> Vec<u8> {
    let mut data = vec![0x4e, 0x45, 0x53, 0x1a, 1, 1, 0, 0];
    data.extend([0u8; 8]);
    let mut prg = vec![prg_fill; 0x4000];
    // reset vector: $8000
    prg[0x3ffc] = 0x00;
    prg[0x3ffd] = 0x80;
    data.extend(prg);
    data.extend(vec![0u8; 0x2000]);
    data
}

#[test]
fn new_context_runs_the_idle_program() {
    let ctx = EmuContext::new();
    assert!(!ctx.pause);
    assert!(!ctx.step);
    assert_eq!(ctx.cpu.pc, 0xff00);
    assert_eq!(ctx.bus.cycles(), 7);
}

#[test]
fn load_cart_replaces_the_cartridge_and_resets() {
    let mut ctx = EmuContext::new();
    ctx.bus.ram[0x10] = 0x99;
    assert_eq!(ctx.handle(ControlEvent::LoadCart(image(0xea))), Ok(()));
    assert_eq!(ctx.cpu.pc, 0x8000);
    assert_eq!(ctx.bus.cycles(), 7);
    assert_eq!(ctx.bus.inspect(0x8000), 0xea);
    assert_eq!(ctx.bus.ram[0x10], 0x99);
}

#[test]
fn load_failure_changes_nothing() {
    let mut ctx = EmuContext::new();
    let mut out = [0i16; 16];
    ctx.bus.apu.resampler.set_rates(44_100);
    ctx.run_frame(&mut out);
    let before = (ctx.cpu, ctx.bus.cycles(), ctx.bus.ram, ctx.pause, ctx.step);
    let mut bad = image(0xea);
    bad[0] = 0;
    assert_eq!(ctx.handle(ControlEvent::LoadCart(bad)), Err(LoadError::BadSignature));
    let mut unknown = image(0xea);
    unknown[6] = 0x70;
    assert_eq!(
        ctx.handle(ControlEvent::LoadCart(unknown)),
        Err(LoadError::UnsupportedMapper(7))
    );
    let after = (ctx.cpu, ctx.bus.cycles(), ctx.bus.ram, ctx.pause, ctx.step);
    assert_eq!(before, after);
    assert_eq!(ctx.bus.inspect(0xff00), 0x4c);
}

#[test]
fn audio_and_input_events() {
    let mut ctx = EmuContext::new();
    let states = [true, false, true, false, true];
    assert_eq!(ctx.handle(ControlEvent::AudioCtrl(states)), Ok(()));
    assert_eq!(ctx.bus.apu.channel_ctrl, states);
    let mut first = InputStates::default();
    first.start = true;
    let mut second = InputStates::default();
    second.left = true;
    assert_eq!(ctx.handle(ControlEvent::Inputs(first, second)), Ok(()));
    assert_eq!(ctx.bus.joystick.input0.states, first);
    assert_eq!(ctx.bus.joystick.input1.states, second);
}

#[test]
fn reset_event() {
    let mut ctx = EmuContext::new();
    ctx.bus.apu.resampler.set_rates(44_100);
    let mut out = [0i16; 32];
    ctx.run_frame(&mut out);
    assert!(ctx.bus.cycles() > 7);
    ctx.cpu.a = 0x12;
    assert_eq!(ctx.handle(ControlEvent::Reset), Ok(()));
    assert_eq!(ctx.bus.cycles(), 7);
    assert_eq!(ctx.cpu.a, 0);
    assert_eq!(ctx.cpu.pc, 0xff00);
    assert_eq!(ctx.bus.apu.resampler.avail(), 0);
}

#[test]
fn pause_and_step_events() {
    let mut ctx = EmuContext::new();
    assert_eq!(ctx.handle(ControlEvent::Pause), Ok(()));
    assert!(ctx.pause);
    assert_eq!(ctx.handle(ControlEvent::Pause), Ok(()));
    assert!(!ctx.pause);
    assert_eq!(ctx.handle(ControlEvent::Step), Ok(()));
    assert!(ctx.pause);
    assert!(ctx.step);
    assert_eq!(ctx.handle(ControlEvent::Step), Ok(()));
    assert!(ctx.pause);
    assert_eq!(ctx.handle(ControlEvent::Pause), Ok(()));
    assert!(!ctx.pause);
    assert!(ctx.step);
}

fn observe(ctx: &EmuContext) -> (les_nes::cpu::Cpu, u64, [u8; 2048], [bool; 5], InputStates, bool, bool) {
    (
        ctx.cpu,
        ctx.bus.cycles(),
        ctx.bus.ram,
        ctx.bus.apu.channel_ctrl,
        ctx.bus.joystick.input0.states,
        ctx.pause,
        ctx.step,
    )
}

fn events() -> Vec<ControlEvent> {
    let mut pad = InputStates::default();
    pad.a = true;
    vec![
        ControlEvent::AudioCtrl([false, true, true, true, false]),
        ControlEvent::LoadCart(image(0xea)),
        ControlEvent::Pause,
        ControlEvent::Inputs(pad, InputStates::default()),
        ControlEvent::LoadCart(vec![1, 2, 3]),
        ControlEvent::Reset,
    ]
}

#[test]
fn pause_around_events_changes_nothing() {
    let mut plain = EmuContext::new();
    for ev in events() {
        let _ = plain.handle(ev);
    }
    let mut wrapped = EmuContext::new();
    let _ = wrapped.handle(ControlEvent::Pause);
    for ev in events() {
        let _ = wrapped.handle(ev);
    }
    let _ = wrapped.handle(ControlEvent::Pause);
    assert_eq!(observe(&plain), observe(&wrapped));
    assert!(plain.pause);
    // a step among the events leaves the pause set either way
    let mut stepped = EmuContext::new();
    let _ = stepped.handle(ControlEvent::Pause);
    let _ = stepped.handle(ControlEvent::Step);
    let _ = stepped.handle(ControlEvent::Pause);
    assert!(!stepped.pause);
    let mut alone = EmuContext::new();
    let _ = alone.handle(ControlEvent::Step);
    assert!(alone.pause);
}

#[test]
fn paused_frame_is_silent() {
    let mut ctx = EmuContext::new();
    ctx.bus.apu.resampler.set_rates(44_100);
    let mut out = [5i16; 64];
    ctx.run_frame(&mut out);
    let _ = ctx.handle(ControlEvent::Pause);
    let cycles = ctx.bus.cycles();
    let mut out = [5i16; 64];
    let report = ctx.run_frame(&mut out);
    assert_eq!(report, FrameReport { steps: 0, samples: 64, halted: None });
    assert!(out.iter().all(|s| *s == 0));
    assert_eq!(ctx.bus.cycles(), cycles);
    assert_eq!(ctx.bus.apu.resampler.avail(), 0);
    assert_eq!(ctx.bus.apu.resampler.clocks, 0);
    assert_eq!(ctx.bus.apu.resampler.last_sample, 0);
}

#[test]
fn step_runs_one_instruction_while_paused() {
    let mut ctx = EmuContext::new();
    let _ = ctx.handle(ControlEvent::Step);
    let mut out = [5i16; 8];
    let report = ctx.run_frame(&mut out);
    assert_eq!(report, FrameReport { steps: 1, samples: 8, halted: None });
    assert_eq!(ctx.bus.cycles(), 7 + 3);
    assert!(ctx.pause);
    assert!(!ctx.step);
    let report = ctx.run_frame(&mut out);
    assert_eq!(report.steps, 0);
    assert_eq!(ctx.bus.cycles(), 10);
}

#[test]
fn running_frame_fills_the_buffer() {
    let mut ctx = EmuContext::new();
    ctx.bus.apu.resampler.set_rates(44_100);
    let mut out = [i16::MIN; 256];
    let report = ctx.run_frame(&mut out);
    assert_eq!(report.samples, 256);
    assert_eq!(report.halted, None);
    // 256 samples take 10390 cycles, 3 to a step of the idle program
    assert_eq!(report.steps, 3464);
    assert_eq!(ctx.bus.cycles(), 7 + 3 * 3464);
    assert!(out.iter().all(|s| *s != i16::MIN));
    // the triangle rests at 15, which the mixer puts at 8371
    assert!(out[100] > 6000 && out[100] < 8800, "sample 100 is {}", out[100]);
    let mut next = [0i16; 256];
    let report = ctx.run_frame(&mut next);
    assert_eq!(report.samples, 256);
    assert!(next[0] <= out[255]);
}

#[test]
fn halt_ends_the_frame() {
    let mut ctx = EmuContext::new();
    ctx.bus.apu.resampler.set_rates(44_100);
    ctx.bus.ram[0x200] = 0xea;
    ctx.bus.ram[0x201] = 0x02;
    ctx.cpu.pc = 0x200;
    let mut out = [9i16; 64];
    let report = ctx.run_frame(&mut out);
    assert_eq!(report, FrameReport { steps: 2, samples: 0, halted: Some(IllegalOpcode(0x02)) });
    assert!(out.iter().all(|s| *s == 9));
    assert_eq!(ctx.bus.cycles(), 7 + 2 + 1);
    ctx.cpu.pc = 0x201;
    let _ = ctx.handle(ControlEvent::Step);
    let report = ctx.run_frame(&mut out);
    assert_eq!(report, FrameReport { steps: 1, samples: 0, halted: Some(IllegalOpcode(0x02)) });
    assert!(!ctx.step);
}
