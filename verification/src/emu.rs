//! The emulator as its host drives it: control events come in, samples
//! and frames go out.

use crate::apu::resampler::blip_buf::{integrate, out_sample};
use crate::apu::Apu;
use crate::bus::joystick::{Input, InputStates, Joystick};
use crate::bus::Bus;
use crate::cart::{
    board, chr_len, load_error, prg_len, prg_start, Cartridge, LoadError, CHR_RAM_SIZE,
    EXPANSION_ROM_SIZE, PRG_RAM_SIZE,
};
use crate::cpu::{machine, Cpu, IllegalOpcode, Machine};
use vstd::prelude::*;

verus! {

/// What the host can ask of the emulator.
pub enum ControlEvent {
    /// Put in the cartridge that this image holds.
    LoadCart(Vec<u8>),
    /// Switch pulse 1, pulse 2, triangle, noise and delta modulation on
    /// or off.
    AudioCtrl([bool; 5]),
    /// The buttons of both controllers.
    Inputs(InputStates, InputStates),
    Reset,
    /// Stop if running, run if stopped.
    Pause,
    /// Stop, and carry out one step.
    Step,
}

/// What a frame did.
#[derive(Clone, Copy, Debug, PartialEq, Eq, Structural)]
pub struct FrameReport {
    /// Steps that the machine took.
    pub steps: u64,
    /// Samples written to the host's buffer.
    pub samples: usize,
    /// The opcode that halted the processor, if one did.
    pub halted: Option<IllegalOpcode>,
}

pub struct EmuContext {
    pub cpu: Cpu,
    pub bus: Bus,
    /// While set, the machine stands still and the sound is silent.
    pub pause: bool,
    /// One step is due in spite of the pause.
    pub step: bool,
}

/// Whether `cart` is the cartridge that the image `d` holds.
pub open spec fn is_image_of(cart: Cartridge, d: Seq<u8>) -> bool {
    &&& load_error(d) is None
    &&& cart.mapper == board(d)
    &&& cart.prg_rom@ == d.subrange(prg_start(d), prg_start(d) + prg_len(d))
    &&& cart.chr_rom@ == d.subrange(
        prg_start(d) + prg_len(d),
        prg_start(d) + prg_len(d) + chr_len(d),
    )
    &&& forall|i: int| 0 <= i < EXPANSION_ROM_SIZE ==> cart.expansion[i] == 0
    &&& forall|i: int| 0 <= i < PRG_RAM_SIZE ==> cart.prg_ram[i] == 0
    &&& forall|i: int| 0 <= i < CHR_RAM_SIZE ==> cart.chr_ram[i] == 0
}

/// Whether the steps `evs` of the relation `rel`, taken one after the
/// other, can lead from `before` to `after`.
pub open spec fn chain<S, E>(rel: spec_fn(S, E, S) -> bool, before: S, evs: Seq<E>, after: S) -> bool
    decreases evs.len(),
{
    if evs.len() == 0 {
        after == before
    } else {
        exists|mid: S| #[trigger] rel(before, evs[0], mid) && chain(rel, mid, evs.drop_first(), after)
    }
}

/// If every admissible step of a relation commutes with a map `flip` of
/// the states, so does every chain of admissible steps.
pub proof fn lemma_chain_commutes<S, E>(
    rel: spec_fn(S, E, S) -> bool,
    flip: spec_fn(S) -> S,
    admissible: spec_fn(E) -> bool,
    before: S,
    evs: Seq<E>,
    after: S,
)
    requires
        forall|b: S, e: E, a: S|
            #![trigger rel(b, e, a), flip(b)]
            rel(b, e, a) && admissible(e) ==> rel(flip(b), e, flip(a)),
        forall|i: int| 0 <= i < evs.len() ==> admissible(#[trigger] evs[i]),
        chain(rel, before, evs, after),
    ensures
        chain(rel, flip(before), evs, flip(after)),
    decreases evs.len(),
{
    if evs.len() > 0 {
        let mid = choose|mid: S| #[trigger]
            rel(before, evs[0], mid) && chain(rel, mid, evs.drop_first(), after);
        assert(admissible(evs[0]));
        assert forall|i: int| 0 <= i < evs.drop_first().len() implies admissible(
            #[trigger] evs.drop_first()[i],
        ) by {
            assert(evs.drop_first()[i] == evs[i + 1]);
        }
        lemma_chain_commutes(rel, flip, admissible, mid, evs.drop_first(), after);
        let flipped = flip(before);
        assert(rel(flipped, evs[0], flip(mid)));
    }
}

/// A chain followed by one more step is a chain.
pub proof fn lemma_chain_push<S, E>(
    rel: spec_fn(S, E, S) -> bool,
    before: S,
    evs: Seq<E>,
    mid: S,
    last: E,
    after: S,
)
    requires
        chain(rel, before, evs, mid),
        rel(mid, last, after),
    ensures
        chain(rel, before, evs.push(last), after),
    decreases evs.len(),
{
    if evs.len() == 0 {
        assert(evs.push(last).drop_first() =~= Seq::<E>::empty());
        assert(chain(rel, after, Seq::<E>::empty(), after));
        assert(rel(before, evs.push(last)[0], after));
    } else {
        let first = choose|first: S| #[trigger]
            rel(before, evs[0], first) && chain(rel, first, evs.drop_first(), mid);
        lemma_chain_push(rel, first, evs.drop_first(), mid, last, after);
        assert(evs.push(last).drop_first() =~= evs.drop_first().push(last));
        assert(rel(before, evs.push(last)[0], first));
    }
}

impl EmuContext {
    /// The context with the pause flag turned over.
    pub open spec fn toggled(self) -> EmuContext {
        EmuContext { pause: !self.pause, ..self }
    }

    /// The pause flag behind event `ev`.
    pub open spec fn pause_after(pause: bool, ev: ControlEvent) -> bool {
        match ev {
            ControlEvent::Pause => !pause,
            ControlEvent::Step => true,
            _ => pause,
        }
    }

    /// The step flag behind event `ev`.
    pub open spec fn step_after(step: bool, ev: ControlEvent) -> bool {
        match ev {
            ControlEvent::Step => true,
            _ => step,
        }
    }

    /// Whether `after` is what event `ev` makes of the machine `m`. An
    /// image that cannot be loaded changes nothing; one that can replaces
    /// the cartridge and resets the machine. `Pause` and `Step` leave the
    /// machine alone.
    #[verifier::opaque]
    pub open spec fn machine_handled(m: Machine, ev: ControlEvent, after: Machine) -> bool {
        match ev {
            ControlEvent::LoadCart(data) => {
                if load_error(data@) is Some {
                    after == m
                } else {
                    exists|cart: Cartridge| #[trigger]
                        is_image_of(cart, data@) && after == machine(
                            m.cpu,
                            Bus { cart, ..m.bus },
                        ).reset()
                }
            },
            ControlEvent::AudioCtrl(states) => after == (Machine {
                bus: Bus { apu: Apu { channel_ctrl: states, ..m.bus.apu }, ..m.bus },
                ..m
            }),
            ControlEvent::Inputs(pad0, pad1) => after == (Machine {
                bus: Bus {
                    joystick: Joystick {
                        input0: Input { states: pad0, ..m.bus.joystick.input0 },
                        input1: Input { states: pad1, ..m.bus.joystick.input1 },
                        ..m.bus.joystick
                    },
                    ..m.bus
                },
                ..m
            }),
            ControlEvent::Reset => after == m.reset(),
            ControlEvent::Pause => after == m,
            ControlEvent::Step => after == m,
        }
    }

    /// Whether `after` is what event `ev` makes of `self`.
    #[verifier::opaque]
    pub open spec fn handled(self, ev: ControlEvent, after: EmuContext) -> bool {
        &&& after.pause == EmuContext::pause_after(self.pause, ev)
        &&& after.step == EmuContext::step_after(self.step, ev)
        &&& EmuContext::machine_handled(
            machine(self.cpu, self.bus),
            ev,
            machine(after.cpu, after.bus),
        )
    }

    /// Whether the events `evs`, handled one after the other, can take
    /// `self` to `after`.
    pub open spec fn handled_all(self, evs: Seq<ControlEvent>, after: EmuContext) -> bool {
        chain(|b: EmuContext, e: ControlEvent, a: EmuContext| b.handled(e, a), self, evs, after)
    }

    /// A running machine with an empty cartridge, just reset.
    pub fn new() -> (c: Self)
        ensures
            !c.pause,
            !c.step,
            exists|cart: Cartridge|
                #![trigger Bus::initial(cart)]
                cart.mapper == crate::cart::Mapper::Null && machine(c.cpu, c.bus) == machine(
                    Cpu::initial(),
                    Bus::initial(cart),
                ).reset(),
    {
        let cart = Cartridge::empty();
        let mut bus = Bus::new(cart);
        let mut cpu = Cpu::default();
        bus.reset(&mut cpu);
        EmuContext { cpu, bus, pause: false, step: false }
    }

    /// Handles one control event. An image that cannot be loaded is
    /// reported and changes nothing.
    #[verifier::spinoff_prover]
    pub fn handle(&mut self, ev: ControlEvent) -> (r: Result<(), LoadError>)
        ensures
            old(self).handled(ev, *final(self)),
            r == (match ev {
                ControlEvent::LoadCart(data) => match load_error(data@) {
                    Some(e) => Err::<(), LoadError>(e),
                    None => Ok(()),
                },
                _ => Ok(()),
            }),
    {
        reveal(EmuContext::machine_handled);
        reveal(EmuContext::handled);
        match ev {
            ControlEvent::LoadCart(data) => {
                match Cartridge::load(data.as_slice()) {
                    Ok(cart) => {
                        let ghost c = cart;
                        self.bus.load_cart(cart);
                        self.bus.reset(&mut self.cpu);
                        assert(is_image_of(c, data@));
                        Ok(())
                    },
                    Err(e) => Err(e),
                }
            },
            ControlEvent::AudioCtrl(states) => {
                self.bus.set_audio_control(&states);
                Ok(())
            },
            ControlEvent::Inputs(pad0, pad1) => {
                self.bus.set_input0(pad0);
                self.bus.set_input1(pad1);
                Ok(())
            },
            ControlEvent::Reset => {
                self.bus.reset(&mut self.cpu);
                Ok(())
            },
            ControlEvent::Pause => {
                self.pause = !self.pause;
                Ok(())
            },
            ControlEvent::Step => {
                self.pause = true;
                self.step = true;
                Ok(())
            },
        }
    }
}

impl EmuContext {
    /// The machine with its resampler emptied.
    pub open spec fn silenced(m: Machine) -> Machine {
        Machine {
            bus: Bus {
                apu: Apu { resampler: m.bus.apu.resampler.cleared(), ..m.bus.apu },
                ..m.bus
            },
            ..m
        }
    }

    /// The cycle count at which a frame of `len` samples is complete.
    pub open spec fn frame_target(self, len: usize) -> u64 {
        let needed = self.bus.apu.resampler.blip.clocks_for(len);
        if self.bus.cycles + needed > u64::MAX {
            u64::MAX
        } else {
            (self.bus.cycles + needed) as u64
        }
    }

    /// The machine `ran` with the frame ended and up to `len` samples
    /// taken out of its resampler.
    pub open spec fn drained(ran: Machine, len: usize) -> Machine {
        let ended = ran.bus.apu.resampler.frame_ended();
        Machine {
            bus: Bus {
                apu: Apu {
                    resampler: crate::apu::resampler::Resampler {
                        blip: ended.blip.samples_read(len as int, len, false),
                        ..ended
                    },
                    ..ran.bus.apu
                },
                ..ran.bus
            },
            ..ran
        }
    }

    /// Whether `filled` is `out` with the first `n` samples of the
    /// resampler `ended` written over its start, `n` being the number of
    /// samples that were ready and fit.
    #[verifier::opaque]
    pub open spec fn samples_written(
        ended: crate::apu::resampler::Resampler,
        out: Seq<i16>,
        n: usize,
        filled: Seq<i16>,
    ) -> bool {
        &&& filled.len() == out.len()
        &&& n == ended.blip.taken(out.len() as usize)
        &&& forall|j: int|
            #![trigger filled[j]]
            0 <= j < out.len() ==> filled[j] == (if j < n {
                out_sample(integrate(ended.blip.integrator as int, ended.blip.buf@, j as nat)) as i16
            } else {
                out[j]
            })
    }

    /// What a frame does while the machine is paused. The one step that
    /// is due, if any, is carried out. Unless it halts the processor, the
    /// resampler is emptied and the buffer filled with silence.
    #[verifier::opaque]
    pub open spec fn paused_frame(
        self,
        out: Seq<i16>,
        r: FrameReport,
        after: EmuContext,
        filled: Seq<i16>,
    ) -> bool {
        let m = machine(self.cpu, self.bus).run(r.steps as nat);
        &&& after.pause
        &&& !after.step
        &&& filled.len() == out.len()
        &&& r.steps == (if self.step { 1u64 } else { 0 })
        &&& r.halted is Some <==> self.step && machine(self.cpu, self.bus).halts()
        &&& r.halted matches Some(e) ==> {
            &&& e == IllegalOpcode(m.cpu.op)
            &&& r.samples == 0
            &&& machine(after.cpu, after.bus) == m
            &&& filled == out
        }
        &&& r.halted is None ==> {
            &&& r.samples == out.len()
            &&& machine(after.cpu, after.bus) == EmuContext::silenced(m)
            &&& forall|j: int| 0 <= j < filled.len() ==> filled[j] == 0
        }
    }

    /// What a frame does while the machine runs. The machine takes the
    /// first number of steps that brings the cycle count to the end of the
    /// frame. Unless a step halts the processor, the frame is ended and
    /// the samples are read.
    #[verifier::opaque]
    pub open spec fn live_frame(
        self,
        out: Seq<i16>,
        r: FrameReport,
        after: EmuContext,
        filled: Seq<i16>,
    ) -> bool {
        let m = machine(self.cpu, self.bus);
        let target = self.frame_target(out.len() as usize);
        let ran = m.run(r.steps as nat);
        &&& !after.pause
        &&& after.step == self.step
        &&& filled.len() == out.len()
        &&& forall|k: nat| k < r.steps ==> (#[trigger] m.run(k)).bus.cycles < target
        &&& r.halted is Some <==> r.steps > 0 && m.run((r.steps - 1) as nat).halts()
        &&& r.halted matches Some(e) ==> {
            &&& e == IllegalOpcode(ran.cpu.op)
            &&& r.samples == 0
            &&& machine(after.cpu, after.bus) == ran
            &&& filled == out
        }
        &&& r.halted is None ==> {
            &&& ran.bus.cycles >= target
            &&& machine(after.cpu, after.bus) == EmuContext::drained(ran, out.len() as usize)
            &&& EmuContext::samples_written(
                ran.bus.apu.resampler.frame_ended(),
                out,
                r.samples,
                filled,
            )
        }
    }

    /// Fills `out` with silence.
    fn fill_silence(out: &mut [i16])
        ensures
            final(out)@.len() == old(out)@.len(),
            forall|j: int| 0 <= j < final(out)@.len() ==> final(out)@[j] == 0,
    {
        let len: usize = out.len();
        let mut j: usize = 0;
        while j < len
            invariant
                j <= len,
                len == out@.len(),
                out@.len() == old(out)@.len(),
                forall|k: int| 0 <= k < j ==> out@[k] == 0,
            decreases len - j,
        {
            out[j] = 0;
            j = j + 1;
        }
    }

    /// A frame of a paused machine: the one step that is due, if any, and
    /// silence.
    #[verifier::spinoff_prover]
    fn run_paused(&mut self, out: &mut [i16]) -> (r: FrameReport)
        requires
            old(self).pause,
        ensures
            old(self).paused_frame(old(out)@, r, *final(self), final(out)@),
    {
        reveal(EmuContext::paused_frame);
        let ghost m0 = machine(self.cpu, self.bus);
        assert(m0.run(0) == m0);
        let mut steps: u64 = 0;
        if self.step {
            self.step = false;
            proof {
                crate::bus::lemma_run_one_more(m0, 0);
            }
            let r = self.bus.exec(&mut self.cpu);
            steps = 1;
            match r {
                Ok(()) => {},
                Err(e) => {
                    return FrameReport { steps, samples: 0, halted: Some(e) };
                },
            }
        }
        self.bus.apu.resampler.clear();
        EmuContext::fill_silence(out);
        FrameReport { steps, samples: out.len(), halted: None }
    }

    /// Ends the frame and reads the samples that are ready into `out`.
    #[verifier::spinoff_prover]
    fn drain(&mut self, out: &mut [i16]) -> (n: usize)
        ensures
            machine(final(self).cpu, final(self).bus) == EmuContext::drained(
                machine(old(self).cpu, old(self).bus),
                old(out)@.len() as usize,
            ),
            final(self).pause == old(self).pause,
            final(self).step == old(self).step,
            final(out)@.len() == old(out)@.len(),
            EmuContext::samples_written(
                old(self).bus.apu.resampler.frame_ended(),
                old(out)@,
                n,
                final(out)@,
            ),
    {
        reveal(EmuContext::samples_written);
        self.bus.apu.resampler.end_frame();
        self.bus.apu.resampler.read_samples(out)
    }

    /// Runs the machine to the end of a frame of `len` samples.
    #[verifier::spinoff_prover]
    fn run_to_frame_end(&mut self, len: usize) -> (r: (u64, Option<IllegalOpcode>))
        ensures
            final(self).pause == old(self).pause,
            final(self).step == old(self).step,
            machine(final(self).cpu, final(self).bus) == machine(old(self).cpu, old(self).bus).run(
                r.0 as nat,
            ),
            forall|k: nat|
                k < r.0 ==> (#[trigger] machine(old(self).cpu, old(self).bus).run(k)).bus.cycles
                    < old(self).frame_target(len),
            r.1 is None ==> final(self).bus.cycles >= old(self).frame_target(len),
            r.1 matches Some(e) ==> e == IllegalOpcode(final(self).cpu.op),
            r.1 is Some <==> r.0 > 0 && machine(old(self).cpu, old(self).bus).run(
                (r.0 - 1) as nat,
            ).halts(),
    {
        let needed: usize = self.bus.apu.resampler.clocks_needed(len);
        let cycles: u64 = self.bus.cycles();
        let target: u64 = if needed as u64 > u64::MAX - cycles {
            u64::MAX
        } else {
            cycles + needed as u64
        };
        self.bus.run_until(&mut self.cpu, target)
    }

    /// A frame of a running machine.
    #[verifier::spinoff_prover]
    fn run_live(&mut self, out: &mut [i16]) -> (r: FrameReport)
        requires
            !old(self).pause,
        ensures
            old(self).live_frame(old(out)@, r, *final(self), final(out)@),
    {
        reveal(EmuContext::live_frame);
        let len: usize = out.len();
        let (steps, halted) = self.run_to_frame_end(len);
        match halted {
            Some(e) => FrameReport { steps, samples: 0, halted: Some(e) },
            None => {
                let n: usize = self.drain(out);
                FrameReport { steps, samples: n, halted: None }
            },
        }
    }

    /// Produces sound for the host's buffer `out`.
    ///
    /// While paused, the machine carries out the one step that is due, if
    /// any, the resampler is emptied and `out` is filled with silence.
    /// Otherwise the machine runs for as many cycles as the resampler
    /// needs for `out.len()` samples, the frame is ended and the samples
    /// are read. A processor that halts ends the call at once.
    pub fn run_frame(&mut self, out: &mut [i16]) -> (r: FrameReport)
        ensures
            old(self).pause ==> old(self).paused_frame(old(out)@, r, *final(self), final(out)@),
            !old(self).pause ==> old(self).live_frame(old(out)@, r, *final(self), final(out)@),
    {
        if self.pause {
            self.run_paused(out)
        } else {
            self.run_live(out)
        }
    }
}

/// No event but `Step` looks at the pause flag: what an event makes of a
/// context with the flag turned over is what it makes of the context,
/// with the flag turned over.
pub proof fn lemma_pause_commutes(before: EmuContext, ev: ControlEvent, after: EmuContext)
    requires
        before.handled(ev, after),
        !(ev is Step),
    ensures
        before.toggled().handled(ev, after.toggled()),
{
    reveal(EmuContext::handled);
    assert(machine(before.toggled().cpu, before.toggled().bus) == machine(before.cpu, before.bus));
    assert(machine(after.toggled().cpu, after.toggled().bus) == machine(after.cpu, after.bus));
}

/// Pausing before a sequence of events and again behind it changes
/// nothing of what the sequence does, as long as no `Step` is in it.
#[verifier::spinoff_prover]
pub proof fn lemma_pause_transparent(before: EmuContext, evs: Seq<ControlEvent>, after: EmuContext)
    requires
        before.handled_all(evs, after),
        forall|i: int| 0 <= i < evs.len() ==> !(evs[i] is Step),
    ensures
        before.handled_all(seq![ControlEvent::Pause].add(evs).push(ControlEvent::Pause), after),
{
    let rel = |b: EmuContext, e: ControlEvent, a: EmuContext| b.handled(e, a);
    let flip = |c: EmuContext| c.toggled();
    let admissible = |e: ControlEvent| !(e is Step);
    assert forall|b: EmuContext, e: ControlEvent, a: EmuContext|
        #![trigger rel(b, e, a), flip(b)]
        rel(b, e, a) && admissible(e) implies rel(flip(b), e, flip(a)) by {
        lemma_pause_commutes(b, e, a);
    }
    lemma_chain_commutes(rel, flip, admissible, before, evs, after);
    lemma_pause_on_off(before, after);
    lemma_chain_push(rel, before.toggled(), evs, after.toggled(), ControlEvent::Pause, after);
    let all = seq![ControlEvent::Pause].add(evs).push(ControlEvent::Pause);
    assert(all.drop_first() =~= evs.push(ControlEvent::Pause));
    assert(rel(before, all[0], before.toggled()));
}

/// `Pause` turns the flag over and nothing else.
pub proof fn lemma_pause_on_off(before: EmuContext, after: EmuContext)
    ensures
        before.handled(ControlEvent::Pause, before.toggled()),
        after.toggled().handled(ControlEvent::Pause, after),
{
    reveal(EmuContext::handled);
    reveal(EmuContext::machine_handled);
    assert(after.toggled().toggled() == after);
}

} // verus!
