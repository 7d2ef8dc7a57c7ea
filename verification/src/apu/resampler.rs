//! From one amplitude per CPU cycle to samples at the host's rate.

pub mod blip_buf;

use crate::apu::resampler::blip_buf::{Blip, MAX_SIZE, TIME_UNIT};
use crate::{CPU_DIVIDER, MASTER_CLOCK};
use vstd::prelude::*;

verus! {

pub struct Resampler {
    pub blip: Blip,
    /// The amplitude of the last cycle.
    pub last_sample: u16,
    /// CPU cycles since the frame began.
    pub clocks: usize,
}

impl Resampler {
    /// The resampler one CPU cycle later, with `level` as the amplitude of
    /// that cycle: a change of amplitude goes to the buffer as a delta at
    /// the current clock, unless it falls behind the buffer's end.
    pub open spec fn sample_added(self, level: u16) -> Resampler {
        Resampler {
            blip: if level != self.last_sample && self.blip.delta_fits(self.clocks) {
                self.blip.with_delta(self.clocks, (level - self.last_sample) as i32)
            } else {
                self.blip
            },
            last_sample: level,
            clocks: if self.clocks == usize::MAX { self.clocks } else { (self.clocks + 1) as usize },
        }
    }

    /// The resampler after the current frame ended.
    pub open spec fn frame_ended(self) -> Resampler {
        Resampler { blip: self.blip.frame_ended(self.clocks), clocks: 0, ..self }
    }

    /// The resampler emptied.
    pub open spec fn cleared(self) -> Resampler {
        Resampler { blip: self.blip.cleared(), clocks: 0, last_sample: 0 }
    }

    /// Time units per CPU cycle for `sample_rate` samples per second, the
    /// CPU running at `MASTER_CLOCK / CPU_DIVIDER` Hz; rounded up.
    pub open spec fn factor_for(sample_rate: u32) -> int {
        (TIME_UNIT * (sample_rate * CPU_DIVIDER) + MASTER_CLOCK - 1) / (MASTER_CLOCK as int)
    }

    /// An empty resampler for `size` samples.
    pub open spec fn empty(size: usize) -> Resampler {
        Resampler { blip: Blip::empty(size), last_sample: 0, clocks: 0 }
    }

    pub fn new(size: usize) -> (r: Self)
        requires
            size <= MAX_SIZE,
        ensures
            r == Resampler::empty(size),
    {
        Resampler { blip: Blip::new(size), last_sample: 0, clocks: 0 }
    }

    /// Sets the host's sample rate in Hz.
    pub fn set_rates(&mut self, sample_rate: u32)
        ensures
            final(self).blip.factor == Resampler::factor_for(sample_rate),
            *final(self) == (Resampler {
                blip: Blip { factor: final(self).blip.factor, ..old(self).blip },
                ..*old(self)
            }),
    {
        self.blip.set_rates(MASTER_CLOCK, sample_rate as u64 * CPU_DIVIDER);
    }

    pub fn add_sample(&mut self, level: u16)
        ensures
            *final(self) == old(self).sample_added(level),
    {
        if level != self.last_sample {
            if self.blip.fits(self.clocks) {
                self.blip.add_delta(self.clocks, level as i32 - self.last_sample as i32);
            }
            self.last_sample = level;
        }
        if self.clocks < usize::MAX {
            self.clocks = self.clocks + 1;
        }
    }

    pub fn clocks_needed(&self, samples: usize) -> (r: usize)
        ensures
            r == self.blip.clocks_for(samples),
    {
        self.blip.clocks_needed(samples)
    }

    pub fn end_frame(&mut self)
        ensures
            *final(self) == old(self).frame_ended(),
    {
        self.blip.end_frame(self.clocks);
        self.clocks = 0;
    }

    /// Reads as many samples as are ready and fit into `buf`; returns how
    /// many were taken.
    pub fn read_samples(&mut self, buf: &mut [i16]) -> (n: usize)
        ensures
            n == old(self).blip.taken(old(buf)@.len() as usize),
            final(buf)@.len() == old(buf)@.len(),
            forall|j: int|
                #![trigger final(buf)@[j]]
                0 <= j < old(buf)@.len() ==> final(buf)@[j] == (if j < n {
                    blip_buf::out_sample(
                        blip_buf::integrate(
                            old(self).blip.integrator as int,
                            old(self).blip.buf@,
                            j as nat,
                        ),
                    ) as i16
                } else {
                    old(buf)@[j]
                }),
            *final(self) == (Resampler {
                blip: old(self).blip.samples_read(
                    old(buf)@.len() as int,
                    old(buf)@.len() as usize,
                    false,
                ),
                ..*old(self)
            }),
    {
        let len: usize = buf.len();
        self.blip.read_samples(buf, len, false)
    }

    pub fn clear(&mut self)
        ensures
            *final(self) == old(self).cleared(),
    {
        self.clocks = 0;
        self.last_sample = 0;
        self.blip.clear();
    }

    /// Samples ready to be read.
    pub fn avail(&self) -> (r: usize)
        ensures
            r == self.blip.avail,
    {
        self.blip.samples_avail()
    }
}

impl Resampler {
    /// The resampler after one CPU cycle for each amplitude in `levels`.
    pub open spec fn samples_added(self, levels: Seq<u16>) -> Resampler
        decreases levels.len(),
    {
        if levels.len() == 0 {
            self
        } else {
            self.sample_added(levels[0]).samples_added(levels.drop_first())
        }
    }
}

/// Adding samples counts clocks and changes neither the rates nor the
/// number of samples ready.
pub proof fn lemma_samples_count(r: Resampler, levels: Seq<u16>)
    requires
        r.clocks + levels.len() <= usize::MAX,
    ensures
        r.samples_added(levels).clocks == r.clocks + levels.len(),
        r.samples_added(levels).blip.factor == r.blip.factor,
        r.samples_added(levels).blip.offset == r.blip.offset,
        r.samples_added(levels).blip.avail == r.blip.avail,
        r.samples_added(levels).blip.size == r.blip.size,
    decreases levels.len(),
{
    if levels.len() > 0 {
        lemma_samples_count(r.sample_added(levels[0]), levels.drop_first());
    }
}

/// After at least `clocks_needed(samples)` cycles of input from the start
/// of a frame, the end of the frame has at least `samples` more samples
/// ready, if the buffer has room for them.
pub proof fn lemma_enough_clocks(r: Resampler, samples: usize, levels: Seq<u16>)
    requires
        r.clocks == 0,
        r.blip.factor > 0,
        levels.len() < usize::MAX,
        levels.len() >= r.blip.clocks_for(samples),
        r.blip.avail + samples <= r.blip.size,
    ensures
        r.samples_added(levels).frame_ended().blip.avail >= r.blip.avail + samples,
{
    lemma_samples_count(r, levels);
    let fed = r.samples_added(levels);
    assert(fed.blip.clocks_for(samples) == r.blip.clocks_for(samples));
    assert(fed.blip.frame_ended(fed.clocks).avail == r.blip.frame_ended(fed.clocks).avail);
    blip_buf::lemma_clocks_produce_samples(r.blip, samples, fed.clocks);
}

} // verus!
