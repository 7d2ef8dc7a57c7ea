//! A band-limited synthesis buffer. Callers report changes of amplitude at
//! clock times; the buffer spreads each change over sixteen output samples
//! with a windowed-sinc step and integrates them on readout.

use vstd::prelude::*;

verus! {

/// Largest ratio of clock rate to sample rate.
pub const MAX_RATIO: u64 = 0x10_0000;

/// Largest number of samples that one frame may produce.
pub const MAX_FRAME: u64 = 4000;

/// One output sample in units of time: `2^52`.
pub const TIME_UNIT: u64 = 0x10_0000_0000_0000;

/// One output sample in units of the fixed-point sample position: `2^20`.
pub const FRAC_UNIT: u64 = 0x10_0000;

/// Time units per unit of the fixed-point sample position: `2^32`.
pub const PRE_UNIT: u64 = 0x1_0000_0000;

pub const PHASE_COUNT: usize = 32;

/// Full scale of a delta: `2^15`.
pub const DELTA_UNIT: u64 = 0x8000;

/// What a sample takes from the integrator on readout, per unit of output:
/// `2^(15 - 9)`.
pub const BASS_UNIT: i64 = 64;

pub const END_FRAME_EXTRA: usize = 2;

pub const HALF_WIDTH: usize = 8;

pub const BUF_EXTRA: usize = HALF_WIDTH * 2 + END_FRAME_EXTRA;

/// Largest buffer size in samples.
pub const MAX_SIZE: usize = 4096;

pub const BLIP_BUF_LEN: usize = MAX_SIZE + BUF_EXTRA;

/// The first half of the band-limited step, at 33 phases between two
/// samples.
pub const BL_STEP: [[i16; 8]; 33] = [
    [43, -115, 350, -488, 1136, -914, 5861, 21022],
    [44, -118, 348, -473, 1076, -799, 5274, 21001],
    [45, -121, 344, -454, 1011, -677, 4706, 20936],
    [46, -122, 336, -431, 942, -549, 4156, 20829],
    [47, -123, 327, -404, 868, -418, 3629, 20679],
    [47, -122, 316, -375, 792, -285, 3124, 20488],
    [47, -120, 303, -344, 714, -151, 2644, 20256],
    [46, -117, 289, -310, 634, -17, 2188, 19985],
    [46, -114, 273, -275, 553, 117, 1758, 19675],
    [44, -108, 255, -237, 471, 247, 1356, 19327],
    [43, -103, 237, -199, 390, 373, 981, 18944],
    [42, -98, 218, -160, 310, 495, 633, 18527],
    [40, -91, 198, -121, 231, 611, 314, 18078],
    [38, -84, 178, -81, 153, 722, 22, 17599],
    [36, -76, 157, -43, 80, 824, -241, 17092],
    [34, -68, 135, -3, 8, 919, -476, 16558],
    [32, -61, 115, 34, -60, 1006, -683, 16001],
    [29, -52, 94, 70, -123, 1083, -862, 15422],
    [27, -44, 73, 106, -184, 1152, -1015, 14824],
    [25, -36, 53, 139, -239, 1211, -1142, 14210],
    [22, -27, 34, 170, -290, 1261, -1244, 13582],
    [20, -20, 16, 199, -335, 1301, -1322, 12942],
    [18, -12, -3, 226, -375, 1331, -1376, 12293],
    [15, -4, -19, 250, -410, 1351, -1408, 11638],
    [13, 3, -35, 272, -439, 1361, -1419, 10979],
    [11, 9, -49, 292, -464, 1362, -1410, 10319],
    [9, 16, -63, 309, -483, 1354, -1383, 9660],
    [7, 22, -75, 322, -496, 1337, -1339, 9005],
    [6, 26, -85, 333, -504, 1312, -1280, 8355],
    [4, 31, -94, 341, -507, 1278, -1205, 7713],
    [3, 35, -102, 347, -506, 1238, -1119, 7082],
    [1, 40, -110, 350, -499, 1190, -1021, 6464],
    [0, 43, -115, 350, -488, 1136, -914, 5861],
];

/// `x` brought into the range of `i32` by adding a multiple of `2^32`.
pub open spec fn wrap32(x: int) -> int {
    (x + 0x8000_0000) % 0x1_0000_0000 - 0x8000_0000
}

/// The output sample for an integrator value: its part above the 15
/// fraction bits, held within 16 bits.
pub open spec fn out_sample(sum: int) -> int {
    let s = sum / 0x8000;
    if s < -0x8000 {
        -0x8000
    } else if s > 0x7fff {
        0x7fff
    } else {
        s
    }
}

/// The integrator after a sample was read: the sample's delta comes in,
/// and a 512th of the output goes out, which removes any constant offset
/// over time.
pub open spec fn next_sum(sum: int, delta: int) -> int {
    wrap32(wrap32(sum + delta) - out_sample(sum) * BASS_UNIT)
}

/// The integrator after the first `k` samples of `samples` were read.
pub open spec fn integrate(sum: int, samples: Seq<i32>, k: nat) -> int
    decreases k,
{
    if k == 0 {
        sum
    } else {
        next_sum(integrate(sum, samples, (k - 1) as nat), samples[k - 1] as int)
    }
}

/// The array that holds the elements of `s`.
pub open spec fn array_of(s: Seq<i32>) -> [i32; BLIP_BUF_LEN] {
    choose|a: [i32; BLIP_BUF_LEN]| a@ == s
}

/// What tap `k` (0 to 15) of the step at phase `phase` adds to a sample,
/// for a delta split into `d1` at this phase and `d2` at the next. The
/// second half of the step mirrors the first.
pub open spec fn tap(phase: int, k: int, d1: int, d2: int) -> int {
    if k < 8 {
        BL_STEP[phase][k] * d1 + BL_STEP[phase + 1][k] * d2
    } else {
        BL_STEP[32 - phase][15 - k] * d1 + BL_STEP[31 - phase][15 - k] * d2
    }
}

/// Adds two numbers as `i32` does when it wraps.
fn wrapping_sum(a: i32, b: i64) -> (r: i32)
    requires
        -0x4_0000_0000_0000 <= b <= 0x4_0000_0000_0000,
    ensures
        r == wrap32(a + b),
{
    let y: i64 = a as i64 + b + 0x8000_0000 + 0x10_0000_0000_0000;
    ((y % 0x1_0000_0000) - 0x8000_0000) as i32
}

/// `sum / 2^15`, rounded down.
fn floor15(sum: i64) -> (r: i64)
    requires
        -0x4000_0000_0000_0000 <= sum <= 0x4000_0000_0000_0000,
    ensures
        r == sum as int / 0x8000,
{
    if sum >= 0 {
        sum / 0x8000
    } else {
        let n: i64 = -sum;
        let q: i64 = (n + 0x7fff) / 0x8000;
        -q
    }
}

pub struct Blip {
    /// Time units per clock.
    pub factor: u64,
    /// Time of the frame's start within its first sample.
    pub offset: u64,
    /// Samples ready to be read.
    pub avail: usize,
    /// Capacity in samples.
    pub size: usize,
    pub integrator: i32,
    pub buf: [i32; BLIP_BUF_LEN],
}

impl Blip {
    /// Time of clock `time` of the current frame, in units of the
    /// fixed-point sample position.
    pub open spec fn fixed_time(self, time: usize) -> int {
        (time * self.factor + self.offset) / (PRE_UNIT as int)
    }

    /// Index of the first of the sixteen samples that a delta at clock
    /// `time` touches.
    pub open spec fn position(self, time: usize) -> int {
        self.avail + self.fixed_time(time) / (FRAC_UNIT as int)
    }

    /// Whether a delta at clock `time` lands inside the buffer.
    pub open spec fn delta_fits(self, time: usize) -> bool {
        self.position(time) + 16 <= BLIP_BUF_LEN
    }

    /// The part of `delta` that goes to the next phase of the step.
    pub open spec fn next_part(self, time: usize, delta: i32) -> int {
        delta * (self.fixed_time(time) % (DELTA_UNIT as int)) / (DELTA_UNIT as int)
    }

    /// The buffer after a delta at clock `time`: the sixteen samples from
    /// `position` on take up the step, interpolated between two phases.
    pub open spec fn delta_added(self, time: usize, delta: i32) -> Seq<i32> {
        let pos = self.position(time);
        let phase = (self.fixed_time(time) / (DELTA_UNIT as int)) % 32;
        let d2 = self.next_part(time, delta);
        let d1 = delta - d2;
        Seq::new(
            BLIP_BUF_LEN as nat,
            |i: int|
                if pos <= i < pos + 16 {
                    wrap32(self.buf[i] + tap(phase, i - pos, d1, d2)) as i32
                } else {
                    self.buf[i]
                },
        )
    }

    /// The buffer after a delta at clock `time` without the step: the
    /// delta is split between the two samples nearest to it.
    pub open spec fn fast_delta_added(self, time: usize, delta: i32) -> Seq<i32> {
        let pos = self.position(time);
        let d2 = delta * (self.fixed_time(time) / 32 % (DELTA_UNIT as int));
        Seq::new(
            BLIP_BUF_LEN as nat,
            |i: int|
                if i == pos + 7 {
                    wrap32(self.buf[i] + delta * (DELTA_UNIT as int) - d2) as i32
                } else if i == pos + 8 {
                    wrap32(self.buf[i] + d2) as i32
                } else {
                    self.buf[i]
                },
        )
    }

    /// The buffer after a delta at clock `time`.
    pub open spec fn with_delta(self, time: usize, delta: i32) -> Blip {
        Blip { buf: array_of(self.delta_added(time, delta)), ..self }
    }

    /// The buffer after a frame of `t` clocks ended.
    pub open spec fn frame_ended(self, t: usize) -> Blip {
        Blip {
            avail: self.avail_after(t) as usize,
            offset: ((t * self.factor + self.offset) % (TIME_UNIT as int)) as u64,
            ..self
        }
    }

    /// The buffer emptied.
    pub open spec fn cleared(self) -> Blip {
        Blip { offset: self.factor / 2, avail: 0, integrator: 0, buf: [0i32;BLIP_BUF_LEN], ..self }
    }

    /// The buffer after a read of up to `count` samples into a buffer of
    /// `len` slots.
    pub open spec fn samples_read(self, len: int, count: usize, stereo: bool) -> Blip {
        let n = self.taken(count);
        if n == 0 {
            self
        } else {
            Blip {
                integrator: integrate(
                    self.integrator as int,
                    self.buf@,
                    self.written_slots(len, n, stereo) as nat,
                ) as i32,
                avail: (self.avail - n) as usize,
                buf: array_of(self.removed(n)),
                ..self
            }
        }
    }

    /// Clocks to add before `samples` more samples can be read; `usize::MAX`
    /// where no number of clocks in `usize` would do.
    pub open spec fn clocks_for(self, samples: usize) -> int {
        let needed = TIME_UNIT * samples;
        if needed < self.offset {
            0
        } else if self.factor == 0 {
            usize::MAX as int
        } else {
            let c = (needed - self.offset + self.factor - 1) / (self.factor as int);
            if c > usize::MAX {
                usize::MAX as int
            } else {
                c
            }
        }
    }

    /// Samples that a frame of `t` clocks completes.
    pub open spec fn produced(self, t: usize) -> int {
        (t * self.factor + self.offset) / (TIME_UNIT as int)
    }

    /// Samples ready after a frame of `t` clocks: what the frame produced
    /// on top of those that were ready, up to the capacity.
    pub open spec fn avail_after(self, t: usize) -> int {
        if self.avail + self.produced(t) <= self.size {
            self.avail + self.produced(t)
        } else if self.avail <= self.size {
            self.size as int
        } else {
            self.avail as int
        }
    }

    /// The buffer after its first `count` samples left: the rest moves to
    /// the front and zeros fill the end.
    pub open spec fn removed(self, count: usize) -> Seq<i32> {
        let remain = self.avail + BUF_EXTRA - count;
        Seq::new(
            BLIP_BUF_LEN as nat,
            |i: int| if i < remain && i + count < BLIP_BUF_LEN { self.buf[i + count] } else { 0 },
        )
    }

    /// How many samples a read of up to `count` samples takes out: no more
    /// than are ready.
    pub open spec fn taken(self, count: usize) -> usize {
        if count <= self.avail && count <= BLIP_BUF_LEN {
            count
        } else if self.avail <= BLIP_BUF_LEN {
            self.avail
        } else {
            BLIP_BUF_LEN
        }
    }

    /// An empty buffer for `size` samples, set to the highest ratio of
    /// clock rate to sample rate.
    pub open spec fn empty(size: usize) -> Blip {
        Blip {
            factor: TIME_UNIT / MAX_RATIO,
            offset: TIME_UNIT / MAX_RATIO / 2,
            avail: 0,
            size,
            integrator: 0,
            buf: [0i32;BLIP_BUF_LEN],
        }
    }

    pub fn new(size: usize) -> (b: Self)
        requires
            size <= MAX_SIZE,
        ensures
            b == Blip::empty(size),
    {
        let factor: u64 = TIME_UNIT / MAX_RATIO;
        Blip { factor, offset: factor / 2, avail: 0, size, integrator: 0, buf: [0i32;BLIP_BUF_LEN] }
    }

    /// Sets the number of time units per clock to `TIME_UNIT * sample_rate
    /// / clock_rate`, rounded up.
    pub fn set_rates(&mut self, clock_rate: u64, sample_rate: u64)
        requires
            clock_rate > 0,
            (TIME_UNIT * sample_rate + clock_rate - 1) / (clock_rate as int) <= u64::MAX,
        ensures
            final(self).factor == (TIME_UNIT * sample_rate + clock_rate - 1) / (clock_rate as int),
            *final(self) == (Blip { factor: final(self).factor, ..*old(self) }),
    {
        assert(TIME_UNIT as int * sample_rate as int <= 0x10_0000_0000_0000 * 0xffff_ffff_ffff_ffff)
            by (nonlinear_arith)
            requires
                TIME_UNIT == 0x10_0000_0000_0000,
                sample_rate <= 0xffff_ffff_ffff_ffff,
        ;
        let wide: u128 = (TIME_UNIT as u128 * sample_rate as u128 + clock_rate as u128 - 1)
            / clock_rate as u128;
        self.factor = wide as u64;
    }

    /// Empties the buffer.
    pub fn clear(&mut self)
        ensures
            *final(self) == old(self).cleared(),
    {
        self.offset = self.factor / 2;
        self.avail = 0;
        self.integrator = 0;
        self.buf = [0i32;BLIP_BUF_LEN];
    }

    pub fn clocks_needed(&self, samples: usize) -> (r: usize)
        ensures
            r == self.clocks_for(samples),
    {
        assert(TIME_UNIT as int * samples as int <= 0x10_0000_0000_0000 * 0xffff_ffff_ffff_ffff)
            by (nonlinear_arith)
            requires
                TIME_UNIT == 0x10_0000_0000_0000,
                samples <= 0xffff_ffff_ffff_ffff,
        ;
        let needed: u128 = TIME_UNIT as u128 * samples as u128;
        if needed < self.offset as u128 {
            return 0;
        }
        if self.factor == 0 {
            return usize::MAX;
        }
        let c: u128 = (needed - self.offset as u128 + self.factor as u128 - 1) / self.factor as u128;
        if c > usize::MAX as u128 {
            usize::MAX
        } else {
            c as usize
        }
    }

    /// Ends a frame of `t` clocks: the samples it completed become ready,
    /// as far as the capacity allows, and the next frame starts at clock 0.
    pub fn end_frame(&mut self, t: usize)
        ensures
            *final(self) == old(self).frame_ended(t),
    {
        assert(t as int * self.factor as int <= 0xffff_ffff_ffff_ffff * 0xffff_ffff_ffff_ffff)
            by (nonlinear_arith)
            requires
                0 <= t <= 0xffff_ffff_ffff_ffff,
                0 <= self.factor <= 0xffff_ffff_ffff_ffff,
        ;
        let off: u128 = t as u128 * self.factor as u128 + self.offset as u128;
        let produced: u128 = off / TIME_UNIT as u128;
        if self.avail <= self.size {
            if produced <= (self.size - self.avail) as u128 {
                self.avail = self.avail + produced as usize;
            } else {
                self.avail = self.size;
            }
        }
        self.offset = (off % TIME_UNIT as u128) as u64;
    }

    pub fn samples_avail(&self) -> (r: usize)
        ensures
            r == self.avail,
    {
        self.avail
    }

    /// Drops the first `count` samples.
    pub fn remove_samples(&mut self, count: usize)
        requires
            count <= old(self).avail,
        ensures
            final(self).avail == old(self).avail - count,
            final(self).buf@ == old(self).removed(count),
            *final(self) == (Blip {
                avail: final(self).avail,
                buf: final(self).buf,
                ..*old(self)
            }),
    {
        let remain: u128 = (self.avail - count) as u128 + BUF_EXTRA as u128;
        self.avail = self.avail - count;
        let mut i: usize = 0;
        while i < BLIP_BUF_LEN
            invariant
                i <= BLIP_BUF_LEN,
                remain == old(self).avail + BUF_EXTRA - count,
                count <= old(self).avail,
                forall|j: int| 0 <= j < i ==> self.buf[j] == old(self).removed(count)[j],
                forall|j: int| i <= j < BLIP_BUF_LEN ==> self.buf[j] == old(self).buf[j],
                *self == (Blip {
                    avail: (old(self).avail - count) as usize,
                    buf: self.buf,
                    ..*old(self)
                }),
            decreases BLIP_BUF_LEN - i,
        {
            let v: i32 = if (i as u128) < remain && count < BLIP_BUF_LEN - i {
                self.buf[i + count]
            } else {
                0
            };
            self.buf[i] = v;
            i = i + 1;
        }
        assert(self.buf@ =~= old(self).removed(count));
    }

    /// Reads up to `count` samples into every slot of `buf`, or every
    /// second slot if `stereo`, and drops them from the buffer. Reading
    /// stops early where `buf` ends; the samples count as taken all the
    /// same. Returns the number of samples taken.
    pub fn read_samples(&mut self, buf: &mut [i16], count: usize, stereo: bool) -> (n: usize)
        ensures
            n == old(self).taken(count),
            final(buf)@.len() == old(buf)@.len(),
            forall|j: int|
                #![trigger final(buf)@[j]]
                0 <= j < old(buf)@.len() ==> final(buf)@[j] == (if j % (if stereo { 2int } else { 1 })
                    == 0 && j / (if stereo { 2int } else { 1 }) < n {
                    out_sample(
                        integrate(
                            old(self).integrator as int,
                            old(self).buf@,
                            (j / (if stereo { 2int } else { 1 })) as nat,
                        ),
                    ) as i16
                } else {
                    old(buf)@[j]
                }),
            final(self).integrator == integrate(
                old(self).integrator as int,
                old(self).buf@,
                old(self).written_slots(old(buf)@.len() as int, n, stereo) as nat,
            ),
            final(self).buf@ == (if n > 0 { old(self).removed(n) } else { old(self).buf@ }),
            *final(self) == old(self).samples_read(old(buf)@.len() as int, count, stereo),
    {
        let count: usize = if count <= self.avail && count <= BLIP_BUF_LEN {
            count
        } else if self.avail <= BLIP_BUF_LEN {
            self.avail
        } else {
            BLIP_BUF_LEN
        };
        if count == 0 {
            return 0;
        }
        let step: usize = if stereo { 2 } else { 1 };
        let mut sum: i32 = self.integrator;
        let mut k: usize = 0;
        while k < count && k * step < buf.len()
            invariant
                k <= count,
                count <= self.avail,
                count <= BLIP_BUF_LEN,
                step == (if stereo { 2int } else { 1 }),
                buf@.len() == old(buf)@.len(),
                *self == *old(self),
                k as int <= (buf@.len() + step - 1) / (step as int),
                sum == integrate(old(self).integrator as int, old(self).buf@, k as nat),
                forall|j: int|
                    #![trigger buf@[j]]
                    0 <= j < buf@.len() ==> buf@[j] == (if j % (step as int) == 0 && j / (
                    step as int) < k {
                        out_sample(
                            integrate(
                                old(self).integrator as int,
                                old(self).buf@,
                                (j / (step as int)) as nat,
                            ),
                        ) as i16
                    } else {
                        old(buf)@[j]
                    }),
            decreases count - k,
        {
            let raw: i64 = floor15(sum as i64);
            let s: i64 = if raw < -0x8000 {
                -0x8000
            } else if raw > 0x7fff {
                0x7fff
            } else {
                raw
            };
            let with_delta: i32 = wrapping_sum(sum, self.buf[k] as i64);
            buf[k * step] = s as i16;
            sum = wrapping_sum(with_delta, -(s * BASS_UNIT));
            assert(integrate(old(self).integrator as int, old(self).buf@, (k + 1) as nat)
                == next_sum(
                integrate(old(self).integrator as int, old(self).buf@, k as nat),
                old(self).buf@[k as int] as int,
            ));
            k = k + 1;
        }
        assert(k == old(self).written_slots(old(buf)@.len() as int, count, stereo));
        self.integrator = sum;
        self.remove_samples(count);
        assert(self.buf =~= array_of(old(self).removed(count)));
        count
    }

    /// How many samples a read of `n` samples writes into a buffer of
    /// `len` slots.
    pub open spec fn written_slots(self, len: int, n: usize, stereo: bool) -> int {
        let step = if stereo { 2int } else { 1 };
        let slots = (len + step - 1) / step;
        if n <= slots {
            n as int
        } else {
            slots
        }
    }

    /// Adds a change of amplitude of `delta` at clock `time` of the
    /// current frame.
    pub fn add_delta(&mut self, time: usize, delta: i32)
        requires
            old(self).delta_fits(time),
        ensures
            final(self).buf@ == old(self).delta_added(time, delta),
            *final(self) == old(self).with_delta(time, delta),
    {
        assert(time as int * self.factor as int <= 0xffff_ffff_ffff_ffff * 0xffff_ffff_ffff_ffff)
            by (nonlinear_arith)
            requires
                0 <= time <= 0xffff_ffff_ffff_ffff,
                0 <= self.factor <= 0xffff_ffff_ffff_ffff,
        ;
        let fixed: u128 = (time as u128 * self.factor as u128 + self.offset as u128)
            / PRE_UNIT as u128;
        let pos: usize = self.avail + (fixed / FRAC_UNIT as u128) as usize;
        let phase: usize = ((fixed / DELTA_UNIT as u128) % 32) as usize;
        let interp: i64 = (fixed % DELTA_UNIT as u128) as i64;
        assert(-0x4000_0000_0000 <= delta as int * interp as int <= 0x4000_0000_0000)
            by (nonlinear_arith)
            requires
                -0x8000_0000 <= delta <= 0x7fff_ffff,
                0 <= interp < 0x8000,
        ;
        let d2: i64 = floor15(delta as i64 * interp);
        let d1: i64 = delta as i64 - d2;
        let mut k: usize = 0;
        while k < 16
            invariant
                k <= 16,
                pos + 16 <= BLIP_BUF_LEN,
                phase < 32,
                pos == old(self).position(time),
                phase == (old(self).fixed_time(time) / (DELTA_UNIT as int)) % 32,
                d2 == old(self).next_part(time, delta),
                d1 == delta - d2,
                -0x1_0000_0000 <= d2 <= 0x1_0000_0000,
                forall|j: int|
                    0 <= j < BLIP_BUF_LEN ==> self.buf[j] == (if pos <= j < pos + k {
                        old(self).delta_added(time, delta)[j]
                    } else {
                        old(self).buf[j]
                    }),
                *self == (Blip { buf: self.buf, ..*old(self) }),
            decreases 16 - k,
        {
            let c0: i16 = if k < 8 { BL_STEP[phase][k] } else { BL_STEP[32 - phase][15 - k] };
            let c1: i16 = if k < 8 { BL_STEP[phase + 1][k] } else { BL_STEP[31 - phase][15 - k] };
            assert(-0x2_0000_0000_0000 <= c0 as int * d1 as int <= 0x2_0000_0000_0000)
                by (nonlinear_arith)
                requires
                    -0x8000 <= c0 <= 0x7fff,
                    -0x2_0000_0000 <= d1 <= 0x2_0000_0000,
            ;
            assert(-0x2_0000_0000_0000 <= c1 as int * d2 as int <= 0x2_0000_0000_0000)
                by (nonlinear_arith)
                requires
                    -0x8000 <= c1 <= 0x7fff,
                    -0x2_0000_0000 <= d2 <= 0x2_0000_0000,
            ;
            let add: i64 = c0 as i64 * d1 + c1 as i64 * d2;
            assert(add == tap(phase as int, k as int, d1 as int, d2 as int));
            let v: i32 = wrapping_sum(self.buf[pos + k], add);
            self.buf[pos + k] = v;
            k = k + 1;
        }
        assert(self.buf@ =~= old(self).delta_added(time, delta));
        assert(self.buf =~= array_of(old(self).delta_added(time, delta)));
    }

    /// Whether a delta at clock `time` lands inside the buffer.
    pub fn fits(&self, time: usize) -> (r: bool)
        ensures
            r == self.delta_fits(time),
    {
        assert(time as int * self.factor as int <= 0xffff_ffff_ffff_ffff * 0xffff_ffff_ffff_ffff)
            by (nonlinear_arith)
            requires
                0 <= time <= 0xffff_ffff_ffff_ffff,
                0 <= self.factor <= 0xffff_ffff_ffff_ffff,
        ;
        let fixed: u128 = (time as u128 * self.factor as u128 + self.offset as u128)
            / PRE_UNIT as u128;
        self.avail as u128 + fixed / FRAC_UNIT as u128 + 16 <= BLIP_BUF_LEN as u128
    }

    /// Adds a change of amplitude of `delta` at clock `time` of the
    /// current frame, split between two samples only.
    pub fn add_delta_fast(&mut self, time: usize, delta: i32)
        requires
            old(self).delta_fits(time),
        ensures
            final(self).buf@ == old(self).fast_delta_added(time, delta),
            *final(self) == (Blip { buf: final(self).buf, ..*old(self) }),
    {
        assert(time as int * self.factor as int <= 0xffff_ffff_ffff_ffff * 0xffff_ffff_ffff_ffff)
            by (nonlinear_arith)
            requires
                0 <= time <= 0xffff_ffff_ffff_ffff,
                0 <= self.factor <= 0xffff_ffff_ffff_ffff,
        ;
        let fixed: u128 = (time as u128 * self.factor as u128 + self.offset as u128)
            / PRE_UNIT as u128;
        let pos: usize = self.avail + (fixed / FRAC_UNIT as u128) as usize;
        let interp: i64 = ((fixed / 32) % DELTA_UNIT as u128) as i64;
        assert(-0x4000_0000_0000 <= delta as int * interp as int <= 0x4000_0000_0000)
            by (nonlinear_arith)
            requires
                -0x8000_0000 <= delta <= 0x7fff_ffff,
                0 <= interp < 0x8000,
        ;
        let d2: i64 = delta as i64 * interp;
        let v7: i32 = wrapping_sum(self.buf[pos + 7], delta as i64 * 0x8000 - d2);
        self.buf[pos + 7] = v7;
        let v8: i32 = wrapping_sum(self.buf[pos + 8], d2);
        self.buf[pos + 8] = v8;
        assert(self.buf@ =~= old(self).fast_delta_added(time, delta));
    }
}

/// A frame of at least `clocks_for(samples)` clocks completes at least
/// `samples` samples: if the buffer has room for them, so many more are
/// ready when the frame ends.
pub proof fn lemma_clocks_produce_samples(b: Blip, samples: usize, t: usize)
    requires
        b.factor > 0,
        b.clocks_for(samples) < usize::MAX,
        t >= b.clocks_for(samples),
        b.avail + samples <= b.size,
    ensures
        b.frame_ended(t).avail >= b.avail + samples,
{
    let needed = TIME_UNIT as int * samples as int;
    let f = b.factor as int;
    let off = b.offset as int;
    let total = t as int * f + off;
    assert(total >= needed) by {
        if needed >= off {
            let x = needed - off;
            let c = (x + f - 1) / f;
            assert(c == b.clocks_for(samples));
            assert(c * f >= x) by (nonlinear_arith)
                requires
                    c == (x + f - 1) / f,
                    f > 0,
                    x >= 0,
            ;
            assert(t * f >= c * f) by (nonlinear_arith)
                requires
                    t >= c,
                    f > 0,
            ;
        } else {
            assert(t * f >= 0) by (nonlinear_arith)
                requires
                    t >= 0,
                    f > 0,
            ;
        }
    }
    assert(total / (TIME_UNIT as int) >= samples) by (nonlinear_arith)
        requires
            total >= needed,
            needed == TIME_UNIT as int * samples as int,
            TIME_UNIT as int == 0x10_0000_0000_0000,
    ;
}

} // verus!
