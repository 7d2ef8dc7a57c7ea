use les_nes::apu::resampler::blip_buf::{Blip, BLIP_BUF_LEN, BL_STEP, MAX_SIZE};
use les_nes::apu::resampler::Resampler;

#[test]
fn new_buffer_is_empty() {
    let b = Blip::new(100);
    assert_eq!(b.factor, 1 << 32);
    assert_eq!(b.offset, 1 << 31);
    assert_eq!(b.samples_avail(), 0);
    assert_eq!(b.size, 100);
    assert_eq!(b.integrator, 0);
    assert!(b.buf.iter().all(|s| *s == 0));
    assert_eq!(b.buf.len(), MAX_SIZE + 18);
    assert_eq!(BLIP_BUF_LEN, 4114);
}

#[test]
fn rates_set_the_factor() {
    let mut b = Blip::new(4096);
    b.set_rates(1_789_773, 44_100);
    assert_eq!(b.factor, 110_968_677_908_897);
    b.set_rates(2, 1);
    assert_eq!(b.factor, 1 << 51);
    b.set_rates(3, 1);
    assert_eq!(b.factor, (1u64 << 52) / 3 + 1);
    let mut r = Resampler::new(4096);
    r.set_rates(44_100);
    assert_eq!(r.blip.factor, 110_968_698_576_080);
}

#[test]
fn blip_sample_count() {
    let mut r = Resampler::new(4096);
    r.blip.set_rates(1_789_773, 44_100);
    let clocks = r.clocks_needed(4096);
    assert_eq!(clocks, 166_234);
    for _ in 0..clocks {
        r.add_sample(12_345);
    }
    assert_eq!(r.clocks, clocks);
    r.end_frame();
    assert!(r.avail() >= 4096);
    assert_eq!(r.clocks, 0);
}

#[test]
fn one_clock_less_is_one_sample_short() {
    let mut b = Blip::new(4096);
    b.set_rates(1_789_773, 44_100);
    let clocks = b.clocks_needed(1000);
    let mut short = Blip::new(4096);
    short.set_rates(1_789_773, 44_100);
    short.end_frame(clocks - 1);
    assert_eq!(short.samples_avail(), 999);
    b.end_frame(clocks);
    assert_eq!(b.samples_avail(), 1000);
    assert_eq!(b.clocks_needed(0), 0);
}

#[test]
fn frames_carry_their_fraction_over() {
    let mut b = Blip::new(4096);
    b.set_rates(4, 1);
    assert_eq!(b.factor, 1 << 50);
    // the buffer starts half a clock of the widest ratio into a sample
    b.end_frame(3);
    assert_eq!(b.samples_avail(), 0);
    assert_eq!(b.offset, 3 * (1 << 50) + (1 << 31));
    b.end_frame(1);
    assert_eq!(b.samples_avail(), 1);
    assert_eq!(b.offset, 1 << 31);
    b.end_frame(9);
    assert_eq!(b.samples_avail(), 3);
    assert_eq!(b.offset, (1 << 50) + (1 << 31));
}

#[test]
fn full_buffer_takes_no_more() {
    let mut b = Blip::new(10);
    b.set_rates(1, 1);
    b.end_frame(25);
    assert_eq!(b.samples_avail(), 10);
}

#[test]
fn delta_spreads_over_sixteen_samples() {
    let mut b = Blip::new(64);
    b.set_rates(1, 1);
    b.offset = 0;
    b.add_delta(3, 2);
    for i in 0..3 {
        assert_eq!(b.buf[i], 0);
    }
    for k in 0..8 {
        assert_eq!(b.buf[3 + k], 2 * BL_STEP[0][k] as i32);
        assert_eq!(b.buf[3 + 8 + k], 2 * BL_STEP[32][7 - k] as i32);
    }
    assert_eq!(b.buf[19], 0);
    let sum: i32 = b.buf.iter().sum();
    assert_eq!(sum, 2 * 32768);
}

#[test]
fn delta_between_two_phases_is_shared() {
    let mut b = Blip::new(64);
    b.set_rates(1, 1);
    // half a phase behind phase 5 of sample 2
    b.offset = (5 << (52 - 5)) + (1 << (52 - 6));
    b.add_delta(2, 1000);
    for k in 0..8 {
        let want = 500 * BL_STEP[5][k] as i32 + 500 * BL_STEP[6][k] as i32;
        assert_eq!(b.buf[2 + k], want);
        let back = 500 * BL_STEP[27][7 - k] as i32 + 500 * BL_STEP[26][7 - k] as i32;
        assert_eq!(b.buf[2 + 8 + k], back);
    }
}

#[test]
fn fast_delta_lands_on_two_samples() {
    let mut b = Blip::new(64);
    b.set_rates(1, 1);
    b.offset = 1 << 51;
    b.add_delta_fast(4, 10);
    assert_eq!(b.buf[4 + 7], 10 * 32768 - 10 * 16384);
    assert_eq!(b.buf[4 + 8], 10 * 16384);
    assert_eq!(b.buf.iter().filter(|s| **s != 0).count(), 2);
}

#[test]
fn fits_tells_where_the_buffer_ends() {
    let mut b = Blip::new(4096);
    b.set_rates(1, 1);
    b.offset = 0;
    assert!(b.fits(0));
    assert!(b.fits(4098));
    assert!(!b.fits(4099));
    b.end_frame(100);
    assert!(b.fits(3998));
    assert!(!b.fits(3999));
}

#[test]
fn step_rises_and_fades() {
    let mut b = Blip::new(4096);
    b.set_rates(1_789_773, 44_100);
    b.add_delta(0, 10_000);
    b.end_frame(b.clocks_needed(2000));
    let mut out = [0i16; 2000];
    assert_eq!(b.read_samples(&mut out, 2000, false), 2000);
    assert_eq!(b.samples_avail(), 0);
    assert_eq!(out[0], 0);
    let peak = *out.iter().max().unwrap();
    assert!(peak > 9_500 && peak < 11_500, "peak {}", peak);
    assert!(out[30] > 9_000 && out[30] < 10_500, "sample 30 is {}", out[30]);
    // behind the step the level fades by about one part in 512 per sample
    for k in 40..1999 {
        assert!(out[k + 1] <= out[k]);
    }
    let ratio = out[552] as f64 / out[40] as f64;
    assert!(ratio > 0.34 && ratio < 0.40, "ratio {}", ratio);
    assert!(out[1999] > 0 && out[1999] < 400, "last sample is {}", out[1999]);
}

#[test]
fn constant_input_gives_one_step() {
    let mut r = Resampler::new(4096);
    r.set_rates(44_100);
    for _ in 0..r.clocks_needed(100) {
        r.add_sample(8_000);
    }
    r.end_frame();
    let mut out = [0i16; 100];
    assert_eq!(r.read_samples(&mut out), 100);
    assert!(out[40] > 7_000 && out[40] <= 8_400, "sample 40 is {}", out[40]);
    // the same level again changes nothing: the fade goes on
    for _ in 0..r.clocks_needed(100) {
        r.add_sample(8_000);
    }
    r.end_frame();
    let mut more = [0i16; 100];
    assert_eq!(r.read_samples(&mut more), 100);
    assert!(more[0] <= out[99]);
    assert!(more[99] < more[0]);
    assert!(more[99] > 5_000);
}

#[test]
fn read_takes_no_more_than_is_ready() {
    let mut b = Blip::new(4096);
    b.set_rates(1, 1);
    b.offset = 0;
    b.add_delta(0, 100);
    b.end_frame(5);
    let mut out = [7i16; 8];
    assert_eq!(b.read_samples(&mut out, 8, false), 5);
    assert_eq!(out[5], 7);
    assert_eq!(out[7], 7);
    assert_eq!(b.samples_avail(), 0);
    assert_eq!(b.read_samples(&mut out, 8, false), 0);
}

#[test]
fn stereo_read_writes_every_second_slot() {
    let mut a = Blip::new(4096);
    a.set_rates(1, 1);
    a.offset = 0;
    a.add_delta(0, 5000);
    a.end_frame(20);
    let mut b = Blip::new(4096);
    b.set_rates(1, 1);
    b.offset = 0;
    b.add_delta(0, 5000);
    b.end_frame(20);
    let mut mono = [0i16; 20];
    let mut stereo = [-1i16; 40];
    assert_eq!(a.read_samples(&mut mono, 20, false), 20);
    assert_eq!(b.read_samples(&mut stereo, 20, true), 20);
    for k in 0..20 {
        assert_eq!(stereo[2 * k], mono[k]);
        assert_eq!(stereo[2 * k + 1], -1);
    }
}

#[test]
fn output_is_held_within_16_bits() {
    let mut b = Blip::new(4096);
    b.set_rates(1, 1);
    b.offset = 0;
    b.add_delta(0, 60_000);
    b.end_frame(40);
    let mut out = [0i16; 40];
    b.read_samples(&mut out, 40, false);
    assert_eq!(*out.iter().max().unwrap(), i16::MAX);
    let mut c = Blip::new(4096);
    c.set_rates(1, 1);
    c.offset = 0;
    c.add_delta(0, -60_000);
    c.end_frame(40);
    c.read_samples(&mut out, 40, false);
    assert_eq!(*out.iter().min().unwrap(), i16::MIN);
}

#[test]
fn removing_samples_moves_the_rest_forward() {
    let mut b = Blip::new(4096);
    for i in 0..BLIP_BUF_LEN {
        b.buf[i] = i as i32 + 1;
    }
    b.avail = 10;
    b.remove_samples(4);
    assert_eq!(b.samples_avail(), 6);
    assert_eq!(b.buf[0], 5);
    assert_eq!(b.buf[23], 28);
    assert_eq!(b.buf[24], 0);
    assert_eq!(b.buf[BLIP_BUF_LEN - 1], 0);
}

#[test]
fn clear_empties_the_buffer() {
    let mut b = Blip::new(4096);
    b.set_rates(1_789_773, 44_100);
    b.add_delta(0, 1000);
    b.end_frame(500);
    let mut out = [0i16; 4];
    b.read_samples(&mut out, 4, false);
    b.clear();
    assert_eq!(b.samples_avail(), 0);
    assert_eq!(b.integrator, 0);
    assert_eq!(b.offset, b.factor / 2);
    assert!(b.buf.iter().all(|s| *s == 0));
    assert_eq!(b.factor, 110_968_677_908_897);
}

#[test]
fn resampler_skips_what_falls_behind_the_buffer() {
    let mut r = Resampler::new(4096);
    r.set_rates(44_100);
    r.clocks = usize::MAX - 1;
    r.add_sample(100);
    assert_eq!(r.clocks, usize::MAX);
    assert_eq!(r.last_sample, 100);
    r.add_sample(200);
    assert_eq!(r.clocks, usize::MAX);
    assert!(r.blip.buf.iter().all(|s| *s == 0));
    r.clear();
    assert_eq!(r.clocks, 0);
    assert_eq!(r.last_sample, 0);
}

#[test]
fn resampler_reports_only_changes() {
    let mut r = Resampler::new(4096);
    r.set_rates(44_100);
    r.add_sample(0);
    assert!(r.blip.buf.iter().all(|s| *s == 0));
    r.add_sample(500);
    let after_step: Vec<i32> = r.blip.buf.to_vec();
    assert!(after_step.iter().any(|s| *s != 0));
    r.add_sample(500);
    assert_eq!(r.blip.buf.to_vec(), after_step);
    assert_eq!(r.clocks, 3);
}
