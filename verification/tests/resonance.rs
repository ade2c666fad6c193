use journey::cadence::Lfsr;
use journey::resonance::buffer::{mix, PcmBuffer};
use journey::resonance::convert;
use journey::resonance::envelope::Stage;
use journey::resonance::lut::{SINE_LUT, TABLE_SIZE};
use journey::resonance::oscillator;
use journey::resonance::patch::Patch;
use journey::resonance::sound::{Curve, FilterMode, Waveform, MAX_LAYERS};

const SAMPLE_RATE: u32 = 44100;

/// The 64-bit phase step of a tone, as the synthesiser computes it.
fn phase_increment(frequency: f32, sample_rate: u32) -> u64 {
    let ratio = frequency as f64 / sample_rate as f64;
    (ratio * 18_446_744_073_709_551_616.0) as u64
}

#[test]
fn sine_zero_phase_is_zero() {
    assert_eq!(oscillator::sine(0), 0);
}

#[test]
fn sine_quarter_phase_is_peak() {
    let quarter = u64::MAX / 4;
    let sample = oscillator::sine(quarter);
    assert!(
        (sample - 32767_i16).abs() <= 1,
        "Expected ~32767 at quarter phase, got {}",
        sample
    );
}

#[test]
fn sine_half_phase_is_zero() {
    let half = u64::MAX / 2;
    let sample = oscillator::sine(half);
    assert!(
        sample.abs() <= 210,
        "Expected ~0 at half phase, got {}",
        sample
    );
}

#[test]
fn sine_periodicity() {
    let freq = 100.0;
    let inc = phase_increment(freq, SAMPLE_RATE);
    let mut phase: u64 = 0;
    let period_samples = SAMPLE_RATE / freq as u32;

    let mut first_cycle = [0i16; 441];
    for sample in first_cycle.iter_mut() {
        *sample = oscillator::sine(phase);
        phase = phase.wrapping_add(inc);
    }

    let mut second_cycle = [0i16; 441];
    for sample in second_cycle.iter_mut() {
        *sample = oscillator::sine(phase);
        phase = phase.wrapping_add(inc);
    }

    for i in 0..period_samples as usize {
        let diff = (first_cycle[i] as i32 - second_cycle[i] as i32).abs();
        assert!(
            diff <= 2,
            "Periodicity broken at sample {}: first={}, second={}, diff={}",
            i,
            first_cycle[i],
            second_cycle[i],
            diff
        );
    }
}

#[test]
fn square_band_limited_not_all_zeros() {
    let inc = phase_increment(440.0, SAMPLE_RATE);
    // 440 Hz lies in octave band 4 (320..640 Hz).
    let band = 4;
    let mut phase: u64 = 0;
    let mut has_nonzero = false;

    for _ in 0..1024 {
        let s = oscillator::square(phase, band);
        if s != 0 {
            has_nonzero = true;
            break;
        }
        phase = phase.wrapping_add(inc);
    }
    assert!(has_nonzero, "Square wave should produce non-zero samples");
}

#[test]
fn noise_is_nonzero_and_varying() {
    let mut noise = oscillator::Noise::new();
    let mut samples = [0i16; 100];
    for sample in samples.iter_mut() {
        *sample = noise.next_sample();
    }

    let has_nonzero = samples.iter().any(|&s| s != 0);
    assert!(has_nonzero, "Noise should produce non-zero samples");

    let first = samples[0];
    let has_variation = samples.iter().any(|&s| s != first);
    assert!(has_variation, "Noise should produce varying samples");
}

#[test]
fn noise_period_is_65535() {
    let mut noise = oscillator::Noise::new();
    let first = noise.next_sample();

    let mut repeated_at = 0;
    for i in 1..=65536 {
        let s = noise.next_sample();
        if s == first && i > 1 {
            let mut noise2 = oscillator::Noise::new();
            let _ = noise2.next_sample();
            for _ in 1..i {
                noise2.next_sample();
            }
            if noise2.next_sample() == noise.next_sample() {
                repeated_at = i;
                break;
            }
        }
    }

    assert!(
        repeated_at == 0 || repeated_at >= 65535,
        "Noise repeated too early at step {}",
        repeated_at
    );
}

#[test]
fn sine_lut_has_correct_size() {
    assert_eq!(SINE_LUT.len(), TABLE_SIZE);
    assert_eq!(TABLE_SIZE, 1024);
}

#[test]
fn sine_lut_known_values() {
    assert_eq!(SINE_LUT[0], 0);
    assert_eq!(SINE_LUT[256], 32767);
    assert!(
        SINE_LUT[512].abs() <= 1,
        "LUT[512] should be ~0, got {}",
        SINE_LUT[512]
    );
    assert_eq!(SINE_LUT[768], -32767);
}

#[test]
fn buffer_fill_raw_no_envelope() {
    let inc = phase_increment(440.0, SAMPLE_RATE);
    let mut phase: u64 = 0;
    let mut buf = PcmBuffer::<256>::new();

    buf.fill_raw(oscillator::sine, inc, &mut phase);

    assert_eq!(buf.len, 256);
    let peak = buf.as_slice().iter().map(|s| s.abs()).max().unwrap();
    assert!(
        peak > 10000,
        "Raw fill should produce strong signal, peak was {}",
        peak
    );
}

#[test]
fn mix_two_voices() {
    let mut buf_a = PcmBuffer::<256>::new();
    let mut buf_b = PcmBuffer::<256>::new();
    let mut phase_a: u64 = 0;
    let mut phase_b: u64 = 0;

    buf_a.fill_raw(
        oscillator::sine,
        phase_increment(440.0, SAMPLE_RATE),
        &mut phase_a,
    );
    buf_b.fill_raw(
        oscillator::sine,
        phase_increment(880.0, SAMPLE_RATE),
        &mut phase_b,
    );

    let mut output = [0i16; 256];
    mix(&[buf_a.as_slice(), buf_b.as_slice()], &mut output, 256);

    let differs_from_a = output.iter().zip(buf_a.as_slice()).any(|(o, a)| o != a);
    let differs_from_b = output.iter().zip(buf_b.as_slice()).any(|(o, b)| o != b);
    assert!(differs_from_a, "Mix should differ from input A");
    assert!(differs_from_b, "Mix should differ from input B");
}

#[test]
fn mix_saturation_clamp() {
    let max_signal = [32767i16; 4];
    let mut output = [0i16; 4];

    mix(&[&max_signal, &max_signal], &mut output, 4);

    for &s in &output {
        assert_eq!(s, 32767, "Mix should saturate at i16::MAX, got {}", s);
    }
}

#[test]
fn patch_index_roundtrip() {
    for index in 0..Patch::COUNT as u8 {
        let patch = Patch::from_index(index).expect("known patch index");
        assert_eq!(patch.index(), index);
    }
    assert!(Patch::from_index(255).is_none());
}

#[test]
fn wav_header_is_valid() {
    let samples = [0i16; 100];
    let wav = convert::to_wav_bytes(&samples, 44100);

    assert_eq!(&wav[0..4], b"RIFF");
    assert_eq!(&wav[8..12], b"WAVE");
    assert_eq!(&wav[12..16], b"fmt ");
    assert_eq!(&wav[36..40], b"data");

    assert_eq!(wav.len(), 244);

    let data_size = u32::from_le_bytes([wav[40], wav[41], wav[42], wav[43]]);
    assert_eq!(data_size, 200);
}

#[test]
fn wav_sample_data_is_correct() {
    let samples = [1000i16, -1000, 0, 32767, -32768];
    let wav = convert::to_wav_bytes(&samples, 44100);

    let s0 = i16::from_le_bytes([wav[44], wav[45]]);
    assert_eq!(s0, 1000);

    let s1 = i16::from_le_bytes([wav[46], wav[47]]);
    assert_eq!(s1, -1000);
}

#[test]
fn wav_header_fields() {
    let wav = convert::to_wav_bytes(&[5i16, -2], 48000);
    assert_eq!(wav.len(), 48);
    assert_eq!(u32::from_le_bytes([wav[4], wav[5], wav[6], wav[7]]), 40);
    assert_eq!(u32::from_le_bytes([wav[16], wav[17], wav[18], wav[19]]), 16);
    assert_eq!(u16::from_le_bytes([wav[20], wav[21]]), 1);
    assert_eq!(u16::from_le_bytes([wav[22], wav[23]]), 1);
    assert_eq!(u32::from_le_bytes([wav[24], wav[25], wav[26], wav[27]]), 48000);
    assert_eq!(u32::from_le_bytes([wav[28], wav[29], wav[30], wav[31]]), 96000);
    assert_eq!(u16::from_le_bytes([wav[32], wav[33]]), 2);
    assert_eq!(u16::from_le_bytes([wav[34], wav[35]]), 16);
    assert_eq!(&wav[44..48], &[5u8, 0, 0xFE, 0xFF]);
    let empty = convert::to_wav_bytes(&[], 8000);
    assert_eq!(empty.len(), 44);
}

#[test]
fn mix_sums_and_clamps_negative() {
    let a = [-30000i16, 100, 7];
    let b = [-30000i16, -50, 8];
    let c = [1i16, 1, 1];
    let mut output = [9i16; 4];
    mix(&[&a, &b, &c], &mut output, 3);
    assert_eq!(output, [-32768, 51, 16, 9]);
    let mut untouched = [4i16; 2];
    mix(&[], &mut untouched, 2);
    assert_eq!(untouched, [0, 0]);
}

#[test]
fn fill_raw_advances_phase_across_buffers() {
    let mut one = PcmBuffer::<8>::new();
    let mut two = PcmBuffer::<8>::new();
    let mut phase = 7u64;
    one.fill_raw(|p| (p % 1000) as i16, u64::MAX / 3, &mut phase);
    two.fill_raw(|p| (p % 1000) as i16, u64::MAX / 3, &mut phase);
    let mut joined = PcmBuffer::<16>::new();
    let mut phase2 = 7u64;
    joined.fill_raw(|p| (p % 1000) as i16, u64::MAX / 3, &mut phase2);
    assert_eq!(phase, phase2);
    assert_eq!(&joined.samples[..8], &one.samples[..]);
    assert_eq!(&joined.samples[8..], &two.samples[..]);
    assert_eq!(PcmBuffer::<4>::new().as_slice().len(), 0);
}

#[test]
fn banded_oscillators_read_clamped_band() {
    let phase = 1u64 << 62;
    assert_eq!(oscillator::square(phase, 9), oscillator::square(phase, 100));
    assert_eq!(oscillator::sawtooth(phase, 9), oscillator::sawtooth(phase, 1000));
    assert_eq!(oscillator::triangle(phase, 9), oscillator::triangle(phase, usize::MAX));
    // A quarter cycle is the triangle's peak.
    assert_eq!(oscillator::triangle(phase, 0), 32767);
    // The table slot ignores the low 54 bits of the phase.
    assert_eq!(oscillator::sine(phase), oscillator::sine(phase + (1u64 << 53)));
}

#[test]
fn noise_steps_like_the_lfsr() {
    let mut noise = oscillator::Noise::with_seed(0);
    assert_eq!(noise.next_sample(), ((0xACE1u16 >> 1) ^ 0xB400) as i16);
    let mut seeded = oscillator::Noise::with_seed(2);
    assert_eq!(seeded.next_sample(), 1);
}

#[test]
fn patch_names_and_enums() {
    assert_eq!(Patch::Kick.name(), "Kick");
    assert_eq!(Patch::Explosion.name(), "Explosion");
    assert_eq!(Patch::from_index(6), None);
    assert_eq!(MAX_LAYERS, 4);
    assert_ne!(Stage::Attack, Stage::Off);
    assert_ne!(Waveform::Sine, Waveform::Noise);
    assert_ne!(Curve::Hold, Curve::Decay);
    assert_ne!(FilterMode::Unfiltered, FilterMode::LowPass);
}

#[test]
fn noise_follows_the_lfsr_sequence() {
    for seed in [0u16, 1, 2, 0x1234, 0xACE1, 0xFFFF] {
        let mut noise = oscillator::Noise::with_seed(seed);
        let mut lfsr = Lfsr::new(seed);
        for _ in 0..5000 {
            let sample = noise.next_sample();
            assert_eq!(sample, lfsr.next_u16() as i16);
            assert_ne!(sample, 0);
        }
    }
    // The unseeded source is the zero seed's, which is the default seed's.
    let mut plain = oscillator::Noise::new();
    let mut zero = oscillator::Noise::with_seed(0);
    let mut default_seed = oscillator::Noise::with_seed(0xACE1);
    for _ in 0..1000 {
        let a = plain.next_sample();
        assert_eq!(a, zero.next_sample());
        assert_eq!(a, default_seed.next_sample());
    }
}
