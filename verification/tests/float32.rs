use firewire_ctl_protocols::float32::Float32;
use firewire_ctl_protocols::motu::command_dsp::cmd::ResourceCmd;
use firewire_ctl_protocols::motu::command_dsp::effects::{DynamicsParameter, EqualizerParameter};

fn next(state: &mut u64) -> u32 {
    *state = state.wrapping_mul(6364136223846793005).wrapping_add(1442695040888963407);
    (*state >> 32) as u32
}

#[test]
fn bits_are_kept() {
    let f = Float32::from_bits(0x3f80_0000);
    assert_eq!(f.to_bits(), 1.0f32.to_bits());
    assert_eq!(f, Float32 { bits: 0x3f80_0000 });
    assert_eq!(Float32::default().to_bits(), 0);
}

#[test]
fn le_bytes_of_one() {
    let mut raw = vec![0xaa];
    Float32::from_bits(0x3f80_0000).append_le_bytes(&mut raw);
    assert_eq!(raw, vec![0xaa, 0x00, 0x00, 0x80, 0x3f]);
    assert_eq!(Float32::from_le_bytes(&raw[1..]).to_bits(), 0x3f80_0000);
}

#[test]
fn le_bytes_match_native_on_samples() {
    let mut state = 7u64;
    for _ in 0..10000 {
        let bits = next(&mut state);
        let mut raw = Vec::new();
        Float32::from_bits(bits).append_le_bytes(&mut raw);
        assert_eq!(raw, f32::from_bits(bits).to_le_bytes().to_vec());
        assert_eq!(Float32::from_le_bytes(&raw).to_bits(), bits);
    }
}

#[test]
fn from_i32_exact_values() {
    assert_eq!(Float32::from_i32(0).to_bits(), 0);
    assert_eq!(Float32::from_i32(1).to_bits(), 0x3f80_0000);
    assert_eq!(Float32::from_i32(-1).to_bits(), 0xbf80_0000);
    assert_eq!(Float32::from_i32(-96).to_bits(), (-96.0f32).to_bits());
    assert_eq!(Float32::from_i32(22).to_bits(), 22.0f32.to_bits());
    assert_eq!(Float32::from_i32(0x100_0000).to_bits(), 0x4b80_0000);
    assert_eq!(Float32::from_i32(i32::MAX).to_bits(), 0x4f00_0000);
    assert_eq!(Float32::from_i32(i32::MIN).to_bits(), 0xcf00_0000);
}

#[test]
fn from_i32_rounds_to_nearest_even() {
    // 2^24 + 1 lies between two numbers and goes to the even one.
    assert_eq!(Float32::from_i32(0x100_0001).to_bits(), 0x4b80_0000);
    assert_eq!(Float32::from_i32(0x100_0002).to_bits(), 0x4b80_0001);
    assert_eq!(Float32::from_i32(0x100_0003).to_bits(), 0x4b80_0002);
    for v in [0x100_0001i32, 0x100_0003, 0x100_0005, 0x3ff_ffff, 0x7fff_ffbf, 0x7fff_ffc0, -0x100_0001] {
        assert_eq!(Float32::from_i32(v).to_bits(), (v as f32).to_bits());
    }
}

#[test]
fn from_i32_matches_native_on_samples() {
    let mut state = 1u64;
    for _ in 0..200000 {
        let v = next(&mut state) as i32;
        assert_eq!(Float32::from_i32(v).to_bits(), (v as f32).to_bits(), "{}", v);
        let small = v >> (next(&mut state) % 32);
        assert_eq!(Float32::from_i32(small).to_bits(), (small as f32).to_bits(), "{}", small);
    }
}

#[test]
fn from_u32_matches_native_on_samples() {
    assert_eq!(Float32::from_u32(u32::MAX).to_bits(), (u32::MAX as f32).to_bits());
    assert_eq!(Float32::from_u32(20000).to_bits(), 20000.0f32.to_bits());
    let mut state = 2u64;
    for _ in 0..200000 {
        let v = next(&mut state);
        assert_eq!(Float32::from_u32(v).to_bits(), (v as f32).to_bits(), "{}", v);
        let small = v >> (next(&mut state) % 32);
        assert_eq!(Float32::from_u32(small).to_bits(), (small as f32).to_bits(), "{}", small);
    }
}

#[test]
fn to_i32_special_values() {
    assert_eq!(Float32::from_bits(f32::NAN.to_bits()).to_i32(), 0);
    assert_eq!(Float32::from_bits(0xffc0_0001).to_i32(), 0);
    assert_eq!(Float32::from_bits(f32::INFINITY.to_bits()).to_i32(), i32::MAX);
    assert_eq!(Float32::from_bits(f32::NEG_INFINITY.to_bits()).to_i32(), i32::MIN);
    assert_eq!(Float32::from_bits(0x8000_0000).to_i32(), 0);
    assert_eq!(Float32::from_bits(1.5f32.to_bits()).to_i32(), 1);
    assert_eq!(Float32::from_bits((-1.5f32).to_bits()).to_i32(), -1);
    assert_eq!(Float32::from_bits(0.999f32.to_bits()).to_i32(), 0);
    assert_eq!(Float32::from_bits(3.0e9f32.to_bits()).to_i32(), i32::MAX);
    assert_eq!(Float32::from_bits((-3.0e9f32).to_bits()).to_i32(), i32::MIN);
    assert_eq!(Float32::from_bits(0xcf00_0000).to_i32(), i32::MIN);
    assert_eq!(Float32::from_bits(1).to_i32(), 0);
}

#[test]
fn to_u32_special_values() {
    assert_eq!(Float32::from_bits(f32::NAN.to_bits()).to_u32(), 0);
    assert_eq!(Float32::from_bits(f32::INFINITY.to_bits()).to_u32(), u32::MAX);
    assert_eq!(Float32::from_bits(f32::NEG_INFINITY.to_bits()).to_u32(), 0);
    assert_eq!(Float32::from_bits((-5.0f32).to_bits()).to_u32(), 0);
    assert_eq!(Float32::from_bits(5.9f32.to_bits()).to_u32(), 5);
    assert_eq!(Float32::from_bits(4.0e9f32.to_bits()).to_u32(), 4_000_000_000);
    assert_eq!(Float32::from_bits(5.0e9f32.to_bits()).to_u32(), u32::MAX);
}

#[test]
fn to_integers_match_native_on_samples() {
    let mut state = 3u64;
    for _ in 0..400000 {
        let bits = next(&mut state);
        let native = f32::from_bits(bits);
        assert_eq!(Float32::from_bits(bits).to_i32(), native as i32, "{:#x}", bits);
        assert_eq!(Float32::from_bits(bits).to_u32(), native as u32, "{:#x}", bits);
    }
    // Every exponent around the range of the integers, with some fractions.
    for exponent in 100u32..=180 {
        for fraction in [0u32, 1, 0x40_0000, 0x7f_ffff, 0x12_3456] {
            for sign in [0u32, 0x8000_0000] {
                let bits = sign | (exponent << 23) | fraction;
                let native = f32::from_bits(bits);
                assert_eq!(Float32::from_bits(bits).to_i32(), native as i32, "{:#x}", bits);
                assert_eq!(Float32::from_bits(bits).to_u32(), native as u32, "{:#x}", bits);
            }
        }
    }
}

#[test]
fn integers_up_to_two_to_24_survive() {
    for v in [0i32, 1, -1, 97531, -97531, 0xff_ffff, 0x100_0000, -0x100_0000] {
        assert_eq!(Float32::from_i32(v).to_i32(), v);
    }
    for v in [0u32, 1, 20000, 111127, 0x100_0000] {
        assert_eq!(Float32::from_u32(v).to_u32(), v);
    }
    assert_ne!(Float32::from_i32(0x100_0001).to_i32(), 0x100_0001);
}

#[test]
fn patterns_of_the_ranges() {
    use_ranges();
}

fn use_ranges() {
    assert_eq!(EqualizerParameter::GAIN_MIN, (-20.0f32).to_bits());
    assert_eq!(EqualizerParameter::GAIN_MAX, 20.0f32.to_bits());
    assert_eq!(EqualizerParameter::WIDTH_MIN, 0.01f32.to_bits());
    assert_eq!(EqualizerParameter::WIDTH_MAX, 3.0f32.to_bits());
    assert_eq!(DynamicsParameter::RATIO_MIN, 1.0f32.to_bits());
    assert_eq!(DynamicsParameter::RATIO_MAX, 10.0f32.to_bits());
    assert_eq!(DynamicsParameter::GAIN_MIN, (-6.0f32).to_bits());
    assert_eq!(DynamicsParameter::GAIN_MAX, 0.0f32.to_bits());
    assert_eq!(ResourceCmd::USAGE_MIN, 0.0f32.to_bits());
    assert_eq!(ResourceCmd::USAGE_MAX, 100.0f32.to_bits());
    assert_eq!((EqualizerParameter::FREQ_MIN, EqualizerParameter::FREQ_MAX), (20, 20000));
    assert_eq!((DynamicsParameter::THRESHOLD_MIN, DynamicsParameter::THRESHOLD_MAX), (-48, 0));
}
