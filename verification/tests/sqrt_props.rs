use vortex_panels::fp::{bits_le, bits_lt, bits_total_le};
use vortex_panels::sqrt::{fp_sqrt, isqrt64};

#[test]
fn sqrt_matches_hardware() {
    // On every non-negative, non-NaN pattern the verified square root must
    // agree with the hardware square root bit for bit.
    let mut specials: Vec<u32> = vec![
        0,
        1,
        2,
        0x0000_0005,
        0x007F_FFFF,
        0x0080_0000,
        0x3F80_0000,
        0x4000_0000,
        0x7F7F_FFFF,
        0x7F80_0000,
        0x3727_C5AC,
        0x38D1_B717,
    ];
    let mut k: u32 = 1;
    for _ in 0..20000 {
        k = k.wrapping_mul(1664525).wrapping_add(1013904223);
        specials.push(k & 0x7FFF_FFFF);
    }
    for b in specials {
        let got = fp_sqrt(b);
        if f32::from_bits(b).is_nan() {
            // NaN payloads may propagate differently; both results must
            // still be NaN.
            assert!(f32::from_bits(got).is_nan());
            continue;
        }
        let want = f32::from_bits(b).sqrt().to_bits();
        assert_eq!(got, want, "pattern {:#010x}", b);
    }
}

#[test]
fn sqrt_special_patterns() {
    // Negative zero keeps its sign; negative values and NaN give a quiet
    // NaN; infinity stays infinity.
    assert_eq!(fp_sqrt(0x8000_0000), 0x8000_0000);
    assert_eq!(fp_sqrt(0x7F80_0000), 0x7F80_0000);
    assert!(f32::from_bits(fp_sqrt((-4.0f32).to_bits())).is_nan());
    assert!(f32::from_bits(fp_sqrt(f32::NAN.to_bits())).is_nan());
}

#[test]
fn isqrt_exact() {
    assert_eq!(isqrt64(0), 0);
    assert_eq!(isqrt64(1), 1);
    assert_eq!(isqrt64(3), 1);
    assert_eq!(isqrt64(4), 2);
    assert_eq!(isqrt64(999_999), 999);
    assert_eq!(isqrt64(1_000_000), 1000);
    assert_eq!(isqrt64((1u64 << 50) - 1), (1 << 25) - 1);
}

#[test]
fn comparisons_match_hardware() {
    let values: Vec<u32> = vec![
        0.0f32.to_bits(),
        (-0.0f32).to_bits(),
        1.0f32.to_bits(),
        (-1.0f32).to_bits(),
        1e-4f32.to_bits(),
        f32::INFINITY.to_bits(),
        f32::NEG_INFINITY.to_bits(),
        f32::NAN.to_bits(),
        5.5f32.to_bits(),
        (-7.25f32).to_bits(),
        f32::MIN_POSITIVE.to_bits(),
        1u32,
    ];
    for &a in &values {
        for &b in &values {
            let fa = f32::from_bits(a);
            let fb = f32::from_bits(b);
            assert_eq!(bits_lt(a, b), fa < fb, "lt {:#010x} {:#010x}", a, b);
            assert_eq!(bits_le(a, b), fa <= fb, "le {:#010x} {:#010x}", a, b);
            assert_eq!(
                bits_total_le(a, b),
                fa.total_cmp(&fb) != std::cmp::Ordering::Greater,
                "total {:#010x} {:#010x}",
                a,
                b
            );
        }
    }
}
