use vortex_panels::stats::MagnitudeStatistics;
use vortex_panels::vec3::Vec3;

fn v3(x: f32, y: f32, z: f32) -> Vec3 {
    Vec3 { x: x.to_bits(), y: y.to_bits(), z: z.to_bits() }
}

#[test]
fn summarize_three_vectors() {
    // Magnitudes 3, 4, 0; sorted [0, 3, 4]: max 4, min 0, median the
    // middle element 3, mean the sorted sum divided by the count.
    let vectors = vec![v3(3., 0., 0.), v3(4., 0., 0.), v3(0., 0., 0.)];
    let s = MagnitudeStatistics::from_vectors(&vectors);
    assert_eq!(f32::from_bits(s.max), 4.0);
    assert_eq!(f32::from_bits(s.min), 0.0);
    assert_eq!(f32::from_bits(s.median), 3.0);
    let expected_mean = ((0.0f32 + 3.0) + 4.0) / 3.0f32;
    assert_eq!(s.mean, expected_mean.to_bits());
    assert!((f32::from_bits(s.mean) - 2.33333).abs() < 1e-4);
}

#[test]
fn summarize_single_vector() {
    let vectors = vec![v3(0., -5., 0.)];
    let s = MagnitudeStatistics::from_vectors(&vectors);
    assert_eq!(f32::from_bits(s.max), 5.0);
    assert_eq!(f32::from_bits(s.min), 5.0);
    assert_eq!(f32::from_bits(s.median), 5.0);
    assert_eq!(f32::from_bits(s.mean), 5.0);
}

#[test]
fn summarize_even_length_lower_middle() {
    // Sorted magnitudes [1, 2, 3, 10]: the median is the element at index
    // 4 / 2 = 2, the lower middle by plain integer indexing.
    let vectors = vec![v3(10., 0., 0.), v3(1., 0., 0.), v3(3., 0., 0.), v3(2., 0., 0.)];
    let s = MagnitudeStatistics::from_vectors(&vectors);
    assert_eq!(f32::from_bits(s.median), 3.0);
    assert_eq!(f32::from_bits(s.max), 10.0);
    assert_eq!(f32::from_bits(s.min), 1.0);
    let expected_mean = (((1.0f32 + 2.0) + 3.0) + 10.0) / 4.0f32;
    assert_eq!(s.mean, expected_mean.to_bits());
}

#[test]
fn summarize_pythagorean_magnitude() {
    // One vector of norm 13 computed through the software pipeline.
    let vectors = vec![v3(3., 4., 12.)];
    let s = MagnitudeStatistics::from_vectors(&vectors);
    assert_eq!(f32::from_bits(s.max), 13.0);
}
