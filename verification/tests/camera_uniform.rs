use path_tracer::Camera;
use path_tracer::Vec3Bits;

fn bits(v: [f32; 3]) -> Vec3Bits {
    Vec3Bits::new(v[0].to_bits(), v[1].to_bits(), v[2].to_bits())
}

fn cross(a: [f32; 3], b: [f32; 3]) -> [f32; 3] {
    [
        a[1] * b[2] - a[2] * b[1],
        a[2] * b[0] - a[0] * b[2],
        a[0] * b[1] - a[1] * b[0],
    ]
}

fn normalize(v: [f32; 3]) -> [f32; 3] {
    let mag = (v[0] * v[0] + v[1] * v[1] + v[2] * v[2]).sqrt();
    [v[0] / mag, v[1] / mag, v[2] / mag]
}

fn dot(a: [f32; 3], b: [f32; 3]) -> f32 {
    a[0] * b[0] + a[1] * b[1] + a[2] * b[2]
}

const WORLD_UP: [f32; 3] = [0.0, 0.0, 1.0];

/// The basis derivation the renderer performs before handing the words to the
/// library: right = normalize(forwards x world-up), up = normalize(right x
/// forwards).
fn derive_basis(forwards: [f32; 3]) -> ([f32; 3], [f32; 3]) {
    let right = normalize(cross(forwards, WORLD_UP));
    let up = normalize(cross(right, forwards));
    (right, up)
}

#[test]
fn default_camera_uniform_matches_literal_formula() {
    let camera = Camera::default();

    // the default pose, checked word for word
    let position = [0.0f32, 0.0, 0.0];
    let forwards = [1.0f32, 0.0, 0.0];
    assert_eq!(camera.position, bits(position));
    assert_eq!(camera.forwards, bits(forwards));
    assert_eq!(camera.focus_dist, 5.0f32.to_bits());
    assert_eq!(camera.defocus_angle, 0.3f32.to_bits());

    // the literal cross-product formula gives exact values here
    let (right, up) = derive_basis(forwards);
    assert_eq!(right, [0.0, -1.0, 0.0]);
    assert_eq!(up, [0.0, 0.0, 1.0]);

    let uniform = camera.into_uniform(bits(right), bits(up));
    let w = uniform.to_words();
    // the uniform carries the formula's exact words; the basis words are the
    // formula's own bit patterns (the first component of up comes out as the
    // negative zero of IEEE arithmetic, float-equal but not bit-equal to zero)
    let expected: Vec<u32> = vec![
        0.0f32.to_bits(),
        0.0f32.to_bits(),
        0.0f32.to_bits(),
        5.0f32.to_bits(),
        1.0f32.to_bits(),
        0.0f32.to_bits(),
        0.0f32.to_bits(),
        0.3f32.to_bits(),
        right[0].to_bits(),
        right[1].to_bits(),
        right[2].to_bits(),
        0,
        up[0].to_bits(),
        up[1].to_bits(),
        up[2].to_bits(),
        0,
    ];
    assert_eq!(w, expected);
    assert_eq!(right[1].to_bits(), (-1.0f32).to_bits());
    assert_eq!(up[2].to_bits(), 1.0f32.to_bits());
}

#[test]
fn derived_basis_is_orthonormal_for_non_degenerate_forwards() {
    let eps = 1e-5f32;
    let cases: [[f32; 3]; 5] = [
        [1.0, 0.0, 0.0],
        [0.3, -0.7, 0.2],
        [-2.0, 1.5, 0.5],
        [0.0, 1.0, 0.9],
        [5.0, 5.0, -4.0],
    ];
    for forwards in cases {
        let (right, up) = derive_basis(forwards);
        assert!((dot(right, right) - 1.0).abs() < eps);
        assert!((dot(up, up) - 1.0).abs() < eps);
        assert!(dot(right, forwards).abs() < eps);
        assert!(dot(up, forwards).abs() < eps);
        assert!(dot(right, up).abs() < eps);

        // the library carries exactly those words into the uniform record
        let camera = Camera::new(
            bits([0.0, 0.0, 0.0]),
            bits(forwards),
            5.0f32.to_bits(),
            0.0f32.to_bits(),
        );
        let uniform = camera.into_uniform(bits(right), bits(up));
        let w = uniform.to_words();
        assert_eq!(&w[8..11], &[right[0].to_bits(), right[1].to_bits(), right[2].to_bits()]);
        assert_eq!(&w[12..15], &[up[0].to_bits(), up[1].to_bits(), up[2].to_bits()]);
        assert_eq!(w[11], 0);
        assert_eq!(w[15], 0);
    }
}

#[test]
fn uniform_derivation_is_bit_identical_on_repeat() {
    let forwards = [0.3f32, -0.7, 0.2];
    let (right, up) = derive_basis(forwards);
    let camera = Camera::new(
        bits([1.5, 2.5, -3.5]),
        bits(forwards),
        5.0f32.to_bits(),
        0.3f32.to_bits(),
    );
    let first = camera.into_uniform(bits(right), bits(up));
    let second = camera.into_uniform(bits(right), bits(up));
    assert_eq!(first, second);
    assert_eq!(first.to_words(), second.to_words());
}

#[test]
fn uniform_layout_has_sixteen_words_with_padding() {
    let camera = Camera::new(
        Vec3Bits::new(1, 2, 3),
        Vec3Bits::new(4, 5, 6),
        7,
        8,
    );
    let uniform = camera.into_uniform(Vec3Bits::new(9, 10, 11), Vec3Bits::new(12, 13, 14));
    let w = uniform.to_words();
    assert_eq!(w, vec![1, 2, 3, 7, 4, 5, 6, 8, 9, 10, 11, 0, 12, 13, 14, 0]);
}
