use pumpkin_core::octave::{calculate_amplitudes, OctavePerlinNoiseSampler};
use pumpkin_core::perlin::PerlinNoiseSampler;
use pumpkin_core::rng::{LegacyRand, RandomGenerator, Xoroshiro};

fn origin_f64(numerator: u64) -> f64 {
    // numerator / 2^53 * 256 == numerator * 2^-45, exactly representable
    (numerator as f64) * 2f64.powi(-45)
}

#[test]
fn test_create_xoroshiro() {
    let mut rand = RandomGenerator::Xoroshiro(Xoroshiro::from_seed(513513513));
    assert_eq!(rand.next_i32(), 404174895);

    let (start, amplitudes) = calculate_amplitudes(&vec![1, 2, 3]);
    assert_eq!(start, 1);
    assert_eq!(amplitudes, vec![true, true, true]);

    let sampler = OctavePerlinNoiseSampler::new(&mut rand, start, &amplitudes, false);

    // The per-octave float weights are a pure function of stack size and
    // position; the reference literals for the first octave.
    let n = amplitudes.len() as i32;
    let first_persistence = 2f64.powi(n - 1) / (2f64.powi(n) - 1.0);
    let first = sampler.samplers.first().unwrap();
    let persistence = first_persistence / 2f64.powi(first.index as i32);
    let lacunarity = 2f64.powi(sampler.first_octave) * 2f64.powi(first.index as i32);
    assert_eq!(persistence, 0.5714285714285714);
    assert_eq!(lacunarity, 2.0);
    let max_value: f64 = amplitudes
        .iter()
        .enumerate()
        .map(|(k, &on)| if on { 2.0 * first_persistence / 2f64.powi(k as i32) } else { 0.0 })
        .sum();
    assert_eq!(max_value, 2.0);

    let coords = [
        (210.19539348148294, 203.08258445596215, 45.29925114984684),
        (24.841250686920773, 181.62678157390076, 69.49871248131629),
        (21.65886467061867, 97.80131502331685, 225.9273676334467),
    ];

    assert_eq!(sampler.samplers.len(), 3);
    for (data, (x, y, z)) in sampler.samplers.iter().zip(coords) {
        assert_eq!(origin_f64(data.sampler.x_origin_numerator), x);
        assert_eq!(origin_f64(data.sampler.y_origin_numerator), y);
        assert_eq!(origin_f64(data.sampler.z_origin_numerator), z);
    }
}

#[test]
fn test_create_legacy() {
    let mut rand = RandomGenerator::Legacy(LegacyRand::from_seed(513513513));
    assert_eq!(rand.next_i32(), -1302745855);

    let (start, amplitudes) = calculate_amplitudes(&vec![0]);
    assert_eq!(start, 0);
    assert_eq!(amplitudes, vec![true]);

    let sampler = OctavePerlinNoiseSampler::new(&mut rand, start, &amplitudes, true);

    let n = amplitudes.len() as i32;
    let first_persistence = 2f64.powi(n - 1) / (2f64.powi(n) - 1.0);
    let first = sampler.samplers.first().unwrap();
    let persistence = first_persistence / 2f64.powi(first.index as i32);
    let lacunarity = 2f64.powi(sampler.first_octave) * 2f64.powi(first.index as i32);
    assert_eq!(persistence, 1.0);
    assert_eq!(lacunarity, 1.0);
    let max_value: f64 = amplitudes
        .iter()
        .enumerate()
        .map(|(k, &on)| if on { 2.0 * first_persistence / 2f64.powi(k as i32) } else { 0.0 })
        .sum();
    assert_eq!(max_value, 2.0);

    let coords = [(226.220117499588, 32.67924779023767, 202.84067325597647)];

    assert_eq!(sampler.samplers.len(), 1);
    for (data, (x, y, z)) in sampler.samplers.iter().zip(coords) {
        assert_eq!(origin_f64(data.sampler.x_origin_numerator), x);
        assert_eq!(origin_f64(data.sampler.y_origin_numerator), y);
        assert_eq!(origin_f64(data.sampler.z_origin_numerator), z);
    }
}

#[test]
fn test_create() {
    let mut rand = RandomGenerator::Xoroshiro(Xoroshiro::from_seed(111));
    assert_eq!(rand.next_i32(), -1467508761);

    let sampler = PerlinNoiseSampler::new(&mut rand);
    assert_eq!(origin_f64(sampler.x_origin_numerator), 48.58072036717974);
    assert_eq!(origin_f64(sampler.y_origin_numerator), 110.73235882678037);
    assert_eq!(origin_f64(sampler.z_origin_numerator), 65.26438852860176);

    let permutation: [u8; 256] = [
        159, 113, 41, 143, 203, 123, 95, 177, 25, 79, 229, 219, 194, 60, 130, 14, 83, 99, 24,
        202, 207, 232, 167, 152, 220, 201, 29, 235, 87, 147, 74, 160, 155, 97, 111, 31, 85,
        205, 115, 50, 13, 171, 77, 237, 149, 116, 209, 174, 169, 109, 221, 9, 166, 84, 54, 216,
        121, 106, 211, 16, 69, 244, 65, 192, 183, 146, 124, 37, 56, 45, 193, 158, 126, 217, 36,
        255, 162, 163, 230, 103, 63, 90, 191, 214, 20, 138, 32, 39, 238, 67, 64, 105, 250, 140,
        148, 114, 68, 75, 200, 161, 239, 125, 227, 199, 101, 61, 175, 107, 129, 240, 170, 51,
        139, 86, 186, 145, 212, 178, 30, 251, 89, 226, 120, 153, 47, 141, 233, 2, 179, 236, 1,
        19, 98, 21, 164, 108, 11, 23, 91, 204, 119, 88, 165, 195, 168, 26, 48, 206, 128, 6, 52,
        118, 110, 180, 197, 231, 117, 7, 3, 135, 224, 58, 82, 78, 4, 59, 222, 18, 72, 57, 150,
        43, 246, 100, 122, 112, 53, 133, 93, 17, 27, 210, 142, 234, 245, 80, 22, 46, 185, 172,
        71, 248, 33, 173, 76, 35, 40, 92, 228, 127, 254, 70, 42, 208, 73, 104, 187, 62, 154,
        243, 189, 241, 34, 66, 249, 94, 8, 12, 134, 132, 102, 242, 196, 218, 181, 28, 38, 15,
        151, 157, 247, 223, 198, 55, 188, 96, 0, 182, 49, 190, 156, 10, 215, 252, 131, 137,
        184, 176, 136, 81, 44, 213, 253, 144, 225, 5,
    ];
    assert_eq!(sampler.permutation, permutation.to_vec());

    // The table lookup wraps on the low byte.
    assert_eq!(sampler.map(0), 159);
    assert_eq!(sampler.map(255), 5);
    assert_eq!(sampler.map(256), 159);
    assert_eq!(sampler.map(-1), 5);
}

#[test]
fn test_split_string_terrain_stream() {
    // The named sub-stream drawn for terrain noise from the zero seed.
    let mut rand = RandomGenerator::Xoroshiro(Xoroshiro::from_seed(0));
    let splitter = rand.next_splitter();
    let mut stream = splitter.split_string("minecraft:terrain");
    assert_eq!(stream.next_i32(), 1374487555);

    // The legacy octave walk from that stream reproduces the reference
    // base-sampler origins.
    let mut stream = splitter.split_string("minecraft:terrain");
    let octaves: Vec<i32> = (-15..=0).collect();
    let (first, amplitudes) = calculate_amplitudes(&octaves);
    assert_eq!(first, -15);
    assert_eq!(amplitudes.len(), 16);
    let sampler = OctavePerlinNoiseSampler::new(&mut stream, first, &amplitudes, true);
    assert_eq!(sampler.samplers.len(), 16);
    let base = &sampler.samplers.last().unwrap().sampler;
    assert_eq!(origin_f64(base.x_origin_numerator), 18.223354299069797);
    assert_eq!(origin_f64(base.y_origin_numerator), 93.99298907803595);
    assert_eq!(origin_f64(base.z_origin_numerator), 184.48198875745823);
}

#[test]
fn test_legacy_split_string() {
    // The legacy deriver folds the Java-style string hash into its key.
    let mut rand = RandomGenerator::Legacy(LegacyRand::from_seed(987654321));
    let splitter = rand.next_splitter();
    let mut a = splitter.split_string("stream");
    let mut b = splitter.split_string("stream");
    assert_eq!(a.next_i32(), b.next_i32());
    let mut c = splitter.split_string("other");
    let _ = c.next_i32();
}

#[test]
fn test_bounded_draws_stay_in_range() {
    let mut x = Xoroshiro::from_seed(42);
    let mut l = LegacyRand::from_seed(42);
    for bound in [1i32, 2, 3, 16, 255, 256, 1000] {
        for _ in 0..50 {
            let vx = x.next_bounded_i32(bound);
            assert!(0 <= vx && vx < bound);
            let vl = l.next_bounded_i32(bound);
            assert!(0 <= vl && vl < bound);
        }
    }
}

#[test]
fn test_amplitude_mask_sparse() {
    // A sparse octave set leaves holes in the mask.
    let (first, mask) = calculate_amplitudes(&vec![-2, 1]);
    assert_eq!(first, -2);
    assert_eq!(mask, vec![true, false, false, true]);
}
