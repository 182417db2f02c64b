//! Golden oracles for the double-precision sampling pipeline. The sampler
//! state (permutation table and exact origin numerators) comes from the
//! verified library; the gradient arithmetic below is the test-side oracle
//! for the floating-point layer the library itself cannot hold.

use pumpkin_core::perlin::PerlinNoiseSampler;
use pumpkin_core::rng::{RandomGenerator, Xoroshiro};

const GRADIENTS: [(f64, f64, f64); 16] = [
    (1.0, 1.0, 0.0),
    (-1.0, 1.0, 0.0),
    (1.0, -1.0, 0.0),
    (-1.0, -1.0, 0.0),
    (1.0, 0.0, 1.0),
    (-1.0, 0.0, 1.0),
    (1.0, 0.0, -1.0),
    (-1.0, 0.0, -1.0),
    (0.0, 1.0, 1.0),
    (0.0, -1.0, 1.0),
    (0.0, 1.0, -1.0),
    (0.0, -1.0, -1.0),
    (1.0, 1.0, 0.0),
    (0.0, -1.0, 1.0),
    (-1.0, 1.0, 0.0),
    (0.0, -1.0, -1.0),
];

fn lerp(delta: f64, start: f64, end: f64) -> f64 {
    start + delta * (end - start)
}

fn lerp2(dx: f64, dy: f64, x0y0: f64, x1y0: f64, x0y1: f64, x1y1: f64) -> f64 {
    lerp(dy, lerp(dx, x0y0, x1y0), lerp(dx, x0y1, x1y1))
}

#[allow(clippy::too_many_arguments)]
fn lerp3(
    dx: f64,
    dy: f64,
    dz: f64,
    x0y0z0: f64,
    x1y0z0: f64,
    x0y1z0: f64,
    x1y1z0: f64,
    x0y0z1: f64,
    x1y0z1: f64,
    x0y1z1: f64,
    x1y1z1: f64,
) -> f64 {
    lerp(
        dz,
        lerp2(dx, dy, x0y0z0, x1y0z0, x0y1z0, x1y1z0),
        lerp2(dx, dy, x0y0z1, x1y0z1, x0y1z1, x1y1z1),
    )
}

fn grad(hash: i32, x: f64, y: f64, z: f64) -> f64 {
    let (gx, gy, gz) = GRADIENTS[(hash & 15) as usize];
    gx * x + gy * y + gz * z
}

fn perlin_fade(value: f64) -> f64 {
    value * value * value * (value * (value * 6.0 - 15.0) + 10.0)
}

fn origin(numerator: u64) -> f64 {
    (numerator as f64) * 2f64.powi(-45)
}

#[allow(clippy::too_many_arguments)]
fn sample_corners(
    sampler: &PerlinNoiseSampler,
    x: i32,
    y: i32,
    z: i32,
    local_x: f64,
    local_y: f64,
    local_z: f64,
    fade_local_y: f64,
) -> f64 {
    let i = sampler.map(x);
    let j = sampler.map(x + 1);
    let k = sampler.map(i + y);
    let l = sampler.map(i + y + 1);
    let m = sampler.map(j + y);
    let n = sampler.map(j + y + 1);

    let d = grad(sampler.map(k + z), local_x, local_y, local_z);
    let e = grad(sampler.map(m + z), local_x - 1.0, local_y, local_z);
    let f = grad(sampler.map(l + z), local_x, local_y - 1.0, local_z);
    let g = grad(sampler.map(n + z), local_x - 1.0, local_y - 1.0, local_z);
    let h = grad(sampler.map(k + z + 1), local_x, local_y, local_z - 1.0);
    let o = grad(sampler.map(m + z + 1), local_x - 1.0, local_y, local_z - 1.0);
    let p = grad(sampler.map(l + z + 1), local_x, local_y - 1.0, local_z - 1.0);
    let q = grad(
        sampler.map(n + z + 1),
        local_x - 1.0,
        local_y - 1.0,
        local_z - 1.0,
    );
    let r = perlin_fade(local_x);
    let s = perlin_fade(fade_local_y);
    let t = perlin_fade(local_z);

    lerp3(r, s, t, d, e, f, g, h, o, p, q)
}

fn sample_no_fade(
    sampler: &PerlinNoiseSampler,
    x: f64,
    y: f64,
    z: f64,
    y_scale: f64,
    y_max: f64,
) -> f64 {
    let true_x = x + origin(sampler.x_origin_numerator);
    let true_y = y + origin(sampler.y_origin_numerator);
    let true_z = z + origin(sampler.z_origin_numerator);

    let x_floor = true_x.floor();
    let y_floor = true_y.floor();
    let z_floor = true_z.floor();

    let x_dec = true_x - x_floor;
    let y_dec = true_y - y_floor;
    let z_dec = true_z - z_floor;

    let y_noise = if y_scale != 0.0 {
        let raw_y_dec = if y_max >= 0.0 && y_max < y_dec { y_max } else { y_dec };
        (raw_y_dec / y_scale + 1E-7).floor() * y_scale
    } else {
        0.0
    };

    sample_corners(
        sampler,
        x_floor as i32,
        y_floor as i32,
        z_floor as i32,
        x_dec,
        y_dec - y_noise,
        z_dec,
        y_dec,
    )
}

fn sample_flat_y(sampler: &PerlinNoiseSampler, x: f64, y: f64, z: f64) -> f64 {
    sample_no_fade(sampler, x, y, z, 0.0, 0.0)
}

fn seeded_sampler() -> PerlinNoiseSampler {
    let mut rand = RandomGenerator::Xoroshiro(Xoroshiro::from_seed(111));
    assert_eq!(rand.next_i32(), -1467508761);
    PerlinNoiseSampler::new(&mut rand)
}

#[test]
fn test_no_y() {
    let sampler = seeded_sampler();

    let values = [
        (
            (
                -3.134738528791615E8,
                5.676610095659718E7,
                2.011711832498507E8,
            ),
            0.38582139614602945,
        ),
        (
            (-1369026.560586418, 3.957311252810864E8, 6.797037355570006E8),
            0.15777501333157193,
        ),
        (
            (
                6.439373693833767E8,
                -3.36218773041759E8,
                -3.265494249695775E8,
            ),
            -0.2806135912409497,
        ),
        (
            (
                1.353820060118252E8,
                -3.204701624793043E8,
                -4.612474746056331E8,
            ),
            -0.15052865500837787,
        ),
        (
            (
                -6906850.625560562,
                1.0153663948838013E8,
                2.4923185478305575E8,
            ),
            -0.3079300694558318,
        ),
        (
            (
                -7.108376621385525E7,
                -2.029413580824217E8,
                2.5164602748045415E8,
            ),
            0.03051312670440398,
        ),
        (
            (
                1.0591429119126628E8,
                -4.7911044364543396E8,
                -2918719.2277242197,
            ),
            -0.11775123159138573,
        ),
        (
            (
                4.04615501401398E7,
                -3.074409286586152E8,
                5.089118769334092E7,
            ),
            0.08763639340713025,
        ),
        (
            (
                -4.8645283544246924E8,
                -3.922570151180015E8,
                2.3741632952563038E8,
            ),
            0.08857245482456311,
        ),
        (
            (
                2.861710031285905E8,
                -1.8973201372718483E8,
                -3.2653143323982143E8,
            ),
            -0.2378339698793312,
        ),
        (
            (
                2.885407603819252E8,
                -3.358708100884505E7,
                -1.4480399660676318E8,
            ),
            -0.46661747461279457,
        ),
        (
            (
                3.6548491156354237E8,
                7.995429702025633E7,
                2.509991661702412E8,
            ),
            0.1671543972176835,
        ),
        (
            (
                1.3298684552869435E8,
                3.6743804723880893E8,
                5.791092458225288E7,
            ),
            -0.2704070746642889,
        ),
        (
            (
                -1.3123184148036437E8,
                -2.722300890805201E8,
                2.1601883778132245E7,
            ),
            0.05049887915906969,
        ),
        (
            (
                -5.56047682304707E8,
                3.554803693060646E8,
                3.1647392358159083E8,
            ),
            -0.21178547899422662,
        ),
        (
            (
                5.638216625134594E8,
                -2.236907346192737E8,
                -5.0562852022285646E8,
            ),
            0.03351245780858128,
        ),
        (
            (
                -5.436956979127073E7,
                -1.129261611506945E8,
                -1.7909512156895646E8,
            ),
            0.31670010349494726,
        ),
        (
            (
                1.0915760091641709E8,
                1.932642099859593E7,
                -3.405060533753616E8,
            ),
            -0.13987439655026918,
        ),
        (
            (
                -6.73911758014991E8,
                -2.2147483413687566E8,
                -4.531457195005102E7,
            ),
            0.07824440437151846,
        ),
        (
            (
                -2.4827386778136212E8,
                -2.6640208832089204E8,
                -3.354675096522197E8,
            ),
            -0.2989735599541437,
        ),
    ];

    for ((x, y, z), sample) in values {
        assert_eq!(sample_flat_y(&sampler, x, y, z), sample);
    }
}

#[test]
fn test_no_fade() {
    let sampler = seeded_sampler();

    let values = [
        (
            (
                -3.134738528791615E8,
                5.676610095659718E7,
                2.011711832498507E8,
                -1369026.560586418,
                3.957311252810864E8,
            ),
            23234.47859421248,
        ),
        (
            (
                6.797037355570006E8,
                6.439373693833767E8,
                -3.36218773041759E8,
                -3.265494249695775E8,
                1.353820060118252E8,
            ),
            -0.016403984198221984,
        ),
        (
            (
                -3.204701624793043E8,
                -4.612474746056331E8,
                -6906850.625560562,
                1.0153663948838013E8,
                2.4923185478305575E8,
            ),
            0.3444286491766397,
        ),
        (
            (
                -7.108376621385525E7,
                -2.029413580824217E8,
                2.5164602748045415E8,
                1.0591429119126628E8,
                -4.7911044364543396E8,
            ),
            0.03051312670440398,
        ),
        (
            (
                -2918719.2277242197,
                4.04615501401398E7,
                -3.074409286586152E8,
                5.089118769334092E7,
                -4.8645283544246924E8,
            ),
            0.3434020232968479,
        ),
        (
            (
                -3.922570151180015E8,
                2.3741632952563038E8,
                2.861710031285905E8,
                -1.8973201372718483E8,
                -3.2653143323982143E8,
            ),
            -0.07935517045771859,
        ),
        (
            (
                2.885407603819252E8,
                -3.358708100884505E7,
                -1.4480399660676318E8,
                3.6548491156354237E8,
                7.995429702025633E7,
            ),
            -0.46661747461279457,
        ),
        (
            (
                2.509991661702412E8,
                1.3298684552869435E8,
                3.6743804723880893E8,
                5.791092458225288E7,
                -1.3123184148036437E8,
            ),
            0.0723439870279631,
        ),
        (
            (
                -2.722300890805201E8,
                2.1601883778132245E7,
                -5.56047682304707E8,
                3.554803693060646E8,
                3.1647392358159083E8,
            ),
            -0.656560662515624,
        ),
        (
            (
                5.638216625134594E8,
                -2.236907346192737E8,
                -5.0562852022285646E8,
                -5.436956979127073E7,
                -1.129261611506945E8,
            ),
            0.03351245780858128,
        ),
        (
            (
                -1.7909512156895646E8,
                1.0915760091641709E8,
                1.932642099859593E7,
                -3.405060533753616E8,
                -6.73911758014991E8,
            ),
            -0.2089142558681482,
        ),
        (
            (
                -2.2147483413687566E8,
                -4.531457195005102E7,
                -2.4827386778136212E8,
                -2.6640208832089204E8,
                -3.354675096522197E8,
            ),
            0.38250837565598395,
        ),
        (
            (
                3.618095500266467E8,
                -1.785261966631494E8,
                8.855575989580283E7,
                -1.3702508894700047E8,
                -3.564818414428105E8,
            ),
            0.00883370523171791,
        ),
        (
            (
                3.585592594479808E7,
                1.8822208340571395E8,
                -386327.524558296,
                -2.613548000006699E8,
                1995562.4304017993,
            ),
            -0.27653878487738676,
        ),
        (
            (
                3.0800276873619422E7,
                1.166750302259058E7,
                8.502636255675305E7,
                4.347409652503064E8,
                1.0678086363325526E8,
            ),
            -0.13800758751097497,
        ),
        (
            (
                -2.797805968820768E8,
                9.446376468140173E7,
                2.2821543438325477E8,
                -4.8176550369786626E8,
                7.316871126959312E7,
            ),
            0.05505478945301634,
        ),
        (
            (
                -2.236596113898912E7,
                1.5296478602495643E8,
                3.903966235164034E8,
                9.40479475527148E7,
                1.0948229366673347E8,
            ),
            0.1158678618158655,
        ),
        (
            (
                3.5342596632385695E8,
                3.1584773170834744E8,
                -2.1860087172846535E8,
                -1.8126626716239208E8,
                -2.5263456116162892E7,
            ),
            -0.354953975313882,
        ),
        (
            (
                -1.2711958434031656E8,
                -4.541988855460623E7,
                -1.375878074907788E8,
                6.72693784001799E7,
                6815739.665531283,
            ),
            -0.23849179316215247,
        ),
        (
            (
                1.2660906027019228E8,
                -3.3769609799741164E7,
                -3.4331505330046E8,
                -6.663866659430536E7,
                -1.6603843763414428E8,
            ),
            0.07974650858448407,
        ),
    ];

    for ((x, y, z, y_scale, y_max), sample) in values {
        assert_eq!(sample_no_fade(&sampler, x, y, z, y_scale, y_max), sample);
    }
}
