use color_space::compare::{hue_difference, hue_mean, HueDifference, HueMean};
use color_space::Scalar;
use std::f64::consts::PI;

fn encode(x: f64) -> Scalar {
    Scalar::from_bits(x.to_bits())
}

fn sqr(x: f64) -> f64 {
    x * x
}

fn dist(a: f64, b: f64) -> f64 {
    (a * a + b * b).sqrt()
}

fn deg_to_rad(deg: f64) -> f64 {
    (deg * PI) / 180.0
}

fn rad_to_deg(rad: f64) -> f64 {
    (rad * 180.0) / PI
}

/// The CIE 2000 difference of two CIELAB colours `(l, a, b)`: the arithmetic
/// in binary64, the branches as the library decides them.
fn cie2000(lab_a: (f64, f64, f64), lab_b: (f64, f64, f64)) -> f64 {
    let pi2 = PI * 2.0;

    let c1 = dist(lab_a.1, lab_a.2);
    let c2 = dist(lab_b.1, lab_b.2);
    let mean_c = (c1 + c2) / 2.0;
    let mean_c7 = mean_c.powf(7.0);

    let g = 0.5 * (1.0 - (mean_c7 / (mean_c7 + 6103515625.0)).sqrt());
    let a1p = lab_a.1 * (1.0 + g);
    let a2p = lab_b.1 * (1.0 + g);

    let c1 = dist(a1p, lab_a.2);
    let c2 = dist(a2p, lab_b.2);
    let h1 = (lab_a.2.atan2(a1p) + pi2) % pi2;
    let h2 = (lab_b.2.atan2(a2p) + pi2) % pi2;

    let delta_l = lab_b.0 - lab_a.0;
    let delta_c = c2 - c1;
    let delta_h = match hue_difference(encode(c1 * c2), encode(h1), encode(h2), encode(h2 - h1)) {
        HueDifference::Undefined => 0.0,
        HueDifference::Direct => h2 - h1,
        HueDifference::TurnBack => h2 - h1 - pi2,
        HueDifference::TurnForward => h2 - h1 + pi2,
    };
    let delta_h = 2.0 * (c1 * c2).sqrt() * (delta_h / 2.0).sin();

    let mean_l = (lab_a.0 + lab_b.0) / 2.0;
    let mean_c = (c1 + c2) / 2.0;
    let mean_c7 = mean_c.powf(7.0);
    let mean_h = match hue_mean(encode(c1 * c2), encode(h1 - h2), encode(h1 + h2)) {
        HueMean::Sum => h1 + h2,
        HueMean::Midpoint => (h1 + h2) / 2.0,
        HueMean::MidpointForward => (h1 + h2 + pi2) / 2.0,
        HueMean::MidpointBack => (h1 + h2 - pi2) / 2.0,
    };

    let t = 1.0 - 0.17 * (mean_h - deg_to_rad(30.0)).cos()
        + 0.24 * (2.0 * mean_h).cos()
        + 0.32 * (3.0 * mean_h + deg_to_rad(6.0)).cos()
        - 0.2 * (4.0 * mean_h - deg_to_rad(63.0)).cos();

    let sl = 1.0 + (0.015 * sqr(mean_l - 50.0)) / (20.0 + sqr(mean_l - 50.0)).sqrt();
    let sc = 1.0 + 0.045 * mean_c;
    let sh = 1.0 + 0.015 * mean_c * t;
    let rc = 2.0 * (mean_c7 / (mean_c7 + 6103515625.0)).sqrt();
    let rt = -(deg_to_rad(60.0 * (-sqr((rad_to_deg(mean_h) - 275.0) / 25.0)).exp())).sin() * rc;
    (sqr(delta_l / sl) + sqr(delta_c / sc) + sqr(delta_h / sh) + rt * delta_c / sc * delta_h / sh)
        .sqrt()
}

fn pairs() -> Vec<((f64, f64, f64), (f64, f64, f64), f64)> {
    vec![
        ((50.0, 2.6772, -79.7751), (50.0, 0.0, -82.7485), 2.0425),
        ((50.0, 3.1571, -77.2803), (50.0, 0.0, -82.7485), 2.8615),
        ((50.0, 2.8361, -74.0200), (50.0, 0.0, -82.7485), 3.4412),
        ((50.0, -1.3802, -84.2814), (50.0, 0.0, -82.7485), 1.0000),
        ((50.0, -1.1848, -84.8006), (50.0, 0.0, -82.7485), 1.0000),
        ((50.0, -0.9009, -85.5211), (50.0, 0.0, -82.7485), 1.0000),
        ((50.0, 0.0, 0.0), (50.0, -1.0, 2.0), 2.3669),
        ((50.0, -1.0, 2.0), (50.0, 0.0, 0.0), 2.3669),
        ((50.0, 2.49, -0.001), (50.0, -2.49, 0.0009), 7.1792),
        ((50.0, 2.49, -0.001), (50.0, -2.49, 0.0010), 7.1792),
        ((50.0, 2.49, -0.001), (50.0, -2.49, 0.0011), 7.2195),
        ((50.0, 2.49, -0.001), (50.0, -2.49, 0.0012), 7.2195),
        ((50.0, -0.001, 2.49), (50.0, 0.0009, -2.49), 4.8045),
        ((50.0, -0.001, 2.49), (50.0, 0.0010, -2.49), 4.8045),
        ((50.0, -0.001, 2.49), (50.0, 0.0011, -2.49), 4.7461),
        ((50.0, 2.5, 0.0), (50.0, 0.0, -2.5), 4.3065),
        ((50.0, 2.5, 0.0), (73.0, 25.0, -18.0), 27.1492),
        ((50.0, 2.5, 0.0), (61.0, -5.0, 29.0), 22.8977),
        ((50.0, 2.5, 0.0), (56.0, -27.0, -3.0), 31.9030),
        ((50.0, 2.5, 0.0), (58.0, 24.0, 15.0), 19.4535),
        ((60.2574, -34.0099, 36.2677), (60.4626, -34.1751, 39.4387), 1.2644),
        ((63.0109, -31.0961, -5.8663), (62.8187, -29.7946, -4.0864), 1.2630),
        ((35.0831, -44.1164, 3.7933), (35.0232, -40.0716, 1.5901), 1.8645),
        ((90.8027, -2.0831, 1.4410), (91.1528, -1.6435, 0.0447), 1.4441),
        ((6.7747, -0.2908, -2.4247), (5.8714, -0.0985, -2.2286), 0.6377),
        ((2.0776, 0.0795, -1.1350), (0.9033, -0.0636, -0.5514), 0.9082),
    ]
}

#[test]
fn cie2000_reference_pairs() {
    for (a, b, expected) in pairs() {
        let d = cie2000(a, b);
        assert!((d - expected).abs() < 1e-4, "{:?} {:?}: {} not {}", a, b, d, expected);
    }
}

#[test]
fn cie2000_is_symmetric() {
    for (a, b, _) in pairs() {
        assert_eq!(cie2000(a, b), cie2000(b, a), "{:?} {:?}", a, b);
    }
    let a = (60.2574, -34.0099, 36.2677);
    let b = (35.0831, -44.1164, 3.7933);
    assert_eq!(cie2000(a, b), cie2000(b, a));
}

#[test]
fn cie2000_of_a_colour_and_itself_is_zero() {
    for (a, b, _) in pairs() {
        assert_eq!(cie2000(a, a), 0.0);
        assert_eq!(cie2000(b, b), 0.0);
    }
    assert_eq!(cie2000((0.0, 0.0, 0.0), (0.0, 0.0, 0.0)), 0.0);
    assert_eq!(cie2000((100.0, 0.0, 0.0), (100.0, 0.0, 0.0)), 0.0);
    assert_eq!(cie2000((53.24, 80.09, 67.2), (53.24, 80.09, 67.2)), 0.0);
}

#[test]
fn cie2000_takes_every_branch() {
    let seen = |a: (f64, f64, f64), b: (f64, f64, f64)| {
        let c1 = dist(a.1, a.2);
        let c2 = dist(b.1, b.2);
        let mean_c7 = ((c1 + c2) / 2.0).powf(7.0);
        let g = 0.5 * (1.0 - (mean_c7 / (mean_c7 + 6103515625.0)).sqrt());
        let (a1p, a2p) = (a.1 * (1.0 + g), b.1 * (1.0 + g));
        let (c1, c2) = (dist(a1p, a.2), dist(a2p, b.2));
        let h1 = (a.2.atan2(a1p) + PI * 2.0) % (PI * 2.0);
        let h2 = (b.2.atan2(a2p) + PI * 2.0) % (PI * 2.0);
        (
            hue_difference(encode(c1 * c2), encode(h1), encode(h2), encode(h2 - h1)),
            hue_mean(encode(c1 * c2), encode(h1 - h2), encode(h1 + h2)),
        )
    };
    assert_eq!(
        seen((50.0, 0.0, 0.0), (50.0, -1.0, 2.0)),
        (HueDifference::Undefined, HueMean::Sum)
    );
    assert_eq!(
        seen((50.0, 2.6772, -79.7751), (50.0, 0.0, -82.7485)),
        (HueDifference::Direct, HueMean::Midpoint)
    );
    assert_eq!(
        seen((50.0, 2.49, -0.001), (50.0, -2.49, 0.0011)),
        (HueDifference::TurnForward, HueMean::MidpointBack)
    );
    assert_eq!(
        seen((50.0, -0.001, 2.49), (50.0, 0.0011, -2.49)),
        (HueDifference::TurnBack, HueMean::MidpointBack)
    );
    assert_eq!(
        seen((50.0, 2.5, 0.0), (50.0, 0.0, -2.5)),
        (HueDifference::TurnBack, HueMean::MidpointForward)
    );
}
