use color_space::{FromRgb, Rgb, Scalar, ToRgb};

fn decode(x: Scalar) -> f64 {
    f64::from_bits(x.to_bits())
}

fn parts(rgb: &Rgb) -> (f64, f64, f64) {
    (decode(rgb.r), decode(rgb.g), decode(rgb.b))
}

#[test]
fn from_hex_cyan() {
    let cyan = Rgb::from_hex(0x00ffff);
    assert_eq!(parts(&cyan), (0.0, 255.0, 255.0));
}

#[test]
fn from_hex_takes_each_channel() {
    assert_eq!(parts(&Rgb::from_hex(0x4682b4)), (70.0, 130.0, 180.0));
    assert_eq!(parts(&Rgb::from_hex(0xff0000)), (255.0, 0.0, 0.0));
    assert_eq!(parts(&Rgb::from_hex(0x00ff00)), (0.0, 255.0, 0.0));
    assert_eq!(parts(&Rgb::from_hex(0x0000ff)), (0.0, 0.0, 255.0));
    assert_eq!(parts(&Rgb::from_hex(0x010203)), (1.0, 2.0, 3.0));
    assert_eq!(parts(&Rgb::from_hex(0)), (0.0, 0.0, 0.0));
    assert_eq!(parts(&Rgb::from_hex(0xffffff)), (255.0, 255.0, 255.0));
}

#[test]
fn from_hex_ignores_the_top_byte() {
    assert_eq!(parts(&Rgb::from_hex(0xff4682b4)), (70.0, 130.0, 180.0));
    assert_eq!(parts(&Rgb::from_hex(0x01000000)), (0.0, 0.0, 0.0));
    assert_eq!(parts(&Rgb::from_hex(u32::MAX)), (255.0, 255.0, 255.0));
}

#[test]
fn from_hex_gives_positive_zero() {
    let black = Rgb::from_hex(0);
    assert_eq!(black.r.to_bits(), 0);
    assert_eq!(black.g.to_bits(), 0);
    assert_eq!(black.b.to_bits(), 0);
}

#[test]
fn from_hex_every_channel_value() {
    for n in 0..=255u32 {
        let rgb = Rgb::from_hex((n << 16) | ((255 - n) << 8) | (n ^ 0x55));
        assert_eq!(rgb.r.to_bits(), (n as f64).to_bits());
        assert_eq!(rgb.g.to_bits(), ((255 - n) as f64).to_bits());
        assert_eq!(rgb.b.to_bits(), ((n ^ 0x55) as f64).to_bits());
    }
}

#[test]
fn new_keeps_the_components() {
    let rgb = Rgb::new(
        Scalar::from_bits(70.5f64.to_bits()),
        Scalar::from_bits((-1.0f64).to_bits()),
        Scalar::from_bits(300.0f64.to_bits()),
    );
    assert_eq!(parts(&rgb), (70.5, -1.0, 300.0));
}

#[test]
fn default_is_black() {
    let rgb = Rgb::default();
    assert_eq!(rgb.r.to_bits(), 0);
    assert_eq!(rgb.g.to_bits(), 0);
    assert_eq!(rgb.b.to_bits(), 0);
}

#[test]
fn rgb_is_its_own_pivot() {
    let rgb = Rgb::from_hex(0x4682b4);
    assert_eq!(parts(&rgb.to_rgb()), (70.0, 130.0, 180.0));
    assert_eq!(parts(&Rgb::from_rgb(&rgb)), (70.0, 130.0, 180.0));
}
