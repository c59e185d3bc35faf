use diorama_lights::color::{add_rgb_saturating, Rgb8};
use diorama_lights::underpass_lights::{clamp, wheel};

fn rgb(r: u8, g: u8, b: u8) -> Rgb8 {
    Rgb8 { r, g, b }
}

#[test]
fn saturating_add_caps_at_channel_maximum() {
    let mut a = rgb(200, 128, 0);
    add_rgb_saturating(&mut a, rgb(100, 127, 5));
    assert_eq!(a, rgb(255, 255, 5));

    let mut b = rgb(255, 255, 255);
    add_rgb_saturating(&mut b, rgb(255, 255, 255));
    assert_eq!(b, rgb(255, 255, 255));
}

#[test]
fn saturating_add_is_plain_addition_below_the_cap() {
    let mut a = rgb(10, 20, 30);
    add_rgb_saturating(&mut a, rgb(1, 2, 3));
    assert_eq!(a, rgb(11, 22, 33));
}

#[test]
fn repeated_overlapping_additions_never_exceed_the_maximum() {
    let mut acc = rgb(40, 20, 2);
    for _ in 0..10 {
        add_rgb_saturating(&mut acc, rgb(80, 80, 26));
    }
    assert_eq!(acc, rgb(255, 255, 255));
}

#[test]
fn clamp_on_each_side_and_inside() {
    assert_eq!(clamp(-5, 0, 30000), 0);
    assert_eq!(clamp(0, 0, 30000), 0);
    assert_eq!(clamp(123, 0, 30000), 123);
    assert_eq!(clamp(30000, 0, 30000), 30000);
    assert_eq!(clamp(30001, 0, 30000), 30000);
}

#[test]
fn wheel_is_cyclic_at_the_ends() {
    assert_eq!(wheel(0), wheel(255));
    assert_eq!(wheel(0), rgb(255, 0, 0));
}

#[test]
fn wheel_exact_values_in_each_band() {
    // Inputs 171..=255 ramp red up / blue down.
    assert_eq!(wheel(171), rgb(3, 0, 252));
    assert_eq!(wheel(255), rgb(255, 0, 0));
    // Inputs 86..=170 ramp blue up / green down as the input grows.
    assert_eq!(wheel(86), rgb(0, 252, 3));
    assert_eq!(wheel(128), rgb(0, 126, 129));
    assert_eq!(wheel(170), rgb(0, 0, 255));
    // Inputs 0..=85 ramp green up / red down as the input grows.
    assert_eq!(wheel(85), rgb(0, 255, 0));
    assert_eq!(wheel(1), rgb(252, 3, 0));
}

#[test]
fn wheel_band_ramps_are_monotonic() {
    for a in 171..=254u8 {
        assert!(wheel(a + 1).r >= wheel(a).r);
        assert!(wheel(a + 1).b <= wheel(a).b);
        assert_eq!(wheel(a).g, 0);
    }
    for a in 86..=169u8 {
        assert!(wheel(a + 1).g <= wheel(a).g);
        assert!(wheel(a + 1).b >= wheel(a).b);
        assert_eq!(wheel(a).r, 0);
    }
    for a in 0..=84u8 {
        assert!(wheel(a + 1).r <= wheel(a).r);
        assert!(wheel(a + 1).g >= wheel(a).g);
        assert_eq!(wheel(a).b, 0);
    }
}
