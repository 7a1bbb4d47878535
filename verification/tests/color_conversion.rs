use search::color::{darken, from_rgb, from_rgba, transparent, ALPHA_DENOM, CHANNEL_DENOM};

fn normalized(numerator: u16) -> f64 {
    numerator as f64 / CHANNEL_DENOM as f64
}

fn normalized_alpha(numerator: u8) -> f64 {
    numerator as f64 / ALPHA_DENOM as f64
}

#[test]
fn white_fully_opaque_converts_to_all_ones() {
    let c = from_rgba(255, 255, 255, 100);
    assert_eq!(normalized(c.r), 1.0);
    assert_eq!(normalized(c.g), 1.0);
    assert_eq!(normalized(c.b), 1.0);
    assert_eq!(normalized_alpha(c.a), 1.0);
}

#[test]
fn mixed_color_matches_expected_values() {
    let c = from_rgba(127, 0, 255, 50);
    assert!((normalized(c.r) - 0.498039).abs() < 1e-6);
    assert_eq!(normalized(c.g), 0.0);
    assert_eq!(normalized(c.b), 1.0);
    assert_eq!(normalized_alpha(c.a), 0.5);
}

#[test]
fn rgb_form_implies_full_opacity() {
    let c = from_rgb(127, 0, 255);
    assert_eq!(c, from_rgba(127, 0, 255, 100));
    assert_eq!(normalized_alpha(c.a), 1.0);
}

#[test]
fn conversion_divides_by_channel_and_alpha_ranges() {
    let c = from_rgba(51, 102, 204, 25);
    assert!((normalized(c.r) - 51.0 / 255.0).abs() < 1e-12);
    assert!((normalized(c.g) - 102.0 / 255.0).abs() < 1e-12);
    assert!((normalized(c.b) - 204.0 / 255.0).abs() < 1e-12);
    assert!((normalized_alpha(c.a) - 0.25).abs() < 1e-12);
}

#[test]
fn darken_scales_channels_by_seven_tenths_and_keeps_alpha() {
    let c = from_rgba(253, 213, 193, 100);
    let d = darken(c);
    assert!((normalized(d.r) - 0.7 * normalized(c.r)).abs() < 1e-12);
    assert!((normalized(d.g) - 0.7 * normalized(c.g)).abs() < 1e-12);
    assert!((normalized(d.b) - 0.7 * normalized(c.b)).abs() < 1e-12);
    assert_eq!(d.a, c.a);
}

#[test]
fn transparent_is_all_zero() {
    let c = transparent();
    assert_eq!(normalized(c.r), 0.0);
    assert_eq!(normalized(c.g), 0.0);
    assert_eq!(normalized(c.b), 0.0);
    assert_eq!(normalized_alpha(c.a), 0.0);
}
