use hue_sweep::hsl::Hsl;

#[test]
fn new_keeps_channels() {
    let c = Hsl::new(305, 100, 50);
    assert_eq!(c.hue, 305);
    assert_eq!(c.saturation, 100);
    assert_eq!(c.lightness, 50);
}

#[test]
fn rotate_wraps_forward_at_boundary() {
    let c = Hsl::new(355, 100, 50);
    let r = c.rotate_hue(10);
    assert_eq!(r.hue, 5);
    assert_eq!(r.saturation, 100);
    assert_eq!(r.lightness, 50);
}

#[test]
fn rotate_wraps_backward_at_boundary() {
    let c = Hsl::new(5, 100, 50);
    let r = c.rotate_hue(-10);
    assert_eq!(r.hue, 355);
}

#[test]
fn rotate_zero_is_identity() {
    let c = Hsl::new(123, 45, 67);
    assert_eq!(c.rotate_hue(0), c);
}

#[test]
fn rotate_full_turns_is_identity() {
    let c = Hsl::new(34, 100, 50);
    assert_eq!(c.rotate_hue(360), c);
    assert_eq!(c.rotate_hue(-360), c);
    assert_eq!(c.rotate_hue(720), c);
    assert_eq!(c.rotate_hue(-1080), c);
}

#[test]
fn rotate_round_trips() {
    let c = Hsl::new(305, 100, 50);
    for d in [-1000000, -361, -360, -359, -10, -1, 0, 1, 10, 359, 360, 361, 1000000] {
        assert_eq!(c.rotate_hue(d).rotate_hue(-d), c);
    }
}

#[test]
fn rotate_uses_true_modulo_for_negatives() {
    let c = Hsl::new(0, 0, 0);
    assert_eq!(c.rotate_hue(-1).hue, 359);
    assert_eq!(c.rotate_hue(-725).hue, 355);
}

#[test]
fn lightness_clamps_at_zero() {
    let c = Hsl::new(10, 100, 50);
    let r = c.offset_lightness(-80);
    assert_eq!(r.lightness, 0);
    assert_eq!(r.hue, 10);
    assert_eq!(r.saturation, 100);
}

#[test]
fn lightness_clamps_at_hundred() {
    let c = Hsl::new(10, 100, 50);
    assert_eq!(c.offset_lightness(80).lightness, 100);
}

#[test]
fn lightness_offsets_in_range() {
    let c = Hsl::new(10, 100, 50);
    assert_eq!(c.offset_lightness(-20).lightness, 30);
    assert_eq!(c.offset_lightness(25).lightness, 75);
}

#[test]
fn saturation_clamps_at_both_ends() {
    let c = Hsl::new(10, 40, 50);
    assert_eq!(c.offset_saturation(-80).saturation, 0);
    assert_eq!(c.offset_saturation(80).saturation, 100);
    assert_eq!(c.offset_saturation(-15).saturation, 25);
}

#[test]
fn in_range_accepts_valid_and_nothing_else() {
    assert!(Hsl::new(359, 100, 100).in_range());
    let bad = Hsl { hue: 360, saturation: 0, lightness: 0 };
    assert!(!bad.in_range());
    let bad2 = Hsl { hue: 0, saturation: 101, lightness: 0 };
    assert!(!bad2.in_range());
}
