use rlottie::{Property, PropertyValue};

fn val(p: &Property) -> PropertyValue {
    *p.val()
}

#[test]
fn fill_color_boundaries() {
    assert!(Property::fill_color(0.0f32.to_bits(), 0.0f32.to_bits(), 0.0f32.to_bits()).is_some());
    assert!(Property::fill_color(1.0f32.to_bits(), 1.0f32.to_bits(), 1.0f32.to_bits()).is_some());
    assert!(Property::fill_color(
        0.0001f32.to_bits(),
        0.9999f32.to_bits(),
        0.5f32.to_bits()
    )
    .is_some());
    assert!(Property::fill_color(
        (-0.0001f32).to_bits(),
        0.5f32.to_bits(),
        0.5f32.to_bits()
    )
    .is_none());
    assert!(Property::fill_color(
        0.5f32.to_bits(),
        1.0001f32.to_bits(),
        0.5f32.to_bits()
    )
    .is_none());
    assert!(Property::fill_color(
        0.5f32.to_bits(),
        0.5f32.to_bits(),
        f32::NAN.to_bits()
    )
    .is_none());
}

#[test]
fn fill_color_carries_channels() {
    let p = Property::fill_color(0.25f32.to_bits(), 0.5f32.to_bits(), 0.75f32.to_bits()).unwrap();
    assert_eq!(
        val(&p),
        PropertyValue::FillColor {
            r: 0.25f32.to_bits(),
            g: 0.5f32.to_bits(),
            b: 0.75f32.to_bits(),
        }
    );
}

#[test]
fn fill_opacity_boundaries() {
    assert!(Property::fill_opacity(0.0f32.to_bits()).is_some());
    assert!(Property::fill_opacity(100.0f32.to_bits()).is_some());
    assert!(Property::fill_opacity(0.0001f32.to_bits()).is_some());
    assert!(Property::fill_opacity(99.9999f32.to_bits()).is_some());
    assert!(Property::fill_opacity((-0.0f32).to_bits()).is_some());
    assert!(Property::fill_opacity((-0.0001f32).to_bits()).is_none());
    assert!(Property::fill_opacity(100.0001f32.to_bits()).is_none());
    assert!(Property::fill_opacity(f32::NAN.to_bits()).is_none());
    assert!(Property::fill_opacity(f32::INFINITY.to_bits()).is_none());
}

#[test]
fn stroke_color_boundaries() {
    assert!(Property::stroke_color(0.0f32.to_bits(), 1.0f32.to_bits(), 0.5f32.to_bits()).is_some());
    assert!(Property::stroke_color(
        1.0001f32.to_bits(),
        0.5f32.to_bits(),
        0.5f32.to_bits()
    )
    .is_none());
    assert!(Property::stroke_color(
        (-0.0001f32).to_bits(),
        0.5f32.to_bits(),
        0.5f32.to_bits()
    )
    .is_none());
}

#[test]
fn stroke_opacity_boundaries() {
    assert!(Property::stroke_opacity(0.0f32.to_bits()).is_some());
    assert!(Property::stroke_opacity(100.0f32.to_bits()).is_some());
    assert!(Property::stroke_opacity((-0.0001f32).to_bits()).is_none());
    assert!(Property::stroke_opacity(100.0001f32.to_bits()).is_none());
}

#[test]
fn stroke_width_boundaries() {
    assert!(Property::stroke_width(0.0f32.to_bits()).is_some());
    assert!(Property::stroke_width((-0.0f32).to_bits()).is_some());
    assert!(Property::stroke_width(0.0001f32.to_bits()).is_some());
    assert!(Property::stroke_width(1000000.0f32.to_bits()).is_some());
    assert!(Property::stroke_width(f32::INFINITY.to_bits()).is_some());
    // A NaN satisfies no bound, so a NaN width is rejected.
    assert!(Property::stroke_width(f32::NAN.to_bits()).is_none());
    assert!(Property::stroke_width((-f32::NAN).to_bits()).is_none());
    assert!(Property::stroke_width((-0.0001f32).to_bits()).is_none());
    assert!(Property::stroke_width(f32::NEG_INFINITY.to_bits()).is_none());
}

#[test]
fn transform_anchor_never_constructs() {
    assert!(Property::transform_anchor(0).is_none());
    assert!(Property::transform_anchor(-100).is_none());
    assert!(Property::transform_anchor(i32::MAX).is_none());
}

#[test]
fn transform_position_unconstrained() {
    let p = Property::transform_position(i32::MIN, i32::MAX);
    assert_eq!(
        val(&p),
        PropertyValue::TransformPosition {
            x: i32::MIN,
            y: i32::MAX,
        }
    );
}

#[test]
fn transform_scale_boundaries() {
    assert!(Property::transform_scale(0.0f32.to_bits(), 100.0f32.to_bits()).is_some());
    assert!(Property::transform_scale(50.0f32.to_bits(), 50.0f32.to_bits()).is_some());
    assert!(Property::transform_scale(100.0001f32.to_bits(), 50.0f32.to_bits()).is_none());
    assert!(Property::transform_scale(50.0f32.to_bits(), (-0.0001f32).to_bits()).is_none());
}

#[test]
fn transform_rotation_boundaries() {
    assert!(Property::transform_rotation(0.0f32.to_bits()).is_some());
    assert!(Property::transform_rotation(360.0f32.to_bits()).is_some());
    assert!(Property::transform_rotation(359.9999f32.to_bits()).is_some());
    assert!(Property::transform_rotation(360.0001f32.to_bits()).is_none());
    assert!(Property::transform_rotation((-0.0001f32).to_bits()).is_none());
}

#[test]
fn transform_opacity_boundaries() {
    assert!(Property::transform_opacity(0.0f32.to_bits()).is_some());
    assert!(Property::transform_opacity(100.0f32.to_bits()).is_some());
    assert!(Property::transform_opacity((-0.0001f32).to_bits()).is_none());
    assert!(Property::transform_opacity(100.0001f32.to_bits()).is_none());
}

#[test]
fn ffi_type_is_a_function_of_the_variant() {
    let color = 0.5f32.to_bits();
    let scalar = 50.0f32.to_bits();
    assert_eq!(Property::fill_color(color, color, color).unwrap().ffi_type(), 0);
    assert_eq!(Property::fill_opacity(scalar).unwrap().ffi_type(), 1);
    assert_eq!(Property::stroke_color(color, color, color).unwrap().ffi_type(), 2);
    assert_eq!(Property::stroke_opacity(scalar).unwrap().ffi_type(), 3);
    assert_eq!(Property::stroke_width(scalar).unwrap().ffi_type(), 4);
    assert_eq!(Property::transform_position(3, 4).ffi_type(), 6);
    assert_eq!(Property::transform_scale(scalar, scalar).unwrap().ffi_type(), 7);
    assert_eq!(Property::transform_rotation(scalar).unwrap().ffi_type(), 8);
    assert_eq!(Property::transform_opacity(scalar).unwrap().ffi_type(), 9);
}
