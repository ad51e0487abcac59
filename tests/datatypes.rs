use lib_roblox::{
    offset_add, offset_neg, offset_sub, Arg, Color3, ColorSequence, ColorSequenceKeypoint,
    DatatypeError, Float32, UDim, UDim2, Variant, VariantType,
};

fn f(v: f32) -> Float32 {
    Float32::from_bits(v.to_bits())
}

fn udim(scale: f32, offset: i32) -> UDim {
    UDim::new(f(scale), offset)
}

fn number(v: f32) -> Arg {
    let as_int = if v.fract() == 0.0 { Some(v as i32) } else { None };
    Arg::Value { udim: None, scale: Some(f(v)), offset: as_int }
}

fn text_arg() -> Arg {
    Arg::Value { udim: None, scale: None, offset: None }
}

fn udim_arg(u: UDim) -> Arg {
    Arg::Value { udim: Some(u), scale: None, offset: None }
}

fn keypoint(time: f32) -> ColorSequenceKeypoint {
    ColorSequenceKeypoint::new(f(time), Color3::new(f(1.0), f(0.5), f(0.0)))
}

#[test]
fn new_without_arguments_is_zero() {
    let r = UDim2::new(&[]).unwrap();
    assert_eq!(r, UDim2::from_udims(udim(0.0, 0), udim(0.0, 0)));
    assert_eq!(r, UDim2::zero());
}

#[test]
fn new_from_two_udims() {
    let r = UDim2::new(&[udim_arg(udim(0.5, 10)), udim_arg(udim(0.25, 5))]).unwrap();
    assert_eq!(r.x, udim(0.5, 10));
    assert_eq!(r.y, udim(0.25, 5));
}

#[test]
fn new_from_four_numbers_matches_udims() {
    let a = UDim2::new(&[number(0.5), number(10.0), number(0.25), number(5.0)]).unwrap();
    let b = UDim2::new(&[udim_arg(udim(0.5, 10)), udim_arg(udim(0.25, 5))]).unwrap();
    assert_eq!(a, b);
}

#[test]
fn new_rejects_number_and_text() {
    let r = UDim2::new(&[number(0.5), text_arg()]);
    assert_eq!(r, Err(DatatypeError::InvalidConstructorArguments));
}

#[test]
fn new_defaults_missing_and_nil_arguments() {
    let r = UDim2::new(&[udim_arg(udim(0.5, 10))]).unwrap();
    assert_eq!(r, UDim2::from_udims(udim(0.5, 10), UDim::zero()));
    let r = UDim2::new(&[Arg::Nil, udim_arg(udim(0.25, 5))]).unwrap();
    assert_eq!(r, UDim2::from_udims(UDim::zero(), udim(0.25, 5)));
    let r = UDim2::new(&[number(0.5), Arg::Nil, Arg::Nil, number(7.0)]).unwrap();
    assert_eq!(r, UDim2::from_udims(udim(0.5, 0), udim(0.0, 7)));
    let r = UDim2::new(&[number(0.5), number(3.0)]).unwrap();
    assert_eq!(r, UDim2::from_udims(udim(0.5, 3), UDim::zero()));
}

#[test]
fn new_requires_every_argument_to_be_taken() {
    let five = [number(1.0), number(2.0), number(3.0), number(4.0), number(5.0)];
    assert_eq!(UDim2::new(&five), Err(DatatypeError::InvalidConstructorArguments));
    let three = [udim_arg(udim(0.5, 1)), udim_arg(udim(0.5, 1)), udim_arg(udim(0.5, 1))];
    assert_eq!(UDim2::new(&three), Err(DatatypeError::InvalidConstructorArguments));
    let mixed = [udim_arg(udim(0.5, 1)), number(2.0)];
    assert_eq!(UDim2::new(&mixed), Err(DatatypeError::InvalidConstructorArguments));
}

#[test]
fn offset_slot_rejects_fractional_number() {
    let r = UDim2::new(&[number(0.5), number(0.5)]);
    assert_eq!(r, Err(DatatypeError::InvalidConstructorArguments));
}

#[test]
fn from_scale_and_from_offset() {
    let s = UDim2::from_scale(Some(f(0.5)), None);
    assert_eq!(s, UDim2::from_udims(udim(0.5, 0), udim(0.0, 0)));
    let o = UDim2::from_offset(None, Some(-3));
    assert_eq!(o, UDim2::from_udims(udim(0.0, 0), udim(0.0, -3)));
}

#[test]
fn fields_alias_axes() {
    let v = UDim2::from_udims(udim(0.5, 10), udim(0.25, 5));
    assert_eq!(v.x(), udim(0.5, 10));
    assert_eq!(v.width(), udim(0.5, 10));
    assert_eq!(v.y(), udim(0.25, 5));
    assert_eq!(v.height(), udim(0.25, 5));
}

#[test]
fn string_form_of_udim2() {
    let v = UDim2::new(&[number(0.5), number(10.0), number(0.25), number(5.0)]).unwrap();
    let sx = format!("{}", f32::from_bits(v.x.scale.bits));
    let sy = format!("{}", f32::from_bits(v.y.scale.bits));
    assert_eq!(v.to_text(&sx, &sy), "0.5, 10, 0.25, 5");
}

#[test]
fn string_form_of_negative_offset() {
    let u = udim(1.0, -2147483648);
    assert_eq!(u.to_text("1"), "1, -2147483648");
    assert_eq!(udim(0.0, 0).to_text("0"), "0, 0");
}

#[test]
fn negation_flips_both_components() {
    let v = UDim2::from_udims(udim(0.5, 10), udim(-0.25, -5));
    let n = v.neg();
    assert_eq!(n, UDim2::from_udims(udim(-0.5, -10), udim(0.25, 5)));
    assert_eq!(n.neg(), v);
    assert_eq!(udim(0.0, i32::MIN).neg().offset, i32::MIN);
    assert_eq!(f32::from_bits(udim(0.0, 0).neg().scale.bits), -0.0);
}

#[test]
fn offsets_wrap_around() {
    assert_eq!(offset_add(i32::MAX, 1), i32::MIN);
    assert_eq!(offset_sub(i32::MIN, 1), i32::MAX);
    assert_eq!(offset_neg(i32::MIN), i32::MIN);
    assert_eq!(offset_add(7, -3), 4);
    assert_eq!(offset_sub(7, 10), -3);
}

#[test]
fn offset_additive_identity() {
    for a in [0, 1, -1, 12345, i32::MAX, i32::MIN] {
        assert_eq!(offset_add(a, 0), a);
        assert_eq!(offset_add(a, offset_neg(a)), 0);
        assert_eq!(offset_sub(a, a), 0);
    }
}

#[test]
fn udim2_round_trip() {
    let v = UDim2::from_udims(udim(0.5, 10), udim(0.25, -5));
    let t = v.to_variant(None).unwrap();
    assert_eq!(t.kind(), VariantType::UDim2);
    assert_eq!(UDim2::from_variant(&t), Ok(v));
    let t = v.to_variant(Some(VariantType::UDim2)).unwrap();
    assert_eq!(UDim2::from_variant(&t), Ok(v));
}

#[test]
fn udim_and_color3_round_trip() {
    let u = udim(-1.5, 42);
    assert_eq!(UDim::from_variant(&u.to_variant(None).unwrap()), Ok(u));
    let c = Color3::new(f(0.1), f(0.2), f(3.0));
    assert_eq!(Color3::from_variant(&c.to_variant(None).unwrap()), Ok(c));
}

#[test]
fn nan_scale_round_trips_bit_for_bit() {
    let v = UDim2::from_udims(UDim::new(f(f32::NAN), 1), udim(0.0, 2));
    assert_eq!(UDim2::from_variant(&v.to_variant(None).unwrap()), Ok(v));
}

#[test]
fn from_variant_rejects_other_kinds() {
    let u = udim(0.5, 1).to_variant(None).unwrap();
    assert_eq!(
        UDim2::from_variant(&u),
        Err(DatatypeError::MismatchedSource { from: VariantType::UDim, to: VariantType::UDim2 })
    );
    let v = UDim2::zero().to_variant(None).unwrap();
    assert_eq!(
        UDim::from_variant(&v),
        Err(DatatypeError::MismatchedSource { from: VariantType::UDim2, to: VariantType::UDim })
    );
    assert_eq!(
        Color3::from_variant(&Variant::Other),
        Err(DatatypeError::MismatchedSource { from: VariantType::Other, to: VariantType::Color3 })
    );
    assert!(matches!(
        ColorSequence::from_variant(&v),
        Err(DatatypeError::MismatchedSource { from: VariantType::UDim2, to: VariantType::ColorSequence })
    ));
}

#[test]
fn to_variant_rejects_other_targets() {
    let v = UDim2::zero();
    assert!(matches!(
        v.to_variant(Some(VariantType::UDim)),
        Err(DatatypeError::UnsupportedTarget { from: VariantType::UDim2, to: VariantType::UDim })
    ));
    assert!(matches!(
        udim(0.0, 0).to_variant(Some(VariantType::Other)),
        Err(DatatypeError::UnsupportedTarget { from: VariantType::UDim, to: VariantType::Other })
    ));
}

#[test]
fn color_sequence_accepts_valid_ramp() {
    let ks = vec![keypoint(0.0), keypoint(0.25), keypoint(0.25), keypoint(1.0)];
    let s = ColorSequence::new(ks.clone()).unwrap();
    assert_eq!(s.keypoints(), &ks[..]);
    let single_end = ColorSequence::new(vec![keypoint(-0.0), keypoint(1.0)]);
    assert!(single_end.is_ok());
}

#[test]
fn color_sequence_rejects_bad_ends() {
    let bad_start = vec![keypoint(0.1), keypoint(1.0)];
    assert!(matches!(
        ColorSequence::new(bad_start),
        Err(DatatypeError::InvalidConstructorArguments)
    ));
    let bad_end = vec![keypoint(0.0), keypoint(0.9)];
    assert!(matches!(ColorSequence::new(bad_end), Err(DatatypeError::InvalidConstructorArguments)));
    assert!(matches!(ColorSequence::new(vec![]), Err(DatatypeError::InvalidConstructorArguments)));
}

#[test]
fn color_sequence_rejects_unordered_or_out_of_range_times() {
    let unordered = vec![keypoint(0.0), keypoint(0.75), keypoint(0.5), keypoint(1.0)];
    assert!(ColorSequence::new(unordered).is_err());
    let outside = vec![keypoint(0.0), keypoint(-0.5), keypoint(1.0)];
    assert!(ColorSequence::new(outside).is_err());
    let nan = vec![keypoint(0.0), keypoint(f32::NAN), keypoint(1.0)];
    assert!(ColorSequence::new(nan).is_err());
}

#[test]
fn color_sequence_round_trip() {
    let ks = vec![keypoint(0.0), keypoint(0.5), keypoint(1.0)];
    let s = ColorSequence::new(ks.clone()).unwrap();
    let t = s.to_variant(None).unwrap();
    assert_eq!(t.kind(), VariantType::ColorSequence);
    let back = ColorSequence::from_variant(&t).unwrap();
    assert_eq!(back.keypoints(), &ks[..]);
    assert!(Color3::from_variant(&t).is_err());
}
