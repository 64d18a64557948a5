use achroma::header::DeviceAttributes;
use achroma::numbers::{FixedInt, S15Fixed16, U16Fixed16, U1Fixed15, U8Fixed8};
use achroma::signatures::{
    ColorSpace, ColorimetricIntentImageStateTag, CurveMeasurement, ProfileClass, RenderingIntent,
    SignatureCode, TechnologySignature,
};
use std::str::FromStr;

#[test]
fn fixed_point_parts_at_the_bounds() {
    for (i, f) in [(0i16, 0i16), (i16::MAX, i16::MAX), (i16::MIN, i16::MIN), (-1, 0x1234)] {
        let v = S15Fixed16::from_parts(i, f);
        assert_eq!(v.integer_part(), i);
        assert_eq!(v.fractional_part(), f);
    }
    assert_eq!(S15Fixed16::from_parts(1, 0).get(), 0x10000);
    assert_eq!(S15Fixed16::from_parts(-1, 0).get(), -0x10000);
    for (i, f) in [(0u16, 0u16), (u16::MAX, u16::MAX), (1, 0x8000)] {
        let v = U16Fixed16::from_parts(i, f);
        assert_eq!(v.integer_part(), i);
        assert_eq!(v.fractional_part(), f);
    }
    assert_eq!(U16Fixed16::from_parts(1, 0x8000).get(), 0x0001_8000);
    for (i, f) in [(0u8, 0u8), (u8::MAX, u8::MAX), (1, 0x80)] {
        let v = U8Fixed8::from_parts(i, f);
        assert_eq!(v.integer_part(), i);
        assert_eq!(v.fractional_part(), f);
    }
    for (i, f) in [(0u16, 0u16), (1, 0x7FFF), (1, 0)] {
        let v = U1Fixed15::from_parts(i, f);
        assert_eq!(v.integer_part(), i);
        assert_eq!(v.fractional_part(), f);
    }
    // bits beyond the widths are dropped
    let t = U1Fixed15::from_parts(3, 0xFFFF);
    assert_eq!(t.integer_part(), 1);
    assert_eq!(t.fractional_part(), 0x7FFF);
}

#[test]
fn device_attributes_from_halves_or_whole() {
    let high = 0x1234_5678u32;
    let low = 0x9ABC_DEF0u32;
    let combined = ((high as u64) << 32) | low as u64;
    assert_eq!(DeviceAttributes::from(combined), DeviceAttributes::from([high, low]));
    assert_eq!(DeviceAttributes::from([high, low]).get(), 0x1234_5678_9ABC_DEF0);
    assert_eq!(DeviceAttributes::new(combined).halves(), [high, low]);
    assert_eq!(DeviceAttributes::from([0, 1]).get(), 1);
    assert_eq!(DeviceAttributes::from([1, 0]).get(), 1 << 32);
}

#[test]
fn signatures_map_both_ways() {
    assert_eq!(ProfileClass::DisplayDeviceProfile.signature(), 0x6D6E_7472);
    assert_eq!(ProfileClass::from_signature(0x6D6E_7472), Ok(ProfileClass::DisplayDeviceProfile));
    assert_eq!(ProfileClass::from_str("mntr"), Ok(ProfileClass::DisplayDeviceProfile));
    assert_eq!(ProfileClass::from_str("scnr"), Ok(ProfileClass::InputDeviceProfile));
    assert_eq!(ProfileClass::from_str("mnt"), Err(()));
    assert_eq!(ProfileClass::from_str("abcd"), Err(()));
    assert_eq!(ColorSpace::from_str("RGB "), Ok(ColorSpace::Rgb));
    assert_eq!(ColorSpace::from_str("FCLR"), Ok(ColorSpace::Color15));
    assert_eq!(ColorSpace::Color10.signature(), 0x4143_4C52);
    assert_eq!(TechnologySignature::from_str("CRT "), Ok(TechnologySignature::CRTDisplay));
    assert_eq!(TechnologySignature::from_str("rpho"), Ok(TechnologySignature::PhotographicPaperPrinter));
    assert_eq!(TechnologySignature::PhotographicPaperPrinter.signature(), 0x7270_686F);
    assert_eq!(CurveMeasurement::from_str("DN P"), Ok(CurveMeasurement::DinENoPolarFilter));
    assert_eq!(
        ColorimetricIntentImageStateTag::from_str("scoe"),
        Ok(ColorimetricIntentImageStateTag::SceneColorimetryEstimates)
    );
    assert_eq!(RenderingIntent::from_signature(3), Ok(RenderingIntent::IccAbsColorimetric));
    assert!(RenderingIntent::from_signature(4).is_err());
    for v in [ColorSpace::NCieXyz, ColorSpace::CieLab, ColorSpace::Gray, ColorSpace::Cmyk, ColorSpace::Color2] {
        assert_eq!(ColorSpace::from_signature(v.signature()), Ok(v));
    }
}

#[test]
fn unknown_four_character_code_is_rejected() {
    assert_eq!(
        ProfileClass::from_signature(0x7A7A_7A7A),
        Err(achroma::error::DecodeError::UnrecognizedSignature { signature: 0x7A7A_7A7A })
    );
    assert_eq!(ColorSpace::from_str("zzzz"), Err(()));
    assert_eq!(ColorSpace::from_str("RGB\u{e9}"), Err(()));
}

#[test]
fn primitives_wrap_their_raw_values() {
    use_primitives();
}

fn use_primitives() {
    assert_eq!(S15Fixed16::from(-5).get(), -5);
    assert_eq!(S15Fixed16::default().get(), 0);
    assert_eq!(U16Fixed16::from(7u32).get(), 7);
    assert_eq!(U8Fixed8::new(0x0180).integer_part(), 1);
    assert_eq!(U8Fixed8::new(0x0180).fractional_part(), 0x80);
    assert_eq!(achroma::numbers::PositionNum::default().get(), [0, 0]);
    assert_eq!(achroma::numbers::DateTimeNum::default().get(), [0; 8]);
    assert_eq!(achroma::numbers::Bit7Ascii::from(b'x').get(), b'x');
    assert_eq!(achroma::numbers::XYZNum::default().get()[2], S15Fixed16::new(0));
}

#[test]
fn text_forms_parse_through_from_str() {
    assert_eq!("Lab ".parse::<ColorSpace>(), Ok(ColorSpace::CieLab));
    assert_eq!("RGB".parse::<ColorSpace>(), Err(()));
    assert_eq!("RGB  ".parse::<ColorSpace>(), Err(()));
    assert_eq!("MNTR".parse::<ProfileClass>(), Err(()));
    assert_eq!("mntrmntr".parse::<ProfileClass>(), Err(()));
    assert_eq!("nmcl".parse::<ProfileClass>(), Ok(ProfileClass::NamedColorProfile));
}
