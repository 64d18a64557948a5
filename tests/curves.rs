use achroma::curve::ParametricCurve;
use achroma::error::DecodeError;
use achroma::numbers::S15Fixed16;
use achroma::profile::{Profile, Record};
use achroma::record::TagRecord;
use achroma::header::{DeviceAttributes, IccProfileHeaderU128, PROFILE_FILE_SIGNATURE};
use achroma::numbers::{DateTimeNum, XYZNum};
use achroma::error::TagError;

fn gamma_22() -> ParametricCurve {
    ParametricCurve::new(0, vec![S15Fixed16::new(0x0002_3333)])
}

#[test]
fn parametric_curve_round_trips() {
    let c = gamma_22();
    let bytes = c.encode();
    assert_eq!(bytes, vec![0x70, 0x61, 0x72, 0x61, 0, 0, 0, 0, 0, 0, 0, 0, 0, 2, 0x33, 0x33]);
    assert_eq!(ParametricCurve::decode(&bytes).unwrap(), c);
    let srgb = ParametricCurve::new(3, (1..=5).map(|i| S15Fixed16::new(i * 0x1000)).collect());
    assert_eq!(srgb.encode().len(), 12 + 20);
    assert_eq!(ParametricCurve::decode(&srgb.encode()).unwrap(), srgb);
}

#[test]
fn parametric_curve_needs_its_function_parameters() {
    let srgb = ParametricCurve::new(3, (1..=5).map(|i| S15Fixed16::new(i)).collect());
    let bytes = srgb.encode();
    assert_eq!(
        ParametricCurve::decode(&bytes[..20]).unwrap_err(),
        DecodeError::TruncatedRecord { type_signature: 0x7061_7261, needed: 32, available: 20 }
    );
    let mut unknown = bytes.clone();
    unknown[9] = 9;
    assert_eq!(
        ParametricCurve::decode(&unknown).unwrap_err(),
        DecodeError::UnrecognizedSignature { signature: 9 }
    );
}

#[test]
fn curve_with_wrong_parameter_count_is_not_a_valid_tag() {
    let header = IccProfileHeaderU128 {
        profile_size: 0,
        cmm_type: 0,
        version: 0x0200_0000,
        device_class: 0x6D6E_7472,
        color_space: 0x4752_4159,
        pcs: 0x5859_5A20,
        creation_date_time: DateTimeNum::new([2020, 6, 1, 0, 0, 0, 0, 0]),
        profile_file_signature: PROFILE_FILE_SIGNATURE,
        primary_platform: 0,
        flags: 0,
        device_manufacturer: 0,
        device_model: 0,
        device_attributes: DeviceAttributes::new(0),
        rendering_intent: 0,
        illuminant: XYZNum::new([S15Fixed16::new(0), S15Fixed16::new(0), S15Fixed16::new(0)]),
        creator: 0,
        profile_id: 0,
        reserved_1: [0; 28],
    };
    let mut p = Profile::new(header);
    let bad = ParametricCurve::new(1, vec![S15Fixed16::new(1)]);
    assert_eq!(
        p.set_tag(0x6B54_5243, Record::ParametricCurve(bad)),
        Err(TagError::TagTypeMismatch { signature: 0x6B54_5243, type_signature: 0x7061_7261 })
    );
    assert_eq!(p.set_tag(0x6B54_5243, Record::ParametricCurve(gamma_22())), Ok(()));
    let q = Profile::decode(&p.encode()).unwrap();
    assert_eq!(q.get_tag(0x6B54_5243), Some(&Record::ParametricCurve(gamma_22())));
}
