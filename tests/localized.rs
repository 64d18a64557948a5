use achroma::error::DecodeError;
use achroma::mluc::{LocalizedString, MultiLocalizedUnicode};
use achroma::profile::{Profile, Record};
use achroma::record::TagRecord;
use achroma::header::{DeviceAttributes, IccProfileHeaderU128, PROFILE_FILE_SIGNATURE};
use achroma::numbers::{DateTimeNum, S15Fixed16, XYZNum};

fn english_hi() -> MultiLocalizedUnicode {
    MultiLocalizedUnicode::new(
        vec![LocalizedString { lang_code: 0x656E, country_code: 0x5553, str_length: 4, str_offset: 28 }],
        vec![0, b'h', 0, b'i'],
    )
}

#[test]
fn localized_text_round_trips() {
    let m = english_hi();
    let bytes = m.encode();
    assert_eq!(
        bytes,
        vec![
            0x6D, 0x6C, 0x75, 0x63, 0, 0, 0, 0, 0, 0, 0, 1, 0, 0, 0, 12, 0x65, 0x6E, 0x55, 0x53, 0, 0, 0,
            4, 0, 0, 0, 28, 0, b'h', 0, b'i'
        ]
    );
    assert_eq!(m.count_records(), 1);
    assert_eq!(MultiLocalizedUnicode::decode(&bytes).unwrap(), m);
}

#[test]
fn localized_string_outside_record_is_invalid() {
    let mut bytes = english_hi().encode();
    bytes[27] = 30;
    assert_eq!(
        MultiLocalizedUnicode::decode(&bytes).unwrap_err(),
        DecodeError::InvalidOffset { offset: 30, limit: 32 }
    );
    let mut into_records = english_hi().encode();
    into_records[27] = 20;
    assert_eq!(
        MultiLocalizedUnicode::decode(&into_records).unwrap_err(),
        DecodeError::InvalidOffset { offset: 20, limit: 32 }
    );
}

#[test]
fn localized_records_beyond_the_bytes_are_truncated() {
    let bytes = english_hi().encode();
    assert_eq!(
        MultiLocalizedUnicode::decode(&bytes[..20]).unwrap_err(),
        DecodeError::TruncatedRecord { type_signature: 0x6D6C_7563, needed: 28, available: 20 }
    );
    let mut odd_size = bytes.clone();
    odd_size[15] = 16;
    assert_eq!(
        MultiLocalizedUnicode::decode(&odd_size).unwrap_err(),
        DecodeError::SizeMismatch { declared: 16, actual: 12 }
    );
}

#[test]
fn description_tag_holds_localized_text() {
    let header = IccProfileHeaderU128 {
        profile_size: 0,
        cmm_type: 0,
        version: 0x0440_0000,
        device_class: 0x7370_6163,
        color_space: 0x5247_4220,
        pcs: 0x4C61_6220,
        creation_date_time: DateTimeNum::new([2023, 1, 2, 3, 4, 5, 0, 0]),
        profile_file_signature: PROFILE_FILE_SIGNATURE,
        primary_platform: 0,
        flags: 0,
        device_manufacturer: 0,
        device_model: 0,
        device_attributes: DeviceAttributes::new(0),
        rendering_intent: 1,
        illuminant: XYZNum::new([S15Fixed16::new(0), S15Fixed16::new(0), S15Fixed16::new(0)]),
        creator: 0,
        profile_id: 0,
        reserved_1: [0; 28],
    };
    let mut p = Profile::new(header);
    assert_eq!(p.set_tag(0x6465_7363, Record::MultiLocalizedUnicode(english_hi())), Ok(()));
    let bytes = p.encode();
    let q = Profile::decode(&bytes).unwrap();
    assert_eq!(q.get_tag(0x6465_7363), Some(&Record::MultiLocalizedUnicode(english_hi())));
    assert_eq!(q.encode(), bytes);
}
