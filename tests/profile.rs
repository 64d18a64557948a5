use achroma::error::{DecodeError, TagError};
use achroma::header::{DeviceAttributes, IccProfileHeaderU128, PROFILE_FILE_SIGNATURE};
use achroma::numbers::{Bit7Ascii, DateTimeNum, S15Fixed16, XYZNum};
use achroma::profile::{Profile, Record};
use achroma::record::TagRecord;
use achroma::tags::{Signature, Text};

const CPRT: u32 = 0x6370_7274;
const TECH: u32 = 0x7465_6368;

fn header() -> IccProfileHeaderU128 {
    IccProfileHeaderU128 {
        profile_size: 0,
        cmm_type: 0x6C63_6D73,
        version: 0x0430_0000,
        device_class: 0x6D6E_7472,
        color_space: 0x5247_4220,
        pcs: 0x5859_5A20,
        creation_date_time: DateTimeNum::new([2024, 5, 17, 12, 30, 0, 0, 0]),
        profile_file_signature: PROFILE_FILE_SIGNATURE,
        primary_platform: 0x4150_504C,
        flags: 0,
        device_manufacturer: 0,
        device_model: 0,
        device_attributes: DeviceAttributes::new(0),
        rendering_intent: 0,
        illuminant: XYZNum::new([S15Fixed16::new(0xF6D6), S15Fixed16::new(0x1_0000), S15Fixed16::new(0xD32D)]),
        creator: 0x6C63_6D73,
        profile_id: 0x0102_0304_0506_0708_090A_0B0C_0D0E_0F10,
        reserved_1: [0; 28],
    }
}

fn abc() -> Text {
    Text::new(vec![Bit7Ascii::new(b'a'), Bit7Ascii::new(b'b'), Bit7Ascii::new(b'c')])
}

fn text_profile_bytes() -> Vec<u8> {
    let mut p = Profile::new(header());
    assert_eq!(p.set_tag(CPRT, Record::Text(abc())), Ok(()));
    p.encode()
}

#[test]
fn text_tag_profile_decodes_and_reencodes_identically() {
    let bytes = text_profile_bytes();
    // header, tag count, one table entry, then the eleven bytes of the text record
    assert_eq!(bytes.len(), 132 + 4 + 12 + 11);
    assert_eq!(&bytes[0..4], &[0, 0, 0, 159]);
    assert_eq!(&bytes[132..136], &[0, 0, 0, 1]);
    assert_eq!(&bytes[136..148], &[0x63, 0x70, 0x72, 0x74, 0, 0, 0, 148, 0, 0, 0, 11]);
    assert_eq!(&bytes[148..], &[0x74, 0x65, 0x78, 0x74, 0, 0, 0, 0, b'a', b'b', b'c']);

    let profile = Profile::decode(&bytes).unwrap();
    assert_eq!(profile.tag_count(), 1);
    match profile.get_tag(CPRT) {
        Some(Record::Text(t)) => {
            assert_eq!(t.text.len(), 3);
            assert_eq!(t.text[0].get(), b'a');
            assert_eq!(t.text[2].get(), b'c');
        }
        other => panic!("unexpected tag {:?}", other),
    }
    assert!(profile.get_tag(TECH).is_none());
    assert_eq!(profile.encode(), bytes);
}

#[test]
fn changed_profile_drops_its_id() {
    let mut p = Profile::new(header());
    assert!(!p.id_is_current());
    assert_eq!(p.set_tag(CPRT, Record::Text(abc())), Ok(()));
    let bytes = p.encode();
    assert_eq!(&bytes[88..104], &[0u8; 16]);
    let mut decoded = Profile::decode(&bytes).unwrap();
    assert!(decoded.id_is_current());
    assert_eq!(decoded.set_tag(TECH, Record::Signature(Signature::new(0x6463_616D))), Ok(()));
    assert!(!decoded.id_is_current());
    assert_eq!(decoded.tag_count(), 2);
}

#[test]
fn second_tag_with_same_signature_is_rejected() {
    let mut p = Profile::new(header());
    assert_eq!(p.set_tag(CPRT, Record::Text(abc())), Ok(()));
    assert_eq!(
        p.set_tag(CPRT, Record::Text(abc())),
        Err(TagError::DuplicateTag { signature: CPRT })
    );
    assert_eq!(p.tag_count(), 1);
}

#[test]
fn tag_of_wrong_type_is_rejected() {
    let mut p = Profile::new(header());
    assert_eq!(
        p.set_tag(CPRT, Record::Signature(Signature::new(1))),
        Err(TagError::TagTypeMismatch { signature: CPRT, type_signature: 0x7369_6720 })
    );
    assert_eq!(p.tag_count(), 0);
}

#[test]
fn table_with_repeated_signature_fails_to_decode() {
    let mut bytes = text_profile_bytes();
    // a second entry for the same tag, pointing at the same data
    bytes[135] = 2;
    let entry: Vec<u8> = bytes[136..148].to_vec();
    let mut data: Vec<u8> = bytes[148..].to_vec();
    bytes.truncate(148);
    bytes.extend_from_slice(&entry);
    bytes.append(&mut data);
    bytes[147 + 12 - 4] = 160;
    bytes[147 - 4] = 160;
    let len = bytes.len() as u32;
    bytes[0..4].copy_from_slice(&len.to_be_bytes());
    assert_eq!(Profile::decode(&bytes).unwrap_err(), DecodeError::DuplicateTag { signature: CPRT });
}

#[test]
fn declared_size_other_than_length_fails() {
    let mut bytes = text_profile_bytes();
    bytes[3] = 158;
    assert_eq!(
        Profile::decode(&bytes).unwrap_err(),
        DecodeError::SizeMismatch { declared: 158, actual: 159 }
    );
    let mut longer = text_profile_bytes();
    longer.push(0);
    assert_eq!(
        Profile::decode(&longer).unwrap_err(),
        DecodeError::SizeMismatch { declared: 159, actual: 160 }
    );
}

#[test]
fn short_profile_is_truncated() {
    let bytes = text_profile_bytes();
    assert_eq!(
        Profile::decode(&bytes[..100]).unwrap_err(),
        DecodeError::TruncatedRecord { type_signature: PROFILE_FILE_SIGNATURE, needed: 136, available: 100 }
    );
    // a table that declares more entries than the bytes hold
    let mut many = text_profile_bytes();
    many[135] = 20;
    assert_eq!(
        Profile::decode(&many).unwrap_err(),
        DecodeError::TruncatedRecord { type_signature: PROFILE_FILE_SIGNATURE, needed: 136 + 240, available: 159 }
    );
}

#[test]
fn offset_into_table_is_invalid() {
    let mut bytes = text_profile_bytes();
    bytes[143] = 100;
    assert_eq!(
        Profile::decode(&bytes).unwrap_err(),
        DecodeError::InvalidOffset { offset: 100, limit: 159 }
    );
    let mut past_end = text_profile_bytes();
    past_end[147] = 12;
    assert_eq!(
        Profile::decode(&past_end).unwrap_err(),
        DecodeError::InvalidOffset { offset: 148, limit: 159 }
    );
}

#[test]
fn unknown_record_type_is_kept_raw() {
    let mut p = Profile::new(header());
    let raw = vec![0x7A, 0x7A, 0x7A, 0x7A, 0, 0, 0, 0, 9, 8, 7];
    assert_eq!(p.set_tag(0x7A7A_7A7A, Record::Unknown(raw.clone())), Ok(()));
    let bytes = p.encode();
    let q = Profile::decode(&bytes).unwrap();
    assert_eq!(q.get_tag(0x7A7A_7A7A), Some(&Record::Unknown(raw)));
    assert_eq!(q.encode(), bytes);
}

#[test]
fn header_round_trips_through_profile() {
    let bytes = text_profile_bytes();
    let p = Profile::decode(&bytes).unwrap();
    let h = p.header();
    assert_eq!(h.profile_size, 159);
    assert_eq!(h.profile_id, 0);
    assert_eq!(h.creation_date_time, DateTimeNum::new([2024, 5, 17, 12, 30, 0, 0, 0]));
    assert_eq!(h.illuminant, header().illuminant);
    assert_eq!(h.device_class, 0x6D6E_7472);
    assert_eq!(Text::decode(&bytes[148..]).unwrap(), abc());
}
