use achroma::arrays::{S15Fixed16Array, U16Array, U16Fixed16Array, U32Array, U64Array, U8Array, XYZType};
use achroma::chromaticity::Chromaticity;
use achroma::counted::{ColorantEntry, ColorantOrder, ColorantTable, ProfileSequenceIdentifier};
use achroma::error::DecodeError;
use achroma::fixed::{BacsElement, Cicp, DataType, EacsElement};
use achroma::lut::{LutAToB, LutBToA};
use achroma::lut16::Lut16;
use achroma::lut8::Lut8;
use achroma::measurement::{Measurement, MeasurementFlare, ViewingConditions};
use achroma::process_elements::MultiProcessElements;
use achroma::curve_set::CurveSetElement;
use achroma::numbers::{Bit7Ascii, PositionNum, S15Fixed16, U16Fixed16, XYZNum};
use achroma::record::TagRecord;
use achroma::signatures::{MeasurementGeometry, PhosphorColorant, StandardIlluminant, StandardObserver};
use achroma::tags::{Signature, Text};

fn xyz(x: i32, y: i32, z: i32) -> XYZNum {
    XYZNum::new([S15Fixed16::new(x), S15Fixed16::new(y), S15Fixed16::new(z)])
}

#[test]
fn text_encodes_type_reserved_and_characters() {
    let t = Text::new(vec![Bit7Ascii::new(b'h'), Bit7Ascii::new(b'i')]);
    let bytes = t.encode();
    assert_eq!(bytes, vec![0x74, 0x65, 0x78, 0x74, 0, 0, 0, 0, b'h', b'i']);
    assert_eq!(Text::decode(&bytes).unwrap(), t);
    assert_eq!(Text::decode(&bytes[..8]).unwrap().text.len(), 0);
    assert_eq!(
        Text::decode(&bytes[..5]).unwrap_err(),
        DecodeError::TruncatedRecord { type_signature: 0x7465_7874, needed: 8, available: 5 }
    );
}

#[test]
fn wrong_type_signature_is_unrecognized() {
    let bytes = Signature::new(0x6463_616D).encode();
    assert_eq!(
        Text::decode(&bytes).unwrap_err(),
        DecodeError::UnrecognizedSignature { signature: 0x7369_6720 }
    );
}

#[test]
fn signature_record_round_trips_and_rejects_extra_bytes() {
    let s = Signature::new(0x6463_616D);
    let mut bytes = s.encode();
    assert_eq!(bytes, vec![0x73, 0x69, 0x67, 0x20, 0, 0, 0, 0, 0x64, 0x63, 0x61, 0x6D]);
    assert_eq!(Signature::decode(&bytes).unwrap(), s);
    bytes.push(0);
    assert_eq!(
        Signature::decode(&bytes).unwrap_err(),
        DecodeError::SizeMismatch { declared: 12, actual: 13 }
    );
    assert_eq!(
        Signature::decode(&bytes[..10]).unwrap_err(),
        DecodeError::TruncatedRecord { type_signature: 0x7369_6720, needed: 12, available: 10 }
    );
}

#[test]
fn reserved_field_is_preserved() {
    let mut bytes = Signature::new(7).encode();
    bytes[7] = 5;
    let s = Signature::decode(&bytes).unwrap();
    assert_eq!(s.reserved_1, 5);
    assert_eq!(s.encode(), bytes);
}

#[test]
fn arrays_round_trip() {
    let a = U16Array::new(vec![1, 0xFFFF, 0x1234]);
    let bytes = a.encode();
    assert_eq!(bytes, vec![0x75, 0x69, 0x31, 0x36, 0, 0, 0, 0, 0, 1, 0xFF, 0xFF, 0x12, 0x34]);
    assert_eq!(a.bytes(), 14);
    assert_eq!(U16Array::decode(&bytes).unwrap(), a);

    let s = S15Fixed16Array::new(vec![S15Fixed16::new(-1), S15Fixed16::new(0x10000)]);
    let sb = s.encode();
    assert_eq!(&sb[8..], &[0xFF, 0xFF, 0xFF, 0xFF, 0, 1, 0, 0]);
    assert_eq!(S15Fixed16Array::decode(&sb).unwrap(), s);

    let u = U16Fixed16Array::new(vec![U16Fixed16::new(0x0001_8000)]);
    assert_eq!(U16Fixed16Array::decode(&u.encode()).unwrap(), u);
    let w = U32Array::new(vec![0xDEAD_BEEF]);
    assert_eq!(U32Array::decode(&w.encode()).unwrap(), w);
    let l = U64Array::new(vec![0x0102_0304_0506_0708, 0]);
    let lb = l.encode();
    assert_eq!(&lb[8..16], &[1, 2, 3, 4, 5, 6, 7, 8]);
    assert_eq!(U64Array::decode(&lb).unwrap(), l);
    let b = U8Array::new(vec![9, 8, 7]);
    assert_eq!(U8Array::decode(&b.encode()).unwrap(), b);
    let x = XYZType::new(vec![xyz(1, 2, 3), xyz(-4, 5, -6)]);
    assert_eq!(x.encode().len(), 8 + 24);
    assert_eq!(XYZType::decode(&x.encode()).unwrap(), x);
    assert_eq!(Vec::<u16>::from(U16Array::from(vec![4u16, 5])), vec![4u16, 5]);
    assert_eq!(U8Array::default().values.len(), 0);
}

#[test]
fn array_with_partial_value_is_a_size_mismatch() {
    let mut bytes = U32Array::new(vec![1, 2]).encode();
    bytes.push(0xAB);
    assert_eq!(
        U32Array::decode(&bytes).unwrap_err(),
        DecodeError::SizeMismatch { declared: 16, actual: 17 }
    );
}

#[test]
fn fixed_records_round_trip() {
    let d = DataType::new(1);
    assert_eq!(d.encode(), vec![0x64, 0x61, 0x74, 0x61, 0, 0, 0, 0, 0, 0, 0, 1]);
    assert_eq!(DataType::decode(&d.encode()).unwrap(), d);
    let c = Cicp::new(1, 13, 0, 1);
    assert_eq!(&c.encode()[8..], &[1, 13, 0, 1]);
    assert_eq!(Cicp::decode(&c.encode()).unwrap(), c);
    let b = BacsElement::new(3, 3, 0x4142_4344);
    assert_eq!(b.encode().len(), 16);
    assert_eq!(BacsElement::decode(&b.encode()).unwrap(), b);
    let e = EacsElement::new(3, 4, 7);
    assert_eq!(EacsElement::decode(&e.encode()).unwrap(), e);
    assert_eq!(
        EacsElement::decode(&b.encode()).unwrap_err(),
        DecodeError::UnrecognizedSignature { signature: 0x6241_4353 }
    );
}

fn measurement() -> Measurement {
    Measurement::new(
        StandardObserver::Cie1931StdColorimetricObserver,
        xyz(0xF6D6, 0x10000, 0xD32D),
        MeasurementGeometry::Deg045,
        MeasurementFlare(U16Fixed16::new(0x0001_0000)),
        StandardIlluminant::OneHundred,
    )
}

#[test]
fn measurement_round_trips() {
    let m = measurement();
    let bytes = m.encode();
    assert_eq!(bytes.len(), 36);
    assert_eq!(&bytes[8..12], &[0, 0, 0, 1]);
    assert_eq!(&bytes[24..28], &[0, 0, 0, 1]);
    assert_eq!(&bytes[32..36], &[0, 1, 0, 0]);
    assert_eq!(Measurement::decode(&bytes).unwrap(), m);
}

#[test]
fn measurement_with_unknown_observer_fails() {
    let mut bytes = measurement().encode();
    bytes[11] = 9;
    assert_eq!(
        Measurement::decode(&bytes).unwrap_err(),
        DecodeError::UnrecognizedSignature { signature: 9 }
    );
}

#[test]
fn viewing_conditions_round_trip() {
    let v = ViewingConditions::new(xyz(1, 2, 3), xyz(4, 5, 6), measurement());
    let bytes = v.encode();
    assert_eq!(bytes.len(), 68);
    assert_eq!(ViewingConditions::decode(&bytes).unwrap(), v);
}

#[test]
fn counted_records_round_trip_and_detect_truncation() {
    let c = ColorantOrder::new(vec![2, 0, 1]);
    let bytes = c.encode();
    assert_eq!(bytes, vec![0x63, 0x6C, 0x72, 0x6F, 0, 0, 0, 0, 0, 0, 0, 3, 2, 0, 1]);
    assert_eq!(c.count(), 3);
    assert_eq!(ColorantOrder::decode(&bytes).unwrap(), c);
    assert_eq!(
        ColorantOrder::decode(&bytes[..14]).unwrap_err(),
        DecodeError::TruncatedRecord { type_signature: 0x636C_726F, needed: 15, available: 14 }
    );
    let mut huge = bytes.clone();
    huge[8] = 0x10;
    assert_eq!(
        ColorantOrder::decode(&huge).unwrap_err(),
        DecodeError::TruncatedRecord { type_signature: 0x636C_726F, needed: 12 + 0x1000_0003, available: 15 }
    );
    let p = ProfileSequenceIdentifier::new(vec![PositionNum::new([20, 4]), PositionNum::new([24, 8])]);
    assert_eq!(p.encode().len(), 12 + 16);
    assert_eq!(ProfileSequenceIdentifier::decode(&p.encode()).unwrap(), p);
}

fn lut_a_to_b() -> LutAToB {
    LutAToB {
        type_signature: 0x6D41_4220,
        reserved_1: 0,
        input_channels: 3,
        output_channels: 3,
        reserved_2: 0,
        offset_first_b_curve: 32,
        offset_matrix: 0,
        offset_first_m_curve: 0,
        offset_clut: 0,
        offset_first_a_curve: 36,
        data: vec![1, 2, 3, 4, 5, 6, 7, 8],
    }
}

#[test]
fn lut_round_trips() {
    let l = lut_a_to_b();
    let bytes = l.encode();
    assert_eq!(bytes.len(), 40);
    assert_eq!(LutAToB::decode(&bytes).unwrap(), l);
    let mut b = bytes.clone();
    b[0..4].copy_from_slice(&[0x6D, 0x42, 0x41, 0x20]);
    let back = LutBToA::decode(&b).unwrap();
    assert_eq!(back.offset_first_a_curve, 36);
    assert_eq!(back.encode(), b);
}

#[test]
fn lut_offset_into_fixed_part_is_invalid() {
    let mut bytes = lut_a_to_b().encode();
    bytes[19] = 16;
    assert_eq!(
        LutAToB::decode(&bytes).unwrap_err(),
        DecodeError::InvalidOffset { offset: 16, limit: 40 }
    );
    let mut past = lut_a_to_b().encode();
    past[31] = 40;
    assert_eq!(
        LutAToB::decode(&past).unwrap_err(),
        DecodeError::InvalidOffset { offset: 40, limit: 40 }
    );
}

#[test]
fn chromaticity_round_trips() {
    let c = Chromaticity::new(
        PhosphorColorant::ItuRBt709,
        vec![
            [U16Fixed16::new(0xA3D7), U16Fixed16::new(0x547B)],
            [U16Fixed16::new(0x4CCD), U16Fixed16::new(0x9999)],
        ],
    );
    let bytes = c.encode();
    assert_eq!(&bytes[8..12], &[0, 2, 0, 1]);
    assert_eq!(bytes.len(), 28);
    assert_eq!(c.device_channels(), 2);
    assert_eq!(Chromaticity::decode(&bytes).unwrap(), c);
    let mut odd = bytes.clone();
    odd[11] = 7;
    assert_eq!(
        Chromaticity::decode(&odd).unwrap_err(),
        DecodeError::UnrecognizedSignature { signature: 7 }
    );
}

#[test]
fn process_elements_round_trip_and_check_positions() {
    let m = MultiProcessElements::new(
        3,
        3,
        vec![PositionNum::new([32, 4]), PositionNum::new([36, 4])],
        vec![1, 2, 3, 4, 5, 6, 7, 8],
    );
    let bytes = m.encode();
    assert_eq!(bytes.len(), 40);
    assert_eq!(&bytes[8..16], &[0, 3, 0, 3, 0, 0, 0, 2]);
    assert_eq!(m.processing_elements(), 2);
    assert_eq!(MultiProcessElements::decode(&bytes).unwrap(), m);
    let mut bad = bytes.clone();
    bad[31] = 8;
    assert_eq!(
        MultiProcessElements::decode(&bad).unwrap_err(),
        DecodeError::InvalidOffset { offset: 36, limit: 40 }
    );
    assert_eq!(
        MultiProcessElements::decode(&bytes[..20]).unwrap_err(),
        DecodeError::TruncatedRecord { type_signature: 0x6D70_6574, needed: 32, available: 20 }
    );
}

#[test]
fn curve_set_round_trips_and_checks_positions() {
    let c = CurveSetElement::new(2, vec![PositionNum::new([28, 2]), PositionNum::new([30, 2])], vec![9, 9, 8, 8]);
    let bytes = c.encode();
    assert_eq!(&bytes[..12], &[0x63, 0x76, 0x73, 0x74, 0, 0, 0, 0, 0, 2, 0, 2]);
    assert_eq!(bytes.len(), 32);
    assert_eq!(c.input_channels(), 2);
    assert_eq!(CurveSetElement::decode(&bytes).unwrap(), c);
    let mut bad = bytes.clone();
    bad[15] = 4;
    assert_eq!(
        CurveSetElement::decode(&bad).unwrap_err(),
        DecodeError::InvalidOffset { offset: 4, limit: 32 }
    );
}

#[test]
fn colorant_table_round_trips() {
    use_colorant_table();
}

fn use_colorant_table() {
    let mut name = [0u8; 32];
    name[..4].copy_from_slice(b"cyan");
    let entry = ColorantEntry { name, pcs: [0x1234, 0x8000, 0xFFFF] };
    let t = ColorantTable::new(vec![entry, ColorantEntry { name: [0; 32], pcs: [1, 2, 3] }]);
    let bytes = t.encode();
    assert_eq!(bytes.len(), 12 + 2 * 38);
    assert_eq!(&bytes[..12], &[0x63, 0x6C, 0x72, 0x74, 0, 0, 0, 0, 0, 0, 0, 2]);
    assert_eq!(&bytes[12..16], b"cyan");
    assert_eq!(&bytes[44..50], &[0x12, 0x34, 0x80, 0x00, 0xFF, 0xFF]);
    assert_eq!(ColorantTable::decode(&bytes).unwrap(), t);
    assert_eq!(
        ColorantTable::decode(&bytes[..60]).unwrap_err(),
        DecodeError::TruncatedRecord { type_signature: 0x636C_7274, needed: 88, available: 60 }
    );
}

fn lut16(grid: u8) -> Lut16 {
    let s = |v: i32| S15Fixed16::new(v);
    let g = grid as usize;
    Lut16 {
        type_signature: 0x6D66_7432,
        reserved_1: 0,
        input_channels: 2,
        output_channels: 1,
        clut_grid_points: grid,
        reserved_2: 0,
        encoded_e1p: s(0x10000),
        encoded_e2p: s(0),
        encoded_e3p: s(0),
        encoded_e4p: s(0),
        encoded_e5p: s(0x10000),
        encoded_e6p: s(0),
        encoded_e7p: s(0),
        encoded_e8p: s(0),
        encoded_e9p: s(0x10000),
        input_table_entries: 2,
        output_table_entries: 3,
        input_values: vec![0, 0xFFFF, 0, 0xFFFF],
        clut_values: (0..(g * g) as u16).collect(),
        output_tables: vec![0, 0x8000, 0xFFFF],
    }
}

#[test]
fn lut16_round_trips_with_grid_sized_table() {
    let l = lut16(3);
    let bytes = l.encode();
    assert_eq!(bytes.len(), 52 + 2 * (4 + 9 + 3));
    assert_eq!(&bytes[8..12], &[2, 1, 3, 0]);
    assert_eq!(&bytes[48..52], &[0, 2, 0, 3]);
    assert_eq!(Lut16::decode(&bytes).unwrap(), l);
}

#[test]
fn lut16_with_huge_grid_is_truncated() {
    let mut bytes = lut16(3).encode();
    bytes[8] = 15;
    bytes[10] = 255;
    assert_eq!(
        Lut16::decode(&bytes).unwrap_err(),
        DecodeError::TruncatedRecord { type_signature: 0x6D66_7432, needed: 85, available: 84 }
    );
}

#[test]
fn lut8_round_trips() {
    let s = |v: i32| S15Fixed16::new(v);
    let l = Lut8 {
        type_signature: 0x6D66_7431,
        reserved_1: 0,
        input_channels: 1,
        output_channels: 2,
        clut_grid_points: 4,
        reserved_2: 0,
        encoded_e1p: s(0x10000),
        encoded_e2p: s(0),
        encoded_e3p: s(0),
        encoded_e4p: s(0),
        encoded_e5p: s(0x10000),
        encoded_e6p: s(0),
        encoded_e7p: s(0),
        encoded_e8p: s(0),
        encoded_e9p: s(0x10000),
        input_tables: (0..=255).collect(),
        clut_values: vec![1, 2, 3, 4, 5, 6, 7, 8],
        output_tables: (0..512).map(|i| (i % 256) as u8).collect(),
    };
    let bytes = l.encode();
    assert_eq!(bytes.len(), 48 + 256 + 8 + 512);
    assert_eq!(Lut8::decode(&bytes).unwrap(), l);
    assert_eq!(
        Lut8::decode(&bytes[..300]).unwrap_err(),
        DecodeError::TruncatedRecord { type_signature: 0x6D66_7431, needed: 301, available: 300 }
    );
}
