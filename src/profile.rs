//! The profile container: header, tag table and tagged records, with its
//! codec and the operations that look up and add tags.
use vstd::prelude::*;
use crate::bytes::{Packed, field};
use crate::error::{DecodeError, TagError};
use crate::header::{IccProfileHeaderU128, HEADER_SIZE, PROFILE_FILE_SIGNATURE};
use crate::record::{TagRecord, ArrayModel, CountedModel};
use crate::numbers::{Bit7Ascii, S15Fixed16, U16Fixed16, XYZNum, PositionNum};
use crate::lut::LutModel;
use crate::chromaticity::ChromaticityModel;
use crate::mluc::MlucModel;
use crate::curve::CurveModel;
use crate::process_elements::ElementsModel;
use crate::curve_set::CurveSetModel;
use crate::counted::ColorantEntry;
use crate::lut16::Lut16Model;
use crate::lut8::Lut8Model;
use crate::tags::{Text, TEXT_TYPE, Signature, SIGNATURE_TYPE};
use crate::arrays::{S15Fixed16Array, S15_FIXED16_ARRAY_TYPE, U16Fixed16Array, U16_FIXED16_ARRAY_TYPE, U16Array, U16_ARRAY_TYPE, U32Array, U32_ARRAY_TYPE, U64Array, U64_ARRAY_TYPE, U8Array, U8_ARRAY_TYPE, XYZType, XYZ_TYPE};
use crate::fixed::{DataType, DATA_TYPE, Cicp, CICP_TYPE, BacsElement, BACS_TYPE, EacsElement, EACS_TYPE};
use crate::measurement::{Measurement, MEASUREMENT_TYPE, ViewingConditions, VIEWING_CONDITIONS_TYPE};
use crate::counted::{ColorantOrder, COLORANT_ORDER_TYPE, ProfileSequenceIdentifier, PROFILE_SEQUENCE_IDENTIFIER_TYPE, ColorantTable, COLORANT_TABLE_TYPE};
use crate::lut::{LutAToB, LUT_A_TO_B_TYPE, LutBToA, LUT_B_TO_A_TYPE};
use crate::chromaticity::{Chromaticity, CHROMATICITY_TYPE};
use crate::mluc::{MultiLocalizedUnicode, MULTI_LOCALIZED_UNICODE_TYPE};
use crate::curve::{ParametricCurve, PARAMETRIC_CURVE_TYPE};
use crate::process_elements::{MultiProcessElements, MULTI_PROCESS_ELEMENTS_TYPE};
use crate::curve_set::{CurveSetElement, CURVE_SET_TYPE};
use crate::lut16::{Lut16, LUT16_TYPE};
use crate::lut8::{Lut8, LUT8_TYPE};

verus! {

/// The decoded payload of one tag.
#[derive(Debug, Clone, PartialEq, Eq)]
pub enum Record {
    Text(Text),
    Signature(Signature),
    S15Fixed16Array(S15Fixed16Array),
    U16Fixed16Array(U16Fixed16Array),
    U16Array(U16Array),
    U32Array(U32Array),
    U64Array(U64Array),
    U8Array(U8Array),
    XYZ(XYZType),
    Data(DataType),
    Cicp(Cicp),
    Bacs(BacsElement),
    Eacs(EacsElement),
    Measurement(Measurement),
    ViewingConditions(ViewingConditions),
    ColorantOrder(ColorantOrder),
    ProfileSequenceIdentifier(ProfileSequenceIdentifier),
    LutAToB(LutAToB),
    LutBToA(LutBToA),
    Chromaticity(Chromaticity),
    MultiLocalizedUnicode(MultiLocalizedUnicode),
    ParametricCurve(ParametricCurve),
    MultiProcessElements(MultiProcessElements),
    CurveSet(CurveSetElement),
    ColorantTable(ColorantTable),
    Lut16(Lut16),
    Lut8(Lut8),
    /// A record of a type that this library does not decode: its whole
    /// encoding, type signature first.
    Unknown(Vec<u8>),
}

/// The model of a `Record`.
pub enum RecordModel {
    Text(ArrayModel<Bit7Ascii>),
    Signature(Signature),
    S15Fixed16Array(ArrayModel<S15Fixed16>),
    U16Fixed16Array(ArrayModel<U16Fixed16>),
    U16Array(ArrayModel<u16>),
    U32Array(ArrayModel<u32>),
    U64Array(ArrayModel<u64>),
    U8Array(ArrayModel<u8>),
    XYZ(ArrayModel<XYZNum>),
    Data(DataType),
    Cicp(Cicp),
    Bacs(BacsElement),
    Eacs(EacsElement),
    Measurement(Measurement),
    ViewingConditions(ViewingConditions),
    ColorantOrder(CountedModel<u8>),
    ProfileSequenceIdentifier(CountedModel<PositionNum>),
    LutAToB(LutModel),
    LutBToA(LutModel),
    Chromaticity(ChromaticityModel),
    MultiLocalizedUnicode(MlucModel),
    ParametricCurve(CurveModel),
    MultiProcessElements(ElementsModel),
    CurveSet(CurveSetModel),
    ColorantTable(CountedModel<ColorantEntry>),
    Lut16(Lut16Model),
    Lut8(Lut8Model),
    Unknown(Seq<u8>),
}

impl View for Record {
    type V = RecordModel;

    open spec fn view(&self) -> RecordModel {
        match self {
            Record::Text(x) => RecordModel::Text(x@),
            Record::Signature(x) => RecordModel::Signature(x@),
            Record::S15Fixed16Array(x) => RecordModel::S15Fixed16Array(x@),
            Record::U16Fixed16Array(x) => RecordModel::U16Fixed16Array(x@),
            Record::U16Array(x) => RecordModel::U16Array(x@),
            Record::U32Array(x) => RecordModel::U32Array(x@),
            Record::U64Array(x) => RecordModel::U64Array(x@),
            Record::U8Array(x) => RecordModel::U8Array(x@),
            Record::XYZ(x) => RecordModel::XYZ(x@),
            Record::Data(x) => RecordModel::Data(x@),
            Record::Cicp(x) => RecordModel::Cicp(x@),
            Record::Bacs(x) => RecordModel::Bacs(x@),
            Record::Eacs(x) => RecordModel::Eacs(x@),
            Record::Measurement(x) => RecordModel::Measurement(x@),
            Record::ViewingConditions(x) => RecordModel::ViewingConditions(x@),
            Record::ColorantOrder(x) => RecordModel::ColorantOrder(x@),
            Record::ProfileSequenceIdentifier(x) => RecordModel::ProfileSequenceIdentifier(x@),
            Record::LutAToB(x) => RecordModel::LutAToB(x@),
            Record::LutBToA(x) => RecordModel::LutBToA(x@),
            Record::Chromaticity(x) => RecordModel::Chromaticity(x@),
            Record::MultiLocalizedUnicode(x) => RecordModel::MultiLocalizedUnicode(x@),
            Record::ParametricCurve(x) => RecordModel::ParametricCurve(x@),
            Record::MultiProcessElements(x) => RecordModel::MultiProcessElements(x@),
            Record::CurveSet(x) => RecordModel::CurveSet(x@),
            Record::ColorantTable(x) => RecordModel::ColorantTable(x@),
            Record::Lut16(x) => RecordModel::Lut16(x@),
            Record::Lut8(x) => RecordModel::Lut8(x@),
            Record::Unknown(b) => RecordModel::Unknown(b@),
        }
    }
}

/// The record types that this library decodes.
pub open spec fn known_type(t: u32) -> bool {
    t == TEXT_TYPE
        || t == SIGNATURE_TYPE
        || t == S15_FIXED16_ARRAY_TYPE
        || t == U16_FIXED16_ARRAY_TYPE
        || t == U16_ARRAY_TYPE
        || t == U32_ARRAY_TYPE
        || t == U64_ARRAY_TYPE
        || t == U8_ARRAY_TYPE
        || t == XYZ_TYPE
        || t == DATA_TYPE
        || t == CICP_TYPE
        || t == BACS_TYPE
        || t == EACS_TYPE
        || t == MEASUREMENT_TYPE
        || t == VIEWING_CONDITIONS_TYPE
        || t == COLORANT_ORDER_TYPE
        || t == PROFILE_SEQUENCE_IDENTIFIER_TYPE
        || t == LUT_A_TO_B_TYPE
        || t == LUT_B_TO_A_TYPE
        || t == CHROMATICITY_TYPE
        || t == MULTI_LOCALIZED_UNICODE_TYPE
        || t == PARAMETRIC_CURVE_TYPE
        || t == MULTI_PROCESS_ELEMENTS_TYPE
        || t == CURVE_SET_TYPE
        || t == COLORANT_TABLE_TYPE
        || t == LUT16_TYPE
        || t == LUT8_TYPE
}

/// Whether this library decodes records of type `t`.
pub fn is_known_type(t: u32) -> (r: bool)
    ensures
        r == known_type(t),
{
    t == TEXT_TYPE
        || t == SIGNATURE_TYPE
        || t == S15_FIXED16_ARRAY_TYPE
        || t == U16_FIXED16_ARRAY_TYPE
        || t == U16_ARRAY_TYPE
        || t == U32_ARRAY_TYPE
        || t == U64_ARRAY_TYPE
        || t == U8_ARRAY_TYPE
        || t == XYZ_TYPE
        || t == DATA_TYPE
        || t == CICP_TYPE
        || t == BACS_TYPE
        || t == EACS_TYPE
        || t == MEASUREMENT_TYPE
        || t == VIEWING_CONDITIONS_TYPE
        || t == COLORANT_ORDER_TYPE
        || t == PROFILE_SEQUENCE_IDENTIFIER_TYPE
        || t == LUT_A_TO_B_TYPE
        || t == LUT_B_TO_A_TYPE
        || t == CHROMATICITY_TYPE
        || t == MULTI_LOCALIZED_UNICODE_TYPE
        || t == PARAMETRIC_CURVE_TYPE
        || t == MULTI_PROCESS_ELEMENTS_TYPE
        || t == CURVE_SET_TYPE
        || t == COLORANT_TABLE_TYPE
        || t == LUT16_TYPE
        || t == LUT8_TYPE
}

/// The type signature of a record.
pub open spec fn record_type(m: RecordModel) -> u32 {
    match m {
        RecordModel::Text(x) => x.type_signature,
        RecordModel::Signature(x) => x.type_signature,
        RecordModel::S15Fixed16Array(x) => x.type_signature,
        RecordModel::U16Fixed16Array(x) => x.type_signature,
        RecordModel::U16Array(x) => x.type_signature,
        RecordModel::U32Array(x) => x.type_signature,
        RecordModel::U64Array(x) => x.type_signature,
        RecordModel::U8Array(x) => x.type_signature,
        RecordModel::XYZ(x) => x.type_signature,
        RecordModel::Data(x) => x.type_signature,
        RecordModel::Cicp(x) => x.type_signature,
        RecordModel::Bacs(x) => x.type_signature,
        RecordModel::Eacs(x) => x.type_signature,
        RecordModel::Measurement(x) => x.type_signature,
        RecordModel::ViewingConditions(x) => x.type_signature,
        RecordModel::ColorantOrder(x) => x.type_signature,
        RecordModel::ProfileSequenceIdentifier(x) => x.type_signature,
        RecordModel::LutAToB(x) => x.type_signature,
        RecordModel::LutBToA(x) => x.type_signature,
        RecordModel::Chromaticity(x) => x.type_signature,
        RecordModel::MultiLocalizedUnicode(x) => x.type_signature,
        RecordModel::ParametricCurve(x) => x.para_signature,
        RecordModel::MultiProcessElements(x) => x.type_signature,
        RecordModel::CurveSet(x) => x.type_signature,
        RecordModel::ColorantTable(x) => x.type_signature,
        RecordModel::Lut16(x) => x.head.type_signature,
        RecordModel::Lut8(x) => x.head.type_signature,
        RecordModel::Unknown(b) => if b.len() >= 4 {
            field::<u32>(b, 0)
        } else {
            0
        },
    }
}

/// A record that encodes and decodes back to itself.
pub open spec fn record_wf(m: RecordModel) -> bool {
    match m {
        RecordModel::Text(x) => Text::wf(x),
        RecordModel::Signature(x) => Signature::wf(x),
        RecordModel::S15Fixed16Array(x) => S15Fixed16Array::wf(x),
        RecordModel::U16Fixed16Array(x) => U16Fixed16Array::wf(x),
        RecordModel::U16Array(x) => U16Array::wf(x),
        RecordModel::U32Array(x) => U32Array::wf(x),
        RecordModel::U64Array(x) => U64Array::wf(x),
        RecordModel::U8Array(x) => U8Array::wf(x),
        RecordModel::XYZ(x) => XYZType::wf(x),
        RecordModel::Data(x) => DataType::wf(x),
        RecordModel::Cicp(x) => Cicp::wf(x),
        RecordModel::Bacs(x) => BacsElement::wf(x),
        RecordModel::Eacs(x) => EacsElement::wf(x),
        RecordModel::Measurement(x) => Measurement::wf(x),
        RecordModel::ViewingConditions(x) => ViewingConditions::wf(x),
        RecordModel::ColorantOrder(x) => ColorantOrder::wf(x),
        RecordModel::ProfileSequenceIdentifier(x) => ProfileSequenceIdentifier::wf(x),
        RecordModel::LutAToB(x) => LutAToB::wf(x),
        RecordModel::LutBToA(x) => LutBToA::wf(x),
        RecordModel::Chromaticity(x) => Chromaticity::wf(x),
        RecordModel::MultiLocalizedUnicode(x) => MultiLocalizedUnicode::wf(x),
        RecordModel::ParametricCurve(x) => ParametricCurve::wf(x),
        RecordModel::MultiProcessElements(x) => MultiProcessElements::wf(x),
        RecordModel::CurveSet(x) => CurveSetElement::wf(x),
        RecordModel::ColorantTable(x) => ColorantTable::wf(x),
        RecordModel::Lut16(x) => Lut16::wf(x),
        RecordModel::Lut8(x) => Lut8::wf(x),
        RecordModel::Unknown(b) => b.len() >= 8 && !known_type(field::<u32>(b, 0)),
    }
}

pub open spec fn encode_record(m: RecordModel) -> Seq<u8> {
    match m {
        RecordModel::Text(x) => Text::spec_encode(x),
        RecordModel::Signature(x) => Signature::spec_encode(x),
        RecordModel::S15Fixed16Array(x) => S15Fixed16Array::spec_encode(x),
        RecordModel::U16Fixed16Array(x) => U16Fixed16Array::spec_encode(x),
        RecordModel::U16Array(x) => U16Array::spec_encode(x),
        RecordModel::U32Array(x) => U32Array::spec_encode(x),
        RecordModel::U64Array(x) => U64Array::spec_encode(x),
        RecordModel::U8Array(x) => U8Array::spec_encode(x),
        RecordModel::XYZ(x) => XYZType::spec_encode(x),
        RecordModel::Data(x) => DataType::spec_encode(x),
        RecordModel::Cicp(x) => Cicp::spec_encode(x),
        RecordModel::Bacs(x) => BacsElement::spec_encode(x),
        RecordModel::Eacs(x) => EacsElement::spec_encode(x),
        RecordModel::Measurement(x) => Measurement::spec_encode(x),
        RecordModel::ViewingConditions(x) => ViewingConditions::spec_encode(x),
        RecordModel::ColorantOrder(x) => ColorantOrder::spec_encode(x),
        RecordModel::ProfileSequenceIdentifier(x) => ProfileSequenceIdentifier::spec_encode(x),
        RecordModel::LutAToB(x) => LutAToB::spec_encode(x),
        RecordModel::LutBToA(x) => LutBToA::spec_encode(x),
        RecordModel::Chromaticity(x) => Chromaticity::spec_encode(x),
        RecordModel::MultiLocalizedUnicode(x) => MultiLocalizedUnicode::spec_encode(x),
        RecordModel::ParametricCurve(x) => ParametricCurve::spec_encode(x),
        RecordModel::MultiProcessElements(x) => MultiProcessElements::spec_encode(x),
        RecordModel::CurveSet(x) => CurveSetElement::spec_encode(x),
        RecordModel::ColorantTable(x) => ColorantTable::spec_encode(x),
        RecordModel::Lut16(x) => Lut16::spec_encode(x),
        RecordModel::Lut8(x) => Lut8::spec_encode(x),
        RecordModel::Unknown(b) => b,
    }
}

/// A record's bytes, decoded by the type their first four bytes name; bytes of
/// another type are kept as they are.
pub open spec fn decode_record(b: Seq<u8>) -> Result<RecordModel, DecodeError> {
    if b.len() < 8 {
        Err(DecodeError::TruncatedRecord { type_signature: 0, needed: 8, available: b.len() as u64 })
    } else {
        let t = field::<u32>(b, 0);
        if t == TEXT_TYPE {
            match Text::spec_decode(b) {
                Ok(x) => Ok(RecordModel::Text(x)),
                Err(e) => Err(e),
            }
        } else if t == SIGNATURE_TYPE {
            match Signature::spec_decode(b) {
                Ok(x) => Ok(RecordModel::Signature(x)),
                Err(e) => Err(e),
            }
        } else if t == S15_FIXED16_ARRAY_TYPE {
            match S15Fixed16Array::spec_decode(b) {
                Ok(x) => Ok(RecordModel::S15Fixed16Array(x)),
                Err(e) => Err(e),
            }
        } else if t == U16_FIXED16_ARRAY_TYPE {
            match U16Fixed16Array::spec_decode(b) {
                Ok(x) => Ok(RecordModel::U16Fixed16Array(x)),
                Err(e) => Err(e),
            }
        } else if t == U16_ARRAY_TYPE {
            match U16Array::spec_decode(b) {
                Ok(x) => Ok(RecordModel::U16Array(x)),
                Err(e) => Err(e),
            }
        } else if t == U32_ARRAY_TYPE {
            match U32Array::spec_decode(b) {
                Ok(x) => Ok(RecordModel::U32Array(x)),
                Err(e) => Err(e),
            }
        } else if t == U64_ARRAY_TYPE {
            match U64Array::spec_decode(b) {
                Ok(x) => Ok(RecordModel::U64Array(x)),
                Err(e) => Err(e),
            }
        } else if t == U8_ARRAY_TYPE {
            match U8Array::spec_decode(b) {
                Ok(x) => Ok(RecordModel::U8Array(x)),
                Err(e) => Err(e),
            }
        } else if t == XYZ_TYPE {
            match XYZType::spec_decode(b) {
                Ok(x) => Ok(RecordModel::XYZ(x)),
                Err(e) => Err(e),
            }
        } else if t == DATA_TYPE {
            match DataType::spec_decode(b) {
                Ok(x) => Ok(RecordModel::Data(x)),
                Err(e) => Err(e),
            }
        } else if t == CICP_TYPE {
            match Cicp::spec_decode(b) {
                Ok(x) => Ok(RecordModel::Cicp(x)),
                Err(e) => Err(e),
            }
        } else if t == BACS_TYPE {
            match BacsElement::spec_decode(b) {
                Ok(x) => Ok(RecordModel::Bacs(x)),
                Err(e) => Err(e),
            }
        } else if t == EACS_TYPE {
            match EacsElement::spec_decode(b) {
                Ok(x) => Ok(RecordModel::Eacs(x)),
                Err(e) => Err(e),
            }
        } else if t == MEASUREMENT_TYPE {
            match Measurement::spec_decode(b) {
                Ok(x) => Ok(RecordModel::Measurement(x)),
                Err(e) => Err(e),
            }
        } else if t == VIEWING_CONDITIONS_TYPE {
            match ViewingConditions::spec_decode(b) {
                Ok(x) => Ok(RecordModel::ViewingConditions(x)),
                Err(e) => Err(e),
            }
        } else if t == COLORANT_ORDER_TYPE {
            match ColorantOrder::spec_decode(b) {
                Ok(x) => Ok(RecordModel::ColorantOrder(x)),
                Err(e) => Err(e),
            }
        } else if t == PROFILE_SEQUENCE_IDENTIFIER_TYPE {
            match ProfileSequenceIdentifier::spec_decode(b) {
                Ok(x) => Ok(RecordModel::ProfileSequenceIdentifier(x)),
                Err(e) => Err(e),
            }
        } else if t == LUT_A_TO_B_TYPE {
            match LutAToB::spec_decode(b) {
                Ok(x) => Ok(RecordModel::LutAToB(x)),
                Err(e) => Err(e),
            }
        } else if t == LUT_B_TO_A_TYPE {
            match LutBToA::spec_decode(b) {
                Ok(x) => Ok(RecordModel::LutBToA(x)),
                Err(e) => Err(e),
            }
        } else if t == CHROMATICITY_TYPE {
            match Chromaticity::spec_decode(b) {
                Ok(x) => Ok(RecordModel::Chromaticity(x)),
                Err(e) => Err(e),
            }
        } else if t == MULTI_LOCALIZED_UNICODE_TYPE {
            match MultiLocalizedUnicode::spec_decode(b) {
                Ok(x) => Ok(RecordModel::MultiLocalizedUnicode(x)),
                Err(e) => Err(e),
            }
        } else if t == PARAMETRIC_CURVE_TYPE {
            match ParametricCurve::spec_decode(b) {
                Ok(x) => Ok(RecordModel::ParametricCurve(x)),
                Err(e) => Err(e),
            }
        } else if t == MULTI_PROCESS_ELEMENTS_TYPE {
            match MultiProcessElements::spec_decode(b) {
                Ok(x) => Ok(RecordModel::MultiProcessElements(x)),
                Err(e) => Err(e),
            }
        } else if t == CURVE_SET_TYPE {
            match CurveSetElement::spec_decode(b) {
                Ok(x) => Ok(RecordModel::CurveSet(x)),
                Err(e) => Err(e),
            }
        } else if t == COLORANT_TABLE_TYPE {
            match ColorantTable::spec_decode(b) {
                Ok(x) => Ok(RecordModel::ColorantTable(x)),
                Err(e) => Err(e),
            }
        } else if t == LUT16_TYPE {
            match Lut16::spec_decode(b) {
                Ok(x) => Ok(RecordModel::Lut16(x)),
                Err(e) => Err(e),
            }
        } else if t == LUT8_TYPE {
            match Lut8::spec_decode(b) {
                Ok(x) => Ok(RecordModel::Lut8(x)),
                Err(e) => Err(e),
            }
        } else {
            Ok(RecordModel::Unknown(b))
        }
    }
}

proof fn lemma_round_trip_text(x: ArrayModel<Bit7Ascii>)
    requires
        Text::wf(x),
    ensures
        decode_record(Text::spec_encode(x)) == Ok::<RecordModel, DecodeError>(RecordModel::Text(x)),
{
    Text::lemma_round_trip(x);
}

proof fn lemma_round_trip_signature(x: Signature)
    requires
        Signature::wf(x),
    ensures
        decode_record(Signature::spec_encode(x)) == Ok::<RecordModel, DecodeError>(RecordModel::Signature(x)),
{
    Signature::lemma_round_trip(x);
}

proof fn lemma_round_trip_s15_fixed16_array(x: ArrayModel<S15Fixed16>)
    requires
        S15Fixed16Array::wf(x),
    ensures
        decode_record(S15Fixed16Array::spec_encode(x)) == Ok::<RecordModel, DecodeError>(RecordModel::S15Fixed16Array(x)),
{
    S15Fixed16Array::lemma_round_trip(x);
}

proof fn lemma_round_trip_u16_fixed16_array(x: ArrayModel<U16Fixed16>)
    requires
        U16Fixed16Array::wf(x),
    ensures
        decode_record(U16Fixed16Array::spec_encode(x)) == Ok::<RecordModel, DecodeError>(RecordModel::U16Fixed16Array(x)),
{
    U16Fixed16Array::lemma_round_trip(x);
}

proof fn lemma_round_trip_u16_array(x: ArrayModel<u16>)
    requires
        U16Array::wf(x),
    ensures
        decode_record(U16Array::spec_encode(x)) == Ok::<RecordModel, DecodeError>(RecordModel::U16Array(x)),
{
    U16Array::lemma_round_trip(x);
}

proof fn lemma_round_trip_u32_array(x: ArrayModel<u32>)
    requires
        U32Array::wf(x),
    ensures
        decode_record(U32Array::spec_encode(x)) == Ok::<RecordModel, DecodeError>(RecordModel::U32Array(x)),
{
    U32Array::lemma_round_trip(x);
}

proof fn lemma_round_trip_u64_array(x: ArrayModel<u64>)
    requires
        U64Array::wf(x),
    ensures
        decode_record(U64Array::spec_encode(x)) == Ok::<RecordModel, DecodeError>(RecordModel::U64Array(x)),
{
    U64Array::lemma_round_trip(x);
}

proof fn lemma_round_trip_u8_array(x: ArrayModel<u8>)
    requires
        U8Array::wf(x),
    ensures
        decode_record(U8Array::spec_encode(x)) == Ok::<RecordModel, DecodeError>(RecordModel::U8Array(x)),
{
    U8Array::lemma_round_trip(x);
}

proof fn lemma_round_trip_x_y_z(x: ArrayModel<XYZNum>)
    requires
        XYZType::wf(x),
    ensures
        decode_record(XYZType::spec_encode(x)) == Ok::<RecordModel, DecodeError>(RecordModel::XYZ(x)),
{
    XYZType::lemma_round_trip(x);
}

proof fn lemma_round_trip_data(x: DataType)
    requires
        DataType::wf(x),
    ensures
        decode_record(DataType::spec_encode(x)) == Ok::<RecordModel, DecodeError>(RecordModel::Data(x)),
{
    DataType::lemma_round_trip(x);
}

proof fn lemma_round_trip_cicp(x: Cicp)
    requires
        Cicp::wf(x),
    ensures
        decode_record(Cicp::spec_encode(x)) == Ok::<RecordModel, DecodeError>(RecordModel::Cicp(x)),
{
    Cicp::lemma_round_trip(x);
}

proof fn lemma_round_trip_bacs(x: BacsElement)
    requires
        BacsElement::wf(x),
    ensures
        decode_record(BacsElement::spec_encode(x)) == Ok::<RecordModel, DecodeError>(RecordModel::Bacs(x)),
{
    BacsElement::lemma_round_trip(x);
}

proof fn lemma_round_trip_eacs(x: EacsElement)
    requires
        EacsElement::wf(x),
    ensures
        decode_record(EacsElement::spec_encode(x)) == Ok::<RecordModel, DecodeError>(RecordModel::Eacs(x)),
{
    EacsElement::lemma_round_trip(x);
}

proof fn lemma_round_trip_measurement(x: Measurement)
    requires
        Measurement::wf(x),
    ensures
        decode_record(Measurement::spec_encode(x)) == Ok::<RecordModel, DecodeError>(RecordModel::Measurement(x)),
{
    Measurement::lemma_round_trip(x);
}

proof fn lemma_round_trip_viewing_conditions(x: ViewingConditions)
    requires
        ViewingConditions::wf(x),
    ensures
        decode_record(ViewingConditions::spec_encode(x)) == Ok::<RecordModel, DecodeError>(RecordModel::ViewingConditions(x)),
{
    ViewingConditions::lemma_round_trip(x);
}

proof fn lemma_round_trip_colorant_order(x: CountedModel<u8>)
    requires
        ColorantOrder::wf(x),
    ensures
        decode_record(ColorantOrder::spec_encode(x)) == Ok::<RecordModel, DecodeError>(RecordModel::ColorantOrder(x)),
{
    ColorantOrder::lemma_round_trip(x);
}

proof fn lemma_round_trip_profile_sequence_identifier(x: CountedModel<PositionNum>)
    requires
        ProfileSequenceIdentifier::wf(x),
    ensures
        decode_record(ProfileSequenceIdentifier::spec_encode(x)) == Ok::<RecordModel, DecodeError>(RecordModel::ProfileSequenceIdentifier(x)),
{
    ProfileSequenceIdentifier::lemma_round_trip(x);
}

proof fn lemma_round_trip_lut_a_to_b(x: LutModel)
    requires
        LutAToB::wf(x),
    ensures
        decode_record(LutAToB::spec_encode(x)) == Ok::<RecordModel, DecodeError>(RecordModel::LutAToB(x)),
{
    LutAToB::lemma_round_trip(x);
}

proof fn lemma_round_trip_lut_b_to_a(x: LutModel)
    requires
        LutBToA::wf(x),
    ensures
        decode_record(LutBToA::spec_encode(x)) == Ok::<RecordModel, DecodeError>(RecordModel::LutBToA(x)),
{
    LutBToA::lemma_round_trip(x);
}

proof fn lemma_round_trip_chromaticity(x: ChromaticityModel)
    requires
        Chromaticity::wf(x),
    ensures
        decode_record(Chromaticity::spec_encode(x)) == Ok::<RecordModel, DecodeError>(RecordModel::Chromaticity(x)),
{
    Chromaticity::lemma_round_trip(x);
}

proof fn lemma_round_trip_multi_localized_unicode(x: MlucModel)
    requires
        MultiLocalizedUnicode::wf(x),
    ensures
        decode_record(MultiLocalizedUnicode::spec_encode(x)) == Ok::<RecordModel, DecodeError>(RecordModel::MultiLocalizedUnicode(x)),
{
    MultiLocalizedUnicode::lemma_round_trip(x);
}

proof fn lemma_round_trip_parametric_curve(x: CurveModel)
    requires
        ParametricCurve::wf(x),
    ensures
        decode_record(ParametricCurve::spec_encode(x)) == Ok::<RecordModel, DecodeError>(RecordModel::ParametricCurve(x)),
{
    ParametricCurve::lemma_round_trip(x);
}

proof fn lemma_round_trip_multi_process_elements(x: ElementsModel)
    requires
        MultiProcessElements::wf(x),
    ensures
        decode_record(MultiProcessElements::spec_encode(x)) == Ok::<RecordModel, DecodeError>(RecordModel::MultiProcessElements(x)),
{
    MultiProcessElements::lemma_round_trip(x);
}

proof fn lemma_round_trip_curve_set(x: CurveSetModel)
    requires
        CurveSetElement::wf(x),
    ensures
        decode_record(CurveSetElement::spec_encode(x)) == Ok::<RecordModel, DecodeError>(RecordModel::CurveSet(x)),
{
    CurveSetElement::lemma_round_trip(x);
}

proof fn lemma_round_trip_colorant_table(x: CountedModel<ColorantEntry>)
    requires
        ColorantTable::wf(x),
    ensures
        decode_record(ColorantTable::spec_encode(x)) == Ok::<RecordModel, DecodeError>(RecordModel::ColorantTable(x)),
{
    ColorantTable::lemma_round_trip(x);
}

proof fn lemma_round_trip_lut16(x: Lut16Model)
    requires
        Lut16::wf(x),
    ensures
        decode_record(Lut16::spec_encode(x)) == Ok::<RecordModel, DecodeError>(RecordModel::Lut16(x)),
{
    Lut16::lemma_round_trip(x);
}

proof fn lemma_round_trip_lut8(x: Lut8Model)
    requires
        Lut8::wf(x),
    ensures
        decode_record(Lut8::spec_encode(x)) == Ok::<RecordModel, DecodeError>(RecordModel::Lut8(x)),
{
    Lut8::lemma_round_trip(x);
}

/// Decoding a valid record's encoding gives the record back.
pub proof fn lemma_record_round_trip(m: RecordModel)
    requires
        record_wf(m),
    ensures
        decode_record(encode_record(m)) == Ok::<RecordModel, DecodeError>(m),
{
    match m {
        RecordModel::Text(x) => lemma_round_trip_text(x),
        RecordModel::Signature(x) => lemma_round_trip_signature(x),
        RecordModel::S15Fixed16Array(x) => lemma_round_trip_s15_fixed16_array(x),
        RecordModel::U16Fixed16Array(x) => lemma_round_trip_u16_fixed16_array(x),
        RecordModel::U16Array(x) => lemma_round_trip_u16_array(x),
        RecordModel::U32Array(x) => lemma_round_trip_u32_array(x),
        RecordModel::U64Array(x) => lemma_round_trip_u64_array(x),
        RecordModel::U8Array(x) => lemma_round_trip_u8_array(x),
        RecordModel::XYZ(x) => lemma_round_trip_x_y_z(x),
        RecordModel::Data(x) => lemma_round_trip_data(x),
        RecordModel::Cicp(x) => lemma_round_trip_cicp(x),
        RecordModel::Bacs(x) => lemma_round_trip_bacs(x),
        RecordModel::Eacs(x) => lemma_round_trip_eacs(x),
        RecordModel::Measurement(x) => lemma_round_trip_measurement(x),
        RecordModel::ViewingConditions(x) => lemma_round_trip_viewing_conditions(x),
        RecordModel::ColorantOrder(x) => lemma_round_trip_colorant_order(x),
        RecordModel::ProfileSequenceIdentifier(x) => lemma_round_trip_profile_sequence_identifier(x),
        RecordModel::LutAToB(x) => lemma_round_trip_lut_a_to_b(x),
        RecordModel::LutBToA(x) => lemma_round_trip_lut_b_to_a(x),
        RecordModel::Chromaticity(x) => lemma_round_trip_chromaticity(x),
        RecordModel::MultiLocalizedUnicode(x) => lemma_round_trip_multi_localized_unicode(x),
        RecordModel::ParametricCurve(x) => lemma_round_trip_parametric_curve(x),
        RecordModel::MultiProcessElements(x) => lemma_round_trip_multi_process_elements(x),
        RecordModel::CurveSet(x) => lemma_round_trip_curve_set(x),
        RecordModel::ColorantTable(x) => lemma_round_trip_colorant_table(x),
        RecordModel::Lut16(x) => lemma_round_trip_lut16(x),
        RecordModel::Lut8(x) => lemma_round_trip_lut8(x),
        RecordModel::Unknown(b) => {},
    }
}

proof fn lemma_decoded_text(b: Seq<u8>)
    requires
        b.len() >= 8,
        field::<u32>(b, 0) == TEXT_TYPE,
    ensures
        decode_record(b) matches Ok(m) ==> record_wf(m) && encode_record(m).len() == b.len(),
{
    Text::lemma_decoded(b);
}

proof fn lemma_decoded_signature(b: Seq<u8>)
    requires
        b.len() >= 8,
        field::<u32>(b, 0) == SIGNATURE_TYPE,
    ensures
        decode_record(b) matches Ok(m) ==> record_wf(m) && encode_record(m).len() == b.len(),
{
    Signature::lemma_decoded(b);
}

proof fn lemma_decoded_s15_fixed16_array(b: Seq<u8>)
    requires
        b.len() >= 8,
        field::<u32>(b, 0) == S15_FIXED16_ARRAY_TYPE,
    ensures
        decode_record(b) matches Ok(m) ==> record_wf(m) && encode_record(m).len() == b.len(),
{
    S15Fixed16Array::lemma_decoded(b);
}

proof fn lemma_decoded_u16_fixed16_array(b: Seq<u8>)
    requires
        b.len() >= 8,
        field::<u32>(b, 0) == U16_FIXED16_ARRAY_TYPE,
    ensures
        decode_record(b) matches Ok(m) ==> record_wf(m) && encode_record(m).len() == b.len(),
{
    U16Fixed16Array::lemma_decoded(b);
}

proof fn lemma_decoded_u16_array(b: Seq<u8>)
    requires
        b.len() >= 8,
        field::<u32>(b, 0) == U16_ARRAY_TYPE,
    ensures
        decode_record(b) matches Ok(m) ==> record_wf(m) && encode_record(m).len() == b.len(),
{
    U16Array::lemma_decoded(b);
}

proof fn lemma_decoded_u32_array(b: Seq<u8>)
    requires
        b.len() >= 8,
        field::<u32>(b, 0) == U32_ARRAY_TYPE,
    ensures
        decode_record(b) matches Ok(m) ==> record_wf(m) && encode_record(m).len() == b.len(),
{
    U32Array::lemma_decoded(b);
}

proof fn lemma_decoded_u64_array(b: Seq<u8>)
    requires
        b.len() >= 8,
        field::<u32>(b, 0) == U64_ARRAY_TYPE,
    ensures
        decode_record(b) matches Ok(m) ==> record_wf(m) && encode_record(m).len() == b.len(),
{
    U64Array::lemma_decoded(b);
}

proof fn lemma_decoded_u8_array(b: Seq<u8>)
    requires
        b.len() >= 8,
        field::<u32>(b, 0) == U8_ARRAY_TYPE,
    ensures
        decode_record(b) matches Ok(m) ==> record_wf(m) && encode_record(m).len() == b.len(),
{
    U8Array::lemma_decoded(b);
}

proof fn lemma_decoded_x_y_z(b: Seq<u8>)
    requires
        b.len() >= 8,
        field::<u32>(b, 0) == XYZ_TYPE,
    ensures
        decode_record(b) matches Ok(m) ==> record_wf(m) && encode_record(m).len() == b.len(),
{
    XYZType::lemma_decoded(b);
}

proof fn lemma_decoded_data(b: Seq<u8>)
    requires
        b.len() >= 8,
        field::<u32>(b, 0) == DATA_TYPE,
    ensures
        decode_record(b) matches Ok(m) ==> record_wf(m) && encode_record(m).len() == b.len(),
{
    DataType::lemma_decoded(b);
}

proof fn lemma_decoded_cicp(b: Seq<u8>)
    requires
        b.len() >= 8,
        field::<u32>(b, 0) == CICP_TYPE,
    ensures
        decode_record(b) matches Ok(m) ==> record_wf(m) && encode_record(m).len() == b.len(),
{
    Cicp::lemma_decoded(b);
}

proof fn lemma_decoded_bacs(b: Seq<u8>)
    requires
        b.len() >= 8,
        field::<u32>(b, 0) == BACS_TYPE,
    ensures
        decode_record(b) matches Ok(m) ==> record_wf(m) && encode_record(m).len() == b.len(),
{
    BacsElement::lemma_decoded(b);
}

proof fn lemma_decoded_eacs(b: Seq<u8>)
    requires
        b.len() >= 8,
        field::<u32>(b, 0) == EACS_TYPE,
    ensures
        decode_record(b) matches Ok(m) ==> record_wf(m) && encode_record(m).len() == b.len(),
{
    EacsElement::lemma_decoded(b);
}

proof fn lemma_decoded_measurement(b: Seq<u8>)
    requires
        b.len() >= 8,
        field::<u32>(b, 0) == MEASUREMENT_TYPE,
    ensures
        decode_record(b) matches Ok(m) ==> record_wf(m) && encode_record(m).len() == b.len(),
{
    Measurement::lemma_decoded(b);
}

proof fn lemma_decoded_viewing_conditions(b: Seq<u8>)
    requires
        b.len() >= 8,
        field::<u32>(b, 0) == VIEWING_CONDITIONS_TYPE,
    ensures
        decode_record(b) matches Ok(m) ==> record_wf(m) && encode_record(m).len() == b.len(),
{
    ViewingConditions::lemma_decoded(b);
}

proof fn lemma_decoded_colorant_order(b: Seq<u8>)
    requires
        b.len() >= 8,
        field::<u32>(b, 0) == COLORANT_ORDER_TYPE,
    ensures
        decode_record(b) matches Ok(m) ==> record_wf(m) && encode_record(m).len() == b.len(),
{
    ColorantOrder::lemma_decoded(b);
}

proof fn lemma_decoded_profile_sequence_identifier(b: Seq<u8>)
    requires
        b.len() >= 8,
        field::<u32>(b, 0) == PROFILE_SEQUENCE_IDENTIFIER_TYPE,
    ensures
        decode_record(b) matches Ok(m) ==> record_wf(m) && encode_record(m).len() == b.len(),
{
    ProfileSequenceIdentifier::lemma_decoded(b);
}

proof fn lemma_decoded_lut_a_to_b(b: Seq<u8>)
    requires
        b.len() >= 8,
        field::<u32>(b, 0) == LUT_A_TO_B_TYPE,
    ensures
        decode_record(b) matches Ok(m) ==> record_wf(m) && encode_record(m).len() == b.len(),
{
    LutAToB::lemma_decoded(b);
}

proof fn lemma_decoded_lut_b_to_a(b: Seq<u8>)
    requires
        b.len() >= 8,
        field::<u32>(b, 0) == LUT_B_TO_A_TYPE,
    ensures
        decode_record(b) matches Ok(m) ==> record_wf(m) && encode_record(m).len() == b.len(),
{
    LutBToA::lemma_decoded(b);
}

proof fn lemma_decoded_chromaticity(b: Seq<u8>)
    requires
        b.len() >= 8,
        field::<u32>(b, 0) == CHROMATICITY_TYPE,
    ensures
        decode_record(b) matches Ok(m) ==> record_wf(m) && encode_record(m).len() == b.len(),
{
    Chromaticity::lemma_decoded(b);
}

proof fn lemma_decoded_multi_localized_unicode(b: Seq<u8>)
    requires
        b.len() >= 8,
        field::<u32>(b, 0) == MULTI_LOCALIZED_UNICODE_TYPE,
    ensures
        decode_record(b) matches Ok(m) ==> record_wf(m) && encode_record(m).len() == b.len(),
{
    MultiLocalizedUnicode::lemma_decoded(b);
}

proof fn lemma_decoded_parametric_curve(b: Seq<u8>)
    requires
        b.len() >= 8,
        field::<u32>(b, 0) == PARAMETRIC_CURVE_TYPE,
    ensures
        decode_record(b) matches Ok(m) ==> record_wf(m) && encode_record(m).len() == b.len(),
{
    ParametricCurve::lemma_decoded(b);
}

proof fn lemma_decoded_multi_process_elements(b: Seq<u8>)
    requires
        b.len() >= 8,
        field::<u32>(b, 0) == MULTI_PROCESS_ELEMENTS_TYPE,
    ensures
        decode_record(b) matches Ok(m) ==> record_wf(m) && encode_record(m).len() == b.len(),
{
    MultiProcessElements::lemma_decoded(b);
}

proof fn lemma_decoded_curve_set(b: Seq<u8>)
    requires
        b.len() >= 8,
        field::<u32>(b, 0) == CURVE_SET_TYPE,
    ensures
        decode_record(b) matches Ok(m) ==> record_wf(m) && encode_record(m).len() == b.len(),
{
    CurveSetElement::lemma_decoded(b);
}

proof fn lemma_decoded_colorant_table(b: Seq<u8>)
    requires
        b.len() >= 8,
        field::<u32>(b, 0) == COLORANT_TABLE_TYPE,
    ensures
        decode_record(b) matches Ok(m) ==> record_wf(m) && encode_record(m).len() == b.len(),
{
    ColorantTable::lemma_decoded(b);
}

proof fn lemma_decoded_lut16(b: Seq<u8>)
    requires
        b.len() >= 8,
        field::<u32>(b, 0) == LUT16_TYPE,
    ensures
        decode_record(b) matches Ok(m) ==> record_wf(m) && encode_record(m).len() == b.len(),
{
    Lut16::lemma_decoded(b);
}

proof fn lemma_decoded_lut8(b: Seq<u8>)
    requires
        b.len() >= 8,
        field::<u32>(b, 0) == LUT8_TYPE,
    ensures
        decode_record(b) matches Ok(m) ==> record_wf(m) && encode_record(m).len() == b.len(),
{
    Lut8::lemma_decoded(b);
}

/// What decodes is valid, and its encoding is as long as the bytes it was
/// decoded from.
pub proof fn lemma_decoded_record(b: Seq<u8>)
    ensures
        decode_record(b) matches Ok(m) ==> record_wf(m) && encode_record(m).len() == b.len(),
{
    if b.len() >= 8 {
        let t = field::<u32>(b, 0);
        if t == TEXT_TYPE {
            lemma_decoded_text(b);
        } else if t == SIGNATURE_TYPE {
            lemma_decoded_signature(b);
        } else if t == S15_FIXED16_ARRAY_TYPE {
            lemma_decoded_s15_fixed16_array(b);
        } else if t == U16_FIXED16_ARRAY_TYPE {
            lemma_decoded_u16_fixed16_array(b);
        } else if t == U16_ARRAY_TYPE {
            lemma_decoded_u16_array(b);
        } else if t == U32_ARRAY_TYPE {
            lemma_decoded_u32_array(b);
        } else if t == U64_ARRAY_TYPE {
            lemma_decoded_u64_array(b);
        } else if t == U8_ARRAY_TYPE {
            lemma_decoded_u8_array(b);
        } else if t == XYZ_TYPE {
            lemma_decoded_x_y_z(b);
        } else if t == DATA_TYPE {
            lemma_decoded_data(b);
        } else if t == CICP_TYPE {
            lemma_decoded_cicp(b);
        } else if t == BACS_TYPE {
            lemma_decoded_bacs(b);
        } else if t == EACS_TYPE {
            lemma_decoded_eacs(b);
        } else if t == MEASUREMENT_TYPE {
            lemma_decoded_measurement(b);
        } else if t == VIEWING_CONDITIONS_TYPE {
            lemma_decoded_viewing_conditions(b);
        } else if t == COLORANT_ORDER_TYPE {
            lemma_decoded_colorant_order(b);
        } else if t == PROFILE_SEQUENCE_IDENTIFIER_TYPE {
            lemma_decoded_profile_sequence_identifier(b);
        } else if t == LUT_A_TO_B_TYPE {
            lemma_decoded_lut_a_to_b(b);
        } else if t == LUT_B_TO_A_TYPE {
            lemma_decoded_lut_b_to_a(b);
        } else if t == CHROMATICITY_TYPE {
            lemma_decoded_chromaticity(b);
        } else if t == MULTI_LOCALIZED_UNICODE_TYPE {
            lemma_decoded_multi_localized_unicode(b);
        } else if t == PARAMETRIC_CURVE_TYPE {
            lemma_decoded_parametric_curve(b);
        } else if t == MULTI_PROCESS_ELEMENTS_TYPE {
            lemma_decoded_multi_process_elements(b);
        } else if t == CURVE_SET_TYPE {
            lemma_decoded_curve_set(b);
        } else if t == COLORANT_TABLE_TYPE {
            lemma_decoded_colorant_table(b);
        } else if t == LUT16_TYPE {
            lemma_decoded_lut16(b);
        } else if t == LUT8_TYPE {
            lemma_decoded_lut8(b);
        }
    }
}

impl Record {
    pub fn type_signature(&self) -> (r: u32)
        ensures
            r == record_type(self@),
    {
        match self {
            Record::Text(x) => x.type_signature,
            Record::Signature(x) => x.type_signature,
            Record::S15Fixed16Array(x) => x.type_signature,
            Record::U16Fixed16Array(x) => x.type_signature,
            Record::U16Array(x) => x.type_signature,
            Record::U32Array(x) => x.type_signature,
            Record::U64Array(x) => x.type_signature,
            Record::U8Array(x) => x.type_signature,
            Record::XYZ(x) => x.type_signature,
            Record::Data(x) => x.type_signature,
            Record::Cicp(x) => x.type_signature,
            Record::Bacs(x) => x.type_signature,
            Record::Eacs(x) => x.type_signature,
            Record::Measurement(x) => x.type_signature,
            Record::ViewingConditions(x) => x.type_signature,
            Record::ColorantOrder(x) => x.type_signature,
            Record::ProfileSequenceIdentifier(x) => x.type_signature,
            Record::LutAToB(x) => x.type_signature,
            Record::LutBToA(x) => x.type_signature,
            Record::Chromaticity(x) => x.type_signature,
            Record::MultiLocalizedUnicode(x) => x.type_signature,
            Record::ParametricCurve(x) => x.para_signature,
            Record::MultiProcessElements(x) => x.type_signature,
            Record::CurveSet(x) => x.type_signature,
            Record::ColorantTable(x) => x.type_signature,
            Record::Lut16(x) => x.type_signature,
            Record::Lut8(x) => x.type_signature,
            Record::Unknown(b) => {
                if b.len() >= 4 {
                    u32::read_at(b.as_slice(), 0)
                } else {
                    0
                }
            },
        }
    }

    /// Whether the record encodes and decodes back to itself.
    pub fn is_valid(&self) -> (r: bool)
        ensures
            r == record_wf(self@),
    {
        match self {
            Record::Text(x) => x.check(),
            Record::Signature(x) => x.check(),
            Record::S15Fixed16Array(x) => x.check(),
            Record::U16Fixed16Array(x) => x.check(),
            Record::U16Array(x) => x.check(),
            Record::U32Array(x) => x.check(),
            Record::U64Array(x) => x.check(),
            Record::U8Array(x) => x.check(),
            Record::XYZ(x) => x.check(),
            Record::Data(x) => x.check(),
            Record::Cicp(x) => x.check(),
            Record::Bacs(x) => x.check(),
            Record::Eacs(x) => x.check(),
            Record::Measurement(x) => x.check(),
            Record::ViewingConditions(x) => x.check(),
            Record::ColorantOrder(x) => x.check(),
            Record::ProfileSequenceIdentifier(x) => x.check(),
            Record::LutAToB(x) => x.check(),
            Record::LutBToA(x) => x.check(),
            Record::Chromaticity(x) => x.check(),
            Record::MultiLocalizedUnicode(x) => x.check(),
            Record::ParametricCurve(x) => x.check(),
            Record::MultiProcessElements(x) => x.check(),
            Record::CurveSet(x) => x.check(),
            Record::ColorantTable(x) => x.check(),
            Record::Lut16(x) => x.check(),
            Record::Lut8(x) => x.check(),
            Record::Unknown(b) => {
                if b.len() < 8 {
                    false
                } else {
                    !is_known_type(u32::read_at(b.as_slice(), 0))
                }
            },
        }
    }

    pub fn encode(&self) -> (r: Vec<u8>)
        requires
            record_wf(self@),
        ensures
            r@ == encode_record(self@),
    {
        match self {
            Record::Text(x) => x.encode(),
            Record::Signature(x) => x.encode(),
            Record::S15Fixed16Array(x) => x.encode(),
            Record::U16Fixed16Array(x) => x.encode(),
            Record::U16Array(x) => x.encode(),
            Record::U32Array(x) => x.encode(),
            Record::U64Array(x) => x.encode(),
            Record::U8Array(x) => x.encode(),
            Record::XYZ(x) => x.encode(),
            Record::Data(x) => x.encode(),
            Record::Cicp(x) => x.encode(),
            Record::Bacs(x) => x.encode(),
            Record::Eacs(x) => x.encode(),
            Record::Measurement(x) => x.encode(),
            Record::ViewingConditions(x) => x.encode(),
            Record::ColorantOrder(x) => x.encode(),
            Record::ProfileSequenceIdentifier(x) => x.encode(),
            Record::LutAToB(x) => x.encode(),
            Record::LutBToA(x) => x.encode(),
            Record::Chromaticity(x) => x.encode(),
            Record::MultiLocalizedUnicode(x) => x.encode(),
            Record::ParametricCurve(x) => x.encode(),
            Record::MultiProcessElements(x) => x.encode(),
            Record::CurveSet(x) => x.encode(),
            Record::ColorantTable(x) => x.encode(),
            Record::Lut16(x) => x.encode(),
            Record::Lut8(x) => x.encode(),
            Record::Unknown(b) => vstd::slice::slice_to_vec(b.as_slice()),
        }
    }

    pub fn decode(b: &[u8]) -> (r: Result<Record, DecodeError>)
        ensures
            match r {
                Ok(x) => decode_record(b@) == Ok::<RecordModel, DecodeError>(x@),
                Err(e) => decode_record(b@) == Err::<RecordModel, DecodeError>(e),
            },
    {
        let len = b.len();
        if len < 8 {
            return Err(
                DecodeError::TruncatedRecord { type_signature: 0, needed: 8, available: len as u64 },
            );
        }
        let t = u32::read_at(b, 0);
        if t == TEXT_TYPE {
            match Text::decode(b) {
                Ok(x) => Ok(Record::Text(x)),
                Err(e) => Err(e),
            }
        } else if t == SIGNATURE_TYPE {
            match Signature::decode(b) {
                Ok(x) => Ok(Record::Signature(x)),
                Err(e) => Err(e),
            }
        } else if t == S15_FIXED16_ARRAY_TYPE {
            match S15Fixed16Array::decode(b) {
                Ok(x) => Ok(Record::S15Fixed16Array(x)),
                Err(e) => Err(e),
            }
        } else if t == U16_FIXED16_ARRAY_TYPE {
            match U16Fixed16Array::decode(b) {
                Ok(x) => Ok(Record::U16Fixed16Array(x)),
                Err(e) => Err(e),
            }
        } else if t == U16_ARRAY_TYPE {
            match U16Array::decode(b) {
                Ok(x) => Ok(Record::U16Array(x)),
                Err(e) => Err(e),
            }
        } else if t == U32_ARRAY_TYPE {
            match U32Array::decode(b) {
                Ok(x) => Ok(Record::U32Array(x)),
                Err(e) => Err(e),
            }
        } else if t == U64_ARRAY_TYPE {
            match U64Array::decode(b) {
                Ok(x) => Ok(Record::U64Array(x)),
                Err(e) => Err(e),
            }
        } else if t == U8_ARRAY_TYPE {
            match U8Array::decode(b) {
                Ok(x) => Ok(Record::U8Array(x)),
                Err(e) => Err(e),
            }
        } else if t == XYZ_TYPE {
            match XYZType::decode(b) {
                Ok(x) => Ok(Record::XYZ(x)),
                Err(e) => Err(e),
            }
        } else if t == DATA_TYPE {
            match DataType::decode(b) {
                Ok(x) => Ok(Record::Data(x)),
                Err(e) => Err(e),
            }
        } else if t == CICP_TYPE {
            match Cicp::decode(b) {
                Ok(x) => Ok(Record::Cicp(x)),
                Err(e) => Err(e),
            }
        } else if t == BACS_TYPE {
            match BacsElement::decode(b) {
                Ok(x) => Ok(Record::Bacs(x)),
                Err(e) => Err(e),
            }
        } else if t == EACS_TYPE {
            match EacsElement::decode(b) {
                Ok(x) => Ok(Record::Eacs(x)),
                Err(e) => Err(e),
            }
        } else if t == MEASUREMENT_TYPE {
            match Measurement::decode(b) {
                Ok(x) => Ok(Record::Measurement(x)),
                Err(e) => Err(e),
            }
        } else if t == VIEWING_CONDITIONS_TYPE {
            match ViewingConditions::decode(b) {
                Ok(x) => Ok(Record::ViewingConditions(x)),
                Err(e) => Err(e),
            }
        } else if t == COLORANT_ORDER_TYPE {
            match ColorantOrder::decode(b) {
                Ok(x) => Ok(Record::ColorantOrder(x)),
                Err(e) => Err(e),
            }
        } else if t == PROFILE_SEQUENCE_IDENTIFIER_TYPE {
            match ProfileSequenceIdentifier::decode(b) {
                Ok(x) => Ok(Record::ProfileSequenceIdentifier(x)),
                Err(e) => Err(e),
            }
        } else if t == LUT_A_TO_B_TYPE {
            match LutAToB::decode(b) {
                Ok(x) => Ok(Record::LutAToB(x)),
                Err(e) => Err(e),
            }
        } else if t == LUT_B_TO_A_TYPE {
            match LutBToA::decode(b) {
                Ok(x) => Ok(Record::LutBToA(x)),
                Err(e) => Err(e),
            }
        } else if t == CHROMATICITY_TYPE {
            match Chromaticity::decode(b) {
                Ok(x) => Ok(Record::Chromaticity(x)),
                Err(e) => Err(e),
            }
        } else if t == MULTI_LOCALIZED_UNICODE_TYPE {
            match MultiLocalizedUnicode::decode(b) {
                Ok(x) => Ok(Record::MultiLocalizedUnicode(x)),
                Err(e) => Err(e),
            }
        } else if t == PARAMETRIC_CURVE_TYPE {
            match ParametricCurve::decode(b) {
                Ok(x) => Ok(Record::ParametricCurve(x)),
                Err(e) => Err(e),
            }
        } else if t == MULTI_PROCESS_ELEMENTS_TYPE {
            match MultiProcessElements::decode(b) {
                Ok(x) => Ok(Record::MultiProcessElements(x)),
                Err(e) => Err(e),
            }
        } else if t == CURVE_SET_TYPE {
            match CurveSetElement::decode(b) {
                Ok(x) => Ok(Record::CurveSet(x)),
                Err(e) => Err(e),
            }
        } else if t == COLORANT_TABLE_TYPE {
            match ColorantTable::decode(b) {
                Ok(x) => Ok(Record::ColorantTable(x)),
                Err(e) => Err(e),
            }
        } else if t == LUT16_TYPE {
            match Lut16::decode(b) {
                Ok(x) => Ok(Record::Lut16(x)),
                Err(e) => Err(e),
            }
        } else if t == LUT8_TYPE {
            match Lut8::decode(b) {
                Ok(x) => Ok(Record::Lut8(x)),
                Err(e) => Err(e),
            }
        } else {
            Ok(Record::Unknown(vstd::slice::slice_to_vec(b)))
        }
    }
}

/// Whether a tag with signature `tag` may hold a record of type `ty`. Tags
/// that this library does not know admit every type.
pub open spec fn admits(tag: u32, ty: u32) -> bool {
    if tag == 0x63707274 || tag == 0x64657363 {
        // copyright, profile description
        ty == TEXT_TYPE || ty == MULTI_LOCALIZED_UNICODE_TYPE
    } else if tag == 0x74656368 || tag == 0x63696973 {
        // technology, colorimetric intent image state
        ty == SIGNATURE_TYPE
    } else if tag == 0x77747074 || tag == 0x626B7074 || tag == 0x6C756D69 || tag == 0x7258595A
        || tag == 0x6758595A || tag == 0x6258595A {
        // media white and black point, luminance, red, green and blue colorants
        ty == XYZ_TYPE
    } else if tag == 0x6D656173 {
        ty == MEASUREMENT_TYPE
    } else if tag == 0x76696577 {
        ty == VIEWING_CONDITIONS_TYPE
    } else if tag == 0x636C726F {
        ty == COLORANT_ORDER_TYPE
    } else if tag == 0x636C7274 || tag == 0x636C6F74 {
        // colorant table, colorant table out
        ty == COLORANT_TABLE_TYPE
    } else if tag == 0x63696370 {
        ty == CICP_TYPE
    } else if tag == 0x70736964 {
        ty == PROFILE_SEQUENCE_IDENTIFIER_TYPE
    } else if tag == 0x6368726D {
        ty == CHROMATICITY_TYPE
    } else if tag == 0x72545243 || tag == 0x67545243 || tag == 0x62545243 || tag == 0x6B545243 {
        // red, green, blue and gray tone reproduction curves: curve or parametric curve
        ty == PARAMETRIC_CURVE_TYPE || ty == 0x63757276
    } else if tag == 0x41324230 || tag == 0x41324231 || tag == 0x41324232 {
        // device to connection space: lut8, lut16 or lutAToB
        ty == LUT_A_TO_B_TYPE || ty == LUT8_TYPE || ty == LUT16_TYPE
    } else if tag == 0x42324130 || tag == 0x42324131 || tag == 0x42324132 {
        // connection space to device: lut8, lut16 or lutBToA
        ty == LUT_B_TO_A_TYPE || ty == LUT8_TYPE || ty == LUT16_TYPE
    } else {
        true
    }
}

pub fn tag_admits(tag: u32, ty: u32) -> (r: bool)
    ensures
        r == admits(tag, ty),
{
    if tag == 0x63707274 || tag == 0x64657363 {
        ty == TEXT_TYPE || ty == MULTI_LOCALIZED_UNICODE_TYPE
    } else if tag == 0x74656368 || tag == 0x63696973 {
        ty == SIGNATURE_TYPE
    } else if tag == 0x77747074 || tag == 0x626B7074 || tag == 0x6C756D69 || tag == 0x7258595A
        || tag == 0x6758595A || tag == 0x6258595A {
        ty == XYZ_TYPE
    } else if tag == 0x6D656173 {
        ty == MEASUREMENT_TYPE
    } else if tag == 0x76696577 {
        ty == VIEWING_CONDITIONS_TYPE
    } else if tag == 0x636C726F {
        ty == COLORANT_ORDER_TYPE
    } else if tag == 0x636C7274 || tag == 0x636C6F74 {
        ty == COLORANT_TABLE_TYPE
    } else if tag == 0x63696370 {
        ty == CICP_TYPE
    } else if tag == 0x70736964 {
        ty == PROFILE_SEQUENCE_IDENTIFIER_TYPE
    } else if tag == 0x6368726D {
        ty == CHROMATICITY_TYPE
    } else if tag == 0x72545243 || tag == 0x67545243 || tag == 0x62545243 || tag == 0x6B545243 {
        ty == PARAMETRIC_CURVE_TYPE || ty == 0x63757276
    } else if tag == 0x41324230 || tag == 0x41324231 || tag == 0x41324232 {
        ty == LUT_A_TO_B_TYPE || ty == LUT8_TYPE || ty == LUT16_TYPE
    } else if tag == 0x42324130 || tag == 0x42324131 || tag == 0x42324132 {
        ty == LUT_B_TO_A_TYPE || ty == LUT8_TYPE || ty == LUT16_TYPE
    } else {
        true
    }
}

/// One entry of the tag table with its decoded record.
#[derive(Debug, Clone, PartialEq, Eq)]
pub struct Tag {
    pub signature: u32,
    pub record: Record,
}

/// The signatures and record models of a list of tags.
pub open spec fn tag_models(tags: Seq<Tag>) -> Seq<(u32, RecordModel)> {
    tags.map_values(|t: Tag| (t.signature, t.record@))
}

/// The index of the tag with signature `sig` in `tags`.
fn find_tag(tags: &Vec<Tag>, sig: u32) -> (r: Option<usize>)
    ensures
        match r {
            Some(i) => i < tags@.len() && tag_models(tags@)[i as int].0 == sig,
            None => !has_tag(tag_models(tags@), sig),
        },
{
    let mut i: usize = 0;
    while i < tags.len()
        invariant
            i <= tags@.len(),
            forall|j: int| 0 <= j < i ==> tag_models(tags@)[j].0 != sig,
        decreases tags@.len() - i,
    {
        if tags[i].signature == sig {
            return Some(i);
        }
        i = i + 1;
    }
    None
}

/// The model of a profile: its header, its tags in table order, and whether
/// the header's profile ID still describes the tags.
pub struct ProfileModel {
    pub header: IccProfileHeaderU128,
    pub tags: Seq<(u32, RecordModel)>,
    pub id_current: bool,
}

/// Bytes before the tag table's entries: the header and the tag count.
pub open spec fn table_offset() -> int {
    HEADER_SIZE + 4
}

/// Where the data of a profile with `n` tags starts.
pub open spec fn data_offset(n: int) -> int {
    table_offset() + 12 * n
}

/// The records' encodings, one after the other.
pub open spec fn data_bytes(tags: Seq<(u32, RecordModel)>) -> Seq<u8>
    decreases tags.len(),
{
    if tags.len() == 0 {
        Seq::empty()
    } else {
        data_bytes(tags.drop_last()) + encode_record(tags.last().1)
    }
}

/// The tag table's entries: signature, offset and size of each record, where
/// the records' data starts at `base`.
pub open spec fn table_bytes(tags: Seq<(u32, RecordModel)>, base: int) -> Seq<u8>
    decreases tags.len(),
{
    if tags.len() == 0 {
        Seq::empty()
    } else {
        let prev = tags.drop_last();
        table_bytes(prev, base) + tags.last().0.enc() + ((base + data_bytes(prev).len()) as u32).enc()
            + (encode_record(tags.last().1).len() as u32).enc()
    }
}

/// The length of the encoding of a profile with these tags.
pub open spec fn encoded_len(tags: Seq<(u32, RecordModel)>) -> int {
    data_offset(tags.len() as int) + data_bytes(tags).len()
}

/// The header that the encoding writes: the size is the encoding's length, and
/// the profile ID is zero (not computed) once tags have changed.
pub open spec fn written_header(m: ProfileModel) -> IccProfileHeaderU128 {
    IccProfileHeaderU128 {
        profile_size: encoded_len(m.tags) as u32,
        profile_id: if m.id_current {
            m.header.profile_id
        } else {
            0
        },
        ..m.header
    }
}

/// The encoding of the written header.
#[verifier::opaque]
pub open spec fn header_bytes(m: ProfileModel) -> Seq<u8> {
    written_header(m).enc()
}

pub proof fn lemma_header_len(m: ProfileModel)
    ensures
        header_bytes(m).len() == HEADER_SIZE,
{
    reveal(header_bytes);
    written_header(m).lemma_enc();
}

/// The written header reads back from the front of an encoding.
pub proof fn lemma_header_field(m: ProfileModel, rest: Seq<u8>)
    ensures
        header_at(header_bytes(m) + rest) == written_header(m),
{
    reveal(header_bytes);
    reveal(header_at);
    let e = written_header(m).enc();
    written_header(m).lemma_enc();
    assert((e + rest).subrange(0, 132) =~= e);
}

/// The encoding of the written header.
pub proof fn lemma_header_bytes(m: ProfileModel)
    ensures
        header_bytes(m) == written_header(m).enc(),
{
    reveal(header_bytes);
}

pub open spec fn encode_profile(m: ProfileModel) -> Seq<u8> {
    header_bytes(m) + (m.tags.len() as u32).enc() + table_bytes(
        m.tags,
        data_offset(m.tags.len() as int),
    ) + data_bytes(m.tags)
}

/// Whether some tag has signature `sig`.
pub open spec fn has_tag(tags: Seq<(u32, RecordModel)>, sig: u32) -> bool {
    exists|j: int| 0 <= j < tags.len() && tags[j].0 == sig
}

/// The tags decoded so far, `prev`, followed by the tag of entry `i` of the
/// `n` entries of the tag table of `b`.
pub open spec fn decode_step(b: Seq<u8>, n: nat, i: nat, prev: Seq<(u32, RecordModel)>) -> Result<
    Seq<(u32, RecordModel)>,
    DecodeError,
> {
    let k = table_offset() + 12 * i;
    let sig = field::<u32>(b, k);
    let off = field::<u32>(b, k + 4);
    let size = field::<u32>(b, k + 8);
    if (off as int) < data_offset(n as int) || off as int + size as int > b.len() {
        Err(DecodeError::InvalidOffset { offset: off, limit: b.len() as u64 })
    } else if has_tag(prev, sig) {
        Err(DecodeError::DuplicateTag { signature: sig })
    } else {
        match decode_record(b.subrange(off as int, off as int + size as int)) {
            Ok(m) => if encoded_len(prev.push((sig, m))) > u32::MAX {
                // tags that share data need more room than a size field can give
                Err(
                    DecodeError::SizeMismatch {
                        declared: b.len() as u64,
                        actual: encoded_len(prev.push((sig, m))) as u64,
                    },
                )
            } else {
                Ok(prev.push((sig, m)))
            },
            Err(e) => Err(e),
        }
    }
}

/// The first `i` of the `n` entries of the tag table of `b`, decoded.
pub open spec fn decode_tags(b: Seq<u8>, n: nat, i: nat) -> Result<
    Seq<(u32, RecordModel)>,
    DecodeError,
>
    decreases i,
{
    if i == 0 {
        Ok(Seq::empty())
    } else {
        match decode_tags(b, n, (i - 1) as nat) {
            Err(e) => Err(e),
            Ok(prev) => decode_step(b, n, (i - 1) as nat, prev),
        }
    }
}

/// An entry that fails to decode fails the whole table.
pub proof fn lemma_decode_tags_err(b: Seq<u8>, n: nat, i: nat, j: nat)
    requires
        i <= j,
        decode_tags(b, n, i) is Err,
    ensures
        decode_tags(b, n, j) == decode_tags(b, n, i),
    decreases j - i,
{
    if i < j {
        lemma_decode_tags_err(b, n, i, (j - 1) as nat);
    }
}

/// The header encoded at the front of `b`.
#[verifier::opaque]
pub open spec fn header_at(b: Seq<u8>) -> IccProfileHeaderU128 {
    field::<IccProfileHeaderU128>(b, 0)
}

/// A profile's bytes decoded: the header, the declared size checked against
/// the length, then the tag table and each record it locates.
pub open spec fn decode_profile(b: Seq<u8>) -> Result<ProfileModel, DecodeError> {
    if b.len() < table_offset() {
        Err(
            DecodeError::TruncatedRecord {
                type_signature: PROFILE_FILE_SIGNATURE,
                needed: table_offset() as u64,
                available: b.len() as u64,
            },
        )
    } else {
        let h = header_at(b);
        if h.profile_size as int != b.len() {
            Err(DecodeError::SizeMismatch { declared: h.profile_size as u64, actual: b.len() as u64 })
        } else {
            let n = field::<u32>(b, HEADER_SIZE as int);
            if b.len() < data_offset(n as int) {
                Err(
                    DecodeError::TruncatedRecord {
                        type_signature: PROFILE_FILE_SIGNATURE,
                        needed: data_offset(n as int) as u64,
                        available: b.len() as u64,
                    },
                )
            } else {
                match decode_tags(b, n as nat, n as nat) {
                    Ok(tags) => Ok(ProfileModel { header: h, tags, id_current: true }),
                    Err(e) => Err(e),
                }
            }
        }
    }
}

/// Tags with distinct signatures and valid records, whose encoding fits the
/// 32-bit size field.
pub open spec fn tags_wf(tags: Seq<(u32, RecordModel)>) -> bool {
    &&& forall|i: int, j: int| 0 <= i < j < tags.len() ==> tags[i].0 != tags[j].0
    &&& forall|i: int| 0 <= i < tags.len() ==> record_wf(#[trigger] tags[i].1)
    &&& encoded_len(tags) <= u32::MAX
}

/// An ICC profile: header and tags.
#[derive(Debug, Clone)]
pub struct Profile {
    header: IccProfileHeaderU128,
    tags: Vec<Tag>,
    id_current: bool,
    size: u64,
}

impl View for Profile {
    type V = ProfileModel;

    closed spec fn view(&self) -> ProfileModel {
        ProfileModel {
            header: self.header,
            tags: tag_models(self.tags@),
            id_current: self.id_current,
        }
    }
}

impl Profile {
    pub closed spec fn wf(&self) -> bool {
        &&& tags_wf(self@.tags)
        &&& self.size == encoded_len(self@.tags)
    }

    /// A profile with the given header and no tags.
    pub fn new(header: IccProfileHeaderU128) -> (r: Profile)
        ensures
            r.wf(),
            r@.header == header,
            r@.tags == Seq::<(u32, RecordModel)>::empty(),
            !r@.id_current,
    {
        let r = Profile { header, tags: Vec::new(), id_current: false, size: 136 };
        assert(r@.tags =~= Seq::<(u32, RecordModel)>::empty());
        r
    }

    pub fn header(&self) -> (r: &IccProfileHeaderU128)
        ensures
            *r == self@.header,
    {
        &self.header
    }

    pub fn tag_count(&self) -> (r: usize)
        ensures
            r == self@.tags.len(),
    {
        self.tags.len()
    }

    /// Whether the header's profile ID still describes the profile's contents.
    pub fn id_is_current(&self) -> (r: bool)
        ensures
            r == self@.id_current,
    {
        self.id_current
    }

    fn find(&self, sig: u32) -> (r: Option<usize>)
        ensures
            match r {
                Some(i) => i < self@.tags.len() && self@.tags[i as int].0 == sig,
                None => !has_tag(self@.tags, sig),
            },
    {
        find_tag(&self.tags, sig)
    }

    /// The record of the tag with signature `signature`, if the profile has one.
    pub fn get_tag(&self, signature: u32) -> (r: Option<&Record>)
        requires
            self.wf(),
        ensures
            match r {
                Some(rec) => exists|i: int|
                    0 <= i < self@.tags.len() && self@.tags[i] == (signature, rec@),
                None => !has_tag(self@.tags, signature),
            },
    {
        match self.find(signature) {
            Some(i) => {
                assert(self@.tags[i as int] == (signature, self.tags@[i as int].record@));
                Some(&self.tags[i].record)
            },
            None => None,
        }
    }

    /// Adds a tag at the end of the table. Fails with `DuplicateTag` where the
    /// profile has a tag with this signature, with `TagTypeMismatch` where the
    /// record is not valid or its type is not one the signature admits, and with
    /// `ProfileTooLarge` where the encoding would outgrow its size field. On
    /// success the profile ID is no longer current.
    pub fn set_tag(&mut self, signature: u32, record: Record) -> (r: Result<(), TagError>)
        requires
            old(self).wf(),
        ensures
            final(self).wf(),
            match r {
                Ok(()) => final(self)@ == (ProfileModel {
                    tags: old(self)@.tags.push((signature, record@)),
                    id_current: false,
                    ..old(self)@
                }),
                Err(e) => final(self)@ == old(self)@ && if has_tag(old(self)@.tags, signature) {
                    e == (TagError::DuplicateTag { signature })
                } else if !record_wf(record@) || !admits(signature, record_type(record@)) {
                    e == (TagError::TagTypeMismatch {
                        signature,
                        type_signature: record_type(record@),
                    })
                } else {
                    e == (TagError::ProfileTooLarge { signature }) && encoded_len(
                        old(self)@.tags.push((signature, record@)),
                    ) > u32::MAX
                },
            },
    {
        if self.find(signature).is_some() {
            return Err(TagError::DuplicateTag { signature });
        }
        let ty = record.type_signature();
        if !record.is_valid() || !tag_admits(signature, ty) {
            return Err(TagError::TagTypeMismatch { signature, type_signature: ty });
        }
        let len = record.encode().len();
        let ghost old_tags = self@.tags;
        let ghost new_tags = old_tags.push((signature, record@));
        proof {
            assert(new_tags.drop_last() =~= old_tags);
        }
        let limit: u64 = 0xffff_ffff;
        if len as u64 > limit || self.size + 12 + len as u64 > limit {
            return Err(TagError::ProfileTooLarge { signature });
        }
        self.size = self.size + 12 + len as u64;
        self.tags.push(Tag { signature, record });
        self.id_current = false;
        proof {
            assert(self@.tags =~= new_tags);
        }
        Ok(())
    }
}

/// Decodes entry `i` of the `n` entries of the tag table of `b`, after `tags`,
/// whose encoding takes `size` bytes.
fn decode_entry(b: &[u8], n: u32, i: u32, tags: &Vec<Tag>, size: u64) -> (r: Result<
    (Tag, u64),
    DecodeError,
>)
    requires
        b@.len() <= u32::MAX,
        data_offset(n as int) <= b@.len(),
        i < n,
        tags_wf(tag_models(tags@)),
        size == encoded_len(tag_models(tags@)),
    ensures
        match r {
            Ok((t, new_size)) => {
                &&& decode_step(b@, n as nat, i as nat, tag_models(tags@)) == Ok::<
                    Seq<(u32, RecordModel)>,
                    DecodeError,
                >(tag_models(tags@).push((t.signature, t.record@)))
                &&& tags_wf(tag_models(tags@).push((t.signature, t.record@)))
                &&& new_size == encoded_len(tag_models(tags@).push((t.signature, t.record@)))
            },
            Err(e) => decode_step(b@, n as nat, i as nat, tag_models(tags@)) == Err::<
                Seq<(u32, RecordModel)>,
                DecodeError,
            >(e),
        },
{
    let len = b.len();
    let base: u64 = 136 + 12 * n as u64;
    let k: usize = 136 + 12 * i as usize;
    let sig = u32::read_at(b, k);
    let off = u32::read_at(b, k + 4);
    let sz = u32::read_at(b, k + 8);
    if (off as u64) < base || off as u64 + sz as u64 > len as u64 {
        return Err(DecodeError::InvalidOffset { offset: off, limit: len as u64 });
    }
    if find_tag(tags, sig).is_some() {
        return Err(DecodeError::DuplicateTag { signature: sig });
    }
    let part = vstd::slice::slice_subrange(b, off as usize, off as usize + sz as usize);
    let rec = match Record::decode(part) {
        Ok(x) => x,
        Err(e) => {
            return Err(e);
        },
    };
    let ghost prev = tag_models(tags@);
    let ghost next = prev.push((sig, rec@));
    proof {
        lemma_decoded_record(part@);
        assert(next.drop_last() =~= prev);
        assert(forall|j: int| 0 <= j < prev.len() ==> next[j] == prev[j]);
    }
    if size + 12 + sz as u64 > 0xffff_ffffu64 {
        return Err(
            DecodeError::SizeMismatch { declared: len as u64, actual: size + 12 + sz as u64 },
        );
    }
    Ok((Tag { signature: sig, record: rec }, size + 12 + sz as u64))
}

impl Profile {
    /// The profile's bytes: the header, with the size of the encoding and with
    /// a zero (not computed) profile ID where tags changed since it was read,
    /// then the tag table, then each record in table order.
    pub fn encode(&self) -> (r: Vec<u8>)
        requires
            self.wf(),
        ensures
            r@ == encode_profile(self@),
    {
        let ghost tags = self@.tags;
        let n = self.tags.len();
        let base: u64 = 136 + 12 * n as u64;
        let mut table: Vec<u8> = Vec::new();
        let mut data: Vec<u8> = Vec::new();
        let mut i: usize = 0;
        while i < n
            invariant
                n == tags.len(),
                tags == self@.tags,
                self.wf(),
                base == data_offset(n as int),
                i <= n,
                table@ == table_bytes(tags.take(i as int), base as int),
                data@ == data_bytes(tags.take(i as int)),
            decreases n - i,
        {
            proof {
                lemma_data_take(tags, i + 1);
                let t = tags.take(i + 1);
                assert(t.drop_last() =~= tags.take(i as int));
                assert(t.last() == tags[i as int]);
            }
            let mut enc = self.tags[i].record.encode();
            let off = (base + data.len() as u64) as u32;
            let size = enc.len() as u32;
            self.tags[i].signature.push_to(&mut table);
            off.push_to(&mut table);
            size.push_to(&mut table);
            data.append(&mut enc);
            i = i + 1;
        }
        proof {
            assert(tags.take(n as int) =~= tags);
        }
        let mut header = self.header;
        header.profile_size = (base + data.len() as u64) as u32;
        if !self.id_current {
            header.profile_id = 0;
        }
        let mut out: Vec<u8> = Vec::new();
        header.push_to(&mut out);
        (n as u32).push_to(&mut out);
        out.append(&mut table);
        out.append(&mut data);
        proof {
            assert(header == written_header(self@));
            lemma_header_bytes(self@);
        }
        out
    }

    /// Decodes a profile: fails with `TruncatedRecord` where the bytes are too
    /// few for the header or the tag table, with `SizeMismatch` where the
    /// header's size is not their number, with `InvalidOffset` where an entry
    /// locates data outside the data region, with `DuplicateTag` where a
    /// signature repeats, and with a record's own error where it does not decode.
    pub fn decode(b: &[u8]) -> (r: Result<Profile, DecodeError>)
        ensures
            match r {
                Ok(p) => p.wf() && decode_profile(b@) == Ok::<ProfileModel, DecodeError>(p@),
                Err(e) => decode_profile(b@) == Err::<ProfileModel, DecodeError>(e),
            },
    {
        let len = b.len();
        if len < 136 {
            return Err(
                DecodeError::TruncatedRecord {
                    type_signature: PROFILE_FILE_SIGNATURE,
                    needed: 136,
                    available: len as u64,
                },
            );
        }
        let header = IccProfileHeaderU128::read_at(b, 0);
        proof {
            reveal(header_at);
        }
        if header.profile_size as u64 != len as u64 {
            return Err(
                DecodeError::SizeMismatch {
                    declared: header.profile_size as u64,
                    actual: len as u64,
                },
            );
        }
        let n = u32::read_at(b, 132);
        let base: u64 = 136 + 12 * n as u64;
        if (len as u64) < base {
            return Err(
                DecodeError::TruncatedRecord {
                    type_signature: PROFILE_FILE_SIGNATURE,
                    needed: base,
                    available: len as u64,
                },
            );
        }
        match decode_table(b, n) {
            Ok((tags, size)) => Ok(Profile { header, tags, id_current: true, size }),
            Err(e) => Err(e),
        }
    }
}

/// Decodes the `n` entries of the tag table of `b` and the records they locate;
/// also gives the length of their encoding.
fn decode_table(b: &[u8], n: u32) -> (r: Result<(Vec<Tag>, u64), DecodeError>)
    requires
        b@.len() <= u32::MAX,
        data_offset(n as int) <= b@.len(),
    ensures
        match r {
            Ok((tags, size)) => {
                &&& decode_tags(b@, n as nat, n as nat) == Ok::<
                    Seq<(u32, RecordModel)>,
                    DecodeError,
                >(tag_models(tags@))
                &&& tags_wf(tag_models(tags@))
                &&& size == encoded_len(tag_models(tags@))
            },
            Err(e) => decode_tags(b@, n as nat, n as nat) == Err::<
                Seq<(u32, RecordModel)>,
                DecodeError,
            >(e),
        },
{
        let mut tags: Vec<Tag> = Vec::new();
        let mut size: u64 = 136;
        let mut i: u32 = 0;
        proof {
            assert(tag_models(tags@) =~= Seq::<(u32, RecordModel)>::empty());
        }
        while i < n
            invariant
                b@.len() <= u32::MAX,
                data_offset(n as int) <= b@.len(),
                i <= n,
                decode_tags(b@, n as nat, i as nat) == Ok::<Seq<(u32, RecordModel)>, DecodeError>(
                    tag_models(tags@),
                ),
                tags_wf(tag_models(tags@)),
                size == encoded_len(tag_models(tags@)),
            decreases n - i,
        {
            match decode_entry(b, n, i, &tags, size) {
                Ok((tag, new_size)) => {
                    let ghost next = tag_models(tags@).push((tag.signature, tag.record@));
                    assert(decode_tags(b@, n as nat, (i + 1) as nat) == Ok::<
                        Seq<(u32, RecordModel)>,
                        DecodeError,
                    >(next));
                    tags.push(tag);
                    proof {
                        assert(tag_models(tags@) =~= next);
                    }
                    size = new_size;
                },
                Err(e) => {
                    proof {
                        lemma_decode_tags_err(b@, n as nat, (i + 1) as nat, n as nat);
                    }
                    return Err(e);
                },
            }
            i = i + 1;
        }
        Ok((tags, size))
}


/// The records of a prefix of the tags are a prefix of the records' bytes.
pub proof fn lemma_data_take(tags: Seq<(u32, RecordModel)>, i: int)
    requires
        0 <= i <= tags.len(),
    ensures
        data_bytes(tags).subrange(0, data_bytes(tags.take(i)).len() as int) == data_bytes(tags.take(i)),
        data_bytes(tags.take(i)).len() <= data_bytes(tags).len(),
    decreases tags.len(),
{
    if i < tags.len() {
        lemma_data_take(tags.drop_last(), i);
        assert(tags.drop_last().take(i) =~= tags.take(i));
        let d = data_bytes(tags.drop_last());
        let k = data_bytes(tags.take(i)).len() as int;
        assert(data_bytes(tags).subrange(0, k) =~= d.subrange(0, k));
    } else {
        assert(tags.take(i) =~= tags);
        assert(data_bytes(tags).subrange(0, data_bytes(tags).len() as int) =~= data_bytes(tags));
    }
}

/// The records of the first `i + 1` tags: those of the first `i`, then tag `i`'s.
pub proof fn lemma_data_step(tags: Seq<(u32, RecordModel)>, i: int)
    requires
        0 <= i < tags.len(),
    ensures
        data_bytes(tags.take(i + 1)) == data_bytes(tags.take(i)) + encode_record(tags[i].1),
{
    assert(tags.take(i + 1).drop_last() =~= tags.take(i));
}

/// The entry of tag `i` in the tag table.
pub proof fn lemma_table_entry(tags: Seq<(u32, RecordModel)>, base: int, i: int)
    requires
        0 <= i < tags.len(),
    ensures
        table_bytes(tags, base).len() == 12 * tags.len(),
        table_bytes(tags, base).subrange(12 * i, 12 * i + 12) == tags[i].0.enc() + ((base
            + data_bytes(tags.take(i)).len()) as u32).enc() + (encode_record(tags[i].1).len() as u32).enc(),
    decreases tags.len(),
{
    let prev = tags.drop_last();
    lemma_table_len(tags, base);
    lemma_table_len(prev, base);
    if i < tags.len() - 1 {
        lemma_table_entry(prev, base, i);
        assert(prev.take(i) =~= tags.take(i));
        assert(table_bytes(tags, base).subrange(12 * i, 12 * i + 12) =~= table_bytes(prev, base).subrange(
            12 * i,
            12 * i + 12,
        ));
    } else {
        assert(prev =~= tags.take(i));
        tags.last().0.lemma_enc();
        assert(table_bytes(tags, base).subrange(12 * i, 12 * i + 12) =~= tags[i].0.enc() + ((base
            + data_bytes(tags.take(i)).len()) as u32).enc() + (encode_record(tags[i].1).len() as u32).enc());
    }
}

pub proof fn lemma_table_len(tags: Seq<(u32, RecordModel)>, base: int)
    ensures
        table_bytes(tags, base).len() == 12 * tags.len(),
    decreases tags.len(),
{
    if tags.len() > 0 {
        lemma_table_len(tags.drop_last(), base);
    }
}

/// Entry `j` of the tag table of a profile's encoding: the tag's signature,
/// where its record starts, and the record's length.
proof fn lemma_entry_of_encoding(m: ProfileModel, j: int)
    requires
        tags_wf(m.tags),
        0 <= j < m.tags.len(),
    ensures
        ({
            let b = encode_profile(m);
            let k = table_offset() + 12 * j;
            let dj = data_bytes(m.tags.take(j)).len() as int;
            let sz = encode_record(m.tags[j].1).len() as int;
            let base = data_offset(m.tags.len() as int);
            &&& b.len() == encoded_len(m.tags)
            &&& field::<u32>(b, k) == m.tags[j].0
            &&& field::<u32>(b, k + 4) as int == base + dj
            &&& field::<u32>(b, k + 8) as int == sz
            &&& base + dj + sz <= b.len()
            &&& b.subrange(base + dj, base + dj + sz) == encode_record(m.tags[j].1)
        }),
{
    let tags = m.tags;
    let n = tags.len();
    let b = encode_profile(m);
    let base = data_offset(n as int);
    let prev = tags.take(j);
    let t = table_bytes(tags, base);
    let d = data_bytes(tags);
    lemma_header_len(m);
    (n as u32).lemma_enc();
    lemma_table_entry(tags, base, j);
    lemma_data_take(tags, j);
    lemma_data_take(tags, j + 1);
    lemma_data_step(tags, j);
    let dj = data_bytes(prev).len() as int;
    let sz = encode_record(tags[j].1).len() as int;
    let off = (base + dj) as u32;
    let k = table_offset() + 12 * j;
    assert(b.len() == 136 + 12 * n + d.len());
    assert(b.subrange(k, k + 12) =~= t.subrange(12 * j, 12 * j + 12));
    let e = b.subrange(k, k + 12);
    tags[j].0.lemma_enc();
    off.lemma_enc();
    (sz as u32).lemma_enc();
    assert(b.subrange(k, k + 4) =~= e.subrange(0, 4));
    assert(e.subrange(0, 4) =~= tags[j].0.enc());
    crate::bytes::lemma_field(b, k, tags[j].0);
    assert(b.subrange(k + 4, k + 8) =~= e.subrange(4, 8));
    assert(e.subrange(4, 8) =~= off.enc());
    crate::bytes::lemma_field(b, k + 4, off);
    assert(b.subrange(k + 8, k + 12) =~= e.subrange(8, 12));
    assert(e.subrange(8, 12) =~= (sz as u32).enc());
    crate::bytes::lemma_field(b, k + 8, sz as u32);
    assert(b.subrange(base + dj, base + dj + sz) =~= d.subrange(dj, dj + sz));
    assert(d.subrange(dj, dj + sz) =~= encode_record(tags[j].1)) by {
        assert(d.subrange(0, dj + sz) == data_bytes(prev) + encode_record(tags[j].1));
        assert(d.subrange(dj, dj + sz) =~= d.subrange(0, dj + sz).subrange(dj, dj + sz));
    }
}

/// Entry `j` of a profile's encoding decodes to tag `j`.
proof fn lemma_step_of_encoding(m: ProfileModel, j: int)
    requires
        tags_wf(m.tags),
        0 <= j < m.tags.len(),
    ensures
        decode_step(encode_profile(m), m.tags.len(), j as nat, m.tags.take(j)) == Ok::<
            Seq<(u32, RecordModel)>,
            DecodeError,
        >(m.tags.take(j + 1)),
{
    let tags = m.tags;
    let prev = tags.take(j);
    lemma_entry_of_encoding(m, j);
    lemma_record_round_trip(tags[j].1);
    lemma_data_take(tags, j + 1);
    lemma_data_step(tags, j);
    assert(!has_tag(prev, tags[j].0));
    assert(prev.push(tags[j]) =~= tags.take(j + 1));
}

/// The tags of a profile's encoding decode, one entry after another, to the
/// profile's tags.
proof fn lemma_decode_tags_of_encoding(m: ProfileModel, i: nat)
    requires
        tags_wf(m.tags),
        i <= m.tags.len(),
    ensures
        decode_tags(encode_profile(m), m.tags.len(), i) == Ok::<Seq<(u32, RecordModel)>, DecodeError>(
            m.tags.take(i as int),
        ),
    decreases i,
{
    if i == 0 {
        assert(m.tags.take(0) =~= Seq::<(u32, RecordModel)>::empty());
    } else {
        lemma_decode_tags_of_encoding(m, (i - 1) as nat);
        lemma_step_of_encoding(m, i - 1);
    }
}

/// Decoding the encoding of a valid profile gives its tags back, with the
/// header as written (the encoding's size, and the ID or zero) and a current ID.
pub proof fn lemma_profile_round_trip(m: ProfileModel)
    requires
        tags_wf(m.tags),
    ensures
        decode_profile(encode_profile(m)) == Ok::<ProfileModel, DecodeError>(
            ProfileModel { header: written_header(m), tags: m.tags, id_current: true },
        ),
{
    let tags = m.tags;
    let n = tags.len();
    let b = encode_profile(m);
    let rest = (n as u32).enc() + table_bytes(tags, data_offset(n as int)) + data_bytes(tags);
    lemma_header_len(m);
    (n as u32).lemma_enc();
    lemma_table_len(tags, data_offset(n as int));
    assert(b =~= header_bytes(m) + rest);
    lemma_header_field(m, rest);
    assert(b.len() == encoded_len(tags));
    assert(b.subrange(132, 136) =~= (n as u32).enc());
    crate::bytes::lemma_field(b, 132, n as u32);
    lemma_decode_tags_of_encoding(m, n);
    assert(tags.take(n as int) =~= tags);
}

/// A value that names the type of its record.
pub trait TypeSignature {
    fn type_signature(&self) -> u32;
}

impl TypeSignature for Record {
    fn type_signature(&self) -> u32 {
        Record::type_signature(self)
    }
}

/// Reads profiles from bytes and writes them back.
#[derive(Debug, Copy, Clone, PartialEq, Eq, Hash, Structural)]
pub struct IccProfileReader();

impl IccProfileReader {
    pub fn read(&self, b: &[u8]) -> (r: Result<Profile, DecodeError>)
        ensures
            match r {
                Ok(p) => p.wf() && decode_profile(b@) == Ok::<ProfileModel, DecodeError>(p@),
                Err(e) => decode_profile(b@) == Err::<ProfileModel, DecodeError>(e),
            },
    {
        Profile::decode(b)
    }

    pub fn write(&self, p: &Profile) -> (r: Vec<u8>)
        requires
            p.wf(),
        ensures
            r@ == encode_profile(p@),
    {
        p.encode()
    }
}

/// Bytes whose header declares a size other than their length fail to decode
/// with `SizeMismatch`.
pub proof fn lemma_size_mismatch(b: Seq<u8>)
    requires
        b.len() >= table_offset(),
        header_at(b).profile_size as int != b.len(),
    ensures
        decode_profile(b) == Err::<ProfileModel, DecodeError>(
            DecodeError::SizeMismatch {
                declared: header_at(b).profile_size as u64,
                actual: b.len() as u64,
            },
        ),
{
}

} // verus!
