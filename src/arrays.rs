//! Records that hold a run of values of one fixed-width type.
use vstd::prelude::*;
use crate::bytes::Packed;
use crate::error::DecodeError;
use crate::numbers::{S15Fixed16, U16Fixed16, XYZNum};
use crate::record::{
    TagRecord, ArrayModel, array_wf, array_encode, array_decode, array_needed, encode_array,
    decode_array, lemma_array_round_trip, lemma_array_decoded, lemma_array_truncated,
};

verus! {

/// Type signature of `S15Fixed16Array` (`sf32`).
pub const S15_FIXED16_ARRAY_TYPE: u32 = 0x73663332;

/// A record of signed fixed-point numbers.
#[derive(Debug, Clone, PartialEq, Eq)]
pub struct S15Fixed16Array {
    pub type_signature: u32,
    pub reserved_1: u32,
    pub values: Vec<S15Fixed16>,
}

impl View for S15Fixed16Array {
    type V = ArrayModel<S15Fixed16>;

    open spec fn view(&self) -> ArrayModel<S15Fixed16> {
        ArrayModel {
            type_signature: self.type_signature,
            reserved_1: self.reserved_1,
            values: self.values@,
        }
    }
}

impl S15Fixed16Array {
    pub fn new(values: Vec<S15Fixed16>) -> (r: S15Fixed16Array)
        ensures
            r@ == (ArrayModel { type_signature: S15_FIXED16_ARRAY_TYPE, reserved_1: 0, values: values@ }),
    {
        S15Fixed16Array { type_signature: S15_FIXED16_ARRAY_TYPE, reserved_1: 0, values }
    }

    /// The length of the record's encoding.
    pub fn bytes(&self) -> (r: usize)
        requires
            8 + self.values@.len() * 4 <= usize::MAX,
            <S15Fixed16Array as TagRecord>::wf(self@),
        ensures
            r == <S15Fixed16Array as TagRecord>::spec_encode(self@).len(),
    {
        proof {
            crate::bytes::lemma_packed_len(self.values@);
        }
        8 + self.values.len() * S15Fixed16::width()
    }
}

impl From<Vec<S15Fixed16>> for S15Fixed16Array {
    fn from(values: Vec<S15Fixed16>) -> (r: S15Fixed16Array) {
        S15Fixed16Array { type_signature: S15_FIXED16_ARRAY_TYPE, reserved_1: 0, values }
    }
}

impl vstd::std_specs::convert::FromSpecImpl<Vec<S15Fixed16>> for S15Fixed16Array {
    open spec fn obeys_from_spec() -> bool {
        true
    }

    open spec fn from_spec(values: Vec<S15Fixed16>) -> S15Fixed16Array {
        S15Fixed16Array { type_signature: S15_FIXED16_ARRAY_TYPE, reserved_1: 0, values }
    }
}

impl From<S15Fixed16Array> for Vec<S15Fixed16> {
    fn from(value: S15Fixed16Array) -> (r: Vec<S15Fixed16>) {
        value.values
    }
}

impl vstd::std_specs::convert::FromSpecImpl<S15Fixed16Array> for Vec<S15Fixed16> {
    open spec fn obeys_from_spec() -> bool {
        true
    }

    open spec fn from_spec(value: S15Fixed16Array) -> Vec<S15Fixed16> {
        value.values
    }
}

impl Default for S15Fixed16Array {
    fn default() -> (r: S15Fixed16Array)
        ensures
            r@ == (ArrayModel::<S15Fixed16> {
                type_signature: S15_FIXED16_ARRAY_TYPE,
                reserved_1: 0,
                values: Seq::empty(),
            }),
    {
        S15Fixed16Array::new(Vec::new())
    }
}

impl TagRecord for S15Fixed16Array {
    open spec fn spec_type_signature() -> u32 {
        S15_FIXED16_ARRAY_TYPE
    }

    open spec fn wf(m: ArrayModel<S15Fixed16>) -> bool {
        array_wf(m, S15_FIXED16_ARRAY_TYPE)
    }

    open spec fn spec_encode(m: ArrayModel<S15Fixed16>) -> Seq<u8> {
        array_encode(m)
    }

    open spec fn spec_needed(b: Seq<u8>) -> int {
        array_needed::<S15Fixed16>(b)
    }

    open spec fn spec_decode(b: Seq<u8>) -> Result<ArrayModel<S15Fixed16>, DecodeError> {
        array_decode::<S15Fixed16>(b, S15_FIXED16_ARRAY_TYPE)
    }

    fn type_signature(&self) -> (r: u32) {
        S15_FIXED16_ARRAY_TYPE
    }

    fn check(&self) -> (r: bool) {
        self.type_signature == S15_FIXED16_ARRAY_TYPE
    }

    fn encode(&self) -> (r: Vec<u8>) {
        encode_array(self.type_signature, self.reserved_1, &self.values)
    }

    fn decode(b: &[u8]) -> (r: Result<S15Fixed16Array, DecodeError>) {
        match decode_array::<S15Fixed16>(b, S15_FIXED16_ARRAY_TYPE) {
            Ok((reserved_1, values)) => Ok(S15Fixed16Array { type_signature: S15_FIXED16_ARRAY_TYPE, reserved_1, values }),
            Err(e) => Err(e),
        }
    }

    proof fn lemma_round_trip(m: ArrayModel<S15Fixed16>) {
        lemma_array_round_trip(m, S15_FIXED16_ARRAY_TYPE);
    }

    proof fn lemma_decoded(b: Seq<u8>) {
        lemma_array_decoded::<S15Fixed16>(b, S15_FIXED16_ARRAY_TYPE);
        if let Ok(m) = array_decode::<S15Fixed16>(b, S15_FIXED16_ARRAY_TYPE) {
            crate::bytes::lemma_packed_len(m.values);
        }
    }

    proof fn lemma_truncated(b: Seq<u8>) {
        lemma_array_truncated::<S15Fixed16>(b, S15_FIXED16_ARRAY_TYPE);
    }
}

/// Type signature of `U16Fixed16Array` (`uf32`).
pub const U16_FIXED16_ARRAY_TYPE: u32 = 0x75663332;

/// A record of unsigned fixed-point numbers.
#[derive(Debug, Clone, PartialEq, Eq)]
pub struct U16Fixed16Array {
    pub type_signature: u32,
    pub reserved_1: u32,
    pub values: Vec<U16Fixed16>,
}

impl View for U16Fixed16Array {
    type V = ArrayModel<U16Fixed16>;

    open spec fn view(&self) -> ArrayModel<U16Fixed16> {
        ArrayModel {
            type_signature: self.type_signature,
            reserved_1: self.reserved_1,
            values: self.values@,
        }
    }
}

impl U16Fixed16Array {
    pub fn new(values: Vec<U16Fixed16>) -> (r: U16Fixed16Array)
        ensures
            r@ == (ArrayModel { type_signature: U16_FIXED16_ARRAY_TYPE, reserved_1: 0, values: values@ }),
    {
        U16Fixed16Array { type_signature: U16_FIXED16_ARRAY_TYPE, reserved_1: 0, values }
    }

    /// The length of the record's encoding.
    pub fn bytes(&self) -> (r: usize)
        requires
            8 + self.values@.len() * 4 <= usize::MAX,
            <U16Fixed16Array as TagRecord>::wf(self@),
        ensures
            r == <U16Fixed16Array as TagRecord>::spec_encode(self@).len(),
    {
        proof {
            crate::bytes::lemma_packed_len(self.values@);
        }
        8 + self.values.len() * U16Fixed16::width()
    }
}

impl From<Vec<U16Fixed16>> for U16Fixed16Array {
    fn from(values: Vec<U16Fixed16>) -> (r: U16Fixed16Array) {
        U16Fixed16Array { type_signature: U16_FIXED16_ARRAY_TYPE, reserved_1: 0, values }
    }
}

impl vstd::std_specs::convert::FromSpecImpl<Vec<U16Fixed16>> for U16Fixed16Array {
    open spec fn obeys_from_spec() -> bool {
        true
    }

    open spec fn from_spec(values: Vec<U16Fixed16>) -> U16Fixed16Array {
        U16Fixed16Array { type_signature: U16_FIXED16_ARRAY_TYPE, reserved_1: 0, values }
    }
}

impl From<U16Fixed16Array> for Vec<U16Fixed16> {
    fn from(value: U16Fixed16Array) -> (r: Vec<U16Fixed16>) {
        value.values
    }
}

impl vstd::std_specs::convert::FromSpecImpl<U16Fixed16Array> for Vec<U16Fixed16> {
    open spec fn obeys_from_spec() -> bool {
        true
    }

    open spec fn from_spec(value: U16Fixed16Array) -> Vec<U16Fixed16> {
        value.values
    }
}

impl Default for U16Fixed16Array {
    fn default() -> (r: U16Fixed16Array)
        ensures
            r@ == (ArrayModel::<U16Fixed16> {
                type_signature: U16_FIXED16_ARRAY_TYPE,
                reserved_1: 0,
                values: Seq::empty(),
            }),
    {
        U16Fixed16Array::new(Vec::new())
    }
}

impl TagRecord for U16Fixed16Array {
    open spec fn spec_type_signature() -> u32 {
        U16_FIXED16_ARRAY_TYPE
    }

    open spec fn wf(m: ArrayModel<U16Fixed16>) -> bool {
        array_wf(m, U16_FIXED16_ARRAY_TYPE)
    }

    open spec fn spec_encode(m: ArrayModel<U16Fixed16>) -> Seq<u8> {
        array_encode(m)
    }

    open spec fn spec_needed(b: Seq<u8>) -> int {
        array_needed::<U16Fixed16>(b)
    }

    open spec fn spec_decode(b: Seq<u8>) -> Result<ArrayModel<U16Fixed16>, DecodeError> {
        array_decode::<U16Fixed16>(b, U16_FIXED16_ARRAY_TYPE)
    }

    fn type_signature(&self) -> (r: u32) {
        U16_FIXED16_ARRAY_TYPE
    }

    fn check(&self) -> (r: bool) {
        self.type_signature == U16_FIXED16_ARRAY_TYPE
    }

    fn encode(&self) -> (r: Vec<u8>) {
        encode_array(self.type_signature, self.reserved_1, &self.values)
    }

    fn decode(b: &[u8]) -> (r: Result<U16Fixed16Array, DecodeError>) {
        match decode_array::<U16Fixed16>(b, U16_FIXED16_ARRAY_TYPE) {
            Ok((reserved_1, values)) => Ok(U16Fixed16Array { type_signature: U16_FIXED16_ARRAY_TYPE, reserved_1, values }),
            Err(e) => Err(e),
        }
    }

    proof fn lemma_round_trip(m: ArrayModel<U16Fixed16>) {
        lemma_array_round_trip(m, U16_FIXED16_ARRAY_TYPE);
    }

    proof fn lemma_decoded(b: Seq<u8>) {
        lemma_array_decoded::<U16Fixed16>(b, U16_FIXED16_ARRAY_TYPE);
        if let Ok(m) = array_decode::<U16Fixed16>(b, U16_FIXED16_ARRAY_TYPE) {
            crate::bytes::lemma_packed_len(m.values);
        }
    }

    proof fn lemma_truncated(b: Seq<u8>) {
        lemma_array_truncated::<U16Fixed16>(b, U16_FIXED16_ARRAY_TYPE);
    }
}

/// Type signature of `U16Array` (`ui16`).
pub const U16_ARRAY_TYPE: u32 = 0x75693136;

/// A record of 16-bit unsigned integers.
#[derive(Debug, Clone, PartialEq, Eq)]
pub struct U16Array {
    pub type_signature: u32,
    pub reserved_1: u32,
    pub values: Vec<u16>,
}

impl View for U16Array {
    type V = ArrayModel<u16>;

    open spec fn view(&self) -> ArrayModel<u16> {
        ArrayModel {
            type_signature: self.type_signature,
            reserved_1: self.reserved_1,
            values: self.values@,
        }
    }
}

impl U16Array {
    pub fn new(values: Vec<u16>) -> (r: U16Array)
        ensures
            r@ == (ArrayModel { type_signature: U16_ARRAY_TYPE, reserved_1: 0, values: values@ }),
    {
        U16Array { type_signature: U16_ARRAY_TYPE, reserved_1: 0, values }
    }

    /// The length of the record's encoding.
    pub fn bytes(&self) -> (r: usize)
        requires
            8 + self.values@.len() * 2 <= usize::MAX,
            <U16Array as TagRecord>::wf(self@),
        ensures
            r == <U16Array as TagRecord>::spec_encode(self@).len(),
    {
        proof {
            crate::bytes::lemma_packed_len(self.values@);
        }
        8 + self.values.len() * u16::width()
    }
}

impl From<Vec<u16>> for U16Array {
    fn from(values: Vec<u16>) -> (r: U16Array) {
        U16Array { type_signature: U16_ARRAY_TYPE, reserved_1: 0, values }
    }
}

impl vstd::std_specs::convert::FromSpecImpl<Vec<u16>> for U16Array {
    open spec fn obeys_from_spec() -> bool {
        true
    }

    open spec fn from_spec(values: Vec<u16>) -> U16Array {
        U16Array { type_signature: U16_ARRAY_TYPE, reserved_1: 0, values }
    }
}

impl From<U16Array> for Vec<u16> {
    fn from(value: U16Array) -> (r: Vec<u16>) {
        value.values
    }
}

impl vstd::std_specs::convert::FromSpecImpl<U16Array> for Vec<u16> {
    open spec fn obeys_from_spec() -> bool {
        true
    }

    open spec fn from_spec(value: U16Array) -> Vec<u16> {
        value.values
    }
}

impl Default for U16Array {
    fn default() -> (r: U16Array)
        ensures
            r@ == (ArrayModel::<u16> {
                type_signature: U16_ARRAY_TYPE,
                reserved_1: 0,
                values: Seq::empty(),
            }),
    {
        U16Array::new(Vec::new())
    }
}

impl TagRecord for U16Array {
    open spec fn spec_type_signature() -> u32 {
        U16_ARRAY_TYPE
    }

    open spec fn wf(m: ArrayModel<u16>) -> bool {
        array_wf(m, U16_ARRAY_TYPE)
    }

    open spec fn spec_encode(m: ArrayModel<u16>) -> Seq<u8> {
        array_encode(m)
    }

    open spec fn spec_needed(b: Seq<u8>) -> int {
        array_needed::<u16>(b)
    }

    open spec fn spec_decode(b: Seq<u8>) -> Result<ArrayModel<u16>, DecodeError> {
        array_decode::<u16>(b, U16_ARRAY_TYPE)
    }

    fn type_signature(&self) -> (r: u32) {
        U16_ARRAY_TYPE
    }

    fn check(&self) -> (r: bool) {
        self.type_signature == U16_ARRAY_TYPE
    }

    fn encode(&self) -> (r: Vec<u8>) {
        encode_array(self.type_signature, self.reserved_1, &self.values)
    }

    fn decode(b: &[u8]) -> (r: Result<U16Array, DecodeError>) {
        match decode_array::<u16>(b, U16_ARRAY_TYPE) {
            Ok((reserved_1, values)) => Ok(U16Array { type_signature: U16_ARRAY_TYPE, reserved_1, values }),
            Err(e) => Err(e),
        }
    }

    proof fn lemma_round_trip(m: ArrayModel<u16>) {
        lemma_array_round_trip(m, U16_ARRAY_TYPE);
    }

    proof fn lemma_decoded(b: Seq<u8>) {
        lemma_array_decoded::<u16>(b, U16_ARRAY_TYPE);
        if let Ok(m) = array_decode::<u16>(b, U16_ARRAY_TYPE) {
            crate::bytes::lemma_packed_len(m.values);
        }
    }

    proof fn lemma_truncated(b: Seq<u8>) {
        lemma_array_truncated::<u16>(b, U16_ARRAY_TYPE);
    }
}

/// Type signature of `U32Array` (`ui32`).
pub const U32_ARRAY_TYPE: u32 = 0x75693332;

/// A record of 32-bit unsigned integers.
#[derive(Debug, Clone, PartialEq, Eq)]
pub struct U32Array {
    pub type_signature: u32,
    pub reserved_1: u32,
    pub values: Vec<u32>,
}

impl View for U32Array {
    type V = ArrayModel<u32>;

    open spec fn view(&self) -> ArrayModel<u32> {
        ArrayModel {
            type_signature: self.type_signature,
            reserved_1: self.reserved_1,
            values: self.values@,
        }
    }
}

impl U32Array {
    pub fn new(values: Vec<u32>) -> (r: U32Array)
        ensures
            r@ == (ArrayModel { type_signature: U32_ARRAY_TYPE, reserved_1: 0, values: values@ }),
    {
        U32Array { type_signature: U32_ARRAY_TYPE, reserved_1: 0, values }
    }

    /// The length of the record's encoding.
    pub fn bytes(&self) -> (r: usize)
        requires
            8 + self.values@.len() * 4 <= usize::MAX,
            <U32Array as TagRecord>::wf(self@),
        ensures
            r == <U32Array as TagRecord>::spec_encode(self@).len(),
    {
        proof {
            crate::bytes::lemma_packed_len(self.values@);
        }
        8 + self.values.len() * u32::width()
    }
}

impl From<Vec<u32>> for U32Array {
    fn from(values: Vec<u32>) -> (r: U32Array) {
        U32Array { type_signature: U32_ARRAY_TYPE, reserved_1: 0, values }
    }
}

impl vstd::std_specs::convert::FromSpecImpl<Vec<u32>> for U32Array {
    open spec fn obeys_from_spec() -> bool {
        true
    }

    open spec fn from_spec(values: Vec<u32>) -> U32Array {
        U32Array { type_signature: U32_ARRAY_TYPE, reserved_1: 0, values }
    }
}

impl From<U32Array> for Vec<u32> {
    fn from(value: U32Array) -> (r: Vec<u32>) {
        value.values
    }
}

impl vstd::std_specs::convert::FromSpecImpl<U32Array> for Vec<u32> {
    open spec fn obeys_from_spec() -> bool {
        true
    }

    open spec fn from_spec(value: U32Array) -> Vec<u32> {
        value.values
    }
}

impl Default for U32Array {
    fn default() -> (r: U32Array)
        ensures
            r@ == (ArrayModel::<u32> {
                type_signature: U32_ARRAY_TYPE,
                reserved_1: 0,
                values: Seq::empty(),
            }),
    {
        U32Array::new(Vec::new())
    }
}

impl TagRecord for U32Array {
    open spec fn spec_type_signature() -> u32 {
        U32_ARRAY_TYPE
    }

    open spec fn wf(m: ArrayModel<u32>) -> bool {
        array_wf(m, U32_ARRAY_TYPE)
    }

    open spec fn spec_encode(m: ArrayModel<u32>) -> Seq<u8> {
        array_encode(m)
    }

    open spec fn spec_needed(b: Seq<u8>) -> int {
        array_needed::<u32>(b)
    }

    open spec fn spec_decode(b: Seq<u8>) -> Result<ArrayModel<u32>, DecodeError> {
        array_decode::<u32>(b, U32_ARRAY_TYPE)
    }

    fn type_signature(&self) -> (r: u32) {
        U32_ARRAY_TYPE
    }

    fn check(&self) -> (r: bool) {
        self.type_signature == U32_ARRAY_TYPE
    }

    fn encode(&self) -> (r: Vec<u8>) {
        encode_array(self.type_signature, self.reserved_1, &self.values)
    }

    fn decode(b: &[u8]) -> (r: Result<U32Array, DecodeError>) {
        match decode_array::<u32>(b, U32_ARRAY_TYPE) {
            Ok((reserved_1, values)) => Ok(U32Array { type_signature: U32_ARRAY_TYPE, reserved_1, values }),
            Err(e) => Err(e),
        }
    }

    proof fn lemma_round_trip(m: ArrayModel<u32>) {
        lemma_array_round_trip(m, U32_ARRAY_TYPE);
    }

    proof fn lemma_decoded(b: Seq<u8>) {
        lemma_array_decoded::<u32>(b, U32_ARRAY_TYPE);
        if let Ok(m) = array_decode::<u32>(b, U32_ARRAY_TYPE) {
            crate::bytes::lemma_packed_len(m.values);
        }
    }

    proof fn lemma_truncated(b: Seq<u8>) {
        lemma_array_truncated::<u32>(b, U32_ARRAY_TYPE);
    }
}

/// Type signature of `U64Array` (`ui64`).
pub const U64_ARRAY_TYPE: u32 = 0x75693634;

/// A record of 64-bit unsigned integers.
#[derive(Debug, Clone, PartialEq, Eq)]
pub struct U64Array {
    pub type_signature: u32,
    pub reserved_1: u32,
    pub values: Vec<u64>,
}

impl View for U64Array {
    type V = ArrayModel<u64>;

    open spec fn view(&self) -> ArrayModel<u64> {
        ArrayModel {
            type_signature: self.type_signature,
            reserved_1: self.reserved_1,
            values: self.values@,
        }
    }
}

impl U64Array {
    pub fn new(values: Vec<u64>) -> (r: U64Array)
        ensures
            r@ == (ArrayModel { type_signature: U64_ARRAY_TYPE, reserved_1: 0, values: values@ }),
    {
        U64Array { type_signature: U64_ARRAY_TYPE, reserved_1: 0, values }
    }

    /// The length of the record's encoding.
    pub fn bytes(&self) -> (r: usize)
        requires
            8 + self.values@.len() * 8 <= usize::MAX,
            <U64Array as TagRecord>::wf(self@),
        ensures
            r == <U64Array as TagRecord>::spec_encode(self@).len(),
    {
        proof {
            crate::bytes::lemma_packed_len(self.values@);
        }
        8 + self.values.len() * u64::width()
    }
}

impl From<Vec<u64>> for U64Array {
    fn from(values: Vec<u64>) -> (r: U64Array) {
        U64Array { type_signature: U64_ARRAY_TYPE, reserved_1: 0, values }
    }
}

impl vstd::std_specs::convert::FromSpecImpl<Vec<u64>> for U64Array {
    open spec fn obeys_from_spec() -> bool {
        true
    }

    open spec fn from_spec(values: Vec<u64>) -> U64Array {
        U64Array { type_signature: U64_ARRAY_TYPE, reserved_1: 0, values }
    }
}

impl From<U64Array> for Vec<u64> {
    fn from(value: U64Array) -> (r: Vec<u64>) {
        value.values
    }
}

impl vstd::std_specs::convert::FromSpecImpl<U64Array> for Vec<u64> {
    open spec fn obeys_from_spec() -> bool {
        true
    }

    open spec fn from_spec(value: U64Array) -> Vec<u64> {
        value.values
    }
}

impl Default for U64Array {
    fn default() -> (r: U64Array)
        ensures
            r@ == (ArrayModel::<u64> {
                type_signature: U64_ARRAY_TYPE,
                reserved_1: 0,
                values: Seq::empty(),
            }),
    {
        U64Array::new(Vec::new())
    }
}

impl TagRecord for U64Array {
    open spec fn spec_type_signature() -> u32 {
        U64_ARRAY_TYPE
    }

    open spec fn wf(m: ArrayModel<u64>) -> bool {
        array_wf(m, U64_ARRAY_TYPE)
    }

    open spec fn spec_encode(m: ArrayModel<u64>) -> Seq<u8> {
        array_encode(m)
    }

    open spec fn spec_needed(b: Seq<u8>) -> int {
        array_needed::<u64>(b)
    }

    open spec fn spec_decode(b: Seq<u8>) -> Result<ArrayModel<u64>, DecodeError> {
        array_decode::<u64>(b, U64_ARRAY_TYPE)
    }

    fn type_signature(&self) -> (r: u32) {
        U64_ARRAY_TYPE
    }

    fn check(&self) -> (r: bool) {
        self.type_signature == U64_ARRAY_TYPE
    }

    fn encode(&self) -> (r: Vec<u8>) {
        encode_array(self.type_signature, self.reserved_1, &self.values)
    }

    fn decode(b: &[u8]) -> (r: Result<U64Array, DecodeError>) {
        match decode_array::<u64>(b, U64_ARRAY_TYPE) {
            Ok((reserved_1, values)) => Ok(U64Array { type_signature: U64_ARRAY_TYPE, reserved_1, values }),
            Err(e) => Err(e),
        }
    }

    proof fn lemma_round_trip(m: ArrayModel<u64>) {
        lemma_array_round_trip(m, U64_ARRAY_TYPE);
    }

    proof fn lemma_decoded(b: Seq<u8>) {
        lemma_array_decoded::<u64>(b, U64_ARRAY_TYPE);
        if let Ok(m) = array_decode::<u64>(b, U64_ARRAY_TYPE) {
            crate::bytes::lemma_packed_len(m.values);
        }
    }

    proof fn lemma_truncated(b: Seq<u8>) {
        lemma_array_truncated::<u64>(b, U64_ARRAY_TYPE);
    }
}

/// Type signature of `U8Array` (`ui08`).
pub const U8_ARRAY_TYPE: u32 = 0x75693038;

/// A record of 8-bit unsigned integers.
#[derive(Debug, Clone, PartialEq, Eq)]
pub struct U8Array {
    pub type_signature: u32,
    pub reserved_1: u32,
    pub values: Vec<u8>,
}

impl View for U8Array {
    type V = ArrayModel<u8>;

    open spec fn view(&self) -> ArrayModel<u8> {
        ArrayModel {
            type_signature: self.type_signature,
            reserved_1: self.reserved_1,
            values: self.values@,
        }
    }
}

impl U8Array {
    pub fn new(values: Vec<u8>) -> (r: U8Array)
        ensures
            r@ == (ArrayModel { type_signature: U8_ARRAY_TYPE, reserved_1: 0, values: values@ }),
    {
        U8Array { type_signature: U8_ARRAY_TYPE, reserved_1: 0, values }
    }

    /// The length of the record's encoding.
    pub fn bytes(&self) -> (r: usize)
        requires
            8 + self.values@.len() * 1 <= usize::MAX,
            <U8Array as TagRecord>::wf(self@),
        ensures
            r == <U8Array as TagRecord>::spec_encode(self@).len(),
    {
        proof {
            crate::bytes::lemma_packed_len(self.values@);
        }
        8 + self.values.len() * u8::width()
    }
}

impl From<Vec<u8>> for U8Array {
    fn from(values: Vec<u8>) -> (r: U8Array) {
        U8Array { type_signature: U8_ARRAY_TYPE, reserved_1: 0, values }
    }
}

impl vstd::std_specs::convert::FromSpecImpl<Vec<u8>> for U8Array {
    open spec fn obeys_from_spec() -> bool {
        true
    }

    open spec fn from_spec(values: Vec<u8>) -> U8Array {
        U8Array { type_signature: U8_ARRAY_TYPE, reserved_1: 0, values }
    }
}

impl From<U8Array> for Vec<u8> {
    fn from(value: U8Array) -> (r: Vec<u8>) {
        value.values
    }
}

impl vstd::std_specs::convert::FromSpecImpl<U8Array> for Vec<u8> {
    open spec fn obeys_from_spec() -> bool {
        true
    }

    open spec fn from_spec(value: U8Array) -> Vec<u8> {
        value.values
    }
}

impl Default for U8Array {
    fn default() -> (r: U8Array)
        ensures
            r@ == (ArrayModel::<u8> {
                type_signature: U8_ARRAY_TYPE,
                reserved_1: 0,
                values: Seq::empty(),
            }),
    {
        U8Array::new(Vec::new())
    }
}

impl TagRecord for U8Array {
    open spec fn spec_type_signature() -> u32 {
        U8_ARRAY_TYPE
    }

    open spec fn wf(m: ArrayModel<u8>) -> bool {
        array_wf(m, U8_ARRAY_TYPE)
    }

    open spec fn spec_encode(m: ArrayModel<u8>) -> Seq<u8> {
        array_encode(m)
    }

    open spec fn spec_needed(b: Seq<u8>) -> int {
        array_needed::<u8>(b)
    }

    open spec fn spec_decode(b: Seq<u8>) -> Result<ArrayModel<u8>, DecodeError> {
        array_decode::<u8>(b, U8_ARRAY_TYPE)
    }

    fn type_signature(&self) -> (r: u32) {
        U8_ARRAY_TYPE
    }

    fn check(&self) -> (r: bool) {
        self.type_signature == U8_ARRAY_TYPE
    }

    fn encode(&self) -> (r: Vec<u8>) {
        encode_array(self.type_signature, self.reserved_1, &self.values)
    }

    fn decode(b: &[u8]) -> (r: Result<U8Array, DecodeError>) {
        match decode_array::<u8>(b, U8_ARRAY_TYPE) {
            Ok((reserved_1, values)) => Ok(U8Array { type_signature: U8_ARRAY_TYPE, reserved_1, values }),
            Err(e) => Err(e),
        }
    }

    proof fn lemma_round_trip(m: ArrayModel<u8>) {
        lemma_array_round_trip(m, U8_ARRAY_TYPE);
    }

    proof fn lemma_decoded(b: Seq<u8>) {
        lemma_array_decoded::<u8>(b, U8_ARRAY_TYPE);
        if let Ok(m) = array_decode::<u8>(b, U8_ARRAY_TYPE) {
            crate::bytes::lemma_packed_len(m.values);
        }
    }

    proof fn lemma_truncated(b: Seq<u8>) {
        lemma_array_truncated::<u8>(b, U8_ARRAY_TYPE);
    }
}

/// Type signature of `XYZType` (`XYZ `).
pub const XYZ_TYPE: u32 = 0x58595A20;

/// A record of CIE XYZ triples.
#[derive(Debug, Clone, PartialEq, Eq)]
pub struct XYZType {
    pub type_signature: u32,
    pub reserved_1: u32,
    pub values: Vec<XYZNum>,
}

impl View for XYZType {
    type V = ArrayModel<XYZNum>;

    open spec fn view(&self) -> ArrayModel<XYZNum> {
        ArrayModel {
            type_signature: self.type_signature,
            reserved_1: self.reserved_1,
            values: self.values@,
        }
    }
}

impl XYZType {
    pub fn new(values: Vec<XYZNum>) -> (r: XYZType)
        ensures
            r@ == (ArrayModel { type_signature: XYZ_TYPE, reserved_1: 0, values: values@ }),
    {
        XYZType { type_signature: XYZ_TYPE, reserved_1: 0, values }
    }

    /// The length of the record's encoding.
    pub fn bytes(&self) -> (r: usize)
        requires
            8 + self.values@.len() * 12 <= usize::MAX,
            <XYZType as TagRecord>::wf(self@),
        ensures
            r == <XYZType as TagRecord>::spec_encode(self@).len(),
    {
        proof {
            crate::bytes::lemma_packed_len(self.values@);
        }
        8 + self.values.len() * XYZNum::width()
    }
}

impl From<Vec<XYZNum>> for XYZType {
    fn from(values: Vec<XYZNum>) -> (r: XYZType) {
        XYZType { type_signature: XYZ_TYPE, reserved_1: 0, values }
    }
}

impl vstd::std_specs::convert::FromSpecImpl<Vec<XYZNum>> for XYZType {
    open spec fn obeys_from_spec() -> bool {
        true
    }

    open spec fn from_spec(values: Vec<XYZNum>) -> XYZType {
        XYZType { type_signature: XYZ_TYPE, reserved_1: 0, values }
    }
}

impl From<XYZType> for Vec<XYZNum> {
    fn from(value: XYZType) -> (r: Vec<XYZNum>) {
        value.values
    }
}

impl vstd::std_specs::convert::FromSpecImpl<XYZType> for Vec<XYZNum> {
    open spec fn obeys_from_spec() -> bool {
        true
    }

    open spec fn from_spec(value: XYZType) -> Vec<XYZNum> {
        value.values
    }
}

impl Default for XYZType {
    fn default() -> (r: XYZType)
        ensures
            r@ == (ArrayModel::<XYZNum> {
                type_signature: XYZ_TYPE,
                reserved_1: 0,
                values: Seq::empty(),
            }),
    {
        XYZType::new(Vec::new())
    }
}

impl TagRecord for XYZType {
    open spec fn spec_type_signature() -> u32 {
        XYZ_TYPE
    }

    open spec fn wf(m: ArrayModel<XYZNum>) -> bool {
        array_wf(m, XYZ_TYPE)
    }

    open spec fn spec_encode(m: ArrayModel<XYZNum>) -> Seq<u8> {
        array_encode(m)
    }

    open spec fn spec_needed(b: Seq<u8>) -> int {
        array_needed::<XYZNum>(b)
    }

    open spec fn spec_decode(b: Seq<u8>) -> Result<ArrayModel<XYZNum>, DecodeError> {
        array_decode::<XYZNum>(b, XYZ_TYPE)
    }

    fn type_signature(&self) -> (r: u32) {
        XYZ_TYPE
    }

    fn check(&self) -> (r: bool) {
        self.type_signature == XYZ_TYPE
    }

    fn encode(&self) -> (r: Vec<u8>) {
        encode_array(self.type_signature, self.reserved_1, &self.values)
    }

    fn decode(b: &[u8]) -> (r: Result<XYZType, DecodeError>) {
        match decode_array::<XYZNum>(b, XYZ_TYPE) {
            Ok((reserved_1, values)) => Ok(XYZType { type_signature: XYZ_TYPE, reserved_1, values }),
            Err(e) => Err(e),
        }
    }

    proof fn lemma_round_trip(m: ArrayModel<XYZNum>) {
        lemma_array_round_trip(m, XYZ_TYPE);
    }

    proof fn lemma_decoded(b: Seq<u8>) {
        lemma_array_decoded::<XYZNum>(b, XYZ_TYPE);
        if let Ok(m) = array_decode::<XYZNum>(b, XYZ_TYPE) {
            crate::bytes::lemma_packed_len(m.values);
        }
    }

    proof fn lemma_truncated(b: Seq<u8>) {
        lemma_array_truncated::<XYZNum>(b, XYZ_TYPE);
    }
}

} // verus!