//! Text and signature records.
use vstd::prelude::*;
use crate::bytes::{Packed, field, lemma_field};
use crate::error::DecodeError;
use crate::numbers::Bit7Ascii;
use crate::record::{
    TagRecord, ArrayModel, array_wf, array_encode, array_decode, array_needed, encode_array,
    decode_array, lemma_array_round_trip, lemma_array_decoded, lemma_array_truncated, head_error,
    check_head, head_bytes, lemma_head, start_record,
};

verus! {

/// Type signature of `Text` (`text`).
pub const TEXT_TYPE: u32 = 0x74657874;

/// Type signature of `Signature` (`sig `).
pub const SIGNATURE_TYPE: u32 = 0x73696720;

/// A record of 7-bit ASCII text, which runs to the end of the record.
#[derive(Debug, Clone, PartialEq, Eq)]
pub struct Text {
    pub type_signature: u32,
    pub reserved_1: u32,
    pub text: Vec<Bit7Ascii>,
}

impl View for Text {
    type V = ArrayModel<Bit7Ascii>;

    open spec fn view(&self) -> ArrayModel<Bit7Ascii> {
        ArrayModel { type_signature: self.type_signature, reserved_1: self.reserved_1, values: self.text@ }
    }
}

impl Text {
    pub fn new(text: Vec<Bit7Ascii>) -> (r: Text)
        ensures
            r@ == (ArrayModel { type_signature: TEXT_TYPE, reserved_1: 0, values: text@ }),
    {
        Text { type_signature: TEXT_TYPE, reserved_1: 0, text }
    }

    pub fn reserved(&self) -> (r: u32)
        ensures
            r == self.reserved_1,
    {
        self.reserved_1
    }
}

impl TagRecord for Text {
    open spec fn spec_type_signature() -> u32 {
        TEXT_TYPE
    }

    open spec fn wf(m: ArrayModel<Bit7Ascii>) -> bool {
        array_wf(m, TEXT_TYPE)
    }

    open spec fn spec_encode(m: ArrayModel<Bit7Ascii>) -> Seq<u8> {
        array_encode(m)
    }

    open spec fn spec_needed(b: Seq<u8>) -> int {
        array_needed::<Bit7Ascii>(b)
    }

    open spec fn spec_decode(b: Seq<u8>) -> Result<ArrayModel<Bit7Ascii>, DecodeError> {
        array_decode::<Bit7Ascii>(b, TEXT_TYPE)
    }

    fn type_signature(&self) -> (r: u32) {
        TEXT_TYPE
    }

    fn check(&self) -> (r: bool) {
        self.type_signature == TEXT_TYPE
    }

    fn encode(&self) -> (r: Vec<u8>) {
        encode_array(self.type_signature, self.reserved_1, &self.text)
    }

    fn decode(b: &[u8]) -> (r: Result<Text, DecodeError>) {
        match decode_array::<Bit7Ascii>(b, TEXT_TYPE) {
            Ok((reserved_1, text)) => Ok(Text { type_signature: TEXT_TYPE, reserved_1, text }),
            Err(e) => Err(e),
        }
    }

    proof fn lemma_round_trip(m: ArrayModel<Bit7Ascii>) {
        lemma_array_round_trip(m, TEXT_TYPE);
    }

    proof fn lemma_decoded(b: Seq<u8>) {
        lemma_array_decoded::<Bit7Ascii>(b, TEXT_TYPE);
    }

    proof fn lemma_truncated(b: Seq<u8>) {
        lemma_array_truncated::<Bit7Ascii>(b, TEXT_TYPE);
    }
}

/// A record holding one four-byte signature.
#[derive(Debug, Copy, Clone, PartialEq, Eq, Structural)]
pub struct Signature {
    pub type_signature: u32,
    pub reserved_1: u32,
    pub signature: u32,
}

impl View for Signature {
    type V = Signature;

    open spec fn view(&self) -> Signature {
        *self
    }
}

impl Signature {
    pub fn new(signature: u32) -> (r: Signature)
        ensures
            r == (Signature { type_signature: SIGNATURE_TYPE, reserved_1: 0, signature }),
    {
        Signature { type_signature: SIGNATURE_TYPE, reserved_1: 0, signature }
    }
}

impl TagRecord for Signature {
    open spec fn spec_type_signature() -> u32 {
        SIGNATURE_TYPE
    }

    open spec fn wf(m: Signature) -> bool {
        m.type_signature == SIGNATURE_TYPE
    }

    open spec fn spec_encode(m: Signature) -> Seq<u8> {
        head_bytes(m.type_signature, m.reserved_1) + m.signature.enc()
    }

    open spec fn spec_needed(b: Seq<u8>) -> int {
        12
    }

    open spec fn spec_decode(b: Seq<u8>) -> Result<Signature, DecodeError> {
        match head_error(b, SIGNATURE_TYPE, 12) {
            Some(e) => Err(e),
            None => Ok(
                Signature {
                    type_signature: SIGNATURE_TYPE,
                    reserved_1: field::<u32>(b, 4),
                    signature: field::<u32>(b, 8),
                },
            ),
        }
    }

    fn type_signature(&self) -> (r: u32) {
        SIGNATURE_TYPE
    }

    fn check(&self) -> (r: bool) {
        self.type_signature == SIGNATURE_TYPE
    }

    fn encode(&self) -> (r: Vec<u8>) {
        let mut out = start_record(self.type_signature, self.reserved_1);
        self.signature.push_to(&mut out);
        out
    }

    fn decode(b: &[u8]) -> (r: Result<Signature, DecodeError>) {
        match check_head(b, SIGNATURE_TYPE, 12) {
            Err(e) => Err(e),
            Ok(()) => Ok(
                Signature {
                    type_signature: SIGNATURE_TYPE,
                    reserved_1: u32::read_at(b, 4),
                    signature: u32::read_at(b, 8),
                },
            ),
        }
    }

    proof fn lemma_round_trip(m: Signature) {
        let rest = m.signature.enc();
        lemma_head(m.type_signature, m.reserved_1, rest);
        let b = Self::spec_encode(m);
        m.signature.lemma_enc();
        lemma_field(b, 8, m.signature);
    }

    proof fn lemma_decoded(b: Seq<u8>) {
    }

    proof fn lemma_truncated(b: Seq<u8>) {
    }
}

} // verus!
