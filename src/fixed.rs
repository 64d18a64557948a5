//! Records of a fixed size.
use vstd::prelude::*;
use crate::bytes::{Packed, field, lemma_field};
use crate::error::DecodeError;
use crate::record::{TagRecord, fixed_decode, decode_fixed, lemma_fixed_round_trip, lemma_fixed_decoded};

verus! {

/// Type signature of `DataType` (`data`).
pub const DATA_TYPE: u32 = 0x64617461;

/// A record holding a data flag.
#[derive(Debug, Copy, Clone, PartialEq, Eq, Structural)]
pub struct DataType {
    pub type_signature: u32,
    pub reserved_1: u32,
    pub data_flag: u32,
}

impl View for DataType {
    type V = DataType;

    open spec fn view(&self) -> DataType {
        *self
    }
}

impl DataType {
    pub fn new(data_flag: u32) -> (r: DataType)
        ensures
            r == (DataType { type_signature: DATA_TYPE, reserved_1: 0, data_flag }),
    {
        DataType { type_signature: DATA_TYPE, reserved_1: 0, data_flag }
    }
}

impl Packed for DataType {
    open spec fn spec_width() -> nat {
        12
    }

    open spec fn enc(self) -> Seq<u8> {
        self.type_signature.enc() + self.reserved_1.enc() + self.data_flag.enc()
    }

    open spec fn dec(b: Seq<u8>) -> DataType {
        DataType {
            type_signature: field::<u32>(b, 0),
            reserved_1: field::<u32>(b, 4),
            data_flag: field::<u32>(b, 8),
        }
    }

    proof fn lemma_enc(self) {
        let e = self.enc();
        self.type_signature.lemma_enc();
        self.reserved_1.lemma_enc();
        self.data_flag.lemma_enc();
        assert(e.subrange(0, 4) =~= self.type_signature.enc());
        lemma_field(e, 0, self.type_signature);
        assert(e.subrange(4, 8) =~= self.reserved_1.enc());
        lemma_field(e, 4, self.reserved_1);
        assert(e.subrange(8, 12) =~= self.data_flag.enc());
        lemma_field(e, 8, self.data_flag);
    }

    proof fn lemma_width() {
    }

    fn width() -> (r: usize) {
        12
    }

    fn push_to(&self, out: &mut Vec<u8>) {
        self.type_signature.push_to(out);
        self.reserved_1.push_to(out);
        self.data_flag.push_to(out);
        assert(out@ =~= old(out)@ + self.enc());
    }

    fn read_at(b: &[u8], k: usize) -> (r: DataType) {
        let len = b.len();
        let ghost s = b@.subrange(k as int, k + 12);
        let type_signature = u32::read_at(b, k + 0);
        assert(s.subrange(0, 4) =~= b@.subrange(k + 0, k + 4));
        let reserved_1 = u32::read_at(b, k + 4);
        assert(s.subrange(4, 8) =~= b@.subrange(k + 4, k + 8));
        let data_flag = u32::read_at(b, k + 8);
        assert(s.subrange(8, 12) =~= b@.subrange(k + 8, k + 12));
        DataType { type_signature, reserved_1, data_flag }
    }
}

impl TagRecord for DataType {
    open spec fn spec_type_signature() -> u32 {
        DATA_TYPE
    }

    open spec fn wf(m: DataType) -> bool {
        m.type_signature == DATA_TYPE
    }

    open spec fn spec_encode(m: DataType) -> Seq<u8> {
        m.enc()
    }

    open spec fn spec_needed(b: Seq<u8>) -> int {
        12
    }

    open spec fn spec_decode(b: Seq<u8>) -> Result<DataType, DecodeError> {
        fixed_decode::<DataType>(b, DATA_TYPE)
    }

    fn type_signature(&self) -> (r: u32) {
        DATA_TYPE
    }

    fn check(&self) -> (r: bool) {
        self.type_signature == DATA_TYPE
    }

    fn encode(&self) -> (r: Vec<u8>) {
        let mut out: Vec<u8> = Vec::new();
        self.push_to(&mut out);
        assert(out@ =~= self.enc());
        out
    }

    fn decode(b: &[u8]) -> (r: Result<DataType, DecodeError>) {
        decode_fixed::<DataType>(b, DATA_TYPE)
    }

    proof fn lemma_round_trip(m: DataType) {
        m.lemma_enc();
        m.type_signature.lemma_enc();
        assert(m.enc().subrange(0, 4) =~= m.type_signature.enc());
        lemma_fixed_round_trip(m, DATA_TYPE);
    }

    proof fn lemma_decoded(b: Seq<u8>) {
        if let Ok(m) = fixed_decode::<DataType>(b, DATA_TYPE) {
            lemma_fixed_decoded::<DataType>(b, DATA_TYPE);
            assert(b.subrange(0, 12) =~= b);
            assert(b.subrange(0, 12).subrange(0, 4) =~= b.subrange(0, 4));
            m.lemma_enc();
        }
    }

    proof fn lemma_truncated(b: Seq<u8>) {
    }
}

/// Type signature of `Cicp` (`cicp`).
pub const CICP_TYPE: u32 = 0x63696370;

/// Coding-independent code points of a video signal.
#[derive(Debug, Copy, Clone, PartialEq, Eq, Structural)]
pub struct Cicp {
    pub type_signature: u32,
    pub reserved_1: u32,
    pub color_primaries: u8,
    pub transfer_characteristics: u8,
    pub matrix_coefficients: u8,
    pub video_full_range_flag: u8,
}

impl View for Cicp {
    type V = Cicp;

    open spec fn view(&self) -> Cicp {
        *self
    }
}

impl Cicp {
    pub fn new(color_primaries: u8, transfer_characteristics: u8, matrix_coefficients: u8, video_full_range_flag: u8) -> (r: Cicp)
        ensures
            r == (Cicp { type_signature: CICP_TYPE, reserved_1: 0, color_primaries, transfer_characteristics, matrix_coefficients, video_full_range_flag }),
    {
        Cicp { type_signature: CICP_TYPE, reserved_1: 0, color_primaries, transfer_characteristics, matrix_coefficients, video_full_range_flag }
    }
}

impl Packed for Cicp {
    open spec fn spec_width() -> nat {
        12
    }

    open spec fn enc(self) -> Seq<u8> {
        self.type_signature.enc() + self.reserved_1.enc() + self.color_primaries.enc() + self.transfer_characteristics.enc() + self.matrix_coefficients.enc() + self.video_full_range_flag.enc()
    }

    open spec fn dec(b: Seq<u8>) -> Cicp {
        Cicp {
            type_signature: field::<u32>(b, 0),
            reserved_1: field::<u32>(b, 4),
            color_primaries: field::<u8>(b, 8),
            transfer_characteristics: field::<u8>(b, 9),
            matrix_coefficients: field::<u8>(b, 10),
            video_full_range_flag: field::<u8>(b, 11),
        }
    }

    proof fn lemma_enc(self) {
        let e = self.enc();
        self.type_signature.lemma_enc();
        self.reserved_1.lemma_enc();
        self.color_primaries.lemma_enc();
        self.transfer_characteristics.lemma_enc();
        self.matrix_coefficients.lemma_enc();
        self.video_full_range_flag.lemma_enc();
        assert(e.subrange(0, 4) =~= self.type_signature.enc());
        lemma_field(e, 0, self.type_signature);
        assert(e.subrange(4, 8) =~= self.reserved_1.enc());
        lemma_field(e, 4, self.reserved_1);
        assert(e.subrange(8, 9) =~= self.color_primaries.enc());
        lemma_field(e, 8, self.color_primaries);
        assert(e.subrange(9, 10) =~= self.transfer_characteristics.enc());
        lemma_field(e, 9, self.transfer_characteristics);
        assert(e.subrange(10, 11) =~= self.matrix_coefficients.enc());
        lemma_field(e, 10, self.matrix_coefficients);
        assert(e.subrange(11, 12) =~= self.video_full_range_flag.enc());
        lemma_field(e, 11, self.video_full_range_flag);
    }

    proof fn lemma_width() {
    }

    fn width() -> (r: usize) {
        12
    }

    fn push_to(&self, out: &mut Vec<u8>) {
        self.type_signature.push_to(out);
        self.reserved_1.push_to(out);
        self.color_primaries.push_to(out);
        self.transfer_characteristics.push_to(out);
        self.matrix_coefficients.push_to(out);
        self.video_full_range_flag.push_to(out);
        assert(out@ =~= old(out)@ + self.enc());
    }

    fn read_at(b: &[u8], k: usize) -> (r: Cicp) {
        let len = b.len();
        let ghost s = b@.subrange(k as int, k + 12);
        let type_signature = u32::read_at(b, k + 0);
        assert(s.subrange(0, 4) =~= b@.subrange(k + 0, k + 4));
        let reserved_1 = u32::read_at(b, k + 4);
        assert(s.subrange(4, 8) =~= b@.subrange(k + 4, k + 8));
        let color_primaries = u8::read_at(b, k + 8);
        assert(s.subrange(8, 9) =~= b@.subrange(k + 8, k + 9));
        let transfer_characteristics = u8::read_at(b, k + 9);
        assert(s.subrange(9, 10) =~= b@.subrange(k + 9, k + 10));
        let matrix_coefficients = u8::read_at(b, k + 10);
        assert(s.subrange(10, 11) =~= b@.subrange(k + 10, k + 11));
        let video_full_range_flag = u8::read_at(b, k + 11);
        assert(s.subrange(11, 12) =~= b@.subrange(k + 11, k + 12));
        Cicp { type_signature, reserved_1, color_primaries, transfer_characteristics, matrix_coefficients, video_full_range_flag }
    }
}

impl TagRecord for Cicp {
    open spec fn spec_type_signature() -> u32 {
        CICP_TYPE
    }

    open spec fn wf(m: Cicp) -> bool {
        m.type_signature == CICP_TYPE
    }

    open spec fn spec_encode(m: Cicp) -> Seq<u8> {
        m.enc()
    }

    open spec fn spec_needed(b: Seq<u8>) -> int {
        12
    }

    open spec fn spec_decode(b: Seq<u8>) -> Result<Cicp, DecodeError> {
        fixed_decode::<Cicp>(b, CICP_TYPE)
    }

    fn type_signature(&self) -> (r: u32) {
        CICP_TYPE
    }

    fn check(&self) -> (r: bool) {
        self.type_signature == CICP_TYPE
    }

    fn encode(&self) -> (r: Vec<u8>) {
        let mut out: Vec<u8> = Vec::new();
        self.push_to(&mut out);
        assert(out@ =~= self.enc());
        out
    }

    fn decode(b: &[u8]) -> (r: Result<Cicp, DecodeError>) {
        decode_fixed::<Cicp>(b, CICP_TYPE)
    }

    proof fn lemma_round_trip(m: Cicp) {
        m.lemma_enc();
        m.type_signature.lemma_enc();
        assert(m.enc().subrange(0, 4) =~= m.type_signature.enc());
        lemma_fixed_round_trip(m, CICP_TYPE);
    }

    proof fn lemma_decoded(b: Seq<u8>) {
        if let Ok(m) = fixed_decode::<Cicp>(b, CICP_TYPE) {
            lemma_fixed_decoded::<Cicp>(b, CICP_TYPE);
            assert(b.subrange(0, 12) =~= b);
            assert(b.subrange(0, 12).subrange(0, 4) =~= b.subrange(0, 4));
            m.lemma_enc();
        }
    }

    proof fn lemma_truncated(b: Seq<u8>) {
    }
}

/// Type signature of `BacsElement` (`bACS`).
pub const BACS_TYPE: u32 = 0x62414353;

/// A processing element that begins colour appearance processing.
#[derive(Debug, Copy, Clone, PartialEq, Eq, Structural)]
pub struct BacsElement {
    pub type_signature: u32,
    pub reserved_1: u32,
    pub input_channels: u16,
    pub output_channels: u16,
    pub signature: u32,
}

impl View for BacsElement {
    type V = BacsElement;

    open spec fn view(&self) -> BacsElement {
        *self
    }
}

impl BacsElement {
    pub fn new(input_channels: u16, output_channels: u16, signature: u32) -> (r: BacsElement)
        ensures
            r == (BacsElement { type_signature: BACS_TYPE, reserved_1: 0, input_channels, output_channels, signature }),
    {
        BacsElement { type_signature: BACS_TYPE, reserved_1: 0, input_channels, output_channels, signature }
    }
}

impl Packed for BacsElement {
    open spec fn spec_width() -> nat {
        16
    }

    open spec fn enc(self) -> Seq<u8> {
        self.type_signature.enc() + self.reserved_1.enc() + self.input_channels.enc() + self.output_channels.enc() + self.signature.enc()
    }

    open spec fn dec(b: Seq<u8>) -> BacsElement {
        BacsElement {
            type_signature: field::<u32>(b, 0),
            reserved_1: field::<u32>(b, 4),
            input_channels: field::<u16>(b, 8),
            output_channels: field::<u16>(b, 10),
            signature: field::<u32>(b, 12),
        }
    }

    proof fn lemma_enc(self) {
        let e = self.enc();
        self.type_signature.lemma_enc();
        self.reserved_1.lemma_enc();
        self.input_channels.lemma_enc();
        self.output_channels.lemma_enc();
        self.signature.lemma_enc();
        assert(e.subrange(0, 4) =~= self.type_signature.enc());
        lemma_field(e, 0, self.type_signature);
        assert(e.subrange(4, 8) =~= self.reserved_1.enc());
        lemma_field(e, 4, self.reserved_1);
        assert(e.subrange(8, 10) =~= self.input_channels.enc());
        lemma_field(e, 8, self.input_channels);
        assert(e.subrange(10, 12) =~= self.output_channels.enc());
        lemma_field(e, 10, self.output_channels);
        assert(e.subrange(12, 16) =~= self.signature.enc());
        lemma_field(e, 12, self.signature);
    }

    proof fn lemma_width() {
    }

    fn width() -> (r: usize) {
        16
    }

    fn push_to(&self, out: &mut Vec<u8>) {
        self.type_signature.push_to(out);
        self.reserved_1.push_to(out);
        self.input_channels.push_to(out);
        self.output_channels.push_to(out);
        self.signature.push_to(out);
        assert(out@ =~= old(out)@ + self.enc());
    }

    fn read_at(b: &[u8], k: usize) -> (r: BacsElement) {
        let len = b.len();
        let ghost s = b@.subrange(k as int, k + 16);
        let type_signature = u32::read_at(b, k + 0);
        assert(s.subrange(0, 4) =~= b@.subrange(k + 0, k + 4));
        let reserved_1 = u32::read_at(b, k + 4);
        assert(s.subrange(4, 8) =~= b@.subrange(k + 4, k + 8));
        let input_channels = u16::read_at(b, k + 8);
        assert(s.subrange(8, 10) =~= b@.subrange(k + 8, k + 10));
        let output_channels = u16::read_at(b, k + 10);
        assert(s.subrange(10, 12) =~= b@.subrange(k + 10, k + 12));
        let signature = u32::read_at(b, k + 12);
        assert(s.subrange(12, 16) =~= b@.subrange(k + 12, k + 16));
        BacsElement { type_signature, reserved_1, input_channels, output_channels, signature }
    }
}

impl TagRecord for BacsElement {
    open spec fn spec_type_signature() -> u32 {
        BACS_TYPE
    }

    open spec fn wf(m: BacsElement) -> bool {
        m.type_signature == BACS_TYPE
    }

    open spec fn spec_encode(m: BacsElement) -> Seq<u8> {
        m.enc()
    }

    open spec fn spec_needed(b: Seq<u8>) -> int {
        16
    }

    open spec fn spec_decode(b: Seq<u8>) -> Result<BacsElement, DecodeError> {
        fixed_decode::<BacsElement>(b, BACS_TYPE)
    }

    fn type_signature(&self) -> (r: u32) {
        BACS_TYPE
    }

    fn check(&self) -> (r: bool) {
        self.type_signature == BACS_TYPE
    }

    fn encode(&self) -> (r: Vec<u8>) {
        let mut out: Vec<u8> = Vec::new();
        self.push_to(&mut out);
        assert(out@ =~= self.enc());
        out
    }

    fn decode(b: &[u8]) -> (r: Result<BacsElement, DecodeError>) {
        decode_fixed::<BacsElement>(b, BACS_TYPE)
    }

    proof fn lemma_round_trip(m: BacsElement) {
        m.lemma_enc();
        m.type_signature.lemma_enc();
        assert(m.enc().subrange(0, 4) =~= m.type_signature.enc());
        lemma_fixed_round_trip(m, BACS_TYPE);
    }

    proof fn lemma_decoded(b: Seq<u8>) {
        if let Ok(m) = fixed_decode::<BacsElement>(b, BACS_TYPE) {
            lemma_fixed_decoded::<BacsElement>(b, BACS_TYPE);
            assert(b.subrange(0, 16) =~= b);
            assert(b.subrange(0, 16).subrange(0, 4) =~= b.subrange(0, 4));
            m.lemma_enc();
        }
    }

    proof fn lemma_truncated(b: Seq<u8>) {
    }
}

/// Type signature of `EacsElement` (`eACS`).
pub const EACS_TYPE: u32 = 0x65414353;

/// A processing element that ends colour appearance processing.
#[derive(Debug, Copy, Clone, PartialEq, Eq, Structural)]
pub struct EacsElement {
    pub type_signature: u32,
    pub reserved_1: u32,
    pub input_channels: u16,
    pub output_channels: u16,
    pub signature: u32,
}

impl View for EacsElement {
    type V = EacsElement;

    open spec fn view(&self) -> EacsElement {
        *self
    }
}

impl EacsElement {
    pub fn new(input_channels: u16, output_channels: u16, signature: u32) -> (r: EacsElement)
        ensures
            r == (EacsElement { type_signature: EACS_TYPE, reserved_1: 0, input_channels, output_channels, signature }),
    {
        EacsElement { type_signature: EACS_TYPE, reserved_1: 0, input_channels, output_channels, signature }
    }
}

impl Packed for EacsElement {
    open spec fn spec_width() -> nat {
        16
    }

    open spec fn enc(self) -> Seq<u8> {
        self.type_signature.enc() + self.reserved_1.enc() + self.input_channels.enc() + self.output_channels.enc() + self.signature.enc()
    }

    open spec fn dec(b: Seq<u8>) -> EacsElement {
        EacsElement {
            type_signature: field::<u32>(b, 0),
            reserved_1: field::<u32>(b, 4),
            input_channels: field::<u16>(b, 8),
            output_channels: field::<u16>(b, 10),
            signature: field::<u32>(b, 12),
        }
    }

    proof fn lemma_enc(self) {
        let e = self.enc();
        self.type_signature.lemma_enc();
        self.reserved_1.lemma_enc();
        self.input_channels.lemma_enc();
        self.output_channels.lemma_enc();
        self.signature.lemma_enc();
        assert(e.subrange(0, 4) =~= self.type_signature.enc());
        lemma_field(e, 0, self.type_signature);
        assert(e.subrange(4, 8) =~= self.reserved_1.enc());
        lemma_field(e, 4, self.reserved_1);
        assert(e.subrange(8, 10) =~= self.input_channels.enc());
        lemma_field(e, 8, self.input_channels);
        assert(e.subrange(10, 12) =~= self.output_channels.enc());
        lemma_field(e, 10, self.output_channels);
        assert(e.subrange(12, 16) =~= self.signature.enc());
        lemma_field(e, 12, self.signature);
    }

    proof fn lemma_width() {
    }

    fn width() -> (r: usize) {
        16
    }

    fn push_to(&self, out: &mut Vec<u8>) {
        self.type_signature.push_to(out);
        self.reserved_1.push_to(out);
        self.input_channels.push_to(out);
        self.output_channels.push_to(out);
        self.signature.push_to(out);
        assert(out@ =~= old(out)@ + self.enc());
    }

    fn read_at(b: &[u8], k: usize) -> (r: EacsElement) {
        let len = b.len();
        let ghost s = b@.subrange(k as int, k + 16);
        let type_signature = u32::read_at(b, k + 0);
        assert(s.subrange(0, 4) =~= b@.subrange(k + 0, k + 4));
        let reserved_1 = u32::read_at(b, k + 4);
        assert(s.subrange(4, 8) =~= b@.subrange(k + 4, k + 8));
        let input_channels = u16::read_at(b, k + 8);
        assert(s.subrange(8, 10) =~= b@.subrange(k + 8, k + 10));
        let output_channels = u16::read_at(b, k + 10);
        assert(s.subrange(10, 12) =~= b@.subrange(k + 10, k + 12));
        let signature = u32::read_at(b, k + 12);
        assert(s.subrange(12, 16) =~= b@.subrange(k + 12, k + 16));
        EacsElement { type_signature, reserved_1, input_channels, output_channels, signature }
    }
}

impl TagRecord for EacsElement {
    open spec fn spec_type_signature() -> u32 {
        EACS_TYPE
    }

    open spec fn wf(m: EacsElement) -> bool {
        m.type_signature == EACS_TYPE
    }

    open spec fn spec_encode(m: EacsElement) -> Seq<u8> {
        m.enc()
    }

    open spec fn spec_needed(b: Seq<u8>) -> int {
        16
    }

    open spec fn spec_decode(b: Seq<u8>) -> Result<EacsElement, DecodeError> {
        fixed_decode::<EacsElement>(b, EACS_TYPE)
    }

    fn type_signature(&self) -> (r: u32) {
        EACS_TYPE
    }

    fn check(&self) -> (r: bool) {
        self.type_signature == EACS_TYPE
    }

    fn encode(&self) -> (r: Vec<u8>) {
        let mut out: Vec<u8> = Vec::new();
        self.push_to(&mut out);
        assert(out@ =~= self.enc());
        out
    }

    fn decode(b: &[u8]) -> (r: Result<EacsElement, DecodeError>) {
        decode_fixed::<EacsElement>(b, EACS_TYPE)
    }

    proof fn lemma_round_trip(m: EacsElement) {
        m.lemma_enc();
        m.type_signature.lemma_enc();
        assert(m.enc().subrange(0, 4) =~= m.type_signature.enc());
        lemma_fixed_round_trip(m, EACS_TYPE);
    }

    proof fn lemma_decoded(b: Seq<u8>) {
        if let Ok(m) = fixed_decode::<EacsElement>(b, EACS_TYPE) {
            lemma_fixed_decoded::<EacsElement>(b, EACS_TYPE);
            assert(b.subrange(0, 16) =~= b);
            assert(b.subrange(0, 16).subrange(0, 4) =~= b.subrange(0, 4));
            m.lemma_enc();
        }
    }

    proof fn lemma_truncated(b: Seq<u8>) {
    }
}

} // verus!