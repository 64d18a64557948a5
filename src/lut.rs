//! Multi-stage lookup tables: the offsets of their stages, checked against
//! the record's bounds, and the stages' bytes.
use vstd::prelude::*;
use crate::bytes::{Packed, field, lemma_field};
use crate::error::DecodeError;
use crate::record::{TagRecord, head_error, check_head, head_bytes};

verus! {

/// Bytes before the stage data of a lookup table record.
pub const LUT_FIXED_SIZE: usize = 32;

/// The model of a multi-stage lookup table record.
pub struct LutModel {
    pub type_signature: u32,
    pub reserved_1: u32,
    pub input_channels: u8,
    pub output_channels: u8,
    pub reserved_2: u16,
    pub offset_first_b_curve: u32,
    pub offset_matrix: u32,
    pub offset_first_m_curve: u32,
    pub offset_clut: u32,
    pub offset_first_a_curve: u32,
    /// The bytes after the fixed part, which the offsets point into.
    pub data: Seq<u8>,
}

/// An offset is absent (zero) or points past the fixed part and inside a
/// record of `len` bytes.
pub open spec fn offset_ok(o: u32, len: int) -> bool {
    o == 0 || (LUT_FIXED_SIZE <= o && (o as int) < len)
}

/// The first offset, in field order, that is not valid in a record of `len` bytes.
pub open spec fn offsets_error(o: Seq<u32>, len: int) -> Option<DecodeError>
    decreases o.len(),
{
    if o.len() == 0 {
        None
    } else if !offset_ok(o[0], len) {
        Some(DecodeError::InvalidOffset { offset: o[0], limit: len as u64 })
    } else {
        offsets_error(o.drop_first(), len)
    }
}

pub open spec fn lut_offsets(m: LutModel) -> Seq<u32> {
    seq![
        m.offset_first_b_curve,
        m.offset_matrix,
        m.offset_first_m_curve,
        m.offset_clut,
        m.offset_first_a_curve,
    ]
}

pub open spec fn lut_wf(m: LutModel, sig: u32) -> bool {
    m.type_signature == sig && offsets_error(lut_offsets(m), LUT_FIXED_SIZE + m.data.len()) is None
}

pub open spec fn lut_encode(m: LutModel) -> Seq<u8> {
    head_bytes(m.type_signature, m.reserved_1) + m.input_channels.enc() + m.output_channels.enc()
        + m.reserved_2.enc() + m.offset_first_b_curve.enc() + m.offset_matrix.enc()
        + m.offset_first_m_curve.enc() + m.offset_clut.enc() + m.offset_first_a_curve.enc() + m.data
}

pub open spec fn lut_needed(b: Seq<u8>) -> int {
    if b.len() < LUT_FIXED_SIZE {
        LUT_FIXED_SIZE as int
    } else {
        b.len() as int
    }
}

/// The offsets stored in `b`, in field order.
pub open spec fn stored_offsets(b: Seq<u8>) -> Seq<u32> {
    seq![field::<u32>(b, 12), field::<u32>(b, 16), field::<u32>(b, 20), field::<u32>(b, 24), field::<u32>(b, 28)]
}

pub open spec fn lut_decode(b: Seq<u8>, sig: u32) -> Result<LutModel, DecodeError> {
    match head_error(b, sig, lut_needed(b)) {
        Some(e) => Err(e),
        None => match offsets_error(stored_offsets(b), b.len() as int) {
            Some(e) => Err(e),
            None => Ok(
                LutModel {
                    type_signature: sig,
                    reserved_1: field::<u32>(b, 4),
                    input_channels: field::<u8>(b, 8),
                    output_channels: field::<u8>(b, 9),
                    reserved_2: field::<u16>(b, 10),
                    offset_first_b_curve: field::<u32>(b, 12),
                    offset_matrix: field::<u32>(b, 16),
                    offset_first_m_curve: field::<u32>(b, 20),
                    offset_clut: field::<u32>(b, 24),
                    offset_first_a_curve: field::<u32>(b, 28),
                    data: b.subrange(LUT_FIXED_SIZE as int, b.len() as int),
                },
            ),
        },
    }
}

/// Decoding a valid lookup table's encoding gives it back.
pub proof fn lemma_lut_round_trip(m: LutModel, sig: u32)
    requires
        lut_wf(m, sig),
    ensures
        lut_decode(lut_encode(m), sig) == Ok::<LutModel, DecodeError>(m),
{
    let b = lut_encode(m);
    m.type_signature.lemma_enc();
    m.reserved_1.lemma_enc();
    m.input_channels.lemma_enc();
    m.output_channels.lemma_enc();
    m.reserved_2.lemma_enc();
    m.offset_first_b_curve.lemma_enc();
    m.offset_matrix.lemma_enc();
    m.offset_first_m_curve.lemma_enc();
    m.offset_clut.lemma_enc();
    m.offset_first_a_curve.lemma_enc();
    assert(b.subrange(0, 4) =~= m.type_signature.enc());
    lemma_field(b, 0, m.type_signature);
    assert(b.subrange(4, 8) =~= m.reserved_1.enc());
    lemma_field(b, 4, m.reserved_1);
    assert(b.subrange(8, 9) =~= m.input_channels.enc());
    lemma_field(b, 8, m.input_channels);
    assert(b.subrange(9, 10) =~= m.output_channels.enc());
    lemma_field(b, 9, m.output_channels);
    assert(b.subrange(10, 12) =~= m.reserved_2.enc());
    lemma_field(b, 10, m.reserved_2);
    assert(b.subrange(12, 16) =~= m.offset_first_b_curve.enc());
    lemma_field(b, 12, m.offset_first_b_curve);
    assert(b.subrange(16, 20) =~= m.offset_matrix.enc());
    lemma_field(b, 16, m.offset_matrix);
    assert(b.subrange(20, 24) =~= m.offset_first_m_curve.enc());
    lemma_field(b, 20, m.offset_first_m_curve);
    assert(b.subrange(24, 28) =~= m.offset_clut.enc());
    lemma_field(b, 24, m.offset_clut);
    assert(b.subrange(28, 32) =~= m.offset_first_a_curve.enc());
    lemma_field(b, 28, m.offset_first_a_curve);
    assert(b.subrange(32, b.len() as int) =~= m.data);
    assert(stored_offsets(b) =~= lut_offsets(m));
}

/// What decodes as a lookup table is valid, and encodes to the bytes it was
/// decoded from.
pub proof fn lemma_lut_decoded(b: Seq<u8>, sig: u32)
    ensures
        lut_decode(b, sig) matches Ok(m) ==> lut_wf(m, sig) && lut_encode(m).len() == b.len(),
{
    if let Ok(m) = lut_decode(b, sig) {
        assert(stored_offsets(b) =~= lut_offsets(m));
        m.type_signature.lemma_enc();
        m.reserved_1.lemma_enc();
        m.input_channels.lemma_enc();
        m.output_channels.lemma_enc();
        m.reserved_2.lemma_enc();
        m.offset_first_b_curve.lemma_enc();
        m.offset_matrix.lemma_enc();
        m.offset_first_m_curve.lemma_enc();
        m.offset_clut.lemma_enc();
        m.offset_first_a_curve.lemma_enc();
    }
}

/// Whether none of the offsets `o` is invalid in a record with `data_len`
/// bytes after its fixed part.
fn offsets_valid(o: [u32; 5], data_len: usize) -> (r: bool)
    ensures
        r == (offsets_error(o@, LUT_FIXED_SIZE + data_len) is None),
{
    assert(o@.skip(5).len() == 0);
    let mut i: usize = 0;
    let ghost len = LUT_FIXED_SIZE + data_len;
    assert(o@.skip(0) =~= o@);
    while i < 5
        invariant
            i <= 5,
            len == LUT_FIXED_SIZE + data_len,
            offsets_error(o@, len) == offsets_error(o@.skip(i as int), len),
        decreases 5 - i,
    {
        let x = o[i];
        assert(o@.skip(i as int)[0] == x);
        if !(x == 0 || (32 <= x && (x as usize) - 32 < data_len)) {
            return false;
        }
        assert(o@.skip(i as int).drop_first() =~= o@.skip(i + 1));
        i = i + 1;
    }
    true
}

/// The first invalid offset among the five stored from byte 12 of `b`.
fn check_offsets(b: &[u8]) -> (r: Option<DecodeError>)
    requires
        LUT_FIXED_SIZE <= b@.len() <= u64::MAX,
    ensures
        r == offsets_error(stored_offsets(b@), b@.len() as int),
{
    let len = b.len();
    let mut i: usize = 0;
    let ghost all = stored_offsets(b@);
    assert(all.skip(0) =~= all);
    while i < 5
        invariant
            i <= 5,
            len == b@.len(),
            LUT_FIXED_SIZE <= len,
            all == stored_offsets(b@),
            offsets_error(all, len as int) == offsets_error(all.skip(i as int), len as int),
        decreases 5 - i,
    {
        let o = u32::read_at(b, 12 + 4 * i);
        assert(all.skip(i as int)[0] == o);
        if !(o == 0 || (32 <= o && (o as usize) < len)) {
            return Some(DecodeError::InvalidOffset { offset: o, limit: len as u64 });
        }
        assert(all.skip(i as int).drop_first() =~= all.skip(i + 1));
        i = i + 1;
    }
    None
}


/// Type signature of `LutAToB` (`mAB `).
pub const LUT_A_TO_B_TYPE: u32 = 0x6D414220;

/// A lookup table from device to connection space: curves, matrix and colour lookup table, each located by an offset.
#[derive(Debug, Clone, PartialEq, Eq)]
pub struct LutAToB {
    pub type_signature: u32,
    pub reserved_1: u32,
    pub input_channels: u8,
    pub output_channels: u8,
    pub reserved_2: u16,
    pub offset_first_b_curve: u32,
    pub offset_matrix: u32,
    pub offset_first_m_curve: u32,
    pub offset_clut: u32,
    pub offset_first_a_curve: u32,
    pub data: Vec<u8>,
}

impl View for LutAToB {
    type V = LutModel;

    open spec fn view(&self) -> LutModel {
        LutModel {
            type_signature: self.type_signature,
            reserved_1: self.reserved_1,
            input_channels: self.input_channels,
            output_channels: self.output_channels,
            reserved_2: self.reserved_2,
            offset_first_b_curve: self.offset_first_b_curve,
            offset_matrix: self.offset_matrix,
            offset_first_m_curve: self.offset_first_m_curve,
            offset_clut: self.offset_clut,
            offset_first_a_curve: self.offset_first_a_curve,
            data: self.data@,
        }
    }
}

impl TagRecord for LutAToB {
    open spec fn spec_type_signature() -> u32 {
        LUT_A_TO_B_TYPE
    }

    open spec fn wf(m: LutModel) -> bool {
        lut_wf(m, LUT_A_TO_B_TYPE)
    }

    open spec fn spec_encode(m: LutModel) -> Seq<u8> {
        lut_encode(m)
    }

    open spec fn spec_needed(b: Seq<u8>) -> int {
        lut_needed(b)
    }

    open spec fn spec_decode(b: Seq<u8>) -> Result<LutModel, DecodeError> {
        lut_decode(b, LUT_A_TO_B_TYPE)
    }

    fn type_signature(&self) -> (r: u32) {
        LUT_A_TO_B_TYPE
    }

    fn check(&self) -> (r: bool) {
        self.type_signature == LUT_A_TO_B_TYPE && offsets_valid(
            [
                self.offset_first_b_curve,
                self.offset_matrix,
                self.offset_first_m_curve,
                self.offset_clut,
                self.offset_first_a_curve,
            ],
            self.data.len(),
        )
    }

    fn encode(&self) -> (r: Vec<u8>) {
        let mut out: Vec<u8> = Vec::new();
        self.type_signature.push_to(&mut out);
        self.reserved_1.push_to(&mut out);
        self.input_channels.push_to(&mut out);
        self.output_channels.push_to(&mut out);
        self.reserved_2.push_to(&mut out);
        self.offset_first_b_curve.push_to(&mut out);
        self.offset_matrix.push_to(&mut out);
        self.offset_first_m_curve.push_to(&mut out);
        self.offset_clut.push_to(&mut out);
        self.offset_first_a_curve.push_to(&mut out);
        let mut data = vstd::slice::slice_to_vec(self.data.as_slice());
        out.append(&mut data);
        assert(out@ =~= lut_encode(self@));
        out
    }

    fn decode(b: &[u8]) -> (r: Result<LutAToB, DecodeError>) {
        let len = b.len();
        let needed: u64 = if len < LUT_FIXED_SIZE {
            LUT_FIXED_SIZE as u64
        } else {
            len as u64
        };
        if let Err(e) = check_head(b, LUT_A_TO_B_TYPE, needed) {
            return Err(e);
        }
        if let Some(e) = check_offsets(b) {
            return Err(e);
        }
        let data = vstd::slice::slice_to_vec(vstd::slice::slice_subrange(b, LUT_FIXED_SIZE, len));
        Ok(
            LutAToB {
                type_signature: LUT_A_TO_B_TYPE,
                reserved_1: u32::read_at(b, 4),
                input_channels: u8::read_at(b, 8),
                output_channels: u8::read_at(b, 9),
                reserved_2: u16::read_at(b, 10),
                offset_first_b_curve: u32::read_at(b, 12),
                offset_matrix: u32::read_at(b, 16),
                offset_first_m_curve: u32::read_at(b, 20),
                offset_clut: u32::read_at(b, 24),
                offset_first_a_curve: u32::read_at(b, 28),
                data,
            },
        )
    }

    proof fn lemma_round_trip(m: LutModel) {
        lemma_lut_round_trip(m, LUT_A_TO_B_TYPE);
    }

    proof fn lemma_decoded(b: Seq<u8>) {
        lemma_lut_decoded(b, LUT_A_TO_B_TYPE);
    }

    proof fn lemma_truncated(b: Seq<u8>) {
    }
}

/// Type signature of `LutBToA` (`mBA `).
pub const LUT_B_TO_A_TYPE: u32 = 0x6D424120;

/// A lookup table from connection space to device: curves, matrix and colour lookup table, each located by an offset.
#[derive(Debug, Clone, PartialEq, Eq)]
pub struct LutBToA {
    pub type_signature: u32,
    pub reserved_1: u32,
    pub input_channels: u8,
    pub output_channels: u8,
    pub reserved_2: u16,
    pub offset_first_b_curve: u32,
    pub offset_matrix: u32,
    pub offset_first_m_curve: u32,
    pub offset_clut: u32,
    pub offset_first_a_curve: u32,
    pub data: Vec<u8>,
}

impl View for LutBToA {
    type V = LutModel;

    open spec fn view(&self) -> LutModel {
        LutModel {
            type_signature: self.type_signature,
            reserved_1: self.reserved_1,
            input_channels: self.input_channels,
            output_channels: self.output_channels,
            reserved_2: self.reserved_2,
            offset_first_b_curve: self.offset_first_b_curve,
            offset_matrix: self.offset_matrix,
            offset_first_m_curve: self.offset_first_m_curve,
            offset_clut: self.offset_clut,
            offset_first_a_curve: self.offset_first_a_curve,
            data: self.data@,
        }
    }
}

impl TagRecord for LutBToA {
    open spec fn spec_type_signature() -> u32 {
        LUT_B_TO_A_TYPE
    }

    open spec fn wf(m: LutModel) -> bool {
        lut_wf(m, LUT_B_TO_A_TYPE)
    }

    open spec fn spec_encode(m: LutModel) -> Seq<u8> {
        lut_encode(m)
    }

    open spec fn spec_needed(b: Seq<u8>) -> int {
        lut_needed(b)
    }

    open spec fn spec_decode(b: Seq<u8>) -> Result<LutModel, DecodeError> {
        lut_decode(b, LUT_B_TO_A_TYPE)
    }

    fn type_signature(&self) -> (r: u32) {
        LUT_B_TO_A_TYPE
    }

    fn check(&self) -> (r: bool) {
        self.type_signature == LUT_B_TO_A_TYPE && offsets_valid(
            [
                self.offset_first_b_curve,
                self.offset_matrix,
                self.offset_first_m_curve,
                self.offset_clut,
                self.offset_first_a_curve,
            ],
            self.data.len(),
        )
    }

    fn encode(&self) -> (r: Vec<u8>) {
        let mut out: Vec<u8> = Vec::new();
        self.type_signature.push_to(&mut out);
        self.reserved_1.push_to(&mut out);
        self.input_channels.push_to(&mut out);
        self.output_channels.push_to(&mut out);
        self.reserved_2.push_to(&mut out);
        self.offset_first_b_curve.push_to(&mut out);
        self.offset_matrix.push_to(&mut out);
        self.offset_first_m_curve.push_to(&mut out);
        self.offset_clut.push_to(&mut out);
        self.offset_first_a_curve.push_to(&mut out);
        let mut data = vstd::slice::slice_to_vec(self.data.as_slice());
        out.append(&mut data);
        assert(out@ =~= lut_encode(self@));
        out
    }

    fn decode(b: &[u8]) -> (r: Result<LutBToA, DecodeError>) {
        let len = b.len();
        let needed: u64 = if len < LUT_FIXED_SIZE {
            LUT_FIXED_SIZE as u64
        } else {
            len as u64
        };
        if let Err(e) = check_head(b, LUT_B_TO_A_TYPE, needed) {
            return Err(e);
        }
        if let Some(e) = check_offsets(b) {
            return Err(e);
        }
        let data = vstd::slice::slice_to_vec(vstd::slice::slice_subrange(b, LUT_FIXED_SIZE, len));
        Ok(
            LutBToA {
                type_signature: LUT_B_TO_A_TYPE,
                reserved_1: u32::read_at(b, 4),
                input_channels: u8::read_at(b, 8),
                output_channels: u8::read_at(b, 9),
                reserved_2: u16::read_at(b, 10),
                offset_first_b_curve: u32::read_at(b, 12),
                offset_matrix: u32::read_at(b, 16),
                offset_first_m_curve: u32::read_at(b, 20),
                offset_clut: u32::read_at(b, 24),
                offset_first_a_curve: u32::read_at(b, 28),
                data,
            },
        )
    }

    proof fn lemma_round_trip(m: LutModel) {
        lemma_lut_round_trip(m, LUT_B_TO_A_TYPE);
    }

    proof fn lemma_decoded(b: Seq<u8>) {
        lemma_lut_decoded(b, LUT_B_TO_A_TYPE);
    }

    proof fn lemma_truncated(b: Seq<u8>) {
    }
}

} // verus!