//! Curve set elements: one curve per input channel, each located by a
//! position that must lie inside the element.
use vstd::prelude::*;
use crate::bytes::{Packed, field, packed, unpacked, lemma_unpacked, lemma_packed_len, lemma_field, push_all, read_all};
use crate::error::DecodeError;
use crate::numbers::PositionNum;
use crate::process_elements::{positions_error, find_bad_position};
use crate::record::{TagRecord, head_error, check_head, head_bytes, lemma_head, start_record};

verus! {

/// Type signature of `CurveSetElement` (`cvst`).
pub const CURVE_SET_TYPE: u32 = 0x63767374;

/// A processing element made of one curve per input channel: the channel
/// counts, one position per curve, then the curves' bytes.
#[derive(Debug, Clone, PartialEq, Eq)]
pub struct CurveSetElement {
    pub type_signature: u32,
    pub reserved_1: u32,
    pub output_channels: u16,
    pub curve_positions: Vec<PositionNum>,
    /// The bytes after the positions, which the positions point into.
    pub data: Vec<u8>,
}

/// The model of a `CurveSetElement`.
pub struct CurveSetModel {
    pub type_signature: u32,
    pub reserved_1: u32,
    pub output_channels: u16,
    pub curve_positions: Seq<PositionNum>,
    pub data: Seq<u8>,
}

impl View for CurveSetElement {
    type V = CurveSetModel;

    open spec fn view(&self) -> CurveSetModel {
        CurveSetModel {
            type_signature: self.type_signature,
            reserved_1: self.reserved_1,
            output_channels: self.output_channels,
            curve_positions: self.curve_positions@,
            data: self.data@,
        }
    }
}

/// Where the curves' bytes start in an element with `n` input channels.
pub open spec fn curves_start(n: int) -> int {
    12 + 8 * n
}

impl CurveSetElement {
    pub fn new(output_channels: u16, curve_positions: Vec<PositionNum>, data: Vec<u8>) -> (r: CurveSetElement)
        ensures
            r@ == (CurveSetModel {
                type_signature: CURVE_SET_TYPE,
                reserved_1: 0,
                output_channels,
                curve_positions: curve_positions@,
                data: data@,
            }),
    {
        CurveSetElement { type_signature: CURVE_SET_TYPE, reserved_1: 0, output_channels, curve_positions, data }
    }

    /// The number of input channels: one curve each.
    pub fn input_channels(&self) -> (r: usize)
        ensures
            r == self.curve_positions@.len(),
    {
        self.curve_positions.len()
    }
}

/// The bytes of an element before the curves' bytes.
pub open spec fn curve_set_prefix(m: CurveSetModel) -> Seq<u8> {
    head_bytes(m.type_signature, m.reserved_1) + (m.curve_positions.len() as u16).enc()
        + m.output_channels.enc() + packed(m.curve_positions)
}

/// The fields before the positions read back.
proof fn lemma_curve_set_prefix(m: CurveSetModel)
    requires
        m.curve_positions.len() <= u16::MAX,
    ensures
        field::<u16>(curve_set_prefix(m) + m.data, 8) == m.curve_positions.len() as u16,
        field::<u16>(curve_set_prefix(m) + m.data, 10) == m.output_channels,
        field::<u32>(curve_set_prefix(m) + m.data, 0) == m.type_signature,
        field::<u32>(curve_set_prefix(m) + m.data, 4) == m.reserved_1,
{
    let n = m.curve_positions.len() as u16;
    let b = curve_set_prefix(m) + m.data;
    n.lemma_enc();
    m.output_channels.lemma_enc();
    let rest = n.enc() + m.output_channels.enc() + packed(m.curve_positions) + m.data;
    lemma_head(m.type_signature, m.reserved_1, rest);
    assert(b =~= head_bytes(m.type_signature, m.reserved_1) + rest);
    assert(b.subrange(8, 10) =~= n.enc());
    lemma_field(b, 8, n);
    assert(b.subrange(10, 12) =~= m.output_channels.enc());
    lemma_field(b, 10, m.output_channels);
}

impl TagRecord for CurveSetElement {
    open spec fn spec_type_signature() -> u32 {
        CURVE_SET_TYPE
    }

    open spec fn wf(m: CurveSetModel) -> bool {
        &&& m.type_signature == CURVE_SET_TYPE
        &&& m.curve_positions.len() <= u16::MAX
        &&& positions_error(
            m.curve_positions,
            curves_start(m.curve_positions.len() as int),
            curves_start(m.curve_positions.len() as int) + m.data.len(),
        ) is None
    }

    open spec fn spec_encode(m: CurveSetModel) -> Seq<u8> {
        curve_set_prefix(m) + m.data
    }

    /// At least one position per input channel; the curves' bytes run to the end.
    open spec fn spec_needed(b: Seq<u8>) -> int {
        if b.len() < 12 {
            12
        } else if b.len() < curves_start(field::<u16>(b, 8) as int) {
            curves_start(field::<u16>(b, 8) as int)
        } else {
            b.len() as int
        }
    }

    open spec fn spec_decode(b: Seq<u8>) -> Result<CurveSetModel, DecodeError> {
        match head_error(b, CURVE_SET_TYPE, Self::spec_needed(b)) {
            Some(e) => Err(e),
            None => {
                let n = field::<u16>(b, 8);
                let pos = unpacked::<PositionNum>(b, 12, n as nat);
                match positions_error(pos, curves_start(n as int), b.len() as int) {
                    Some(e) => Err(e),
                    None => Ok(
                        CurveSetModel {
                            type_signature: CURVE_SET_TYPE,
                            reserved_1: field::<u32>(b, 4),
                            output_channels: field::<u16>(b, 10),
                            curve_positions: pos,
                            data: b.subrange(curves_start(n as int), b.len() as int),
                        },
                    ),
                }
            },
        }
    }

    fn type_signature(&self) -> (r: u32) {
        CURVE_SET_TYPE
    }

    fn check(&self) -> (r: bool) {
        if self.type_signature != CURVE_SET_TYPE || self.curve_positions.len() as u64 > 0xffff {
            return false;
        }
        let lo: u64 = 12 + 8 * self.curve_positions.len() as u64;
        find_bad_position(&self.curve_positions, lo, lo as u128 + self.data.len() as u128).is_none()
    }

    fn encode(&self) -> (r: Vec<u8>) {
        let mut out = start_record(self.type_signature, self.reserved_1);
        (self.curve_positions.len() as u16).push_to(&mut out);
        self.output_channels.push_to(&mut out);
        push_all(&mut out, &self.curve_positions);
        let mut data = vstd::slice::slice_to_vec(self.data.as_slice());
        out.append(&mut data);
        out
    }

    fn decode(b: &[u8]) -> (r: Result<CurveSetElement, DecodeError>) {
        let len = b.len();
        if len < 12 {
            return Err(
                DecodeError::TruncatedRecord { type_signature: CURVE_SET_TYPE, needed: 12, available: len as u64 },
            );
        }
        let n = u16::read_at(b, 8);
        let lo: u64 = 12 + 8 * n as u64;
        let needed: u64 = if (len as u64) < lo {
            lo
        } else {
            len as u64
        };
        if let Err(e) = check_head(b, CURVE_SET_TYPE, needed) {
            return Err(e);
        }
        let curve_positions = read_all::<PositionNum>(b, 12, n as usize);
        if let Some(e) = find_bad_position(&curve_positions, lo, len as u128) {
            return Err(e);
        }
        let data = vstd::slice::slice_to_vec(vstd::slice::slice_subrange(b, lo as usize, len));
        Ok(
            CurveSetElement {
                type_signature: CURVE_SET_TYPE,
                reserved_1: u32::read_at(b, 4),
                output_channels: u16::read_at(b, 10),
                curve_positions,
                data,
            },
        )
    }

    proof fn lemma_round_trip(m: CurveSetModel) {
        let n = m.curve_positions.len() as u16;
        let b = Self::spec_encode(m);
        let p = head_bytes(m.type_signature, m.reserved_1) + n.enc() + m.output_channels.enc();
        lemma_curve_set_prefix(m);
        lemma_unpacked(p, m.curve_positions, m.data);
        assert(p + packed(m.curve_positions) + m.data =~= b);
        lemma_packed_len(m.curve_positions);
        m.output_channels.lemma_enc();
        n.lemma_enc();
        assert(b.len() == curves_start(n as int) + m.data.len());
        assert(b.subrange(curves_start(n as int), b.len() as int) =~= m.data);
    }

    proof fn lemma_decoded(b: Seq<u8>) {
        if let Ok(m) = Self::spec_decode(b) {
            lemma_packed_len(m.curve_positions);
            let n = m.curve_positions.len();
            assert(n * 8 == 8 * n) by (nonlinear_arith);
            (m.curve_positions.len() as u16).lemma_enc();
            m.output_channels.lemma_enc();
        }
    }

    proof fn lemma_truncated(b: Seq<u8>) {
    }
}

} // verus!
