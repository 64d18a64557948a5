//! Multi-process elements: a chain of processing elements, each located by a
//! position (offset and size) that must lie inside the record.
use vstd::prelude::*;
use crate::bytes::{Packed, field, packed, unpacked, lemma_unpacked, lemma_packed_len, lemma_field, push_all, read_all};
use crate::error::DecodeError;
use crate::numbers::PositionNum;
use crate::record::{TagRecord, head_error, check_head, head_bytes, lemma_head, start_record};

verus! {

/// Type signature of `MultiProcessElements` (`mpet`).
pub const MULTI_PROCESS_ELEMENTS_TYPE: u32 = 0x6D706574;

/// A chain of processing elements: the channel counts, one position per
/// element, then the elements' bytes.
#[derive(Debug, Clone, PartialEq, Eq)]
pub struct MultiProcessElements {
    pub type_signature: u32,
    pub reserved_1: u32,
    pub input_channels: u16,
    pub output_channels: u16,
    pub positions_table: Vec<PositionNum>,
    /// The bytes after the positions table, which the positions point into.
    pub data: Vec<u8>,
}

/// The model of a `MultiProcessElements`.
pub struct ElementsModel {
    pub type_signature: u32,
    pub reserved_1: u32,
    pub input_channels: u16,
    pub output_channels: u16,
    pub positions_table: Seq<PositionNum>,
    pub data: Seq<u8>,
}

impl View for MultiProcessElements {
    type V = ElementsModel;

    open spec fn view(&self) -> ElementsModel {
        ElementsModel {
            type_signature: self.type_signature,
            reserved_1: self.reserved_1,
            input_channels: self.input_channels,
            output_channels: self.output_channels,
            positions_table: self.positions_table@,
            data: self.data@,
        }
    }
}

/// The first position, in order, that does not lie between offset `lo` and
/// the end `len` of the record.
pub open spec fn positions_error(pos: Seq<PositionNum>, lo: int, len: int) -> Option<DecodeError>
    decreases pos.len(),
{
    if pos.len() == 0 {
        None
    } else if !(lo <= pos[0].0@[0] && pos[0].0@[0] + pos[0].0@[1] <= len) {
        Some(DecodeError::InvalidOffset { offset: pos[0].0@[0], limit: len as u64 })
    } else {
        positions_error(pos.drop_first(), lo, len)
    }
}

/// Where the elements' bytes start in a record with `n` elements.
pub open spec fn elements_start(n: int) -> int {
    16 + 8 * n
}

/// The first position that lies outside the record, found by a loop.
pub fn find_bad_position(pos: &Vec<PositionNum>, lo: u64, len: u128) -> (r: Option<DecodeError>)
    ensures
        r == positions_error(pos@, lo as int, len as int),
{
    let mut i: usize = 0;
    assert(pos@.skip(0) =~= pos@);
    while i < pos.len()
        invariant
            i <= pos@.len(),
            positions_error(pos@, lo as int, len as int) == positions_error(pos@.skip(i as int), lo as int, len as int),
        decreases pos@.len() - i,
    {
        let p = pos[i];
        assert(pos@.skip(i as int)[0] == p);
        if !(lo <= p.0[0] as u64 && p.0[0] as u128 + p.0[1] as u128 <= len) {
            return Some(DecodeError::InvalidOffset { offset: p.0[0], limit: len as u64 });
        }
        assert(pos@.skip(i as int).drop_first() =~= pos@.skip(i + 1));
        i = i + 1;
    }
    assert(pos@.skip(i as int).len() == 0);
    None
}

impl MultiProcessElements {
    pub fn new(input_channels: u16, output_channels: u16, positions_table: Vec<PositionNum>, data: Vec<u8>) -> (r:
        MultiProcessElements)
        ensures
            r@ == (ElementsModel {
                type_signature: MULTI_PROCESS_ELEMENTS_TYPE,
                reserved_1: 0,
                input_channels,
                output_channels,
                positions_table: positions_table@,
                data: data@,
            }),
    {
        MultiProcessElements {
            type_signature: MULTI_PROCESS_ELEMENTS_TYPE,
            reserved_1: 0,
            input_channels,
            output_channels,
            positions_table,
            data,
        }
    }

    /// The number of processing elements.
    pub fn processing_elements(&self) -> (r: usize)
        ensures
            r == self.positions_table@.len(),
    {
        self.positions_table.len()
    }
}

/// The bytes of a record before the elements' bytes.
pub open spec fn elements_prefix(m: ElementsModel) -> Seq<u8> {
    head_bytes(m.type_signature, m.reserved_1) + m.input_channels.enc() + m.output_channels.enc()
        + (m.positions_table.len() as u32).enc() + packed(m.positions_table)
}

/// The fields before the positions table read back.
proof fn lemma_elements_prefix(m: ElementsModel)
    requires
        m.positions_table.len() <= u32::MAX,
    ensures
        field::<u16>(elements_prefix(m) + m.data, 8) == m.input_channels,
        field::<u16>(elements_prefix(m) + m.data, 10) == m.output_channels,
        field::<u32>(elements_prefix(m) + m.data, 12) == m.positions_table.len() as u32,
        field::<u32>(elements_prefix(m) + m.data, 0) == m.type_signature,
        field::<u32>(elements_prefix(m) + m.data, 4) == m.reserved_1,
{
    let n = m.positions_table.len() as u32;
    let b = elements_prefix(m) + m.data;
    n.lemma_enc();
    m.input_channels.lemma_enc();
    m.output_channels.lemma_enc();
    let rest = m.input_channels.enc() + m.output_channels.enc() + n.enc() + packed(m.positions_table) + m.data;
    lemma_head(m.type_signature, m.reserved_1, rest);
    assert(b =~= head_bytes(m.type_signature, m.reserved_1) + rest);
    assert(b.subrange(8, 10) =~= m.input_channels.enc());
    lemma_field(b, 8, m.input_channels);
    assert(b.subrange(10, 12) =~= m.output_channels.enc());
    lemma_field(b, 10, m.output_channels);
    assert(b.subrange(12, 16) =~= n.enc());
    lemma_field(b, 12, n);
}

impl TagRecord for MultiProcessElements {
    open spec fn spec_type_signature() -> u32 {
        MULTI_PROCESS_ELEMENTS_TYPE
    }

    open spec fn wf(m: ElementsModel) -> bool {
        &&& m.type_signature == MULTI_PROCESS_ELEMENTS_TYPE
        &&& m.positions_table.len() <= u32::MAX
        &&& positions_error(
            m.positions_table,
            elements_start(m.positions_table.len() as int),
            elements_start(m.positions_table.len() as int) + m.data.len(),
        ) is None
    }

    open spec fn spec_encode(m: ElementsModel) -> Seq<u8> {
        elements_prefix(m) + m.data
    }

    /// At least the positions that the count declares; the elements' bytes run
    /// to the end.
    open spec fn spec_needed(b: Seq<u8>) -> int {
        if b.len() < 16 {
            16
        } else if b.len() < elements_start(field::<u32>(b, 12) as int) {
            elements_start(field::<u32>(b, 12) as int)
        } else {
            b.len() as int
        }
    }

    open spec fn spec_decode(b: Seq<u8>) -> Result<ElementsModel, DecodeError> {
        match head_error(b, MULTI_PROCESS_ELEMENTS_TYPE, Self::spec_needed(b)) {
            Some(e) => Err(e),
            None => {
                let n = field::<u32>(b, 12);
                let pos = unpacked::<PositionNum>(b, 16, n as nat);
                match positions_error(pos, elements_start(n as int), b.len() as int) {
                    Some(e) => Err(e),
                    None => Ok(
                        ElementsModel {
                            type_signature: MULTI_PROCESS_ELEMENTS_TYPE,
                            reserved_1: field::<u32>(b, 4),
                            input_channels: field::<u16>(b, 8),
                            output_channels: field::<u16>(b, 10),
                            positions_table: pos,
                            data: b.subrange(elements_start(n as int), b.len() as int),
                        },
                    ),
                }
            },
        }
    }

    fn type_signature(&self) -> (r: u32) {
        MULTI_PROCESS_ELEMENTS_TYPE
    }

    fn check(&self) -> (r: bool) {
        if self.type_signature != MULTI_PROCESS_ELEMENTS_TYPE || self.positions_table.len() as u64 > 0xffff_ffff {
            return false;
        }
        let lo: u64 = 16 + 8 * self.positions_table.len() as u64;
        find_bad_position(&self.positions_table, lo, lo as u128 + self.data.len() as u128).is_none()
    }

    fn encode(&self) -> (r: Vec<u8>) {
        let mut out = start_record(self.type_signature, self.reserved_1);
        self.input_channels.push_to(&mut out);
        self.output_channels.push_to(&mut out);
        (self.positions_table.len() as u32).push_to(&mut out);
        push_all(&mut out, &self.positions_table);
        let mut data = vstd::slice::slice_to_vec(self.data.as_slice());
        out.append(&mut data);
        out
    }

    fn decode(b: &[u8]) -> (r: Result<MultiProcessElements, DecodeError>) {
        let len = b.len();
        if len < 16 {
            return Err(
                DecodeError::TruncatedRecord {
                    type_signature: MULTI_PROCESS_ELEMENTS_TYPE,
                    needed: 16,
                    available: len as u64,
                },
            );
        }
        let n = u32::read_at(b, 12);
        let lo: u64 = 16 + 8 * n as u64;
        let needed: u64 = if (len as u64) < lo {
            lo
        } else {
            len as u64
        };
        if let Err(e) = check_head(b, MULTI_PROCESS_ELEMENTS_TYPE, needed) {
            return Err(e);
        }
        let positions_table = read_all::<PositionNum>(b, 16, n as usize);
        if let Some(e) = find_bad_position(&positions_table, lo, len as u128) {
            return Err(e);
        }
        let data = vstd::slice::slice_to_vec(vstd::slice::slice_subrange(b, lo as usize, len));
        Ok(
            MultiProcessElements {
                type_signature: MULTI_PROCESS_ELEMENTS_TYPE,
                reserved_1: u32::read_at(b, 4),
                input_channels: u16::read_at(b, 8),
                output_channels: u16::read_at(b, 10),
                positions_table,
                data,
            },
        )
    }

    proof fn lemma_round_trip(m: ElementsModel) {
        let n = m.positions_table.len() as u32;
        let b = Self::spec_encode(m);
        let p = head_bytes(m.type_signature, m.reserved_1) + m.input_channels.enc() + m.output_channels.enc()
            + n.enc();
        lemma_elements_prefix(m);
        lemma_unpacked(p, m.positions_table, m.data);
        assert(p + packed(m.positions_table) + m.data =~= b);
        lemma_packed_len(m.positions_table);
        m.input_channels.lemma_enc();
        m.output_channels.lemma_enc();
        n.lemma_enc();
        assert(b.len() == elements_start(n as int) + m.data.len());
        assert(b.subrange(elements_start(n as int), b.len() as int) =~= m.data);
    }

    proof fn lemma_decoded(b: Seq<u8>) {
        if let Ok(m) = Self::spec_decode(b) {
            lemma_packed_len(m.positions_table);
            let n = m.positions_table.len();
            assert(n * 8 == 8 * n) by (nonlinear_arith);
            (m.positions_table.len() as u32).lemma_enc();
            m.input_channels.lemma_enc();
            m.output_channels.lemma_enc();
        }
    }

    proof fn lemma_truncated(b: Seq<u8>) {
    }
}

} // verus!
