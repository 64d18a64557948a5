//! Records that hold a count of values followed by the values.
use vstd::prelude::*;
use crate::bytes::{Packed, field, lemma_field};
use crate::error::DecodeError;
use crate::numbers::PositionNum;
use crate::record::{
    TagRecord, CountedModel, counted_wf, counted_encode, counted_decode, counted_needed,
    encode_counted, decode_counted, lemma_counted_round_trip, lemma_counted_decoded,
};

verus! {

/// One colorant of a colorant table: its name, NUL-padded ASCII, and its
/// connection-space coordinates.
#[derive(Debug, Copy, Clone, PartialEq, Eq)]
pub struct ColorantEntry {
    pub name: [u8; 32],
    pub pcs: [u16; 3],
}

impl Packed for ColorantEntry {
    open spec fn spec_width() -> nat {
        38
    }

    open spec fn enc(self) -> Seq<u8> {
        self.name@ + self.pcs@[0].enc() + self.pcs@[1].enc() + self.pcs@[2].enc()
    }

    open spec fn dec(b: Seq<u8>) -> ColorantEntry {
        ColorantEntry {
            name: [b[0], b[1], b[2], b[3], b[4], b[5], b[6], b[7], b[8], b[9], b[10], b[11], b[12], b[13], b[14], b[15], b[16], b[17], b[18], b[19], b[20], b[21], b[22], b[23], b[24], b[25], b[26], b[27], b[28], b[29], b[30], b[31]],
            pcs: [field::<u16>(b, 32), field::<u16>(b, 34), field::<u16>(b, 36)],
        }
    }

    proof fn lemma_enc(self) {
        let e = self.enc();
        self.pcs@[0].lemma_enc();
        self.pcs@[1].lemma_enc();
        self.pcs@[2].lemma_enc();
        assert(e.subrange(32, 34) =~= self.pcs@[0].enc());
        assert(e.subrange(34, 36) =~= self.pcs@[1].enc());
        assert(e.subrange(36, 38) =~= self.pcs@[2].enc());
        lemma_field(e, 32, self.pcs@[0]);
        lemma_field(e, 34, self.pcs@[1]);
        lemma_field(e, 36, self.pcs@[2]);
        assert(Self::dec(e).pcs =~= self.pcs);
        assert(Self::dec(e).name@[0] == self.name@[0]);
        assert(Self::dec(e).name@[1] == self.name@[1]);
        assert(Self::dec(e).name@[2] == self.name@[2]);
        assert(Self::dec(e).name@[3] == self.name@[3]);
        assert(Self::dec(e).name@[4] == self.name@[4]);
        assert(Self::dec(e).name@[5] == self.name@[5]);
        assert(Self::dec(e).name@[6] == self.name@[6]);
        assert(Self::dec(e).name@[7] == self.name@[7]);
        assert(Self::dec(e).name@[8] == self.name@[8]);
        assert(Self::dec(e).name@[9] == self.name@[9]);
        assert(Self::dec(e).name@[10] == self.name@[10]);
        assert(Self::dec(e).name@[11] == self.name@[11]);
        assert(Self::dec(e).name@[12] == self.name@[12]);
        assert(Self::dec(e).name@[13] == self.name@[13]);
        assert(Self::dec(e).name@[14] == self.name@[14]);
        assert(Self::dec(e).name@[15] == self.name@[15]);
        assert(Self::dec(e).name@[16] == self.name@[16]);
        assert(Self::dec(e).name@[17] == self.name@[17]);
        assert(Self::dec(e).name@[18] == self.name@[18]);
        assert(Self::dec(e).name@[19] == self.name@[19]);
        assert(Self::dec(e).name@[20] == self.name@[20]);
        assert(Self::dec(e).name@[21] == self.name@[21]);
        assert(Self::dec(e).name@[22] == self.name@[22]);
        assert(Self::dec(e).name@[23] == self.name@[23]);
        assert(Self::dec(e).name@[24] == self.name@[24]);
        assert(Self::dec(e).name@[25] == self.name@[25]);
        assert(Self::dec(e).name@[26] == self.name@[26]);
        assert(Self::dec(e).name@[27] == self.name@[27]);
        assert(Self::dec(e).name@[28] == self.name@[28]);
        assert(Self::dec(e).name@[29] == self.name@[29]);
        assert(Self::dec(e).name@[30] == self.name@[30]);
        assert(Self::dec(e).name@[31] == self.name@[31]);
        assert(Self::dec(e).name =~= self.name);
    }

    proof fn lemma_width() {
    }

    fn width() -> (r: usize) {
        38
    }

    fn push_to(&self, out: &mut Vec<u8>) {
        let name = self.name;
        let mut i: usize = 0;
        let ghost before = out@;
        while i < 32
            invariant
                i <= 32,
                out@ == before + name@.subrange(0, i as int),
            decreases 32 - i,
        {
            out.push(name[i]);
            assert(out@ =~= before + name@.subrange(0, i + 1));
            i = i + 1;
        }
        assert(name@.subrange(0, 32) =~= name@);
        self.pcs[0].push_to(out);
        self.pcs[1].push_to(out);
        self.pcs[2].push_to(out);
        assert(out@ =~= old(out)@ + self.enc());
    }

    #[verifier::rlimit(40)]
    fn read_at(b: &[u8], k: usize) -> (r: ColorantEntry) {
        let len = b.len();
        let ghost s = b@.subrange(k as int, k + 38);
        let mut name = [0u8; 32];
        let mut i: usize = 0;
        while i < 32
            invariant
                i <= 32,
                k + 38 <= b@.len(),
                len == b@.len(),
                s == b@.subrange(k as int, k + 38),
                forall|j: int| 0 <= j < i ==> name@[j] == s[j],
            decreases 32 - i,
        {
            name[i] = b[k + i];
            i = i + 1;
        }
        let p0 = u16::read_at(b, k + 32);
        let p1 = u16::read_at(b, k + 34);
        let p2 = u16::read_at(b, k + 36);
        assert(s.subrange(32, 34) =~= b@.subrange(k + 32, k + 34));
        assert(s.subrange(34, 36) =~= b@.subrange(k + 34, k + 36));
        assert(s.subrange(36, 38) =~= b@.subrange(k + 36, k + 38));
        let r = ColorantEntry { name, pcs: [p0, p1, p2] };
        assert(r.pcs =~= Self::dec(s).pcs);
        assert(r.name@[0] == Self::dec(s).name@[0]);
        assert(r.name@[1] == Self::dec(s).name@[1]);
        assert(r.name@[2] == Self::dec(s).name@[2]);
        assert(r.name@[3] == Self::dec(s).name@[3]);
        assert(r.name@[4] == Self::dec(s).name@[4]);
        assert(r.name@[5] == Self::dec(s).name@[5]);
        assert(r.name@[6] == Self::dec(s).name@[6]);
        assert(r.name@[7] == Self::dec(s).name@[7]);
        assert(r.name@[8] == Self::dec(s).name@[8]);
        assert(r.name@[9] == Self::dec(s).name@[9]);
        assert(r.name@[10] == Self::dec(s).name@[10]);
        assert(r.name@[11] == Self::dec(s).name@[11]);
        assert(r.name@[12] == Self::dec(s).name@[12]);
        assert(r.name@[13] == Self::dec(s).name@[13]);
        assert(r.name@[14] == Self::dec(s).name@[14]);
        assert(r.name@[15] == Self::dec(s).name@[15]);
        assert(r.name@[16] == Self::dec(s).name@[16]);
        assert(r.name@[17] == Self::dec(s).name@[17]);
        assert(r.name@[18] == Self::dec(s).name@[18]);
        assert(r.name@[19] == Self::dec(s).name@[19]);
        assert(r.name@[20] == Self::dec(s).name@[20]);
        assert(r.name@[21] == Self::dec(s).name@[21]);
        assert(r.name@[22] == Self::dec(s).name@[22]);
        assert(r.name@[23] == Self::dec(s).name@[23]);
        assert(r.name@[24] == Self::dec(s).name@[24]);
        assert(r.name@[25] == Self::dec(s).name@[25]);
        assert(r.name@[26] == Self::dec(s).name@[26]);
        assert(r.name@[27] == Self::dec(s).name@[27]);
        assert(r.name@[28] == Self::dec(s).name@[28]);
        assert(r.name@[29] == Self::dec(s).name@[29]);
        assert(r.name@[30] == Self::dec(s).name@[30]);
        assert(r.name@[31] == Self::dec(s).name@[31]);
        assert(r.name =~= Self::dec(s).name);
        r
    }
}


/// Type signature of `ColorantOrder` (`clro`).
pub const COLORANT_ORDER_TYPE: u32 = 0x636C726F;

/// The order in which colorants are laid down: the number of each colorant, first laid down first.
#[derive(Debug, Clone, PartialEq, Eq)]
pub struct ColorantOrder {
    pub type_signature: u32,
    pub reserved_1: u32,
    pub colorants: Vec<u8>,
}

impl View for ColorantOrder {
    type V = CountedModel<u8>;

    open spec fn view(&self) -> CountedModel<u8> {
        CountedModel {
            type_signature: self.type_signature,
            reserved_1: self.reserved_1,
            values: self.colorants@,
        }
    }
}

impl ColorantOrder {
    pub fn new(colorants: Vec<u8>) -> (r: ColorantOrder)
        ensures
            r@ == (CountedModel { type_signature: COLORANT_ORDER_TYPE, reserved_1: 0, values: colorants@ }),
    {
        ColorantOrder { type_signature: COLORANT_ORDER_TYPE, reserved_1: 0, colorants }
    }

    /// The count that the encoding declares.
    pub fn count(&self) -> (r: usize)
        ensures
            r == self.colorants@.len(),
    {
        self.colorants.len()
    }
}

impl TagRecord for ColorantOrder {
    open spec fn spec_type_signature() -> u32 {
        COLORANT_ORDER_TYPE
    }

    open spec fn wf(m: CountedModel<u8>) -> bool {
        counted_wf(m, COLORANT_ORDER_TYPE)
    }

    open spec fn spec_encode(m: CountedModel<u8>) -> Seq<u8> {
        counted_encode(m)
    }

    open spec fn spec_needed(b: Seq<u8>) -> int {
        counted_needed::<u8>(b)
    }

    open spec fn spec_decode(b: Seq<u8>) -> Result<CountedModel<u8>, DecodeError> {
        counted_decode::<u8>(b, COLORANT_ORDER_TYPE)
    }

    fn type_signature(&self) -> (r: u32) {
        COLORANT_ORDER_TYPE
    }

    fn check(&self) -> (r: bool) {
        self.type_signature == COLORANT_ORDER_TYPE && self.colorants.len() as u64 <= 0xffff_ffff
    }

    fn encode(&self) -> (r: Vec<u8>) {
        encode_counted(self.type_signature, self.reserved_1, &self.colorants)
    }

    fn decode(b: &[u8]) -> (r: Result<ColorantOrder, DecodeError>) {
        match decode_counted::<u8>(b, COLORANT_ORDER_TYPE) {
            Ok((reserved_1, colorants)) => Ok(ColorantOrder { type_signature: COLORANT_ORDER_TYPE, reserved_1, colorants }),
            Err(e) => Err(e),
        }
    }

    proof fn lemma_round_trip(m: CountedModel<u8>) {
        lemma_counted_round_trip(m, COLORANT_ORDER_TYPE);
    }

    proof fn lemma_decoded(b: Seq<u8>) {
        lemma_counted_decoded::<u8>(b, COLORANT_ORDER_TYPE);
    }

    proof fn lemma_truncated(b: Seq<u8>) {
    }
}

/// Type signature of `ColorantTable` (`clrt`).
pub const COLORANT_TABLE_TYPE: u32 = 0x636C7274;

/// The colorants of a device, each with its name and connection-space coordinates.
#[derive(Debug, Clone, PartialEq, Eq)]
pub struct ColorantTable {
    pub type_signature: u32,
    pub reserved_1: u32,
    pub colorants: Vec<ColorantEntry>,
}

impl View for ColorantTable {
    type V = CountedModel<ColorantEntry>;

    open spec fn view(&self) -> CountedModel<ColorantEntry> {
        CountedModel {
            type_signature: self.type_signature,
            reserved_1: self.reserved_1,
            values: self.colorants@,
        }
    }
}

impl ColorantTable {
    pub fn new(colorants: Vec<ColorantEntry>) -> (r: ColorantTable)
        ensures
            r@ == (CountedModel { type_signature: COLORANT_TABLE_TYPE, reserved_1: 0, values: colorants@ }),
    {
        ColorantTable { type_signature: COLORANT_TABLE_TYPE, reserved_1: 0, colorants }
    }

    /// The count that the encoding declares.
    pub fn count(&self) -> (r: usize)
        ensures
            r == self.colorants@.len(),
    {
        self.colorants.len()
    }
}

impl TagRecord for ColorantTable {
    open spec fn spec_type_signature() -> u32 {
        COLORANT_TABLE_TYPE
    }

    open spec fn wf(m: CountedModel<ColorantEntry>) -> bool {
        counted_wf(m, COLORANT_TABLE_TYPE)
    }

    open spec fn spec_encode(m: CountedModel<ColorantEntry>) -> Seq<u8> {
        counted_encode(m)
    }

    open spec fn spec_needed(b: Seq<u8>) -> int {
        counted_needed::<ColorantEntry>(b)
    }

    open spec fn spec_decode(b: Seq<u8>) -> Result<CountedModel<ColorantEntry>, DecodeError> {
        counted_decode::<ColorantEntry>(b, COLORANT_TABLE_TYPE)
    }

    fn type_signature(&self) -> (r: u32) {
        COLORANT_TABLE_TYPE
    }

    fn check(&self) -> (r: bool) {
        self.type_signature == COLORANT_TABLE_TYPE && self.colorants.len() as u64 <= 0xffff_ffff
    }

    fn encode(&self) -> (r: Vec<u8>) {
        encode_counted(self.type_signature, self.reserved_1, &self.colorants)
    }

    fn decode(b: &[u8]) -> (r: Result<ColorantTable, DecodeError>) {
        match decode_counted::<ColorantEntry>(b, COLORANT_TABLE_TYPE) {
            Ok((reserved_1, colorants)) => Ok(ColorantTable { type_signature: COLORANT_TABLE_TYPE, reserved_1, colorants }),
            Err(e) => Err(e),
        }
    }

    proof fn lemma_round_trip(m: CountedModel<ColorantEntry>) {
        lemma_counted_round_trip(m, COLORANT_TABLE_TYPE);
    }

    proof fn lemma_decoded(b: Seq<u8>) {
        lemma_counted_decoded::<ColorantEntry>(b, COLORANT_TABLE_TYPE);
    }

    proof fn lemma_truncated(b: Seq<u8>) {
    }
}

/// Type signature of `ProfileSequenceIdentifier` (`psid`).
pub const PROFILE_SEQUENCE_IDENTIFIER_TYPE: u32 = 0x70736964;

/// The positions of the identifiers of the profiles in a sequence.
#[derive(Debug, Clone, PartialEq, Eq)]
pub struct ProfileSequenceIdentifier {
    pub type_signature: u32,
    pub reserved_1: u32,
    pub positions: Vec<PositionNum>,
}

impl View for ProfileSequenceIdentifier {
    type V = CountedModel<PositionNum>;

    open spec fn view(&self) -> CountedModel<PositionNum> {
        CountedModel {
            type_signature: self.type_signature,
            reserved_1: self.reserved_1,
            values: self.positions@,
        }
    }
}

impl ProfileSequenceIdentifier {
    pub fn new(positions: Vec<PositionNum>) -> (r: ProfileSequenceIdentifier)
        ensures
            r@ == (CountedModel { type_signature: PROFILE_SEQUENCE_IDENTIFIER_TYPE, reserved_1: 0, values: positions@ }),
    {
        ProfileSequenceIdentifier { type_signature: PROFILE_SEQUENCE_IDENTIFIER_TYPE, reserved_1: 0, positions }
    }

    /// The count that the encoding declares.
    pub fn count(&self) -> (r: usize)
        ensures
            r == self.positions@.len(),
    {
        self.positions.len()
    }
}

impl TagRecord for ProfileSequenceIdentifier {
    open spec fn spec_type_signature() -> u32 {
        PROFILE_SEQUENCE_IDENTIFIER_TYPE
    }

    open spec fn wf(m: CountedModel<PositionNum>) -> bool {
        counted_wf(m, PROFILE_SEQUENCE_IDENTIFIER_TYPE)
    }

    open spec fn spec_encode(m: CountedModel<PositionNum>) -> Seq<u8> {
        counted_encode(m)
    }

    open spec fn spec_needed(b: Seq<u8>) -> int {
        counted_needed::<PositionNum>(b)
    }

    open spec fn spec_decode(b: Seq<u8>) -> Result<CountedModel<PositionNum>, DecodeError> {
        counted_decode::<PositionNum>(b, PROFILE_SEQUENCE_IDENTIFIER_TYPE)
    }

    fn type_signature(&self) -> (r: u32) {
        PROFILE_SEQUENCE_IDENTIFIER_TYPE
    }

    fn check(&self) -> (r: bool) {
        self.type_signature == PROFILE_SEQUENCE_IDENTIFIER_TYPE && self.positions.len() as u64 <= 0xffff_ffff
    }

    fn encode(&self) -> (r: Vec<u8>) {
        encode_counted(self.type_signature, self.reserved_1, &self.positions)
    }

    fn decode(b: &[u8]) -> (r: Result<ProfileSequenceIdentifier, DecodeError>) {
        match decode_counted::<PositionNum>(b, PROFILE_SEQUENCE_IDENTIFIER_TYPE) {
            Ok((reserved_1, positions)) => Ok(ProfileSequenceIdentifier { type_signature: PROFILE_SEQUENCE_IDENTIFIER_TYPE, reserved_1, positions }),
            Err(e) => Err(e),
        }
    }

    proof fn lemma_round_trip(m: CountedModel<PositionNum>) {
        lemma_counted_round_trip(m, PROFILE_SEQUENCE_IDENTIFIER_TYPE);
    }

    proof fn lemma_decoded(b: Seq<u8>) {
        lemma_counted_decoded::<PositionNum>(b, PROFILE_SEQUENCE_IDENTIFIER_TYPE);
    }

    proof fn lemma_truncated(b: Seq<u8>) {
    }
}

} // verus!