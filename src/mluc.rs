//! Multi-localized text: strings in several languages, each located by an
//! offset and a length that must lie inside the record.
use vstd::prelude::*;
use crate::bytes::{Packed, field, packed, unpacked, lemma_unpacked, lemma_packed_len, lemma_field, push_all, read_all};
use crate::error::DecodeError;
use crate::record::{TagRecord, head_error, check_head, head_bytes, lemma_head, start_record};

verus! {

/// Type signature of `MultiLocalizedUnicode` (`mluc`).
pub const MULTI_LOCALIZED_UNICODE_TYPE: u32 = 0x6D6C7563;

/// Bytes in the record of one string.
pub const LOCALIZED_RECORD_SIZE: u32 = 12;

/// The language and country of one string, and where its bytes lie in the record.
#[derive(Debug, Copy, Clone, PartialEq, Eq, Structural)]
pub struct LocalizedString {
    pub lang_code: u16,
    pub country_code: u16,
    pub str_length: u32,
    pub str_offset: u32,
}

impl Packed for LocalizedString {
    open spec fn spec_width() -> nat {
        12
    }

    open spec fn enc(self) -> Seq<u8> {
        self.lang_code.enc() + self.country_code.enc() + self.str_length.enc() + self.str_offset.enc()
    }

    open spec fn dec(b: Seq<u8>) -> LocalizedString {
        LocalizedString {
            lang_code: field::<u16>(b, 0),
            country_code: field::<u16>(b, 2),
            str_length: field::<u32>(b, 4),
            str_offset: field::<u32>(b, 8),
        }
    }

    proof fn lemma_enc(self) {
        let e = self.enc();
        self.lang_code.lemma_enc();
        self.country_code.lemma_enc();
        self.str_length.lemma_enc();
        self.str_offset.lemma_enc();
        assert(e.subrange(0, 2) =~= self.lang_code.enc());
        lemma_field(e, 0, self.lang_code);
        assert(e.subrange(2, 4) =~= self.country_code.enc());
        lemma_field(e, 2, self.country_code);
        assert(e.subrange(4, 8) =~= self.str_length.enc());
        lemma_field(e, 4, self.str_length);
        assert(e.subrange(8, 12) =~= self.str_offset.enc());
        lemma_field(e, 8, self.str_offset);
    }

    proof fn lemma_width() {
    }

    fn width() -> (r: usize) {
        12
    }

    fn push_to(&self, out: &mut Vec<u8>) {
        self.lang_code.push_to(out);
        self.country_code.push_to(out);
        self.str_length.push_to(out);
        self.str_offset.push_to(out);
        assert(out@ =~= old(out)@ + self.enc());
    }

    fn read_at(b: &[u8], k: usize) -> (r: LocalizedString) {
        let len = b.len();
        let ghost s = b@.subrange(k as int, k + 12);
        let lang_code = u16::read_at(b, k + 0);
        assert(s.subrange(0, 2) =~= b@.subrange(k + 0, k + 2));
        let country_code = u16::read_at(b, k + 2);
        assert(s.subrange(2, 4) =~= b@.subrange(k + 2, k + 4));
        let str_length = u32::read_at(b, k + 4);
        assert(s.subrange(4, 8) =~= b@.subrange(k + 4, k + 8));
        let str_offset = u32::read_at(b, k + 8);
        assert(s.subrange(8, 12) =~= b@.subrange(k + 8, k + 12));
        LocalizedString { lang_code, country_code, str_length, str_offset }
    }
}

/// Text in several languages: one record per string, then the strings' bytes.
#[derive(Debug, Clone, PartialEq, Eq)]
pub struct MultiLocalizedUnicode {
    pub type_signature: u32,
    pub reserved_1: u32,
    pub records: Vec<LocalizedString>,
    /// The bytes after the records, which the records' offsets point into.
    pub strings: Vec<u8>,
}

/// The model of a `MultiLocalizedUnicode`.
pub struct MlucModel {
    pub type_signature: u32,
    pub reserved_1: u32,
    pub records: Seq<LocalizedString>,
    pub strings: Seq<u8>,
}

impl View for MultiLocalizedUnicode {
    type V = MlucModel;

    open spec fn view(&self) -> MlucModel {
        MlucModel {
            type_signature: self.type_signature,
            reserved_1: self.reserved_1,
            records: self.records@,
            strings: self.strings@,
        }
    }
}

/// The first record, in order, whose string does not lie between offset `lo`
/// and the end `len` of the record.
pub open spec fn strings_error(recs: Seq<LocalizedString>, lo: int, len: int) -> Option<DecodeError>
    decreases recs.len(),
{
    if recs.len() == 0 {
        None
    } else if !(lo <= recs[0].str_offset && recs[0].str_offset + recs[0].str_length <= len) {
        Some(DecodeError::InvalidOffset { offset: recs[0].str_offset, limit: len as u64 })
    } else {
        strings_error(recs.drop_first(), lo, len)
    }
}

/// Where the strings start in a record with `n` strings.
pub open spec fn strings_start(n: int) -> int {
    16 + 12 * n
}

/// The first record whose string lies outside the record, found by a loop.
fn find_bad_string(recs: &Vec<LocalizedString>, lo: u64, len: u128) -> (r: Option<DecodeError>)
    ensures
        r == strings_error(recs@, lo as int, len as int),
{
    let mut i: usize = 0;
    assert(recs@.skip(0) =~= recs@);
    while i < recs.len()
        invariant
            i <= recs@.len(),
            strings_error(recs@, lo as int, len as int) == strings_error(recs@.skip(i as int), lo as int, len as int),
        decreases recs@.len() - i,
    {
        let r = recs[i];
        assert(recs@.skip(i as int)[0] == r);
        if !(lo <= r.str_offset as u64 && r.str_offset as u128 + r.str_length as u128 <= len) {
            return Some(DecodeError::InvalidOffset { offset: r.str_offset, limit: len as u64 });
        }
        assert(recs@.skip(i as int).drop_first() =~= recs@.skip(i + 1));
        i = i + 1;
    }
    assert(recs@.skip(i as int).len() == 0);
    None
}

impl MultiLocalizedUnicode {
    pub fn new(records: Vec<LocalizedString>, strings: Vec<u8>) -> (r: MultiLocalizedUnicode)
        ensures
            r@ == (MlucModel {
                type_signature: MULTI_LOCALIZED_UNICODE_TYPE,
                reserved_1: 0,
                records: records@,
                strings: strings@,
            }),
    {
        MultiLocalizedUnicode { type_signature: MULTI_LOCALIZED_UNICODE_TYPE, reserved_1: 0, records, strings }
    }

    /// The number of strings.
    pub fn count_records(&self) -> (r: usize)
        ensures
            r == self.records@.len(),
    {
        self.records.len()
    }
}

/// The bytes of a record before its strings.
pub open spec fn mluc_prefix(m: MlucModel) -> Seq<u8> {
    head_bytes(m.type_signature, m.reserved_1) + (m.records.len() as u32).enc() + LOCALIZED_RECORD_SIZE.enc()
        + packed(m.records)
}

/// The count and record size of an encoding read back.
proof fn lemma_mluc_prefix(m: MlucModel)
    requires
        m.records.len() <= u32::MAX,
    ensures
        field::<u32>(mluc_prefix(m) + m.strings, 8) == m.records.len() as u32,
        field::<u32>(mluc_prefix(m) + m.strings, 12) == LOCALIZED_RECORD_SIZE,
        field::<u32>(mluc_prefix(m) + m.strings, 0) == m.type_signature,
        field::<u32>(mluc_prefix(m) + m.strings, 4) == m.reserved_1,
{
    let n = m.records.len() as u32;
    let b = mluc_prefix(m) + m.strings;
    n.lemma_enc();
    LOCALIZED_RECORD_SIZE.lemma_enc();
    let rest = n.enc() + LOCALIZED_RECORD_SIZE.enc() + packed(m.records) + m.strings;
    lemma_head(m.type_signature, m.reserved_1, rest);
    assert(b =~= head_bytes(m.type_signature, m.reserved_1) + rest);
    assert(b.subrange(8, 12) =~= n.enc());
    lemma_field(b, 8, n);
    assert(b.subrange(12, 16) =~= LOCALIZED_RECORD_SIZE.enc());
    lemma_field(b, 12, LOCALIZED_RECORD_SIZE);
}

impl TagRecord for MultiLocalizedUnicode {
    open spec fn spec_type_signature() -> u32 {
        MULTI_LOCALIZED_UNICODE_TYPE
    }

    open spec fn wf(m: MlucModel) -> bool {
        &&& m.type_signature == MULTI_LOCALIZED_UNICODE_TYPE
        &&& m.records.len() <= u32::MAX
        &&& strings_error(
            m.records,
            strings_start(m.records.len() as int),
            strings_start(m.records.len() as int) + m.strings.len(),
        ) is None
    }

    open spec fn spec_encode(m: MlucModel) -> Seq<u8> {
        mluc_prefix(m) + m.strings
    }

    /// At least the records that the count declares; the strings run to the end.
    open spec fn spec_needed(b: Seq<u8>) -> int {
        if b.len() < 16 {
            16
        } else if b.len() < strings_start(field::<u32>(b, 8) as int) {
            strings_start(field::<u32>(b, 8) as int)
        } else {
            b.len() as int
        }
    }

    open spec fn spec_decode(b: Seq<u8>) -> Result<MlucModel, DecodeError> {
        match head_error(b, MULTI_LOCALIZED_UNICODE_TYPE, Self::spec_needed(b)) {
            Some(e) => Err(e),
            None => {
                let n = field::<u32>(b, 8);
                let size = field::<u32>(b, 12);
                let recs = unpacked::<LocalizedString>(b, 16, n as nat);
                if size != LOCALIZED_RECORD_SIZE {
                    Err(DecodeError::SizeMismatch { declared: size as u64, actual: LOCALIZED_RECORD_SIZE as u64 })
                } else {
                    match strings_error(recs, strings_start(n as int), b.len() as int) {
                        Some(e) => Err(e),
                        None => Ok(
                            MlucModel {
                                type_signature: MULTI_LOCALIZED_UNICODE_TYPE,
                                reserved_1: field::<u32>(b, 4),
                                records: recs,
                                strings: b.subrange(strings_start(n as int), b.len() as int),
                            },
                        ),
                    }
                }
            },
        }
    }

    fn type_signature(&self) -> (r: u32) {
        MULTI_LOCALIZED_UNICODE_TYPE
    }

    fn check(&self) -> (r: bool) {
        if self.type_signature != MULTI_LOCALIZED_UNICODE_TYPE || self.records.len() as u64 > 0xffff_ffff {
            return false;
        }
        let lo: u64 = 16 + 12 * self.records.len() as u64;
        find_bad_string(&self.records, lo, lo as u128 + self.strings.len() as u128).is_none()
    }

    fn encode(&self) -> (r: Vec<u8>) {
        let mut out = start_record(self.type_signature, self.reserved_1);
        (self.records.len() as u32).push_to(&mut out);
        LOCALIZED_RECORD_SIZE.push_to(&mut out);
        push_all(&mut out, &self.records);
        let mut strings = vstd::slice::slice_to_vec(self.strings.as_slice());
        out.append(&mut strings);
        out
    }

    fn decode(b: &[u8]) -> (r: Result<MultiLocalizedUnicode, DecodeError>) {
        let len = b.len();
        if len < 16 {
            return Err(
                DecodeError::TruncatedRecord {
                    type_signature: MULTI_LOCALIZED_UNICODE_TYPE,
                    needed: 16,
                    available: len as u64,
                },
            );
        }
        let n = u32::read_at(b, 8);
        let lo: u64 = 16 + 12 * n as u64;
        let needed: u64 = if (len as u64) < lo {
            lo
        } else {
            len as u64
        };
        if let Err(e) = check_head(b, MULTI_LOCALIZED_UNICODE_TYPE, needed) {
            return Err(e);
        }
        let size = u32::read_at(b, 12);
        if size != LOCALIZED_RECORD_SIZE {
            return Err(DecodeError::SizeMismatch { declared: size as u64, actual: LOCALIZED_RECORD_SIZE as u64 });
        }
        let records = read_all::<LocalizedString>(b, 16, n as usize);
        if let Some(e) = find_bad_string(&records, lo, len as u128) {
            return Err(e);
        }
        let strings = vstd::slice::slice_to_vec(vstd::slice::slice_subrange(b, lo as usize, len));
        Ok(
            MultiLocalizedUnicode {
                type_signature: MULTI_LOCALIZED_UNICODE_TYPE,
                reserved_1: u32::read_at(b, 4),
                records,
                strings,
            },
        )
    }

    proof fn lemma_round_trip(m: MlucModel) {
        let n = m.records.len() as u32;
        let b = Self::spec_encode(m);
        let p = head_bytes(m.type_signature, m.reserved_1) + n.enc() + LOCALIZED_RECORD_SIZE.enc();
        lemma_mluc_prefix(m);
        lemma_unpacked(p, m.records, m.strings);
        assert(p + packed(m.records) + m.strings =~= b);
        lemma_packed_len(m.records);
        assert(b.len() == strings_start(n as int) + m.strings.len());
        assert(b.subrange(strings_start(n as int), b.len() as int) =~= m.strings);
    }

    proof fn lemma_decoded(b: Seq<u8>) {
        if let Ok(m) = Self::spec_decode(b) {
            lemma_packed_len(m.records);
            let n = m.records.len();
            assert(n * 12 == 12 * n) by (nonlinear_arith);
            (m.records.len() as u32).lemma_enc();
            LOCALIZED_RECORD_SIZE.lemma_enc();
        }
    }

    proof fn lemma_truncated(b: Seq<u8>) {
    }
}

} // verus!
