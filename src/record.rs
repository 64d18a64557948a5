//! What every tagged data record shares: the codec contract, and the eight
//! leading bytes (type signature and reserved field) that each one starts with.
use vstd::prelude::*;
use crate::bytes::{Packed, field, packed, unpacked, lemma_unpacked, lemma_packed_len, push_all, read_all};
use crate::error::DecodeError;

verus! {

/// A tagged data record with a binary encoding.
///
/// `Self::V` is the record's model, in which variable-length fields are
/// sequences. A model is structurally valid (`wf`) when its type signature is
/// the type's own and each sequence's length fits the count field that the
/// encoding writes for it.
pub trait TagRecord: Sized + View {
    /// The type signature that the record's encoding starts with.
    spec fn spec_type_signature() -> u32;

    spec fn wf(m: Self::V) -> bool;

    spec fn spec_encode(m: Self::V) -> Seq<u8>;

    /// The bytes that `b` must hold, as the counts declared in `b` itself require
    /// (the fixed part alone where `b` is shorter than that).
    spec fn spec_needed(b: Seq<u8>) -> int;

    spec fn spec_decode(b: Seq<u8>) -> Result<Self::V, DecodeError>;

    fn type_signature(&self) -> (r: u32)
        ensures
            r == Self::spec_type_signature(),
    ;

    /// Whether the record is structurally valid.
    fn check(&self) -> (r: bool)
        ensures
            r == Self::wf(self@),
    ;

    fn encode(&self) -> (r: Vec<u8>)
        requires
            Self::wf(self@),
        ensures
            r@ == Self::spec_encode(self@),
    ;

    fn decode(b: &[u8]) -> (r: Result<Self, DecodeError>)
        ensures
            match r {
                Ok(x) => Self::spec_decode(b@) == Ok::<Self::V, DecodeError>(x@),
                Err(e) => Self::spec_decode(b@) == Err::<Self::V, DecodeError>(e),
            },
    ;

    /// Decoding the encoding of a structurally valid record gives it back.
    proof fn lemma_round_trip(m: Self::V)
        requires
            Self::wf(m),
        ensures
            Self::spec_decode(Self::spec_encode(m)) == Ok::<Self::V, DecodeError>(m),
    ;

    /// What decodes is structurally valid, and its encoding is as long as the
    /// bytes it was decoded from.
    proof fn lemma_decoded(b: Seq<u8>)
        ensures
            Self::spec_decode(b) matches Ok(m) ==> Self::wf(m) && Self::spec_encode(m).len()
                == b.len(),
    ;

    /// Bytes too few for what they declare fail to decode with `TruncatedRecord`.
    proof fn lemma_truncated(b: Seq<u8>)
        requires
            b.len() < Self::spec_needed(b),
        ensures
            Self::spec_decode(b) == Err::<Self::V, DecodeError>(
                DecodeError::TruncatedRecord {
                    type_signature: Self::spec_type_signature(),
                    needed: Self::spec_needed(b) as u64,
                    available: b.len() as u64,
                },
            ),
    ;
}

/// The error, if any, of bytes `b` that should hold exactly `needed` bytes of a
/// record with type signature `sig`: too few, the wrong signature, or too many.
pub open spec fn head_error(b: Seq<u8>, sig: u32, needed: int) -> Option<DecodeError> {
    if b.len() < needed {
        Some(
            DecodeError::TruncatedRecord {
                type_signature: sig,
                needed: needed as u64,
                available: b.len() as u64,
            },
        )
    } else if field::<u32>(b, 0) != sig {
        Some(DecodeError::UnrecognizedSignature { signature: field::<u32>(b, 0) })
    } else if b.len() > needed {
        Some(DecodeError::SizeMismatch { declared: needed as u64, actual: b.len() as u64 })
    } else {
        None
    }
}

/// Checks that `b` holds exactly `needed` bytes of a record with type signature `sig`.
pub fn check_head(b: &[u8], sig: u32, needed: u64) -> (r: Result<(), DecodeError>)
    requires
        8 <= needed,
    ensures
        match head_error(b@, sig, needed as int) {
            Some(e) => r == Err::<(), DecodeError>(e),
            None => r is Ok,
        },
{
    let len = b.len() as u64;
    if len < needed {
        return Err(DecodeError::TruncatedRecord { type_signature: sig, needed, available: len });
    }
    let found = u32::read_at(b, 0);
    if found != sig {
        return Err(DecodeError::UnrecognizedSignature { signature: found });
    }
    if len > needed {
        return Err(DecodeError::SizeMismatch { declared: needed, actual: len });
    }
    Ok(())
}

/// The first eight bytes of a record's encoding.
pub open spec fn head_bytes(sig: u32, reserved: u32) -> Seq<u8> {
    sig.enc() + reserved.enc()
}

/// The eight leading bytes of a record's encoding read back, in front of any
/// `rest`.
pub proof fn lemma_head(sig: u32, reserved: u32, rest: Seq<u8>)
    ensures
        (head_bytes(sig, reserved) + rest).len() == 8 + rest.len(),
        field::<u32>(head_bytes(sig, reserved) + rest, 0) == sig,
        field::<u32>(head_bytes(sig, reserved) + rest, 4) == reserved,
        (head_bytes(sig, reserved) + rest).subrange(8, 8 + rest.len() as int) == rest,
{
    let b = head_bytes(sig, reserved) + rest;
    sig.lemma_enc();
    reserved.lemma_enc();
    assert(b.subrange(0, 4) =~= sig.enc());
    assert(b.subrange(4, 8) =~= reserved.enc());
    assert(b.subrange(8, 8 + rest.len() as int) =~= rest);
}

/// Starts a record's encoding with its type signature and reserved field.
pub fn start_record(sig: u32, reserved: u32) -> (r: Vec<u8>)
    ensures
        r@ == head_bytes(sig, reserved),
{
    let mut out: Vec<u8> = Vec::new();
    sig.push_to(&mut out);
    reserved.push_to(&mut out);
    assert(out@ =~= head_bytes(sig, reserved));
    out
}

/// The model of a record whose values, all of one fixed-width type, run from
/// its eighth byte to its end.
pub struct ArrayModel<T> {
    pub type_signature: u32,
    pub reserved_1: u32,
    pub values: Seq<T>,
}

/// An array record carrying its type's own signature.
pub open spec fn array_wf<T: Packed>(m: ArrayModel<T>, sig: u32) -> bool {
    m.type_signature == sig
}

pub open spec fn array_encode<T: Packed>(m: ArrayModel<T>) -> Seq<u8> {
    head_bytes(m.type_signature, m.reserved_1) + packed(m.values)
}

/// The whole values that `b` holds after its eight leading bytes.
pub open spec fn array_count<T: Packed>(b: Seq<u8>) -> int {
    (b.len() - 8) / (T::spec_width() as int)
}

/// Bytes that an array record needs: the leading eight, then whole values.
pub open spec fn array_needed<T: Packed>(b: Seq<u8>) -> int {
    if b.len() < 8 {
        8
    } else {
        8 + array_count::<T>(b) * T::spec_width()
    }
}

pub open spec fn array_decode<T: Packed>(b: Seq<u8>, sig: u32) -> Result<ArrayModel<T>, DecodeError> {
    match head_error(b, sig, array_needed::<T>(b)) {
        Some(e) => Err(e),
        None => Ok(
            ArrayModel {
                type_signature: sig,
                reserved_1: field::<u32>(b, 4),
                values: unpacked::<T>(b, 8, array_count::<T>(b) as nat),
            },
        ),
    }
}

/// Decoding an array record's encoding gives it back.
pub proof fn lemma_array_round_trip<T: Packed>(m: ArrayModel<T>, sig: u32)
    requires
        m.type_signature == sig,
    ensures
        array_decode::<T>(array_encode(m), sig) == Ok::<ArrayModel<T>, DecodeError>(m),
{
    let p = head_bytes(m.type_signature, m.reserved_1);
    let b = array_encode(m);
    let w = T::spec_width() as int;
    let n = m.values.len() as int;
    T::lemma_width();
    lemma_head(m.type_signature, m.reserved_1, packed(m.values));
    lemma_unpacked(p, m.values, Seq::empty());
    assert(p + packed(m.values) + Seq::<u8>::empty() =~= b);
    assert(b.len() - 8 == n * w);
    assert((n * w) / w == n) by (nonlinear_arith)
        requires
            w >= 1,
            n >= 0,
    ;
    assert(array_count::<T>(b) == n);
}

/// What decodes as an array record carries the type signature, and encodes
/// to as many bytes as it was decoded from.
pub proof fn lemma_array_decoded<T: Packed>(b: Seq<u8>, sig: u32)
    ensures
        array_decode::<T>(b, sig) matches Ok(m) ==> m.type_signature == sig && array_encode(m).len()
            == b.len(),
{
    if let Ok(m) = array_decode::<T>(b, sig) {
        lemma_packed_len(m.values);
    }
}

/// Bytes too few for an array record's leading eight fail with `TruncatedRecord`.
pub proof fn lemma_array_truncated<T: Packed>(b: Seq<u8>, sig: u32)
    requires
        b.len() < array_needed::<T>(b),
    ensures
        array_decode::<T>(b, sig) == Err::<ArrayModel<T>, DecodeError>(
            DecodeError::TruncatedRecord {
                type_signature: sig,
                needed: array_needed::<T>(b) as u64,
                available: b.len() as u64,
            },
        ),
{
    if b.len() >= 8 {
        let w = T::spec_width() as int;
        T::lemma_width();
        let c = array_count::<T>(b);
        assert(8 + c * w <= b.len()) by (nonlinear_arith)
            requires
                c == (b.len() - 8) / w,
                w >= 1,
                b.len() >= 8,
        ;
    }
}

/// Encodes an array record.
pub fn encode_array<T: Packed>(sig: u32, reserved: u32, values: &Vec<T>) -> (r: Vec<u8>)
    ensures
        r@ == array_encode(ArrayModel { type_signature: sig, reserved_1: reserved, values: values@ }),
{
    let mut out = start_record(sig, reserved);
    push_all(&mut out, values);
    out
}

/// Decodes an array record with type signature `sig`: its reserved field and values.
pub fn decode_array<T: Packed>(b: &[u8], sig: u32) -> (r: Result<(u32, Vec<T>), DecodeError>)
    ensures
        match r {
            Ok((reserved, values)) => array_decode::<T>(b@, sig) == Ok::<ArrayModel<T>, DecodeError>(
                ArrayModel { type_signature: sig, reserved_1: reserved, values: values@ },
            ),
            Err(e) => array_decode::<T>(b@, sig) == Err::<ArrayModel<T>, DecodeError>(e),
        },
{
    let len = b.len();
    let w = T::width();
    let needed: u64 = if len < 8 {
        8
    } else {
        let count = (len - 8) / w;
        assert(count * w <= len - 8) by (nonlinear_arith)
            requires
                count == (len - 8) as int / w as int,
                w >= 1,
        ;
        (8 + count * w) as u64
    };
    match check_head(b, sig, needed) {
        Err(e) => Err(e),
        Ok(()) => {
            let count = (len - 8) / w;
            assert(count * w <= len - 8) by (nonlinear_arith)
                requires
                    count == (len - 8) as int / w as int,
                    w >= 1,
            ;
            let reserved = u32::read_at(b, 4);
            let values = read_all::<T>(b, 8, count);
            Ok((reserved, values))
        },
    }
}

/// A record of fixed width whose encoding is that of the type `T` itself.
pub open spec fn fixed_decode<T: Packed>(b: Seq<u8>, sig: u32) -> Result<T, DecodeError> {
    match head_error(b, sig, T::spec_width() as int) {
        Some(e) => Err(e),
        None => Ok(field::<T>(b, 0)),
    }
}

/// Decodes a fixed-width record with type signature `sig`.
pub fn decode_fixed<T: Packed>(b: &[u8], sig: u32) -> (r: Result<T, DecodeError>)
    requires
        T::spec_width() >= 8,
    ensures
        r == fixed_decode::<T>(b@, sig),
{
    let w = T::width();
    match check_head(b, sig, w as u64) {
        Err(e) => Err(e),
        Ok(()) => Ok(T::read_at(b, 0)),
    }
}

/// Decoding a fixed-width record's encoding gives it back.
pub proof fn lemma_fixed_round_trip<T: Packed>(x: T, sig: u32)
    requires
        x.enc().len() >= 4,
        x.enc().subrange(0, 4) == sig.enc(),
    ensures
        fixed_decode::<T>(x.enc(), sig) == Ok::<T, DecodeError>(x),
{
    let e = x.enc();
    x.lemma_enc();
    sig.lemma_enc();
    assert(e.subrange(0, T::spec_width() as int) =~= e);
}

/// What decodes as a fixed-width record is read from all of its bytes.
pub proof fn lemma_fixed_decoded<T: Packed>(b: Seq<u8>, sig: u32)
    ensures
        fixed_decode::<T>(b, sig) is Ok ==> b.len() == T::spec_width() && field::<u32>(b, 0) == sig,
{
}

/// The model of a record whose values, all of one fixed-width type, follow a
/// 32-bit count of them at its eighth byte.
pub struct CountedModel<T> {
    pub type_signature: u32,
    pub reserved_1: u32,
    pub values: Seq<T>,
}

/// A counted record carrying its type's own signature, with a count that fits
/// its field.
pub open spec fn counted_wf<T>(m: CountedModel<T>, sig: u32) -> bool {
    m.type_signature == sig && m.values.len() <= u32::MAX
}

pub open spec fn counted_encode<T: Packed>(m: CountedModel<T>) -> Seq<u8> {
    head_bytes(m.type_signature, m.reserved_1) + (m.values.len() as u32).enc() + packed(m.values)
}

/// Bytes that a counted record needs: twelve, then as many values as it declares.
pub open spec fn counted_needed<T: Packed>(b: Seq<u8>) -> int {
    if b.len() < 12 {
        12
    } else {
        12 + field::<u32>(b, 8) * T::spec_width()
    }
}

pub open spec fn counted_decode<T: Packed>(b: Seq<u8>, sig: u32) -> Result<CountedModel<T>, DecodeError> {
    match head_error(b, sig, counted_needed::<T>(b)) {
        Some(e) => Err(e),
        None => Ok(
            CountedModel {
                type_signature: sig,
                reserved_1: field::<u32>(b, 4),
                values: unpacked::<T>(b, 12, field::<u32>(b, 8) as nat),
            },
        ),
    }
}

/// Decoding a counted record's encoding gives it back.
pub proof fn lemma_counted_round_trip<T: Packed>(m: CountedModel<T>, sig: u32)
    requires
        counted_wf(m, sig),
    ensures
        counted_decode::<T>(counted_encode(m), sig) == Ok::<CountedModel<T>, DecodeError>(m),
{
    let n = m.values.len() as u32;
    let p = head_bytes(m.type_signature, m.reserved_1) + n.enc();
    let b = counted_encode(m);
    n.lemma_enc();
    lemma_head(m.type_signature, m.reserved_1, n.enc() + packed(m.values));
    assert(b =~= head_bytes(m.type_signature, m.reserved_1) + (n.enc() + packed(m.values)));
    assert(b.subrange(8, 12) =~= n.enc());
    crate::bytes::lemma_field(b, 8, n);
    lemma_unpacked(p, m.values, Seq::empty());
    assert(p + packed(m.values) + Seq::<u8>::empty() =~= b);
}

/// What decodes as a counted record is valid, and encodes to as many bytes
/// as it was decoded from.
pub proof fn lemma_counted_decoded<T: Packed>(b: Seq<u8>, sig: u32)
    ensures
        counted_decode::<T>(b, sig) matches Ok(m) ==> counted_wf(m, sig) && counted_encode(m).len()
            == b.len(),
{
    if let Ok(m) = counted_decode::<T>(b, sig) {
        lemma_packed_len(m.values);
        (m.values.len() as u32).lemma_enc();
    }
}

/// Encodes a counted record.
pub fn encode_counted<T: Packed>(sig: u32, reserved: u32, values: &Vec<T>) -> (r: Vec<u8>)
    requires
        values@.len() <= u32::MAX,
    ensures
        r@ == counted_encode(CountedModel { type_signature: sig, reserved_1: reserved, values: values@ }),
{
    let mut out = start_record(sig, reserved);
    (values.len() as u32).push_to(&mut out);
    push_all(&mut out, values);
    out
}

/// Decodes a counted record with type signature `sig`: its reserved field and values.
pub fn decode_counted<T: Packed>(b: &[u8], sig: u32) -> (r: Result<(u32, Vec<T>), DecodeError>)
    ensures
        match r {
            Ok((reserved, values)) => counted_decode::<T>(b@, sig) == Ok::<CountedModel<T>, DecodeError>(
                CountedModel { type_signature: sig, reserved_1: reserved, values: values@ },
            ),
            Err(e) => counted_decode::<T>(b@, sig) == Err::<CountedModel<T>, DecodeError>(e),
        },
{
    let len = b.len();
    let w = T::width();
    if len < 12 {
        return Err(DecodeError::TruncatedRecord { type_signature: sig, needed: 12, available: len as u64 });
    }
    let count = u32::read_at(b, 8);
    if (count as u64) > ((len - 12) / w) as u64 {
        assert((len - 12) as int / w as int * w as int <= (len - 12) as int) by (nonlinear_arith)
            requires
                w >= 1,
                len >= 12,
        ;
        assert(count as int * w as int > len - 12) by (nonlinear_arith)
            requires
                count as int > (len - 12) as int / w as int,
                w >= 1,
                len >= 12,
        ;
        assert(count as int * w as int <= 0xffff_ffff * 256) by (nonlinear_arith)
            requires
                count <= 0xffff_ffff,
                w <= 256,
        ;
        return Err(
            DecodeError::TruncatedRecord {
                type_signature: sig,
                needed: 12 + count as u64 * w as u64,
                available: len as u64,
            },
        );
    }
    assert(count as int * w as int <= len - 12) by (nonlinear_arith)
        requires
            count as int <= (len - 12) as int / w as int,
            w >= 1,
            len >= 12,
    ;
    let needed = 12 + count as usize * w;
    match check_head(b, sig, needed as u64) {
        Err(e) => Err(e),
        Ok(()) => {
            let reserved = u32::read_at(b, 4);
            let values = read_all::<T>(b, 12, count as usize);
            Ok((reserved, values))
        },
    }
}

} // verus!
