//! Fixed-point reals and the small composite numbers of the profile format.
use vstd::prelude::*;
use crate::bytes::{Packed, be16, be32, from_be16, from_be32, field, lemma_field};

verus! {

/// A fixed-point number that splits into an integer and a fractional part.
pub trait FixedInt<T>: Sized {
    /// The parts lie within the bit widths of the format.
    spec fn parts_fit(integer: T, fractional: T) -> bool;

    spec fn spec_from_parts(integer: T, fractional: T) -> Self;

    spec fn spec_integer_part(&self) -> T;

    spec fn spec_fractional_part(&self) -> T;

    /// Packs the parts; bits beyond each part's width are dropped.
    fn from_parts(integer: T, fractional: T) -> (r: Self)
        ensures
            r == Self::spec_from_parts(integer, fractional),
    ;

    fn integer_part(&self) -> (r: T)
        ensures
            r == self.spec_integer_part(),
    ;

    fn fractional_part(&self) -> (r: T)
        ensures
            r == self.spec_fractional_part(),
    ;

    /// Parts within the format's widths come back unchanged.
    proof fn lemma_parts(integer: T, fractional: T)
        requires
            Self::parts_fit(integer, fractional),
        ensures
            Self::spec_from_parts(integer, fractional).spec_integer_part() == integer,
            Self::spec_from_parts(integer, fractional).spec_fractional_part() == fractional,
    ;
}

/// A signed number with 16 fractional bits, stored as an `i32`.
#[derive(Debug, Copy, Clone, PartialEq, Eq, Hash, Structural)]
pub struct S15Fixed16(pub i32);

/// An unsigned number with 16 fractional bits, stored as a `u32`.
#[derive(Debug, Copy, Clone, PartialEq, Eq, Hash, Structural)]
pub struct U16Fixed16(pub u32);

/// An unsigned number with one integer bit and 15 fractional bits, stored as a `u16`.
#[derive(Debug, Copy, Clone, PartialEq, Eq, Hash, Structural)]
pub struct U1Fixed15(pub u16);

/// An unsigned number with 8 fractional bits, stored as a `u16`.
#[derive(Debug, Copy, Clone, PartialEq, Eq, Hash, Structural)]
pub struct U8Fixed8(pub u16);

impl S15Fixed16 {
    pub fn new(value: i32) -> (r: Self)
        ensures
            r.0 == value,
    {
        S15Fixed16(value)
    }

    pub fn get(&self) -> (r: i32)
        ensures
            r == self.0,
    {
        self.0
    }
}

impl U16Fixed16 {
    pub fn new(value: u32) -> (r: Self)
        ensures
            r.0 == value,
    {
        U16Fixed16(value)
    }

    pub fn get(&self) -> (r: u32)
        ensures
            r == self.0,
    {
        self.0
    }
}

impl U1Fixed15 {
    pub fn new(value: u16) -> (r: Self)
        ensures
            r.0 == value,
    {
        U1Fixed15(value)
    }

    pub fn get(&self) -> (r: u16)
        ensures
            r == self.0,
    {
        self.0
    }
}

impl U8Fixed8 {
    pub fn new(value: u16) -> (r: Self)
        ensures
            r.0 == value,
    {
        U8Fixed8(value)
    }

    pub fn get(&self) -> (r: u16)
        ensures
            r == self.0,
    {
        self.0
    }
}

impl FixedInt<i16> for S15Fixed16 {
    open spec fn parts_fit(integer: i16, fractional: i16) -> bool {
        true
    }

    open spec fn spec_from_parts(integer: i16, fractional: i16) -> S15Fixed16 {
        S15Fixed16(((integer as i32) << 16i32) | ((fractional as u16) as i32))
    }

    open spec fn spec_integer_part(&self) -> i16 {
        (self.0 >> 16i32) as i16
    }

    open spec fn spec_fractional_part(&self) -> i16 {
        self.0 as i16
    }

    fn from_parts(integer: i16, fractional: i16) -> (r: S15Fixed16) {
        S15Fixed16(((integer as i32) << 16i32) | ((fractional as u16) as i32))
    }

    fn integer_part(&self) -> (r: i16) {
        (self.0 >> 16i32) as i16
    }

    fn fractional_part(&self) -> (r: i16) {
        self.0 as i16
    }

    proof fn lemma_parts(integer: i16, fractional: i16) {
        let i = integer;
        let f = fractional;
        assert(((((i as i32) << 16i32) | ((f as u16) as i32)) >> 16i32) as i16 == i)
            by (bit_vector);
        assert((((i as i32) << 16i32) | ((f as u16) as i32)) as i16 == f) by (bit_vector);
    }
}

impl FixedInt<u16> for U16Fixed16 {
    open spec fn parts_fit(integer: u16, fractional: u16) -> bool {
        true
    }

    open spec fn spec_from_parts(integer: u16, fractional: u16) -> U16Fixed16 {
        U16Fixed16(((integer as u32) << 16u32) | (fractional as u32))
    }

    open spec fn spec_integer_part(&self) -> u16 {
        (self.0 >> 16u32) as u16
    }

    open spec fn spec_fractional_part(&self) -> u16 {
        self.0 as u16
    }

    fn from_parts(integer: u16, fractional: u16) -> (r: U16Fixed16) {
        U16Fixed16(((integer as u32) << 16u32) | (fractional as u32))
    }

    fn integer_part(&self) -> (r: u16) {
        (self.0 >> 16u32) as u16
    }

    fn fractional_part(&self) -> (r: u16) {
        self.0 as u16
    }

    proof fn lemma_parts(integer: u16, fractional: u16) {
        let i = integer;
        let f = fractional;
        assert(((((i as u32) << 16u32) | (f as u32)) >> 16u32) as u16 == i) by (bit_vector);
        assert((((i as u32) << 16u32) | (f as u32)) as u16 == f) by (bit_vector);
    }
}

impl FixedInt<u16> for U1Fixed15 {
    open spec fn parts_fit(integer: u16, fractional: u16) -> bool {
        integer <= 1 && fractional < 0x8000
    }

    open spec fn spec_from_parts(integer: u16, fractional: u16) -> U1Fixed15 {
        U1Fixed15(((integer & 1u16) << 15u16) | (fractional & 0x7fffu16))
    }

    open spec fn spec_integer_part(&self) -> u16 {
        self.0 >> 15u16
    }

    open spec fn spec_fractional_part(&self) -> u16 {
        self.0 & 0x7fffu16
    }

    fn from_parts(integer: u16, fractional: u16) -> (r: U1Fixed15) {
        U1Fixed15(((integer & 1u16) << 15u16) | (fractional & 0x7fffu16))
    }

    fn integer_part(&self) -> (r: u16) {
        self.0 >> 15u16
    }

    fn fractional_part(&self) -> (r: u16) {
        self.0 & 0x7fffu16
    }

    proof fn lemma_parts(integer: u16, fractional: u16) {
        let i = integer;
        let f = fractional;
        assert(i <= 1 && f < 0x8000 ==> (((i & 1u16) << 15u16) | (f & 0x7fffu16)) >> 15u16 == i)
            by (bit_vector);
        assert(i <= 1 && f < 0x8000 ==> (((i & 1u16) << 15u16) | (f & 0x7fffu16)) & 0x7fffu16
            == f) by (bit_vector);
    }
}

impl FixedInt<u8> for U8Fixed8 {
    open spec fn parts_fit(integer: u8, fractional: u8) -> bool {
        true
    }

    open spec fn spec_from_parts(integer: u8, fractional: u8) -> U8Fixed8 {
        U8Fixed8(((integer as u16) << 8u16) | (fractional as u16))
    }

    open spec fn spec_integer_part(&self) -> u8 {
        (self.0 >> 8u16) as u8
    }

    open spec fn spec_fractional_part(&self) -> u8 {
        self.0 as u8
    }

    fn from_parts(integer: u8, fractional: u8) -> (r: U8Fixed8) {
        U8Fixed8(((integer as u16) << 8u16) | (fractional as u16))
    }

    fn integer_part(&self) -> (r: u8) {
        (self.0 >> 8u16) as u8
    }

    fn fractional_part(&self) -> (r: u8) {
        self.0 as u8
    }

    proof fn lemma_parts(integer: u8, fractional: u8) {
        let i = integer;
        let f = fractional;
        assert(((((i as u16) << 8u16) | (f as u16)) >> 8u16) as u8 == i) by (bit_vector);
        assert((((i as u16) << 8u16) | (f as u16)) as u8 == f) by (bit_vector);
    }
}

impl Packed for S15Fixed16 {
    open spec fn spec_width() -> nat {
        4
    }

    open spec fn enc(self) -> Seq<u8> {
        be32(self.0 as u32)
    }

    open spec fn dec(b: Seq<u8>) -> S15Fixed16 {
        S15Fixed16(from_be32(b) as i32)
    }

    proof fn lemma_enc(self) {
        (self.0 as u32).lemma_enc();
        let v = self.0;
        assert((v as u32) as i32 == v) by (bit_vector);
    }

    proof fn lemma_width() {
    }

    fn width() -> (r: usize) {
        4
    }

    fn push_to(&self, out: &mut Vec<u8>) {
        (self.0 as u32).push_to(out);
    }

    fn read_at(b: &[u8], k: usize) -> (r: S15Fixed16) {
        S15Fixed16(u32::read_at(b, k) as i32)
    }
}

impl Packed for U16Fixed16 {
    open spec fn spec_width() -> nat {
        4
    }

    open spec fn enc(self) -> Seq<u8> {
        be32(self.0)
    }

    open spec fn dec(b: Seq<u8>) -> U16Fixed16 {
        U16Fixed16(from_be32(b))
    }

    proof fn lemma_enc(self) {
        self.0.lemma_enc();
    }

    proof fn lemma_width() {
    }

    fn width() -> (r: usize) {
        4
    }

    fn push_to(&self, out: &mut Vec<u8>) {
        self.0.push_to(out);
    }

    fn read_at(b: &[u8], k: usize) -> (r: U16Fixed16) {
        U16Fixed16(u32::read_at(b, k))
    }
}

impl Packed for U1Fixed15 {
    open spec fn spec_width() -> nat {
        2
    }

    open spec fn enc(self) -> Seq<u8> {
        be16(self.0)
    }

    open spec fn dec(b: Seq<u8>) -> U1Fixed15 {
        U1Fixed15(from_be16(b))
    }

    proof fn lemma_enc(self) {
        self.0.lemma_enc();
    }

    proof fn lemma_width() {
    }

    fn width() -> (r: usize) {
        2
    }

    fn push_to(&self, out: &mut Vec<u8>) {
        self.0.push_to(out);
    }

    fn read_at(b: &[u8], k: usize) -> (r: U1Fixed15) {
        U1Fixed15(u16::read_at(b, k))
    }
}

impl Packed for U8Fixed8 {
    open spec fn spec_width() -> nat {
        2
    }

    open spec fn enc(self) -> Seq<u8> {
        be16(self.0)
    }

    open spec fn dec(b: Seq<u8>) -> U8Fixed8 {
        U8Fixed8(from_be16(b))
    }

    proof fn lemma_enc(self) {
        self.0.lemma_enc();
    }

    proof fn lemma_width() {
    }

    fn width() -> (r: usize) {
        2
    }

    fn push_to(&self, out: &mut Vec<u8>) {
        self.0.push_to(out);
    }

    fn read_at(b: &[u8], k: usize) -> (r: U8Fixed8) {
        U8Fixed8(u16::read_at(b, k))
    }
}

/// A CIE XYZ triple.
#[derive(Debug, Copy, Clone, PartialEq, Eq, Hash)]
pub struct XYZNum(pub [S15Fixed16; 3]);

impl XYZNum {
    pub fn new(value: [S15Fixed16; 3]) -> (r: Self)
        ensures
            r.0 == value,
    {
        XYZNum(value)
    }

    pub fn get(&self) -> (r: [S15Fixed16; 3])
        ensures
            r == self.0,
    {
        self.0
    }
}

impl Packed for XYZNum {
    open spec fn spec_width() -> nat {
        12
    }

    open spec fn enc(self) -> Seq<u8> {
        self.0@[0].enc() + self.0@[1].enc() + self.0@[2].enc()
    }

    open spec fn dec(b: Seq<u8>) -> XYZNum {
        XYZNum(
            [field::<S15Fixed16>(b, 0), field::<S15Fixed16>(b, 4), field::<S15Fixed16>(b, 8)],
        )
    }

    proof fn lemma_enc(self) {
        let e = self.enc();
        self.0@[0].lemma_enc();
        self.0@[1].lemma_enc();
        self.0@[2].lemma_enc();
        assert(e.subrange(0, 4) =~= self.0@[0].enc());
        assert(e.subrange(4, 8) =~= self.0@[1].enc());
        assert(e.subrange(8, 12) =~= self.0@[2].enc());
        lemma_field(e, 0, self.0@[0]);
        lemma_field(e, 4, self.0@[1]);
        lemma_field(e, 8, self.0@[2]);
        assert(Self::dec(e).0 =~= self.0);
    }

    proof fn lemma_width() {
    }

    fn width() -> (r: usize) {
        12
    }

    fn push_to(&self, out: &mut Vec<u8>) {
        self.0[0].push_to(out);
        self.0[1].push_to(out);
        self.0[2].push_to(out);
        assert(out@ =~= old(out)@ + self.enc());
    }

    fn read_at(b: &[u8], k: usize) -> (r: XYZNum) {
        let len = b.len();
        let x = S15Fixed16::read_at(b, k);
        let y = S15Fixed16::read_at(b, k + 4);
        let z = S15Fixed16::read_at(b, k + 8);
        let ghost s = b@.subrange(k as int, k + 12);
        assert(s.subrange(0, 4) =~= b@.subrange(k as int, k + 4));
        assert(s.subrange(4, 8) =~= b@.subrange(k + 4, k + 8));
        assert(s.subrange(8, 12) =~= b@.subrange(k + 8, k + 12));
        let r = XYZNum([x, y, z]);
        assert(r.0 =~= Self::dec(s).0);
        r
    }
}

/// An offset and a size, locating an element in a record.
#[derive(Debug, Copy, Clone, PartialEq, Eq, Hash)]
pub struct PositionNum(pub [u32; 2]);

impl PositionNum {
    pub fn new(value: [u32; 2]) -> (r: Self)
        ensures
            r.0 == value,
    {
        PositionNum(value)
    }

    pub fn get(&self) -> (r: [u32; 2])
        ensures
            r == self.0,
    {
        self.0
    }
}

impl Packed for PositionNum {
    open spec fn spec_width() -> nat {
        8
    }

    open spec fn enc(self) -> Seq<u8> {
        be32(self.0@[0]) + be32(self.0@[1])
    }

    open spec fn dec(b: Seq<u8>) -> PositionNum {
        PositionNum([field::<u32>(b, 0), field::<u32>(b, 4)])
    }

    proof fn lemma_enc(self) {
        let e = self.enc();
        assert(e.subrange(0, 4) =~= self.0@[0].enc());
        assert(e.subrange(4, 8) =~= self.0@[1].enc());
        lemma_field(e, 0, self.0@[0]);
        lemma_field(e, 4, self.0@[1]);
        assert(Self::dec(e).0 =~= self.0);
    }

    proof fn lemma_width() {
    }

    fn width() -> (r: usize) {
        8
    }

    fn push_to(&self, out: &mut Vec<u8>) {
        self.0[0].push_to(out);
        self.0[1].push_to(out);
        assert(out@ =~= old(out)@ + self.enc());
    }

    fn read_at(b: &[u8], k: usize) -> (r: PositionNum) {
        let len = b.len();
        let o = u32::read_at(b, k);
        let n = u32::read_at(b, k + 4);
        let ghost s = b@.subrange(k as int, k + 8);
        assert(s.subrange(0, 4) =~= b@.subrange(k as int, k + 4));
        assert(s.subrange(4, 8) =~= b@.subrange(k + 4, k + 8));
        let r = PositionNum([o, n]);
        assert(r.0 =~= Self::dec(s).0);
        r
    }
}

/// A chromaticity coordinate pair (x, y).
impl Packed for [U16Fixed16; 2] {
    open spec fn spec_width() -> nat {
        8
    }

    open spec fn enc(self) -> Seq<u8> {
        self@[0].enc() + self@[1].enc()
    }

    open spec fn dec(b: Seq<u8>) -> [U16Fixed16; 2] {
        [field::<U16Fixed16>(b, 0), field::<U16Fixed16>(b, 4)]
    }

    proof fn lemma_enc(self) {
        let e = self.enc();
        self@[0].lemma_enc();
        self@[1].lemma_enc();
        assert(e.subrange(0, 4) =~= self@[0].enc());
        assert(e.subrange(4, 8) =~= self@[1].enc());
        lemma_field(e, 0, self@[0]);
        lemma_field(e, 4, self@[1]);
        assert(Self::dec(e) =~= self);
    }

    proof fn lemma_width() {
    }

    fn width() -> (r: usize) {
        8
    }

    fn push_to(&self, out: &mut Vec<u8>) {
        self[0].push_to(out);
        self[1].push_to(out);
        assert(out@ =~= old(out)@ + self.enc());
    }

    fn read_at(b: &[u8], k: usize) -> (r: [U16Fixed16; 2]) {
        let len = b.len();
        let x = U16Fixed16::read_at(b, k);
        let y = U16Fixed16::read_at(b, k + 4);
        let ghost s = b@.subrange(k as int, k + 8);
        assert(s.subrange(0, 4) =~= b@.subrange(k as int, k + 4));
        assert(s.subrange(4, 8) =~= b@.subrange(k + 4, k + 8));
        let r = [x, y];
        assert(r =~= Self::dec(s));
        r
    }
}

/// A date and time as eight 16-bit fields.
#[derive(Debug, Copy, Clone, PartialEq, Eq, Hash)]
pub struct DateTimeNum(pub [u16; 8]);

impl DateTimeNum {
    pub fn new(value: [u16; 8]) -> (r: Self)
        ensures
            r.0 == value,
    {
        DateTimeNum(value)
    }

    pub fn get(&self) -> (r: [u16; 8])
        ensures
            r == self.0,
    {
        self.0
    }
}

impl Packed for DateTimeNum {
    open spec fn spec_width() -> nat {
        16
    }

    open spec fn enc(self) -> Seq<u8> {
        crate::bytes::packed(self.0@)
    }

    open spec fn dec(b: Seq<u8>) -> DateTimeNum {
        DateTimeNum(
            [
                field::<u16>(b, 0),
                field::<u16>(b, 2),
                field::<u16>(b, 4),
                field::<u16>(b, 6),
                field::<u16>(b, 8),
                field::<u16>(b, 10),
                field::<u16>(b, 12),
                field::<u16>(b, 14),
            ],
        )
    }

    proof fn lemma_enc(self) {
        let e = self.enc();
        crate::bytes::lemma_unpacked(Seq::empty(), self.0@, Seq::empty());
        assert(Seq::<u8>::empty() + e + Seq::<u8>::empty() =~= e);
        let u = crate::bytes::unpacked::<u16>(e, 0, 8);
        assert(u[0] == field::<u16>(e, 0));
        assert(u[1] == field::<u16>(e, 2));
        assert(u[2] == field::<u16>(e, 4));
        assert(u[3] == field::<u16>(e, 6));
        assert(u[4] == field::<u16>(e, 8));
        assert(u[5] == field::<u16>(e, 10));
        assert(u[6] == field::<u16>(e, 12));
        assert(u[7] == field::<u16>(e, 14));
        assert(Self::dec(e).0 =~= self.0);
    }

    proof fn lemma_width() {
    }

    fn width() -> (r: usize) {
        16
    }

    fn push_to(&self, out: &mut Vec<u8>) {
        let v = self.0;
        let mut i: usize = 0;
        let ghost start = out@;
        while i < 8
            invariant
                i <= 8,
                out@ == start + crate::bytes::packed(v@.subrange(0, i as int)),
            decreases 8 - i,
        {
            v[i].push_to(out);
            proof {
                let t = v@.subrange(0, i + 1);
                assert(t.drop_last() =~= v@.subrange(0, i as int));
                assert(out@ =~= start + crate::bytes::packed(t));
            }
            i = i + 1;
        }
        assert(v@.subrange(0, 8) =~= v@);
    }

    fn read_at(b: &[u8], k: usize) -> (r: DateTimeNum) {
        let len = b.len();
        let ghost s = b@.subrange(k as int, k + 16);
        let mut v = [0u16; 8];
        let mut i: usize = 0;
        while i < 8
            invariant
                i <= 8,
                k + 16 <= b@.len(),
                len == b@.len(),
                s == b@.subrange(k as int, k + 16),
                forall|j: int| 0 <= j < i ==> v@[j] == field::<u16>(s, 2 * j),
            decreases 8 - i,
        {
            let x = u16::read_at(b, k + 2 * i);
            assert(s.subrange(2 * i, 2 * i + 2) =~= b@.subrange(k + 2 * i, k + 2 * i + 2));
            v[i] = x;
            i = i + 1;
        }
        let r = DateTimeNum(v);
        assert(r.0 =~= Self::dec(s).0);
        r
    }
}

/// One character of 7-bit ASCII text.
#[derive(Debug, Copy, Clone, PartialEq, Eq, Hash, Structural)]
pub struct Bit7Ascii(pub u8);

impl Bit7Ascii {
    pub fn new(value: u8) -> (r: Self)
        ensures
            r.0 == value,
    {
        Bit7Ascii(value)
    }

    pub fn get(&self) -> (r: u8)
        ensures
            r == self.0,
    {
        self.0
    }
}

impl Packed for Bit7Ascii {
    open spec fn spec_width() -> nat {
        1
    }

    open spec fn enc(self) -> Seq<u8> {
        seq![self.0]
    }

    open spec fn dec(b: Seq<u8>) -> Bit7Ascii {
        Bit7Ascii(b[0])
    }

    proof fn lemma_enc(self) {
    }

    proof fn lemma_width() {
    }

    fn width() -> (r: usize) {
        1
    }

    fn push_to(&self, out: &mut Vec<u8>) {
        out.push(self.0);
        assert(out@ =~= old(out)@ + self.enc());
    }

    fn read_at(b: &[u8], k: usize) -> (r: Bit7Ascii) {
        Bit7Ascii(b[k])
    }
}

impl Default for S15Fixed16 {
    /// The value whose raw form is all zero bits.
    fn default() -> (r: S15Fixed16)
        ensures
            r.0 == 0i32,
    {
        S15Fixed16(0i32)
    }
}

impl From<i32> for S15Fixed16 {
    fn from(value: i32) -> (r: S15Fixed16) {
        S15Fixed16(value)
    }
}

impl vstd::std_specs::convert::FromSpecImpl<i32> for S15Fixed16 {
    open spec fn obeys_from_spec() -> bool {
        true
    }

    open spec fn from_spec(value: i32) -> S15Fixed16 {
        S15Fixed16(value)
    }
}

impl Default for U16Fixed16 {
    /// The value whose raw form is all zero bits.
    fn default() -> (r: U16Fixed16)
        ensures
            r.0 == 0u32,
    {
        U16Fixed16(0u32)
    }
}

impl From<u32> for U16Fixed16 {
    fn from(value: u32) -> (r: U16Fixed16) {
        U16Fixed16(value)
    }
}

impl vstd::std_specs::convert::FromSpecImpl<u32> for U16Fixed16 {
    open spec fn obeys_from_spec() -> bool {
        true
    }

    open spec fn from_spec(value: u32) -> U16Fixed16 {
        U16Fixed16(value)
    }
}

impl Default for U1Fixed15 {
    /// The value whose raw form is all zero bits.
    fn default() -> (r: U1Fixed15)
        ensures
            r.0 == 0u16,
    {
        U1Fixed15(0u16)
    }
}

impl From<u16> for U1Fixed15 {
    fn from(value: u16) -> (r: U1Fixed15) {
        U1Fixed15(value)
    }
}

impl vstd::std_specs::convert::FromSpecImpl<u16> for U1Fixed15 {
    open spec fn obeys_from_spec() -> bool {
        true
    }

    open spec fn from_spec(value: u16) -> U1Fixed15 {
        U1Fixed15(value)
    }
}

impl Default for U8Fixed8 {
    /// The value whose raw form is all zero bits.
    fn default() -> (r: U8Fixed8)
        ensures
            r.0 == 0u16,
    {
        U8Fixed8(0u16)
    }
}

impl From<u16> for U8Fixed8 {
    fn from(value: u16) -> (r: U8Fixed8) {
        U8Fixed8(value)
    }
}

impl vstd::std_specs::convert::FromSpecImpl<u16> for U8Fixed8 {
    open spec fn obeys_from_spec() -> bool {
        true
    }

    open spec fn from_spec(value: u16) -> U8Fixed8 {
        U8Fixed8(value)
    }
}

impl Default for Bit7Ascii {
    /// The value whose raw form is all zero bits.
    fn default() -> (r: Bit7Ascii)
        ensures
            r.0 == 0u8,
    {
        Bit7Ascii(0u8)
    }
}

impl From<u8> for Bit7Ascii {
    fn from(value: u8) -> (r: Bit7Ascii) {
        Bit7Ascii(value)
    }
}

impl vstd::std_specs::convert::FromSpecImpl<u8> for Bit7Ascii {
    open spec fn obeys_from_spec() -> bool {
        true
    }

    open spec fn from_spec(value: u8) -> Bit7Ascii {
        Bit7Ascii(value)
    }
}

impl Default for XYZNum {
    /// The value whose raw form is all zero bits.
    fn default() -> (r: XYZNum)
        ensures
            r.0 == [S15Fixed16(0i32), S15Fixed16(0i32), S15Fixed16(0i32)],
    {
        XYZNum([S15Fixed16(0i32), S15Fixed16(0i32), S15Fixed16(0i32)])
    }
}

impl From<[S15Fixed16; 3]> for XYZNum {
    fn from(value: [S15Fixed16; 3]) -> (r: XYZNum) {
        XYZNum(value)
    }
}

impl vstd::std_specs::convert::FromSpecImpl<[S15Fixed16; 3]> for XYZNum {
    open spec fn obeys_from_spec() -> bool {
        true
    }

    open spec fn from_spec(value: [S15Fixed16; 3]) -> XYZNum {
        XYZNum(value)
    }
}

impl Default for PositionNum {
    /// The value whose raw form is all zero bits.
    fn default() -> (r: PositionNum)
        ensures
            r.0@ == seq![0u32, 0u32],
    {
        let r = PositionNum([0u32, 0u32]);
        assert(r.0@ =~= seq![0u32, 0u32]);
        r
    }
}

impl From<[u32; 2]> for PositionNum {
    fn from(value: [u32; 2]) -> (r: PositionNum) {
        PositionNum(value)
    }
}

impl vstd::std_specs::convert::FromSpecImpl<[u32; 2]> for PositionNum {
    open spec fn obeys_from_spec() -> bool {
        true
    }

    open spec fn from_spec(value: [u32; 2]) -> PositionNum {
        PositionNum(value)
    }
}

impl Default for DateTimeNum {
    /// The value whose raw form is all zero bits.
    fn default() -> (r: DateTimeNum)
        ensures
            r.0@ == seq![0u16, 0u16, 0u16, 0u16, 0u16, 0u16, 0u16, 0u16],
    {
        let r = DateTimeNum([0u16, 0u16, 0u16, 0u16, 0u16, 0u16, 0u16, 0u16]);
        assert(r.0@ =~= seq![0u16, 0u16, 0u16, 0u16, 0u16, 0u16, 0u16, 0u16]);
        r
    }
}

impl From<[u16; 8]> for DateTimeNum {
    fn from(value: [u16; 8]) -> (r: DateTimeNum) {
        DateTimeNum(value)
    }
}

impl vstd::std_specs::convert::FromSpecImpl<[u16; 8]> for DateTimeNum {
    open spec fn obeys_from_spec() -> bool {
        true
    }

    open spec fn from_spec(value: [u16; 8]) -> DateTimeNum {
        DateTimeNum(value)
    }
}

/// One measurement of a response curve: a device value and what was measured.
#[derive(Debug, Copy, Clone, PartialEq, Eq, Structural)]
pub struct Response16 {
    pub u16_slot: u16,
    pub reserved: u16,
    pub measurement_value: S15Fixed16,
}

impl Response16 {
    pub fn new(u16_slot: u16, measurement_value: S15Fixed16) -> (r: Self)
        ensures
            r == (Response16 { u16_slot, reserved: 0, measurement_value }),
    {
        Response16 { u16_slot, reserved: 0, measurement_value }
    }
}

impl Packed for Response16 {
    open spec fn spec_width() -> nat {
        8
    }

    open spec fn enc(self) -> Seq<u8> {
        be16(self.u16_slot) + be16(self.reserved) + self.measurement_value.enc()
    }

    open spec fn dec(b: Seq<u8>) -> Response16 {
        Response16 {
            u16_slot: field::<u16>(b, 0),
            reserved: field::<u16>(b, 2),
            measurement_value: field::<S15Fixed16>(b, 4),
        }
    }

    proof fn lemma_enc(self) {
        let e = self.enc();
        assert(e.subrange(0, 2) =~= self.u16_slot.enc());
        assert(e.subrange(2, 4) =~= self.reserved.enc());
        assert(e.subrange(4, 8) =~= self.measurement_value.enc());
        lemma_field(e, 0, self.u16_slot);
        lemma_field(e, 2, self.reserved);
        lemma_field(e, 4, self.measurement_value);
    }

    proof fn lemma_width() {
    }

    fn width() -> (r: usize) {
        8
    }

    fn push_to(&self, out: &mut Vec<u8>) {
        self.u16_slot.push_to(out);
        self.reserved.push_to(out);
        self.measurement_value.push_to(out);
        assert(out@ =~= old(out)@ + self.enc());
    }

    fn read_at(b: &[u8], k: usize) -> (r: Response16) {
        let len = b.len();
        let slot = u16::read_at(b, k);
        let reserved = u16::read_at(b, k + 2);
        let value = S15Fixed16::read_at(b, k + 4);
        let ghost s = b@.subrange(k as int, k + 8);
        assert(s.subrange(0, 2) =~= b@.subrange(k as int, k + 2));
        assert(s.subrange(2, 4) =~= b@.subrange(k + 2, k + 4));
        assert(s.subrange(4, 8) =~= b@.subrange(k + 4, k + 8));
        Response16 { u16_slot: slot, reserved, measurement_value: value }
    }
}

} // verus!
