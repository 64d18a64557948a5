//! Big-endian byte encodings of fixed-width values, and of sequences of them.
use vstd::prelude::*;

verus! {

/// A value with a fixed-width big-endian encoding.
pub trait Packed: Sized + Copy {
    /// Bytes in the encoding of one value.
    spec fn spec_width() -> nat;

    /// The encoding of `self`.
    spec fn enc(self) -> Seq<u8>;

    /// The value read from exactly `spec_width()` bytes.
    spec fn dec(b: Seq<u8>) -> Self;

    proof fn lemma_enc(self)
        ensures
            self.enc().len() == Self::spec_width(),
            Self::dec(self.enc()) == self,
    ;

    proof fn lemma_width()
        ensures
            1 <= Self::spec_width() <= 256,
    ;

    fn width() -> (r: usize)
        ensures
            r == Self::spec_width(),
            1 <= r <= 256,
    ;

    fn push_to(&self, out: &mut Vec<u8>)
        ensures
            final(out)@ == old(out)@ + self.enc(),
    ;

    fn read_at(b: &[u8], k: usize) -> (r: Self)
        requires
            k + Self::spec_width() <= b@.len(),
        ensures
            r == Self::dec(b@.subrange(k as int, k + Self::spec_width())),
    ;
}

/// The value of type `T` encoded at offset `k` of `b`.
pub open spec fn field<T: Packed>(b: Seq<u8>, k: int) -> T {
    T::dec(b.subrange(k, k + T::spec_width()))
}

/// The encodings of the values of `s`, one after the other.
pub open spec fn packed<T: Packed>(s: Seq<T>) -> Seq<u8>
    decreases s.len(),
{
    if s.len() == 0 {
        Seq::empty()
    } else {
        packed(s.drop_last()) + s.last().enc()
    }
}

/// The `n` values of type `T` encoded one after the other from offset `k` of `b`.
pub open spec fn unpacked<T: Packed>(b: Seq<u8>, k: int, n: nat) -> Seq<T> {
    Seq::new(n, |i: int| field::<T>(b, k + i * T::spec_width()))
}

/// A value whose encoding stands at offset `k` reads back.
pub proof fn lemma_field<T: Packed>(b: Seq<u8>, k: int, x: T)
    requires
        0 <= k,
        k + T::spec_width() <= b.len(),
        b.subrange(k, k + T::spec_width()) == x.enc(),
    ensures
        field::<T>(b, k) == x,
{
    x.lemma_enc();
}

/// The encoding of the value at index `i` of `s` stands at `i` times the width.
pub proof fn lemma_packed_at<T: Packed>(s: Seq<T>, i: int)
    requires
        0 <= i < s.len(),
    ensures
        packed(s).len() == s.len() * T::spec_width(),
        packed(s).subrange(i * T::spec_width(), (i + 1) * T::spec_width()) == s[i].enc(),
    decreases s.len(),
{
    let w = T::spec_width();
    let n = s.len();
    lemma_packed_len(s);
    let p = packed(s.drop_last());
    lemma_packed_len(s.drop_last());
    s.last().lemma_enc();
    s[i].lemma_enc();
    assert((i + 1) * w == i * w + w) by (nonlinear_arith);
    if i == n - 1 {
        assert(p.len() == i * w) by (nonlinear_arith)
            requires
                p.len() == (n - 1) * w,
                i == n - 1,
        ;
        assert(packed(s).subrange(i * w, (i + 1) * w) =~= s[i].enc());
    } else {
        lemma_packed_at(s.drop_last(), i);
        assert((i + 1) * w <= (n - 1) * w) by (nonlinear_arith)
            requires
                i + 1 <= n - 1,
        ;
        assert(packed(s).subrange(i * w, (i + 1) * w) =~= p.subrange(i * w, (i + 1) * w));
    }
}

pub proof fn lemma_packed_len<T: Packed>(s: Seq<T>)
    ensures
        packed(s).len() == s.len() * T::spec_width(),
    decreases s.len(),
{
    if s.len() > 0 {
        lemma_packed_len(s.drop_last());
        s.last().lemma_enc();
        assert(s.len() * T::spec_width() == (s.len() - 1) * T::spec_width() + T::spec_width())
            by (nonlinear_arith);
    }
}

/// A packed sequence that stands at offset `p.len()` reads back.
pub proof fn lemma_unpacked<T: Packed>(p: Seq<u8>, s: Seq<T>, q: Seq<u8>)
    ensures
        unpacked::<T>(p + packed(s) + q, p.len() as int, s.len()) == s,
        (p + packed(s) + q).len() == p.len() + s.len() * T::spec_width() + q.len(),
{
    let b = p + packed(s) + q;
    let w = T::spec_width();
    lemma_packed_len(s);
    assert forall|i: int| 0 <= i < s.len() implies #[trigger] field::<T>(b, p.len() + i * w)
        == s[i] by {
        lemma_packed_at(s, i);
        assert((i + 1) * w == i * w + w) by (nonlinear_arith);
        assert(i * w + w <= s.len() * w) by (nonlinear_arith)
            requires
                i + 1 <= s.len(),
        ;
        assert(b.subrange(p.len() + i * w, p.len() + i * w + w) =~= packed(s).subrange(
            i * w,
            (i + 1) * w,
        ));
        lemma_field(b, p.len() + i * w, s[i]);
    }
    assert(unpacked::<T>(b, p.len() as int, s.len()) =~= s);
}

/// Appends the encodings of the values of `s` to `out`.
pub fn push_all<T: Packed>(out: &mut Vec<u8>, s: &Vec<T>)
    ensures
        final(out)@ == old(out)@ + packed(s@),
{
    let ghost start = out@;
    let mut i: usize = 0;
    while i < s.len()
        invariant
            i <= s@.len(),
            out@ == start + packed(s@.subrange(0, i as int)),
        decreases s@.len() - i,
    {
        let ghost before = out@;
        s[i].push_to(out);
        proof {
            let t = s@.subrange(0, i + 1);
            assert(t.drop_last() =~= s@.subrange(0, i as int));
            assert(packed(t) == packed(s@.subrange(0, i as int)) + s@[i as int].enc());
            assert(out@ =~= start + packed(t));
        }
        i = i + 1;
    }
    assert(s@.subrange(0, s@.len() as int) =~= s@);
}

/// Reads `n` values of type `T` encoded one after the other from offset `k` of `b`.
pub fn read_all<T: Packed>(b: &[u8], k: usize, n: usize) -> (r: Vec<T>)
    requires
        k + n * T::spec_width() <= b@.len(),
    ensures
        r@ == unpacked::<T>(b@, k as int, n as nat),
{
    let len = b.len();
    let w = T::width();
    let mut v: Vec<T> = Vec::new();
    let mut i: usize = 0;
    let mut pos: usize = k;
    while i < n
        invariant
            i <= n,
            w == T::spec_width(),
            k + n * w <= b@.len(),
            len == b@.len(),
            pos == k + i * w,
            v@ == unpacked::<T>(b@, k as int, i as nat),
        decreases n - i,
    {
        assert(pos + w <= k + n * w) by (nonlinear_arith)
            requires
                pos == k + i * w,
                i < n,
        ;
        let x = T::read_at(b, pos);
        v.push(x);
        assert(v@ =~= unpacked::<T>(b@, k as int, (i + 1) as nat));
        assert(pos + w == k + (i + 1) * w) by (nonlinear_arith)
            requires
                pos == k + i * w,
        ;
        pos = pos + w;
        i = i + 1;
    }
    v
}

pub open spec fn be16(v: u16) -> Seq<u8> {
    seq![(v >> 8u16) as u8, v as u8]
}

pub open spec fn be32(v: u32) -> Seq<u8> {
    seq![(v >> 24u32) as u8, (v >> 16u32) as u8, (v >> 8u32) as u8, v as u8]
}

pub open spec fn from_be16(b: Seq<u8>) -> u16 {
    ((b[0] as u16) << 8u16) | (b[1] as u16)
}

pub open spec fn from_be32(b: Seq<u8>) -> u32 {
    ((b[0] as u32) << 24u32) | ((b[1] as u32) << 16u32) | ((b[2] as u32) << 8u32) | (b[3] as u32)
}

impl Packed for u8 {
    open spec fn spec_width() -> nat {
        1
    }

    open spec fn enc(self) -> Seq<u8> {
        seq![self]
    }

    open spec fn dec(b: Seq<u8>) -> u8 {
        b[0]
    }

    proof fn lemma_enc(self) {
    }

    proof fn lemma_width() {
    }

    fn width() -> (r: usize) {
        1
    }

    fn push_to(&self, out: &mut Vec<u8>) {
        out.push(*self);
        assert(out@ =~= old(out)@ + self.enc());
    }

    fn read_at(b: &[u8], k: usize) -> (r: u8) {
        b[k]
    }
}

impl Packed for u16 {
    open spec fn spec_width() -> nat {
        2
    }

    open spec fn enc(self) -> Seq<u8> {
        be16(self)
    }

    open spec fn dec(b: Seq<u8>) -> u16 {
        from_be16(b)
    }

    proof fn lemma_enc(self) {
        let v = self;
        assert((((v >> 8u16) as u8 as u16) << 8u16) | ((v as u8) as u16) == v) by (bit_vector);
    }

    proof fn lemma_width() {
    }

    fn width() -> (r: usize) {
        2
    }

    fn push_to(&self, out: &mut Vec<u8>) {
        out.push((*self >> 8u16) as u8);
        out.push(*self as u8);
        assert(out@ =~= old(out)@ + self.enc());
    }

    fn read_at(b: &[u8], k: usize) -> (r: u16) {
        let r = ((b[k] as u16) << 8u16) | (b[k + 1] as u16);
        assert(b@.subrange(k as int, k + 2)[1] == b@[k + 1]);
        r
    }
}

impl Packed for u32 {
    open spec fn spec_width() -> nat {
        4
    }

    open spec fn enc(self) -> Seq<u8> {
        be32(self)
    }

    open spec fn dec(b: Seq<u8>) -> u32 {
        from_be32(b)
    }

    proof fn lemma_enc(self) {
        let v = self;
        assert((((v >> 24u32) as u8 as u32) << 24u32) | (((v >> 16u32) as u8 as u32) << 16u32) | (((
        v >> 8u32) as u8 as u32) << 8u32) | ((v as u8) as u32) == v) by (bit_vector);
    }

    proof fn lemma_width() {
    }

    fn width() -> (r: usize) {
        4
    }

    fn push_to(&self, out: &mut Vec<u8>) {
        let v = *self;
        out.push((v >> 24u32) as u8);
        out.push((v >> 16u32) as u8);
        out.push((v >> 8u32) as u8);
        out.push(v as u8);
        assert(out@ =~= old(out)@ + self.enc());
    }

    fn read_at(b: &[u8], k: usize) -> (r: u32) {
        let r = ((b[k] as u32) << 24u32) | ((b[k + 1] as u32) << 16u32) | ((b[k + 2] as u32)
            << 8u32) | (b[k + 3] as u32);
        let ghost s = b@.subrange(k as int, k + 4);
        assert(s[0] == b@[k as int] && s[1] == b@[k + 1] && s[2] == b@[k + 2] && s[3] == b@[k
            + 3]);
        r
    }
}

impl Packed for u64 {
    open spec fn spec_width() -> nat {
        8
    }

    open spec fn enc(self) -> Seq<u8> {
        be32((self >> 32u64) as u32) + be32(self as u32)
    }

    open spec fn dec(b: Seq<u8>) -> u64 {
        ((from_be32(b.subrange(0, 4)) as u64) << 32u64) | (from_be32(b.subrange(4, 8)) as u64)
    }

    proof fn lemma_enc(self) {
        let v = self;
        let hi = (v >> 32u64) as u32;
        let lo = v as u32;
        hi.lemma_enc();
        lo.lemma_enc();
        assert(self.enc().subrange(0, 4) =~= be32(hi));
        assert(self.enc().subrange(4, 8) =~= be32(lo));
        assert((((v >> 32u64) as u32 as u64) << 32u64) | ((v as u32) as u64) == v) by (bit_vector);
    }

    proof fn lemma_width() {
    }

    fn width() -> (r: usize) {
        8
    }

    fn push_to(&self, out: &mut Vec<u8>) {
        let hi = (*self >> 32u64) as u32;
        let lo = *self as u32;
        hi.push_to(out);
        lo.push_to(out);
        assert(out@ =~= old(out)@ + self.enc());
    }

    fn read_at(b: &[u8], k: usize) -> (r: u64) {
        let len = b.len();
        let hi = u32::read_at(b, k);
        let lo = u32::read_at(b, k + 4);
        let ghost s = b@.subrange(k as int, k + 8);
        assert(s.subrange(0, 4) =~= b@.subrange(k as int, k + 4));
        assert(s.subrange(4, 8) =~= b@.subrange(k + 4, k + 8));
        ((hi as u64) << 32u64) | (lo as u64)
    }
}

impl Packed for u128 {
    open spec fn spec_width() -> nat {
        16
    }

    open spec fn enc(self) -> Seq<u8> {
        ((self >> 64u128) as u64).enc() + (self as u64).enc()
    }

    open spec fn dec(b: Seq<u8>) -> u128 {
        ((field::<u64>(b, 0) as u128) << 64u128) | (field::<u64>(b, 8) as u128)
    }

    proof fn lemma_enc(self) {
        let v = self;
        let hi = (v >> 64u128) as u64;
        let lo = v as u64;
        let e = self.enc();
        hi.lemma_enc();
        lo.lemma_enc();
        assert(e.subrange(0, 8) =~= hi.enc());
        assert(e.subrange(8, 16) =~= lo.enc());
        assert((((v >> 64u128) as u64 as u128) << 64u128) | ((v as u64) as u128) == v)
            by (bit_vector);
    }

    proof fn lemma_width() {
    }

    fn width() -> (r: usize) {
        16
    }

    fn push_to(&self, out: &mut Vec<u8>) {
        let hi = (*self >> 64u128) as u64;
        let lo = *self as u64;
        hi.push_to(out);
        lo.push_to(out);
        assert(out@ =~= old(out)@ + self.enc());
    }

    fn read_at(b: &[u8], k: usize) -> (r: u128) {
        let len = b.len();
        let hi = u64::read_at(b, k);
        let lo = u64::read_at(b, k + 8);
        let ghost s = b@.subrange(k as int, k + 16);
        assert(s.subrange(0, 8) =~= b@.subrange(k as int, k + 8));
        assert(s.subrange(8, 16) =~= b@.subrange(k + 8, k + 16));
        ((hi as u128) << 64u128) | (lo as u128)
    }
}

} // verus!
