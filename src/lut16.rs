//! Lookup tables with 16-bit entries: input tables, a colour lookup table
//! whose size grows with the grid and the channels, and output tables.
use vstd::prelude::*;
use crate::bytes::{Packed, field, packed, unpacked, lemma_unpacked, lemma_packed_len, lemma_field, push_all, read_all};
use crate::error::DecodeError;
use crate::numbers::S15Fixed16;
use crate::record::{TagRecord, head_error, check_head};

verus! {

/// Type signature of `Lut16` (`mft2`).
pub const LUT16_TYPE: u32 = 0x6D667432;

/// Bytes before the tables of a `Lut16`.
pub const LUT16_FIXED_SIZE: usize = 52;

/// The fixed leading fields of a lookup table: channels, grid and matrix.
#[derive(Debug, Copy, Clone, PartialEq, Eq)]
pub struct LutHead {
    pub type_signature: u32,
    pub reserved_1: u32,
    pub input_channels: u8,
    pub output_channels: u8,
    pub clut_grid_points: u8,
    pub reserved_2: u8,
    pub encoded_e1p: S15Fixed16,
    pub encoded_e2p: S15Fixed16,
    pub encoded_e3p: S15Fixed16,
    pub encoded_e4p: S15Fixed16,
    pub encoded_e5p: S15Fixed16,
    pub encoded_e6p: S15Fixed16,
    pub encoded_e7p: S15Fixed16,
    pub encoded_e8p: S15Fixed16,
    pub encoded_e9p: S15Fixed16,
}

impl Packed for LutHead {
    open spec fn spec_width() -> nat {
        48
    }

    open spec fn enc(self) -> Seq<u8> {
        self.type_signature.enc() + self.reserved_1.enc() + self.input_channels.enc() + self.output_channels.enc() + self.clut_grid_points.enc() + self.reserved_2.enc() + self.encoded_e1p.enc() + self.encoded_e2p.enc() + self.encoded_e3p.enc() + self.encoded_e4p.enc() + self.encoded_e5p.enc() + self.encoded_e6p.enc() + self.encoded_e7p.enc() + self.encoded_e8p.enc() + self.encoded_e9p.enc()
    }

    open spec fn dec(b: Seq<u8>) -> LutHead {
        LutHead {
            type_signature: field::<u32>(b, 0),
            reserved_1: field::<u32>(b, 4),
            input_channels: field::<u8>(b, 8),
            output_channels: field::<u8>(b, 9),
            clut_grid_points: field::<u8>(b, 10),
            reserved_2: field::<u8>(b, 11),
            encoded_e1p: field::<S15Fixed16>(b, 12),
            encoded_e2p: field::<S15Fixed16>(b, 16),
            encoded_e3p: field::<S15Fixed16>(b, 20),
            encoded_e4p: field::<S15Fixed16>(b, 24),
            encoded_e5p: field::<S15Fixed16>(b, 28),
            encoded_e6p: field::<S15Fixed16>(b, 32),
            encoded_e7p: field::<S15Fixed16>(b, 36),
            encoded_e8p: field::<S15Fixed16>(b, 40),
            encoded_e9p: field::<S15Fixed16>(b, 44),
        }
    }

    proof fn lemma_enc(self) {
        let e = self.enc();
        self.type_signature.lemma_enc();
        self.reserved_1.lemma_enc();
        self.input_channels.lemma_enc();
        self.output_channels.lemma_enc();
        self.clut_grid_points.lemma_enc();
        self.reserved_2.lemma_enc();
        self.encoded_e1p.lemma_enc();
        self.encoded_e2p.lemma_enc();
        self.encoded_e3p.lemma_enc();
        self.encoded_e4p.lemma_enc();
        self.encoded_e5p.lemma_enc();
        self.encoded_e6p.lemma_enc();
        self.encoded_e7p.lemma_enc();
        self.encoded_e8p.lemma_enc();
        self.encoded_e9p.lemma_enc();
        assert(e.subrange(0, 4) =~= self.type_signature.enc());
        lemma_field(e, 0, self.type_signature);
        assert(e.subrange(4, 8) =~= self.reserved_1.enc());
        lemma_field(e, 4, self.reserved_1);
        assert(e.subrange(8, 9) =~= self.input_channels.enc());
        lemma_field(e, 8, self.input_channels);
        assert(e.subrange(9, 10) =~= self.output_channels.enc());
        lemma_field(e, 9, self.output_channels);
        assert(e.subrange(10, 11) =~= self.clut_grid_points.enc());
        lemma_field(e, 10, self.clut_grid_points);
        assert(e.subrange(11, 12) =~= self.reserved_2.enc());
        lemma_field(e, 11, self.reserved_2);
        assert(e.subrange(12, 16) =~= self.encoded_e1p.enc());
        lemma_field(e, 12, self.encoded_e1p);
        assert(e.subrange(16, 20) =~= self.encoded_e2p.enc());
        lemma_field(e, 16, self.encoded_e2p);
        assert(e.subrange(20, 24) =~= self.encoded_e3p.enc());
        lemma_field(e, 20, self.encoded_e3p);
        assert(e.subrange(24, 28) =~= self.encoded_e4p.enc());
        lemma_field(e, 24, self.encoded_e4p);
        assert(e.subrange(28, 32) =~= self.encoded_e5p.enc());
        lemma_field(e, 28, self.encoded_e5p);
        assert(e.subrange(32, 36) =~= self.encoded_e6p.enc());
        lemma_field(e, 32, self.encoded_e6p);
        assert(e.subrange(36, 40) =~= self.encoded_e7p.enc());
        lemma_field(e, 36, self.encoded_e7p);
        assert(e.subrange(40, 44) =~= self.encoded_e8p.enc());
        lemma_field(e, 40, self.encoded_e8p);
        assert(e.subrange(44, 48) =~= self.encoded_e9p.enc());
        lemma_field(e, 44, self.encoded_e9p);
    }

    proof fn lemma_width() {
    }

    fn width() -> (r: usize) {
        48
    }

    fn push_to(&self, out: &mut Vec<u8>) {
        self.type_signature.push_to(out);
        self.reserved_1.push_to(out);
        self.input_channels.push_to(out);
        self.output_channels.push_to(out);
        self.clut_grid_points.push_to(out);
        self.reserved_2.push_to(out);
        self.encoded_e1p.push_to(out);
        self.encoded_e2p.push_to(out);
        self.encoded_e3p.push_to(out);
        self.encoded_e4p.push_to(out);
        self.encoded_e5p.push_to(out);
        self.encoded_e6p.push_to(out);
        self.encoded_e7p.push_to(out);
        self.encoded_e8p.push_to(out);
        self.encoded_e9p.push_to(out);
        assert(out@ =~= old(out)@ + self.enc());
    }

    fn read_at(b: &[u8], k: usize) -> (r: LutHead) {
        let len = b.len();
        let ghost s = b@.subrange(k as int, k + 48);
        let type_signature = u32::read_at(b, k + 0);
        assert(s.subrange(0, 4) =~= b@.subrange(k + 0, k + 4));
        let reserved_1 = u32::read_at(b, k + 4);
        assert(s.subrange(4, 8) =~= b@.subrange(k + 4, k + 8));
        let input_channels = u8::read_at(b, k + 8);
        assert(s.subrange(8, 9) =~= b@.subrange(k + 8, k + 9));
        let output_channels = u8::read_at(b, k + 9);
        assert(s.subrange(9, 10) =~= b@.subrange(k + 9, k + 10));
        let clut_grid_points = u8::read_at(b, k + 10);
        assert(s.subrange(10, 11) =~= b@.subrange(k + 10, k + 11));
        let reserved_2 = u8::read_at(b, k + 11);
        assert(s.subrange(11, 12) =~= b@.subrange(k + 11, k + 12));
        let encoded_e1p = S15Fixed16::read_at(b, k + 12);
        assert(s.subrange(12, 16) =~= b@.subrange(k + 12, k + 16));
        let encoded_e2p = S15Fixed16::read_at(b, k + 16);
        assert(s.subrange(16, 20) =~= b@.subrange(k + 16, k + 20));
        let encoded_e3p = S15Fixed16::read_at(b, k + 20);
        assert(s.subrange(20, 24) =~= b@.subrange(k + 20, k + 24));
        let encoded_e4p = S15Fixed16::read_at(b, k + 24);
        assert(s.subrange(24, 28) =~= b@.subrange(k + 24, k + 28));
        let encoded_e5p = S15Fixed16::read_at(b, k + 28);
        assert(s.subrange(28, 32) =~= b@.subrange(k + 28, k + 32));
        let encoded_e6p = S15Fixed16::read_at(b, k + 32);
        assert(s.subrange(32, 36) =~= b@.subrange(k + 32, k + 36));
        let encoded_e7p = S15Fixed16::read_at(b, k + 36);
        assert(s.subrange(36, 40) =~= b@.subrange(k + 36, k + 40));
        let encoded_e8p = S15Fixed16::read_at(b, k + 40);
        assert(s.subrange(40, 44) =~= b@.subrange(k + 40, k + 44));
        let encoded_e9p = S15Fixed16::read_at(b, k + 44);
        assert(s.subrange(44, 48) =~= b@.subrange(k + 44, k + 48));
        LutHead { type_signature, reserved_1, input_channels, output_channels, clut_grid_points, reserved_2, encoded_e1p, encoded_e2p, encoded_e3p, encoded_e4p, encoded_e5p, encoded_e6p, encoded_e7p, encoded_e8p, encoded_e9p }
    }
}

/// The number of grid points of a colour lookup table with `inputs` inputs
/// and `g` points along each.
pub open spec fn grid_size(g: nat, inputs: nat) -> nat
    decreases inputs,
{
    if inputs == 0 {
        1
    } else {
        g * grid_size(g, (inputs - 1) as nat)
    }
}

/// Entries of the input tables, the colour lookup table and the output tables.
pub open spec fn table_sizes(h: LutHead, n: u16, m: u16) -> (nat, nat, nat) {
    (
        (h.input_channels * n) as nat,
        (grid_size(h.clut_grid_points as nat, h.input_channels as nat) * h.output_channels) as nat,
        (h.output_channels * m) as nat,
    )
}

/// Bytes of a `Lut16` with these fields.
pub open spec fn lut16_len(h: LutHead, n: u16, m: u16) -> int {
    let (a, c, o) = table_sizes(h, n, m);
    LUT16_FIXED_SIZE + 2 * (a + c + o)
}

/// A lookup table with 16-bit entries.
#[derive(Debug, Clone, PartialEq, Eq)]
pub struct Lut16 {
    pub type_signature: u32,
    pub reserved_1: u32,
    pub input_channels: u8,
    pub output_channels: u8,
    pub clut_grid_points: u8,
    pub reserved_2: u8,
    pub encoded_e1p: S15Fixed16,
    pub encoded_e2p: S15Fixed16,
    pub encoded_e3p: S15Fixed16,
    pub encoded_e4p: S15Fixed16,
    pub encoded_e5p: S15Fixed16,
    pub encoded_e6p: S15Fixed16,
    pub encoded_e7p: S15Fixed16,
    pub encoded_e8p: S15Fixed16,
    pub encoded_e9p: S15Fixed16,
    pub input_table_entries: u16,
    pub output_table_entries: u16,
    pub input_values: Vec<u16>,
    pub clut_values: Vec<u16>,
    pub output_tables: Vec<u16>,
}

/// The model of a `Lut16`.
pub struct Lut16Model {
    pub head: LutHead,
    pub input_table_entries: u16,
    pub output_table_entries: u16,
    pub input_values: Seq<u16>,
    pub clut_values: Seq<u16>,
    pub output_tables: Seq<u16>,
}

impl View for Lut16 {
    type V = Lut16Model;

    open spec fn view(&self) -> Lut16Model {
        Lut16Model {
            head: LutHead {
                type_signature: self.type_signature,
                reserved_1: self.reserved_1,
                input_channels: self.input_channels,
                output_channels: self.output_channels,
                clut_grid_points: self.clut_grid_points,
                reserved_2: self.reserved_2,
                encoded_e1p: self.encoded_e1p,
                encoded_e2p: self.encoded_e2p,
                encoded_e3p: self.encoded_e3p,
                encoded_e4p: self.encoded_e4p,
                encoded_e5p: self.encoded_e5p,
                encoded_e6p: self.encoded_e6p,
                encoded_e7p: self.encoded_e7p,
                encoded_e8p: self.encoded_e8p,
                encoded_e9p: self.encoded_e9p,
            },
            input_table_entries: self.input_table_entries,
            output_table_entries: self.output_table_entries,
            input_values: self.input_values@,
            clut_values: self.clut_values@,
            output_tables: self.output_tables@,
        }
    }
}

/// The colour lookup table's entry count, `min(g^inputs, cap)`, by a loop.
pub fn saturated_grid_size(g: u8, inputs: u8, cap: u128) -> (r: u128)
    requires
        cap >= 1,
        cap <= u64::MAX as u128 + 1,
    ensures
        r as int == if grid_size(g as nat, inputs as nat) < cap {
            grid_size(g as nat, inputs as nat) as int
        } else {
            cap as int
        },
{
    let mut acc: u128 = 1;
    let mut k: u8 = 0;
    while k < inputs
        invariant
            k <= inputs,
            cap >= 1,
            cap <= u64::MAX as u128 + 1,
            acc as int == if grid_size(g as nat, k as nat) < cap {
                grid_size(g as nat, k as nat) as int
            } else {
                cap as int
            },
        decreases inputs - k,
    {
        let ghost p = grid_size(g as nat, k as nat) as int;
        assert(grid_size(g as nat, (k + 1) as nat) == g as nat * grid_size(g as nat, k as nat));
        assert(acc * g as int <= (u64::MAX as int + 1) * 255) by (nonlinear_arith)
            requires
                acc <= cap,
                cap <= u64::MAX as int + 1,
                g <= 255,
        ;
        let next = acc * g as u128;
        proof {
            let c = cap as int;
            let gi = g as int;
            if p < c {
                assert(next == gi * p) by (nonlinear_arith)
                    requires
                        next == acc * gi,
                        acc as int == p,
                ;
            } else if gi == 0 {
                assert(next == 0) by (nonlinear_arith)
                    requires
                        next == acc * gi,
                        gi == 0,
                ;
                assert(gi * p == 0) by (nonlinear_arith)
                    requires
                        gi == 0,
                ;
            } else {
                assert(next >= c) by (nonlinear_arith)
                    requires
                        next == acc * gi,
                        acc as int == c,
                        gi >= 1,
                ;
                assert(gi * p >= p) by (nonlinear_arith)
                    requires
                        p >= 0,
                        gi >= 1,
                ;
            }
        }
        acc = if next < cap {
            next
        } else {
            cap
        };
        k = k + 1;
    }
    acc
}

impl Lut16 {
    /// The fixed leading fields.
    pub fn head(&self) -> (r: LutHead)
        ensures
            r == self@.head,
    {
        LutHead {
            type_signature: self.type_signature,
            reserved_1: self.reserved_1,
            input_channels: self.input_channels,
            output_channels: self.output_channels,
            clut_grid_points: self.clut_grid_points,
            reserved_2: self.reserved_2,
            encoded_e1p: self.encoded_e1p,
            encoded_e2p: self.encoded_e2p,
            encoded_e3p: self.encoded_e3p,
            encoded_e4p: self.encoded_e4p,
            encoded_e5p: self.encoded_e5p,
            encoded_e6p: self.encoded_e6p,
            encoded_e7p: self.encoded_e7p,
            encoded_e8p: self.encoded_e8p,
            encoded_e9p: self.encoded_e9p,
        }
    }
}

impl TagRecord for Lut16 {
    open spec fn spec_type_signature() -> u32 {
        LUT16_TYPE
    }

    /// Each table holds as many entries as the channels, grid and entry counts
    /// call for.
    open spec fn wf(m: Lut16Model) -> bool {
        let (a, c, o) = table_sizes(m.head, m.input_table_entries, m.output_table_entries);
        &&& m.head.type_signature == LUT16_TYPE
        &&& m.input_values.len() == a
        &&& m.clut_values.len() == c
        &&& m.output_tables.len() == o
    }

    open spec fn spec_encode(m: Lut16Model) -> Seq<u8> {
        m.head.enc() + m.input_table_entries.enc() + m.output_table_entries.enc() + packed(
            m.input_values,
        ) + packed(m.clut_values) + packed(m.output_tables)
    }

    /// The bytes the tables call for, or one more than there are where they
    /// call for more than that.
    open spec fn spec_needed(b: Seq<u8>) -> int {
        if b.len() < LUT16_FIXED_SIZE {
            LUT16_FIXED_SIZE as int
        } else {
            let e = lut16_len(field::<LutHead>(b, 0), field::<u16>(b, 48), field::<u16>(b, 50));
            if e <= b.len() {
                e
            } else {
                b.len() + 1int
            }
        }
    }

    open spec fn spec_decode(b: Seq<u8>) -> Result<Lut16Model, DecodeError> {
        match head_error(b, LUT16_TYPE, Self::spec_needed(b)) {
            Some(e) => Err(e),
            None => {
                let h = field::<LutHead>(b, 0);
                let n = field::<u16>(b, 48);
                let m = field::<u16>(b, 50);
                let (a, c, o) = table_sizes(h, n, m);
                Ok(
                    Lut16Model {
                        head: h,
                        input_table_entries: n,
                        output_table_entries: m,
                        input_values: unpacked::<u16>(b, 52, a),
                        clut_values: unpacked::<u16>(b, 52 + 2 * a as int, c),
                        output_tables: unpacked::<u16>(b, 52 + 2 * (a + c) as int, o),
                    },
                )
            },
        }
    }

    fn type_signature(&self) -> (r: u32) {
        LUT16_TYPE
    }

    fn check(&self) -> (r: bool) {
        if self.type_signature != LUT16_TYPE {
            return false;
        }
        let h = self.head();
        assert(self.input_channels as int * self.input_table_entries as int <= 255 * 65535)
            by (nonlinear_arith)
            requires
                self.input_channels <= 255,
                self.input_table_entries <= 65535,
        ;
        assert(self.output_channels as int * self.output_table_entries as int <= 255 * 65535)
            by (nonlinear_arith)
            requires
                self.output_channels <= 255,
                self.output_table_entries <= 65535,
        ;
        let a = self.input_channels as u128 * self.input_table_entries as u128;
        let o = self.output_channels as u128 * self.output_table_entries as u128;
        if self.input_values.len() as u128 != a || self.output_tables.len() as u128 != o {
            return false;
        }
        let len = self.clut_values.len() as u128;
        let cap: u128 = len + 1;
        let g = saturated_grid_size(self.clut_grid_points, self.input_channels, cap);
        let out = self.output_channels as u128;
        assert(g as int * out as int <= (u64::MAX as int + 1) * 255) by (nonlinear_arith)
            requires
                g <= cap,
                cap <= u64::MAX as int + 1,
                out <= 255,
        ;
        proof {
            let gs = grid_size(h.clut_grid_points as nat, h.input_channels as nat) as int;
            assert((g * out == len) == (gs * out == len)) by (nonlinear_arith)
                requires
                    g as int == (if gs < cap { gs } else { cap as int }),
                    cap == len + 1,
                    gs >= 0,
                    out >= 0,
            ;
        }
        g * out == len
    }

    fn encode(&self) -> (r: Vec<u8>) {
        let mut out: Vec<u8> = Vec::new();
        self.head().push_to(&mut out);
        self.input_table_entries.push_to(&mut out);
        self.output_table_entries.push_to(&mut out);
        push_all(&mut out, &self.input_values);
        push_all(&mut out, &self.clut_values);
        push_all(&mut out, &self.output_tables);
        out
    }

    fn decode(b: &[u8]) -> (r: Result<Lut16, DecodeError>) {
        let len = b.len();
        if len < LUT16_FIXED_SIZE {
            return Err(
                DecodeError::TruncatedRecord { type_signature: LUT16_TYPE, needed: 52, available: len as u64 },
            );
        }
        let h = LutHead::read_at(b, 0);
        let n = u16::read_at(b, 48);
        let m = u16::read_at(b, 50);
        assert(h.input_channels as int * n as int <= 255 * 65535) by (nonlinear_arith)
            requires
                h.input_channels <= 255,
                n <= 65535,
        ;
        assert(h.output_channels as int * m as int <= 255 * 65535) by (nonlinear_arith)
            requires
                h.output_channels <= 255,
                m <= 65535,
        ;
        let a = h.input_channels as u128 * n as u128;
        let o = h.output_channels as u128 * m as u128;
        let cap: u128 = len as u128 + 1;
        let g = saturated_grid_size(h.clut_grid_points, h.input_channels, cap);
        assert(g as int * h.output_channels as int <= (u64::MAX as int + 1) * 255) by (nonlinear_arith)
            requires
                g <= cap,
                cap <= u64::MAX as int + 1,
                h.output_channels <= 255,
        ;
        let c = g * h.output_channels as u128;
        let ghost sizes = table_sizes(h, n, m);
        let ghost gs = grid_size(h.clut_grid_points as nat, h.input_channels as nat);
        if 52 + 2 * (a + c + o) > len as u128 {
            proof {
                let out = h.output_channels as int;
                let gi = gs as int;
                assert(52 + 2 * (a + gi * out + o) > len) by (nonlinear_arith)
                    requires
                        g as int == (if gi < cap { gi } else { cap as int }),
                        c == g * out,
                        52 + 2 * (a + c + o) > len,
                        cap == len + 1,
                        out >= 0,
                        gi >= 0,
                ;
            }
            return Err(
                DecodeError::TruncatedRecord {
                    type_signature: LUT16_TYPE,
                    needed: #[verifier::truncate] ((len as u128 + 1) as u64),
                    available: len as u64,
                },
            );
        }
        proof {
            let out = h.output_channels as int;
            let gi = gs as int;
            assert(c as int == gi * out) by (nonlinear_arith)
                requires
                    g as int == (if gi < cap { gi } else { cap as int }),
                    c == g * out,
                    52 + 2 * (a + c + o) <= len,
                    cap == len + 1,
                    a >= 0,
                    o >= 0,
                    out >= 0,
                    gi >= 0,
            ;
        }
        let needed = (52 + 2 * (a + c + o)) as u64;
        if let Err(e) = check_head(b, LUT16_TYPE, needed) {
            return Err(e);
        }
        let input_values = read_all::<u16>(b, 52, a as usize);
        let clut_values = read_all::<u16>(b, 52 + 2 * a as usize, c as usize);
        let output_tables = read_all::<u16>(b, 52 + 2 * (a + c) as usize, o as usize);
        Ok(
            Lut16 {
                type_signature: h.type_signature,
                reserved_1: h.reserved_1,
                input_channels: h.input_channels,
                output_channels: h.output_channels,
                clut_grid_points: h.clut_grid_points,
                reserved_2: h.reserved_2,
                encoded_e1p: h.encoded_e1p,
                encoded_e2p: h.encoded_e2p,
                encoded_e3p: h.encoded_e3p,
                encoded_e4p: h.encoded_e4p,
                encoded_e5p: h.encoded_e5p,
                encoded_e6p: h.encoded_e6p,
                encoded_e7p: h.encoded_e7p,
                encoded_e8p: h.encoded_e8p,
                encoded_e9p: h.encoded_e9p,
                input_table_entries: n,
                output_table_entries: m,
                input_values,
                clut_values,
                output_tables,
            },
        )
    }

    proof fn lemma_round_trip(x: Lut16Model) {
        let b = Self::spec_encode(x);
        let p = x.head.enc() + x.input_table_entries.enc() + x.output_table_entries.enc();
        x.head.lemma_enc();
        x.input_table_entries.lemma_enc();
        x.output_table_entries.lemma_enc();
        lemma_packed_len(x.input_values);
        lemma_packed_len(x.clut_values);
        lemma_packed_len(x.output_tables);
        assert(b.subrange(0, 48) =~= x.head.enc());
        lemma_field(b, 0, x.head);
        assert(b.subrange(48, 50) =~= x.input_table_entries.enc());
        lemma_field(b, 48, x.input_table_entries);
        assert(b.subrange(50, 52) =~= x.output_table_entries.enc());
        lemma_field(b, 50, x.output_table_entries);
        let pi = packed(x.input_values);
        let pc = packed(x.clut_values);
        let po = packed(x.output_tables);
        lemma_unpacked(p, x.input_values, pc + po);
        assert(p + pi + (pc + po) =~= b);
        lemma_unpacked(p + pi, x.clut_values, po);
        assert(p + pi + pc + po =~= b);
        lemma_unpacked(p + pi + pc, x.output_tables, Seq::<u8>::empty());
        assert(p + pi + pc + po + Seq::<u8>::empty() =~= b);
    }

    proof fn lemma_decoded(b: Seq<u8>) {
        if let Ok(x) = Self::spec_decode(b) {
            x.head.lemma_enc();
            x.input_table_entries.lemma_enc();
            x.output_table_entries.lemma_enc();
            lemma_packed_len(x.input_values);
            lemma_packed_len(x.clut_values);
            lemma_packed_len(x.output_tables);
            let h = field::<LutHead>(b, 0);
            assert(b.subrange(0, 48).subrange(0, 4) =~= b.subrange(0, 4));
        }
    }

    proof fn lemma_truncated(b: Seq<u8>) {
    }
}

} // verus!
