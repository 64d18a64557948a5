//! Lookup tables with 8-bit entries: 256-entry input and output tables per
//! channel, and a colour lookup table whose size grows with the grid.
use vstd::prelude::*;
use crate::bytes::{Packed, field, packed, unpacked, lemma_unpacked, lemma_packed_len, lemma_field, push_all, read_all};
use crate::error::DecodeError;
use crate::numbers::S15Fixed16;
use crate::lut16::{LutHead, grid_size, saturated_grid_size};
use crate::record::{TagRecord, head_error, check_head};

verus! {

/// Type signature of `Lut8` (`mft1`).
pub const LUT8_TYPE: u32 = 0x6D667431;

/// Bytes before the tables of a `Lut8`.
pub const LUT8_FIXED_SIZE: usize = 48;

/// Entries of the input tables, the colour lookup table and the output tables.
pub open spec fn lut8_sizes(h: LutHead) -> (nat, nat, nat) {
    (
        (h.input_channels * 256) as nat,
        (grid_size(h.clut_grid_points as nat, h.input_channels as nat) * h.output_channels) as nat,
        (h.output_channels * 256) as nat,
    )
}

/// Bytes of a `Lut8` with this head.
pub open spec fn lut8_len(h: LutHead) -> int {
    let (a, c, o) = lut8_sizes(h);
    LUT8_FIXED_SIZE + a + c + o
}

/// A lookup table with 8-bit entries.
#[derive(Debug, Clone, PartialEq, Eq)]
pub struct Lut8 {
    pub type_signature: u32,
    pub reserved_1: u32,
    pub input_channels: u8,
    pub output_channels: u8,
    pub clut_grid_points: u8,
    pub reserved_2: u8,
    pub encoded_e1p: S15Fixed16,
    pub encoded_e2p: S15Fixed16,
    pub encoded_e3p: S15Fixed16,
    pub encoded_e4p: S15Fixed16,
    pub encoded_e5p: S15Fixed16,
    pub encoded_e6p: S15Fixed16,
    pub encoded_e7p: S15Fixed16,
    pub encoded_e8p: S15Fixed16,
    pub encoded_e9p: S15Fixed16,
    pub input_tables: Vec<u8>,
    pub clut_values: Vec<u8>,
    pub output_tables: Vec<u8>,
}

/// The model of a `Lut8`.
pub struct Lut8Model {
    pub head: LutHead,
    pub input_tables: Seq<u8>,
    pub clut_values: Seq<u8>,
    pub output_tables: Seq<u8>,
}

impl View for Lut8 {
    type V = Lut8Model;

    open spec fn view(&self) -> Lut8Model {
        Lut8Model {
            head: LutHead {
                type_signature: self.type_signature,
                reserved_1: self.reserved_1,
                input_channels: self.input_channels,
                output_channels: self.output_channels,
                clut_grid_points: self.clut_grid_points,
                reserved_2: self.reserved_2,
                encoded_e1p: self.encoded_e1p,
                encoded_e2p: self.encoded_e2p,
                encoded_e3p: self.encoded_e3p,
                encoded_e4p: self.encoded_e4p,
                encoded_e5p: self.encoded_e5p,
                encoded_e6p: self.encoded_e6p,
                encoded_e7p: self.encoded_e7p,
                encoded_e8p: self.encoded_e8p,
                encoded_e9p: self.encoded_e9p,
            },
            input_tables: self.input_tables@,
            clut_values: self.clut_values@,
            output_tables: self.output_tables@,
        }
    }
}

impl Lut8 {
    /// The fixed leading fields.
    pub fn head(&self) -> (r: LutHead)
        ensures
            r == self@.head,
    {
        LutHead {
            type_signature: self.type_signature,
            reserved_1: self.reserved_1,
            input_channels: self.input_channels,
            output_channels: self.output_channels,
            clut_grid_points: self.clut_grid_points,
            reserved_2: self.reserved_2,
            encoded_e1p: self.encoded_e1p,
            encoded_e2p: self.encoded_e2p,
            encoded_e3p: self.encoded_e3p,
            encoded_e4p: self.encoded_e4p,
            encoded_e5p: self.encoded_e5p,
            encoded_e6p: self.encoded_e6p,
            encoded_e7p: self.encoded_e7p,
            encoded_e8p: self.encoded_e8p,
            encoded_e9p: self.encoded_e9p,
        }
    }
}

impl TagRecord for Lut8 {
    open spec fn spec_type_signature() -> u32 {
        LUT8_TYPE
    }

    /// Each table holds as many entries as the channels and grid call for.
    open spec fn wf(m: Lut8Model) -> bool {
        let (a, c, o) = lut8_sizes(m.head);
        &&& m.head.type_signature == LUT8_TYPE
        &&& m.input_tables.len() == a
        &&& m.clut_values.len() == c
        &&& m.output_tables.len() == o
    }

    open spec fn spec_encode(m: Lut8Model) -> Seq<u8> {
        m.head.enc() + packed(m.input_tables) + packed(m.clut_values) + packed(m.output_tables)
    }

    /// The bytes the tables call for, or one more than there are where they
    /// call for more than that.
    open spec fn spec_needed(b: Seq<u8>) -> int {
        if b.len() < LUT8_FIXED_SIZE {
            LUT8_FIXED_SIZE as int
        } else {
            let e = lut8_len(field::<LutHead>(b, 0));
            if e <= b.len() {
                e
            } else {
                b.len() + 1int
            }
        }
    }

    open spec fn spec_decode(b: Seq<u8>) -> Result<Lut8Model, DecodeError> {
        match head_error(b, LUT8_TYPE, Self::spec_needed(b)) {
            Some(e) => Err(e),
            None => {
                let h = field::<LutHead>(b, 0);
                let (a, c, o) = lut8_sizes(h);
                Ok(
                    Lut8Model {
                        head: h,
                        input_tables: unpacked::<u8>(b, 48, a),
                        clut_values: unpacked::<u8>(b, 48 + a as int, c),
                        output_tables: unpacked::<u8>(b, 48 + (a + c) as int, o),
                    },
                )
            },
        }
    }

    fn type_signature(&self) -> (r: u32) {
        LUT8_TYPE
    }

    fn check(&self) -> (r: bool) {
        if self.type_signature != LUT8_TYPE {
            return false;
        }
        let h = self.head();
        let a = self.input_channels as u128 * 256;
        let o = self.output_channels as u128 * 256;
        if self.input_tables.len() as u128 != a || self.output_tables.len() as u128 != o {
            return false;
        }
        let len = self.clut_values.len() as u128;
        let cap: u128 = len + 1;
        let g = saturated_grid_size(self.clut_grid_points, self.input_channels, cap);
        let out = self.output_channels as u128;
        assert(g as int * out as int <= (u64::MAX as int + 1) * 255) by (nonlinear_arith)
            requires
                g <= cap,
                cap <= u64::MAX as int + 1,
                out <= 255,
        ;
        proof {
            let gs = grid_size(h.clut_grid_points as nat, h.input_channels as nat) as int;
            assert((g * out == len) == (gs * out == len)) by (nonlinear_arith)
                requires
                    g as int == (if gs < cap { gs } else { cap as int }),
                    cap == len + 1,
                    gs >= 0,
                    out >= 0,
            ;
        }
        g * out == len
    }

    fn encode(&self) -> (r: Vec<u8>) {
        let mut out: Vec<u8> = Vec::new();
        self.head().push_to(&mut out);
        push_all(&mut out, &self.input_tables);
        push_all(&mut out, &self.clut_values);
        push_all(&mut out, &self.output_tables);
        out
    }

    fn decode(b: &[u8]) -> (r: Result<Lut8, DecodeError>) {
        let len = b.len();
        if len < LUT8_FIXED_SIZE {
            return Err(
                DecodeError::TruncatedRecord { type_signature: LUT8_TYPE, needed: 48, available: len as u64 },
            );
        }
        let h = LutHead::read_at(b, 0);
        let a = h.input_channels as u128 * 256;
        let o = h.output_channels as u128 * 256;
        let cap: u128 = len as u128 + 1;
        let g = saturated_grid_size(h.clut_grid_points, h.input_channels, cap);
        assert(g as int * h.output_channels as int <= (u64::MAX as int + 1) * 255) by (nonlinear_arith)
            requires
                g <= cap,
                cap <= u64::MAX as int + 1,
                h.output_channels <= 255,
        ;
        let c = g * h.output_channels as u128;
        let ghost gs = grid_size(h.clut_grid_points as nat, h.input_channels as nat);
        if 48 + a + c + o > len as u128 {
            proof {
                let out = h.output_channels as int;
                let gi = gs as int;
                assert(48 + a + gi * out + o > len) by (nonlinear_arith)
                    requires
                        g as int == (if gi < cap { gi } else { cap as int }),
                        c == g * out,
                        48 + a + c + o > len,
                        cap == len + 1,
                        out >= 0,
                        gi >= 0,
                ;
            }
            return Err(
                DecodeError::TruncatedRecord {
                    type_signature: LUT8_TYPE,
                    needed: #[verifier::truncate] ((len as u128 + 1) as u64),
                    available: len as u64,
                },
            );
        }
        proof {
            let out = h.output_channels as int;
            let gi = gs as int;
            assert(c as int == gi * out) by (nonlinear_arith)
                requires
                    g as int == (if gi < cap { gi } else { cap as int }),
                    c == g * out,
                    48 + a + c + o <= len,
                    cap == len + 1,
                    a >= 0,
                    o >= 0,
                    out >= 0,
                    gi >= 0,
            ;
        }
        let needed = (48 + a + c + o) as u64;
        if let Err(e) = check_head(b, LUT8_TYPE, needed) {
            return Err(e);
        }
        let input_tables = read_all::<u8>(b, 48, a as usize);
        let clut_values = read_all::<u8>(b, 48 + a as usize, c as usize);
        let output_tables = read_all::<u8>(b, 48 + (a + c) as usize, o as usize);
        Ok(
            Lut8 {
                type_signature: h.type_signature,
                reserved_1: h.reserved_1,
                input_channels: h.input_channels,
                output_channels: h.output_channels,
                clut_grid_points: h.clut_grid_points,
                reserved_2: h.reserved_2,
                encoded_e1p: h.encoded_e1p,
                encoded_e2p: h.encoded_e2p,
                encoded_e3p: h.encoded_e3p,
                encoded_e4p: h.encoded_e4p,
                encoded_e5p: h.encoded_e5p,
                encoded_e6p: h.encoded_e6p,
                encoded_e7p: h.encoded_e7p,
                encoded_e8p: h.encoded_e8p,
                encoded_e9p: h.encoded_e9p,
                input_tables,
                clut_values,
                output_tables,
            },
        )
    }

    proof fn lemma_round_trip(x: Lut8Model) {
        let b = Self::spec_encode(x);
        let p = x.head.enc();
        x.head.lemma_enc();
        lemma_packed_len(x.input_tables);
        lemma_packed_len(x.clut_values);
        lemma_packed_len(x.output_tables);
        let pi = packed(x.input_tables);
        let pc = packed(x.clut_values);
        let po = packed(x.output_tables);
        assert(b.subrange(0, 48) =~= x.head.enc());
        lemma_field(b, 0, x.head);
        lemma_unpacked(p, x.input_tables, pc + po);
        assert(p + pi + (pc + po) =~= b);
        lemma_unpacked(p + pi, x.clut_values, po);
        lemma_unpacked(p + pi + pc, x.output_tables, Seq::<u8>::empty());
        assert(p + pi + pc + po + Seq::<u8>::empty() =~= b);
    }

    proof fn lemma_decoded(b: Seq<u8>) {
        if let Ok(x) = Self::spec_decode(b) {
            x.head.lemma_enc();
            lemma_packed_len(x.input_tables);
            lemma_packed_len(x.clut_values);
            lemma_packed_len(x.output_tables);
            assert(b.subrange(0, 48).subrange(0, 4) =~= b.subrange(0, 4));
        }
    }

    proof fn lemma_truncated(b: Seq<u8>) {
    }
}

} // verus!
