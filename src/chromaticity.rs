//! Chromaticity: the CIE xy coordinates of each device channel's colorant.
use vstd::prelude::*;
use crate::bytes::{Packed, field, packed, unpacked, lemma_unpacked, lemma_packed_len, lemma_field, push_all, read_all};
use crate::error::DecodeError;
use crate::numbers::U16Fixed16;
use crate::record::{TagRecord, head_error, check_head, head_bytes, lemma_head, start_record};
use crate::signatures::{SignatureCode, PhosphorColorant, decode_signature, lemma_signature_bijection, lemma_from_signature};

verus! {

/// Type signature of `Chromaticity` (`chrm`).
pub const CHROMATICITY_TYPE: u32 = 0x6368726D;

/// The phosphor or colorant set of a device and the chromaticity of each of
/// its channels; the channel count is the number of coordinate pairs.
#[derive(Debug, Clone, PartialEq, Eq)]
pub struct Chromaticity {
    pub type_signature: u32,
    pub reserved_1: u32,
    pub phosphor_colorant: PhosphorColorant,
    pub channel_ciexy_coords: Vec<[U16Fixed16; 2]>,
}

/// The model of a `Chromaticity`.
pub struct ChromaticityModel {
    pub type_signature: u32,
    pub reserved_1: u32,
    pub phosphor_colorant: PhosphorColorant,
    pub channel_ciexy_coords: Seq<[U16Fixed16; 2]>,
}

impl View for Chromaticity {
    type V = ChromaticityModel;

    open spec fn view(&self) -> ChromaticityModel {
        ChromaticityModel {
            type_signature: self.type_signature,
            reserved_1: self.reserved_1,
            phosphor_colorant: self.phosphor_colorant,
            channel_ciexy_coords: self.channel_ciexy_coords@,
        }
    }
}

impl Chromaticity {
    pub fn new(phosphor_colorant: PhosphorColorant, channel_ciexy_coords: Vec<[U16Fixed16; 2]>) -> (r:
        Chromaticity)
        ensures
            r@ == (ChromaticityModel {
                type_signature: CHROMATICITY_TYPE,
                reserved_1: 0,
                phosphor_colorant,
                channel_ciexy_coords: channel_ciexy_coords@,
            }),
    {
        Chromaticity { type_signature: CHROMATICITY_TYPE, reserved_1: 0, phosphor_colorant, channel_ciexy_coords }
    }

    /// The number of device channels.
    pub fn device_channels(&self) -> (r: usize)
        ensures
            r == self.channel_ciexy_coords@.len(),
    {
        self.channel_ciexy_coords.len()
    }
}

/// The bytes before the coordinates: leading eight, channel count, phosphor code.
pub open spec fn chromaticity_prefix(m: ChromaticityModel) -> Seq<u8> {
    head_bytes(m.type_signature, m.reserved_1) + (m.channel_ciexy_coords.len() as u16).enc()
        + (m.phosphor_colorant.spec_signature() as u16).enc()
}

impl TagRecord for Chromaticity {
    open spec fn spec_type_signature() -> u32 {
        CHROMATICITY_TYPE
    }

    open spec fn wf(m: ChromaticityModel) -> bool {
        m.type_signature == CHROMATICITY_TYPE && m.channel_ciexy_coords.len() <= u16::MAX
    }

    open spec fn spec_encode(m: ChromaticityModel) -> Seq<u8> {
        chromaticity_prefix(m) + packed(m.channel_ciexy_coords)
    }

    open spec fn spec_needed(b: Seq<u8>) -> int {
        if b.len() < 12 {
            12
        } else {
            12 + 8 * field::<u16>(b, 8)
        }
    }

    open spec fn spec_decode(b: Seq<u8>) -> Result<ChromaticityModel, DecodeError> {
        match head_error(b, CHROMATICITY_TYPE, Self::spec_needed(b)) {
            Some(e) => Err(e),
            None => {
                let code = field::<u16>(b, 10) as u32;
                match decode_signature::<PhosphorColorant>(code) {
                    None => Err(DecodeError::UnrecognizedSignature { signature: code }),
                    Some(p) => Ok(
                        ChromaticityModel {
                            type_signature: CHROMATICITY_TYPE,
                            reserved_1: field::<u32>(b, 4),
                            phosphor_colorant: p,
                            channel_ciexy_coords: unpacked::<[U16Fixed16; 2]>(
                                b,
                                12,
                                field::<u16>(b, 8) as nat,
                            ),
                        },
                    ),
                }
            },
        }
    }

    fn type_signature(&self) -> (r: u32) {
        CHROMATICITY_TYPE
    }

    fn check(&self) -> (r: bool) {
        self.type_signature == CHROMATICITY_TYPE && self.channel_ciexy_coords.len() as u64 <= 0xffff
    }

    fn encode(&self) -> (r: Vec<u8>) {
        let mut out = start_record(self.type_signature, self.reserved_1);
        (self.channel_ciexy_coords.len() as u16).push_to(&mut out);
        (self.phosphor_colorant.signature() as u16).push_to(&mut out);
        push_all(&mut out, &self.channel_ciexy_coords);
        out
    }

    fn decode(b: &[u8]) -> (r: Result<Chromaticity, DecodeError>) {
        let len = b.len();
        if len < 12 {
            return Err(
                DecodeError::TruncatedRecord {
                    type_signature: CHROMATICITY_TYPE,
                    needed: 12,
                    available: len as u64,
                },
            );
        }
        let channels = u16::read_at(b, 8);
        let needed: u64 = 12 + 8 * channels as u64;
        if let Err(e) = check_head(b, CHROMATICITY_TYPE, needed) {
            return Err(e);
        }
        let code = u16::read_at(b, 10) as u32;
        let p = PhosphorColorant::from_signature(code);
        proof {
            lemma_from_signature(code, p);
        }
        let p = match p {
            Ok(v) => v,
            Err(e) => {
                return Err(e);
            },
        };
        let coords = read_all::<[U16Fixed16; 2]>(b, 12, channels as usize);
        Ok(
            Chromaticity {
                type_signature: CHROMATICITY_TYPE,
                reserved_1: u32::read_at(b, 4),
                phosphor_colorant: p,
                channel_ciexy_coords: coords,
            },
        )
    }

    proof fn lemma_round_trip(m: ChromaticityModel) {
        let n = m.channel_ciexy_coords.len() as u16;
        let c = m.phosphor_colorant.spec_signature();
        let p = chromaticity_prefix(m);
        let b = Self::spec_encode(m);
        n.lemma_enc();
        (c as u16).lemma_enc();
        lemma_head(m.type_signature, m.reserved_1, n.enc() + (c as u16).enc() + packed(m.channel_ciexy_coords));
        assert(b =~= head_bytes(m.type_signature, m.reserved_1) + (n.enc() + (c as u16).enc() + packed(m.channel_ciexy_coords)));
        assert(b.subrange(8, 10) =~= n.enc());
        lemma_field(b, 8, n);
        assert(b.subrange(10, 12) =~= (c as u16).enc());
        lemma_field(b, 10, c as u16);
        lemma_signature_bijection(m.phosphor_colorant, c);
        lemma_unpacked(p, m.channel_ciexy_coords, Seq::empty());
        assert(p + packed(m.channel_ciexy_coords) + Seq::<u8>::empty() =~= b);
    }

    proof fn lemma_decoded(b: Seq<u8>) {
        if let Ok(m) = Self::spec_decode(b) {
            lemma_packed_len(m.channel_ciexy_coords);
            let n = m.channel_ciexy_coords.len();
            assert(n * 8 == 8 * n) by (nonlinear_arith);
            (m.channel_ciexy_coords.len() as u16).lemma_enc();
            (m.phosphor_colorant.spec_signature() as u16).lemma_enc();
        }
    }

    proof fn lemma_truncated(b: Seq<u8>) {
    }
}

} // verus!
