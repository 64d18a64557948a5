//! Parametric curves: a function type and its parameters.
use vstd::prelude::*;
use crate::bytes::{Packed, field, packed, unpacked, lemma_unpacked, lemma_packed_len, lemma_field, push_all, read_all};
use crate::error::DecodeError;
use crate::numbers::S15Fixed16;
use crate::record::{TagRecord, head_error, check_head, head_bytes, lemma_head, start_record};

verus! {

/// Type signature of `ParametricCurve` (`para`).
pub const PARAMETRIC_CURVE_TYPE: u32 = 0x70617261;

/// The number of parameters of each function type.
pub open spec fn param_count(function: u16) -> Option<nat> {
    if function == 0 {
        Some(1)
    } else if function == 1 {
        Some(3)
    } else if function == 2 {
        Some(4)
    } else if function == 3 {
        Some(5)
    } else if function == 4 {
        Some(7)
    } else {
        None
    }
}

/// The number of parameters of function type `function`, if it is one of the five.
pub fn parameter_count(function: u16) -> (r: Option<usize>)
    ensures
        match param_count(function) {
            Some(c) => r == Some(c as usize),
            None => r is None,
        },
{
    if function == 0 {
        Some(1)
    } else if function == 1 {
        Some(3)
    } else if function == 2 {
        Some(4)
    } else if function == 3 {
        Some(5)
    } else if function == 4 {
        Some(7)
    } else {
        None
    }
}

/// A curve given by one of five parametric functions and its parameters.
#[derive(Debug, Clone, PartialEq, Eq)]
pub struct ParametricCurve {
    pub para_signature: u32,
    pub reserved_1: u32,
    pub encoded_function: u16,
    pub reserved_2: u16,
    pub params: Vec<S15Fixed16>,
}

/// The model of a `ParametricCurve`.
pub struct CurveModel {
    pub para_signature: u32,
    pub reserved_1: u32,
    pub encoded_function: u16,
    pub reserved_2: u16,
    pub params: Seq<S15Fixed16>,
}

impl View for ParametricCurve {
    type V = CurveModel;

    open spec fn view(&self) -> CurveModel {
        CurveModel {
            para_signature: self.para_signature,
            reserved_1: self.reserved_1,
            encoded_function: self.encoded_function,
            reserved_2: self.reserved_2,
            params: self.params@,
        }
    }
}

impl ParametricCurve {
    pub fn new(encoded_function: u16, params: Vec<S15Fixed16>) -> (r: ParametricCurve)
        ensures
            r@ == (CurveModel {
                para_signature: PARAMETRIC_CURVE_TYPE,
                reserved_1: 0,
                encoded_function,
                reserved_2: 0,
                params: params@,
            }),
    {
        ParametricCurve { para_signature: PARAMETRIC_CURVE_TYPE, reserved_1: 0, encoded_function, reserved_2: 0, params }
    }
}

impl TagRecord for ParametricCurve {
    open spec fn spec_type_signature() -> u32 {
        PARAMETRIC_CURVE_TYPE
    }

    /// The function type is one of the five, with as many parameters as it takes.
    open spec fn wf(m: CurveModel) -> bool {
        m.para_signature == PARAMETRIC_CURVE_TYPE && param_count(m.encoded_function) == Some(m.params.len())
    }

    open spec fn spec_encode(m: CurveModel) -> Seq<u8> {
        head_bytes(m.para_signature, m.reserved_1) + m.encoded_function.enc() + m.reserved_2.enc()
            + packed(m.params)
    }

    /// Twelve bytes, then the parameters of the declared function type; the
    /// bytes as they are where that type is unknown.
    open spec fn spec_needed(b: Seq<u8>) -> int {
        if b.len() < 12 {
            12
        } else {
            match param_count(field::<u16>(b, 8)) {
                Some(c) => (12 + 4 * c) as int,
                None => b.len() as int,
            }
        }
    }

    open spec fn spec_decode(b: Seq<u8>) -> Result<CurveModel, DecodeError> {
        match head_error(b, PARAMETRIC_CURVE_TYPE, Self::spec_needed(b)) {
            Some(e) => Err(e),
            None => {
                let f = field::<u16>(b, 8);
                match param_count(f) {
                    None => Err(DecodeError::UnrecognizedSignature { signature: f as u32 }),
                    Some(c) => Ok(
                        CurveModel {
                            para_signature: PARAMETRIC_CURVE_TYPE,
                            reserved_1: field::<u32>(b, 4),
                            encoded_function: f,
                            reserved_2: field::<u16>(b, 10),
                            params: unpacked::<S15Fixed16>(b, 12, c),
                        },
                    ),
                }
            },
        }
    }

    fn type_signature(&self) -> (r: u32) {
        PARAMETRIC_CURVE_TYPE
    }

    fn check(&self) -> (r: bool) {
        self.para_signature == PARAMETRIC_CURVE_TYPE && match parameter_count(self.encoded_function) {
            Some(c) => c == self.params.len(),
            None => false,
        }
    }

    fn encode(&self) -> (r: Vec<u8>) {
        let mut out = start_record(self.para_signature, self.reserved_1);
        self.encoded_function.push_to(&mut out);
        self.reserved_2.push_to(&mut out);
        push_all(&mut out, &self.params);
        out
    }

    fn decode(b: &[u8]) -> (r: Result<ParametricCurve, DecodeError>) {
        let len = b.len();
        if len < 12 {
            return Err(
                DecodeError::TruncatedRecord {
                    type_signature: PARAMETRIC_CURVE_TYPE,
                    needed: 12,
                    available: len as u64,
                },
            );
        }
        let f = u16::read_at(b, 8);
        let count = parameter_count(f);
        let needed: u64 = match count {
            Some(c) => 12 + 4 * c as u64,
            None => len as u64,
        };
        if let Err(e) = check_head(b, PARAMETRIC_CURVE_TYPE, needed) {
            return Err(e);
        }
        match count {
            None => Err(DecodeError::UnrecognizedSignature { signature: f as u32 }),
            Some(c) => {
                let params = read_all::<S15Fixed16>(b, 12, c);
                Ok(
                    ParametricCurve {
                        para_signature: PARAMETRIC_CURVE_TYPE,
                        reserved_1: u32::read_at(b, 4),
                        encoded_function: f,
                        reserved_2: u16::read_at(b, 10),
                        params,
                    },
                )
            },
        }
    }

    proof fn lemma_round_trip(m: CurveModel) {
        let b = Self::spec_encode(m);
        let p = head_bytes(m.para_signature, m.reserved_1) + m.encoded_function.enc() + m.reserved_2.enc();
        m.encoded_function.lemma_enc();
        m.reserved_2.lemma_enc();
        lemma_packed_len(m.params);
        let rest = m.encoded_function.enc() + m.reserved_2.enc() + packed(m.params);
        lemma_head(m.para_signature, m.reserved_1, rest);
        assert(b =~= head_bytes(m.para_signature, m.reserved_1) + rest);
        assert(b.subrange(8, 10) =~= m.encoded_function.enc());
        lemma_field(b, 8, m.encoded_function);
        assert(b.subrange(10, 12) =~= m.reserved_2.enc());
        lemma_field(b, 10, m.reserved_2);
        lemma_unpacked(p, m.params, Seq::empty());
        assert(p + packed(m.params) + Seq::<u8>::empty() =~= b);
        assert(m.params.len() * 4 == 4 * m.params.len());
    }

    proof fn lemma_decoded(b: Seq<u8>) {
        if let Ok(m) = Self::spec_decode(b) {
            lemma_packed_len(m.params);
            let c = m.params.len();
            assert(c * 4 == 4 * c) by (nonlinear_arith);
            lemma_head(m.para_signature, m.reserved_1, m.encoded_function.enc() + m.reserved_2.enc() + packed(m.params));
            m.encoded_function.lemma_enc();
            m.reserved_2.lemma_enc();
        }
    }

    proof fn lemma_truncated(b: Seq<u8>) {
    }
}

} // verus!
