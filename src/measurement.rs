//! Measurement conditions and viewing conditions.
use vstd::prelude::*;
use crate::bytes::{Packed, field, lemma_field};
use crate::error::DecodeError;
use crate::numbers::{U16Fixed16, XYZNum};
use crate::record::{TagRecord, head_error, check_head, head_bytes};
use crate::signatures::{
    SignatureCode, StandardObserver, MeasurementGeometry, StandardIlluminant, decode_signature,
    lemma_signature_bijection, lemma_from_signature,
};

verus! {

/// Type signature of `Measurement` (`meas`).
pub const MEASUREMENT_TYPE: u32 = 0x6D656173;

/// Type signature of `ViewingConditions` (`view`).
pub const VIEWING_CONDITIONS_TYPE: u32 = 0x76696577;

/// The flare of a measurement, as a fraction.
#[derive(Debug, Copy, Clone, PartialEq, Eq, Structural)]
pub struct MeasurementFlare(pub U16Fixed16);

impl Packed for MeasurementFlare {
    open spec fn spec_width() -> nat {
        4
    }

    open spec fn enc(self) -> Seq<u8> {
        self.0.enc()
    }

    open spec fn dec(b: Seq<u8>) -> MeasurementFlare {
        MeasurementFlare(U16Fixed16::dec(b))
    }

    proof fn lemma_enc(self) {
        self.0.lemma_enc();
    }

    proof fn lemma_width() {
    }

    fn width() -> (r: usize) {
        4
    }

    fn push_to(&self, out: &mut Vec<u8>) {
        self.0.push_to(out);
    }

    fn read_at(b: &[u8], k: usize) -> (r: MeasurementFlare) {
        MeasurementFlare(U16Fixed16::read_at(b, k))
    }
}

/// The conditions under which colours were measured.
#[derive(Debug, Copy, Clone, PartialEq, Eq)]
pub struct Measurement {
    pub type_signature: u32,
    pub reserved_1: u32,
    pub std_observer: StandardObserver,
    pub tristimulus_values: XYZNum,
    pub measurement_geometry: MeasurementGeometry,
    pub measurement_flare: MeasurementFlare,
    pub standard_illuminant: StandardIlluminant,
}

impl View for Measurement {
    type V = Measurement;

    open spec fn view(&self) -> Measurement {
        *self
    }
}

/// The encoding of a measurement body: 28 bytes after the leading eight.
pub open spec fn measurement_bytes(m: Measurement) -> Seq<u8> {
    head_bytes(m.type_signature, m.reserved_1) + m.std_observer.spec_signature().enc()
        + m.tristimulus_values.enc() + m.measurement_geometry.spec_signature().enc()
        + m.measurement_flare.enc() + m.standard_illuminant.spec_signature().enc()
}

/// A measurement read from the 36 bytes at offset `k` of `b`, where each
/// enumerated code is known.
pub open spec fn measurement_at(b: Seq<u8>, k: int) -> Result<Measurement, DecodeError> {
    let obs = field::<u32>(b, k + 8);
    let geo = field::<u32>(b, k + 24);
    let ill = field::<u32>(b, k + 32);
    match decode_signature::<StandardObserver>(obs) {
        None => Err(DecodeError::UnrecognizedSignature { signature: obs }),
        Some(o) => match decode_signature::<MeasurementGeometry>(geo) {
            None => Err(DecodeError::UnrecognizedSignature { signature: geo }),
            Some(g) => match decode_signature::<StandardIlluminant>(ill) {
                None => Err(DecodeError::UnrecognizedSignature { signature: ill }),
                Some(i) => Ok(
                    Measurement {
                        type_signature: field::<u32>(b, k),
                        reserved_1: field::<u32>(b, k + 4),
                        std_observer: o,
                        tristimulus_values: field::<XYZNum>(b, k + 12),
                        measurement_geometry: g,
                        measurement_flare: field::<MeasurementFlare>(b, k + 28),
                        standard_illuminant: i,
                    },
                ),
            },
        },
    }
}

/// The measurement encoded at offset `p.len()` reads back.
pub proof fn lemma_measurement_at(p: Seq<u8>, m: Measurement, q: Seq<u8>)
    ensures
        (p + measurement_bytes(m) + q).len() == p.len() + 36 + q.len(),
        measurement_at(p + measurement_bytes(m) + q, p.len() as int) == Ok::<Measurement, DecodeError>(m),
{
    let b = p + measurement_bytes(m) + q;
    let k = p.len() as int;
    let o = m.std_observer.spec_signature();
    let g = m.measurement_geometry.spec_signature();
    let i = m.standard_illuminant.spec_signature();
    m.type_signature.lemma_enc();
    m.reserved_1.lemma_enc();
    o.lemma_enc();
    m.tristimulus_values.lemma_enc();
    g.lemma_enc();
    m.measurement_flare.lemma_enc();
    i.lemma_enc();
    assert(b.subrange(k, k + 4) =~= m.type_signature.enc());
    lemma_field(b, k, m.type_signature);
    assert(b.subrange(k + 4, k + 8) =~= m.reserved_1.enc());
    lemma_field(b, k + 4, m.reserved_1);
    assert(b.subrange(k + 8, k + 12) =~= o.enc());
    lemma_field(b, k + 8, o);
    assert(b.subrange(k + 12, k + 24) =~= m.tristimulus_values.enc());
    lemma_field(b, k + 12, m.tristimulus_values);
    assert(b.subrange(k + 24, k + 28) =~= g.enc());
    lemma_field(b, k + 24, g);
    assert(b.subrange(k + 28, k + 32) =~= m.measurement_flare.enc());
    lemma_field(b, k + 28, m.measurement_flare);
    assert(b.subrange(k + 32, k + 36) =~= i.enc());
    lemma_field(b, k + 32, i);
    lemma_signature_bijection(m.std_observer, o);
    lemma_signature_bijection(m.measurement_geometry, g);
    lemma_signature_bijection(m.standard_illuminant, i);
}

/// Reads the measurement encoded at offset `k` of `b`.
pub fn read_measurement(b: &[u8], k: usize) -> (r: Result<Measurement, DecodeError>)
    requires
        k + 36 <= b@.len(),
    ensures
        r == measurement_at(b@, k as int),
{
    let len = b.len();
    let obs = u32::read_at(b, k + 8);
    let geo = u32::read_at(b, k + 24);
    let ill = u32::read_at(b, k + 32);
    let o = StandardObserver::from_signature(obs);
    proof {
        lemma_from_signature(obs, o);
    }
    let o = match o {
        Ok(v) => v,
        Err(e) => {
            return Err(e);
        },
    };
    let g = MeasurementGeometry::from_signature(geo);
    proof {
        lemma_from_signature(geo, g);
    }
    let g = match g {
        Ok(v) => v,
        Err(e) => {
            return Err(e);
        },
    };
    let i = StandardIlluminant::from_signature(ill);
    proof {
        lemma_from_signature(ill, i);
    }
    let i = match i {
        Ok(v) => v,
        Err(e) => {
            return Err(e);
        },
    };
    Ok(
        Measurement {
            type_signature: u32::read_at(b, k),
            reserved_1: u32::read_at(b, k + 4),
            std_observer: o,
            tristimulus_values: XYZNum::read_at(b, k + 12),
            measurement_geometry: g,
            measurement_flare: MeasurementFlare::read_at(b, k + 28),
            standard_illuminant: i,
        },
    )
}

/// Appends the encoding of a measurement.
pub fn push_measurement(m: &Measurement, out: &mut Vec<u8>)
    ensures
        final(out)@ == old(out)@ + measurement_bytes(*m),
{
    m.type_signature.push_to(out);
    m.reserved_1.push_to(out);
    m.std_observer.signature().push_to(out);
    m.tristimulus_values.push_to(out);
    m.measurement_geometry.signature().push_to(out);
    m.measurement_flare.push_to(out);
    m.standard_illuminant.signature().push_to(out);
    assert(out@ =~= old(out)@ + measurement_bytes(*m));
}

impl Measurement {
    pub fn new(
        std_observer: StandardObserver,
        tristimulus_values: XYZNum,
        measurement_geometry: MeasurementGeometry,
        measurement_flare: MeasurementFlare,
        standard_illuminant: StandardIlluminant,
    ) -> (r: Measurement)
        ensures
            r == (Measurement {
                type_signature: MEASUREMENT_TYPE,
                reserved_1: 0,
                std_observer,
                tristimulus_values,
                measurement_geometry,
                measurement_flare,
                standard_illuminant,
            }),
    {
        Measurement {
            type_signature: MEASUREMENT_TYPE,
            reserved_1: 0,
            std_observer,
            tristimulus_values,
            measurement_geometry,
            measurement_flare,
            standard_illuminant,
        }
    }
}

impl TagRecord for Measurement {
    open spec fn spec_type_signature() -> u32 {
        MEASUREMENT_TYPE
    }

    open spec fn wf(m: Measurement) -> bool {
        m.type_signature == MEASUREMENT_TYPE
    }

    open spec fn spec_encode(m: Measurement) -> Seq<u8> {
        measurement_bytes(m)
    }

    open spec fn spec_needed(b: Seq<u8>) -> int {
        36
    }

    open spec fn spec_decode(b: Seq<u8>) -> Result<Measurement, DecodeError> {
        match head_error(b, MEASUREMENT_TYPE, 36) {
            Some(e) => Err(e),
            None => measurement_at(b, 0),
        }
    }

    fn type_signature(&self) -> (r: u32) {
        MEASUREMENT_TYPE
    }

    fn check(&self) -> (r: bool) {
        self.type_signature == MEASUREMENT_TYPE
    }

    fn encode(&self) -> (r: Vec<u8>) {
        let mut out: Vec<u8> = Vec::new();
        push_measurement(self, &mut out);
        assert(out@ =~= measurement_bytes(*self));
        out
    }

    fn decode(b: &[u8]) -> (r: Result<Measurement, DecodeError>) {
        match check_head(b, MEASUREMENT_TYPE, 36) {
            Err(e) => Err(e),
            Ok(()) => read_measurement(b, 0),
        }
    }

    proof fn lemma_round_trip(m: Measurement) {
        let e = measurement_bytes(m);
        lemma_measurement_at(Seq::empty(), m, Seq::empty());
        assert(Seq::<u8>::empty() + e + Seq::<u8>::empty() =~= e);
    }

    proof fn lemma_decoded(b: Seq<u8>) {
        if let Ok(m) = Self::spec_decode(b) {
            m.type_signature.lemma_enc();
            m.reserved_1.lemma_enc();
            m.std_observer.spec_signature().lemma_enc();
            m.tristimulus_values.lemma_enc();
            m.measurement_geometry.spec_signature().lemma_enc();
            m.measurement_flare.lemma_enc();
            m.standard_illuminant.spec_signature().lemma_enc();
        }
    }

    proof fn lemma_truncated(b: Seq<u8>) {
    }
}

/// The illuminant and surround of a viewing environment, with the
/// measurement conditions of its illuminant.
#[derive(Debug, Copy, Clone, PartialEq, Eq)]
pub struct ViewingConditions {
    pub type_signature: u32,
    pub reserved_1: u32,
    pub ciexyz_illuminant: XYZNum,
    pub ciexyz_surround: XYZNum,
    pub illuminant_type: Measurement,
}

impl View for ViewingConditions {
    type V = ViewingConditions;

    open spec fn view(&self) -> ViewingConditions {
        *self
    }
}

impl ViewingConditions {
    pub fn new(ciexyz_illuminant: XYZNum, ciexyz_surround: XYZNum, illuminant_type: Measurement) -> (r:
        ViewingConditions)
        ensures
            r == (ViewingConditions {
                type_signature: VIEWING_CONDITIONS_TYPE,
                reserved_1: 0,
                ciexyz_illuminant,
                ciexyz_surround,
                illuminant_type,
            }),
    {
        ViewingConditions {
            type_signature: VIEWING_CONDITIONS_TYPE,
            reserved_1: 0,
            ciexyz_illuminant,
            ciexyz_surround,
            illuminant_type,
        }
    }
}

impl TagRecord for ViewingConditions {
    open spec fn spec_type_signature() -> u32 {
        VIEWING_CONDITIONS_TYPE
    }

    /// The nested measurement is a valid one in its own right.
    open spec fn wf(m: ViewingConditions) -> bool {
        m.type_signature == VIEWING_CONDITIONS_TYPE && Measurement::wf(m.illuminant_type)
    }

    open spec fn spec_encode(m: ViewingConditions) -> Seq<u8> {
        head_bytes(m.type_signature, m.reserved_1) + m.ciexyz_illuminant.enc() + m.ciexyz_surround.enc()
            + measurement_bytes(m.illuminant_type)
    }

    open spec fn spec_needed(b: Seq<u8>) -> int {
        68
    }

    open spec fn spec_decode(b: Seq<u8>) -> Result<ViewingConditions, DecodeError> {
        match head_error(b, VIEWING_CONDITIONS_TYPE, 68) {
            Some(e) => Err(e),
            None => if field::<u32>(b, 32) != MEASUREMENT_TYPE {
                Err(DecodeError::UnrecognizedSignature { signature: field::<u32>(b, 32) })
            } else {
                match measurement_at(b, 32) {
                    Err(e) => Err(e),
                    Ok(t) => Ok(
                        ViewingConditions {
                            type_signature: VIEWING_CONDITIONS_TYPE,
                            reserved_1: field::<u32>(b, 4),
                            ciexyz_illuminant: field::<XYZNum>(b, 8),
                            ciexyz_surround: field::<XYZNum>(b, 20),
                            illuminant_type: t,
                        },
                    ),
                }
            },
        }
    }

    fn type_signature(&self) -> (r: u32) {
        VIEWING_CONDITIONS_TYPE
    }

    fn check(&self) -> (r: bool) {
        self.type_signature == VIEWING_CONDITIONS_TYPE && self.illuminant_type.type_signature == MEASUREMENT_TYPE
    }

    fn encode(&self) -> (r: Vec<u8>) {
        let mut out: Vec<u8> = Vec::new();
        self.type_signature.push_to(&mut out);
        self.reserved_1.push_to(&mut out);
        self.ciexyz_illuminant.push_to(&mut out);
        self.ciexyz_surround.push_to(&mut out);
        push_measurement(&self.illuminant_type, &mut out);
        assert(out@ =~= Self::spec_encode(*self));
        out
    }

    fn decode(b: &[u8]) -> (r: Result<ViewingConditions, DecodeError>) {
        match check_head(b, VIEWING_CONDITIONS_TYPE, 68) {
            Err(e) => Err(e),
            Ok(()) => {
                let inner = u32::read_at(b, 32);
                if inner != MEASUREMENT_TYPE {
                    return Err(DecodeError::UnrecognizedSignature { signature: inner });
                }
                match read_measurement(b, 32) {
                    Err(e) => Err(e),
                    Ok(t) => Ok(
                        ViewingConditions {
                            type_signature: VIEWING_CONDITIONS_TYPE,
                            reserved_1: u32::read_at(b, 4),
                            ciexyz_illuminant: XYZNum::read_at(b, 8),
                            ciexyz_surround: XYZNum::read_at(b, 20),
                            illuminant_type: t,
                        },
                    ),
                }
            },
        }
    }

    proof fn lemma_round_trip(m: ViewingConditions) {
        let p = head_bytes(m.type_signature, m.reserved_1) + m.ciexyz_illuminant.enc()
            + m.ciexyz_surround.enc();
        let b = Self::spec_encode(m);
        m.type_signature.lemma_enc();
        m.reserved_1.lemma_enc();
        m.ciexyz_illuminant.lemma_enc();
        m.ciexyz_surround.lemma_enc();
        lemma_measurement_at(p, m.illuminant_type, Seq::empty());
        assert(p + measurement_bytes(m.illuminant_type) + Seq::<u8>::empty() =~= b);
        assert(b.subrange(0, 4) =~= m.type_signature.enc());
        lemma_field(b, 0, m.type_signature);
        assert(b.subrange(4, 8) =~= m.reserved_1.enc());
        lemma_field(b, 4, m.reserved_1);
        assert(b.subrange(8, 20) =~= m.ciexyz_illuminant.enc());
        lemma_field(b, 8, m.ciexyz_illuminant);
        assert(b.subrange(20, 32) =~= m.ciexyz_surround.enc());
        lemma_field(b, 20, m.ciexyz_surround);
    }

    proof fn lemma_decoded(b: Seq<u8>) {
        if let Ok(m) = Self::spec_decode(b) {
            let t = m.illuminant_type;
            m.type_signature.lemma_enc();
            m.reserved_1.lemma_enc();
            m.ciexyz_illuminant.lemma_enc();
            m.ciexyz_surround.lemma_enc();
            t.type_signature.lemma_enc();
            t.reserved_1.lemma_enc();
            t.std_observer.spec_signature().lemma_enc();
            t.tristimulus_values.lemma_enc();
            t.measurement_geometry.spec_signature().lemma_enc();
            t.measurement_flare.lemma_enc();
            t.standard_illuminant.spec_signature().lemma_enc();
        }
    }

    proof fn lemma_truncated(b: Seq<u8>) {
    }
}

} // verus!