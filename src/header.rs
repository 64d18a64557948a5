//! The profile header and the device attributes it carries.
use vstd::prelude::*;
use crate::bytes::{Packed, field, packed, lemma_field, lemma_packed_len, lemma_packed_at};
use crate::error::DecodeError;
use crate::numbers::{DateTimeNum, XYZNum};
use crate::signatures::{SignatureCode, ProfileClass, ColorSpace, RenderingIntent};

verus! {

/// Bytes in an encoded header.
pub const HEADER_SIZE: usize = 132;

/// The profile file signature (`acsp`) that every header carries.
pub const PROFILE_FILE_SIGNATURE: u32 = 0x61637370;

/// A 64-bit set of device attribute flags.
#[derive(Debug, Copy, Clone, PartialEq, Eq, Hash, Structural)]
pub struct DeviceAttributes(pub u64);

/// The 64-bit value whose upper half is `high` and lower half is `low`.
pub open spec fn combine_halves(high: u32, low: u32) -> u64 {
    ((high as u64) << 32u64) | (low as u64)
}

impl DeviceAttributes {
    pub fn new(value: u64) -> (r: DeviceAttributes)
        ensures
            r.0 == value,
    {
        DeviceAttributes(value)
    }

    pub fn get(&self) -> (r: u64)
        ensures
            r == self.0,
    {
        self.0
    }

    /// The attributes whose upper 32 bits are `value[0]` and lower 32 bits `value[1]`.
    pub fn from_halves(value: [u32; 2]) -> (r: DeviceAttributes)
        ensures
            r.0 == combine_halves(value@[0], value@[1]),
    {
        DeviceAttributes(((value[0] as u64) << 32u64) | (value[1] as u64))
    }

    /// The upper and the lower 32 bits.
    pub fn halves(&self) -> (r: [u32; 2])
        ensures
            r@[0] == (self.0 >> 32u64) as u32,
            r@[1] == self.0 as u32,
            combine_halves(r@[0], r@[1]) == self.0,
    {
        let v = self.0;
        assert(combine_halves((v >> 32u64) as u32, v as u32) == v) by (bit_vector);
        [(v >> 32u64) as u32, v as u32]
    }
}

/// Building the attributes from two halves gives the same bits as building
/// them from the 64-bit value that the halves make up.
pub proof fn lemma_device_attributes_halves(high: u32, low: u32)
    ensures
        <DeviceAttributes as vstd::std_specs::convert::FromSpec<[u32; 2]>>::from_spec([high, low])
            == <DeviceAttributes as vstd::std_specs::convert::FromSpec<u64>>::from_spec(
            combine_halves(high, low),
        ),
        (combine_halves(high, low) >> 32u64) as u32 == high,
        combine_halves(high, low) as u32 == low,
{
    assert(((((high as u64) << 32u64) | (low as u64)) >> 32u64) as u32 == high) by (bit_vector);
    assert((((high as u64) << 32u64) | (low as u64)) as u32 == low) by (bit_vector);
}

impl From<u64> for DeviceAttributes {
    fn from(value: u64) -> (r: DeviceAttributes) {
        DeviceAttributes(value)
    }
}

impl vstd::std_specs::convert::FromSpecImpl<u64> for DeviceAttributes {
    open spec fn obeys_from_spec() -> bool {
        true
    }

    open spec fn from_spec(value: u64) -> DeviceAttributes {
        DeviceAttributes(value)
    }
}

impl From<[u32; 2]> for DeviceAttributes {
    fn from(value: [u32; 2]) -> (r: DeviceAttributes) {
        DeviceAttributes::from_halves(value)
    }
}

impl vstd::std_specs::convert::FromSpecImpl<[u32; 2]> for DeviceAttributes {
    open spec fn obeys_from_spec() -> bool {
        true
    }

    open spec fn from_spec(value: [u32; 2]) -> DeviceAttributes {
        DeviceAttributes(combine_halves(value@[0], value@[1]))
    }
}

impl Packed for DeviceAttributes {
    open spec fn spec_width() -> nat {
        8
    }

    open spec fn enc(self) -> Seq<u8> {
        self.0.enc()
    }

    open spec fn dec(b: Seq<u8>) -> DeviceAttributes {
        DeviceAttributes(u64::dec(b))
    }

    proof fn lemma_enc(self) {
        self.0.lemma_enc();
    }

    proof fn lemma_width() {
    }

    fn width() -> (r: usize) {
        8
    }

    fn push_to(&self, out: &mut Vec<u8>) {
        self.0.push_to(out);
    }

    fn read_at(b: &[u8], k: usize) -> (r: DeviceAttributes) {
        DeviceAttributes(u64::read_at(b, k))
    }
}

/// The fixed leading record of a profile.
#[derive(Debug, Copy, Clone, PartialEq, Eq, Hash)]
pub struct IccProfileHeaderU128 {
    pub profile_size: u32,
    pub cmm_type: u32,
    pub version: u32,
    pub device_class: u32,
    pub color_space: u32,
    pub pcs: u32,
    pub creation_date_time: DateTimeNum,
    pub profile_file_signature: u32,
    pub primary_platform: u32,
    pub flags: u32,
    pub device_manufacturer: u32,
    pub device_model: u32,
    pub device_attributes: DeviceAttributes,
    pub rendering_intent: u32,
    pub illuminant: XYZNum,
    pub creator: u32,
    pub profile_id: u128,
    pub reserved_1: [u8; 28],
}

impl IccProfileHeaderU128 {
    /// The device class, where it is one of the known classes.
    pub fn profile_class(&self) -> (r: Result<ProfileClass, DecodeError>)
        ensures
            match r {
                Ok(v) => v.spec_signature() == self.device_class,
                Err(e) => e == (DecodeError::UnrecognizedSignature { signature: self.device_class })
                    && forall|v: ProfileClass| #[trigger] v.spec_signature() != self.device_class,
            },
    {
        ProfileClass::from_signature(self.device_class)
    }

    /// The data colour space, where it is one of the known spaces.
    pub fn data_color_space(&self) -> (r: Result<ColorSpace, DecodeError>)
        ensures
            match r {
                Ok(v) => v.spec_signature() == self.color_space,
                Err(e) => e == (DecodeError::UnrecognizedSignature { signature: self.color_space })
                    && forall|v: ColorSpace| #[trigger] v.spec_signature() != self.color_space,
            },
    {
        ColorSpace::from_signature(self.color_space)
    }

    /// The profile connection space, where it is one of the known spaces.
    pub fn connection_space(&self) -> (r: Result<ColorSpace, DecodeError>)
        ensures
            match r {
                Ok(v) => v.spec_signature() == self.pcs,
                Err(e) => e == (DecodeError::UnrecognizedSignature { signature: self.pcs })
                    && forall|v: ColorSpace| #[trigger] v.spec_signature() != self.pcs,
            },
    {
        ColorSpace::from_signature(self.pcs)
    }

    /// The rendering intent, where it is one of the four known intents.
    pub fn intent(&self) -> (r: Result<RenderingIntent, DecodeError>)
        ensures
            match r {
                Ok(v) => v.spec_signature() == self.rendering_intent,
                Err(e) => e == (DecodeError::UnrecognizedSignature {
                    signature: self.rendering_intent,
                }) && forall|v: RenderingIntent| #[trigger] v.spec_signature()
                    != self.rendering_intent,
            },
    {
        RenderingIntent::from_signature(self.rendering_intent)
    }
}

/// The 28 bytes from offset `k` of `b`.
fn read_reserved(b: &[u8], k: usize) -> (r: [u8; 28])
    requires
        k + 28 <= b@.len(),
    ensures
        forall|j: int| 0 <= j < 28 ==> r@[j] == b@[k + j],
{
    let len = b.len();
    let mut r = [0u8; 28];
    let mut i: usize = 0;
    while i < 28
        invariant
            i <= 28,
            k + 28 <= b@.len(),
            len == b@.len(),
            forall|j: int| 0 <= j < i ==> r@[j] == b@[k + j],
        decreases 28 - i,
    {
        r[i] = b[k + i];
        i = i + 1;
    }
    r
}

impl Packed for IccProfileHeaderU128 {
    open spec fn spec_width() -> nat {
        132
    }

    open spec fn enc(self) -> Seq<u8> {
        self.profile_size.enc() + self.cmm_type.enc() + self.version.enc() + self.device_class.enc() + self.color_space.enc() + self.pcs.enc() + self.creation_date_time.enc() + self.profile_file_signature.enc() + self.primary_platform.enc() + self.flags.enc() + self.device_manufacturer.enc() + self.device_model.enc() + self.device_attributes.enc() + self.rendering_intent.enc() + self.illuminant.enc() + self.creator.enc() + self.profile_id.enc() + packed(self.reserved_1@)
    }

    open spec fn dec(b: Seq<u8>) -> IccProfileHeaderU128 {
        IccProfileHeaderU128 {
            profile_size: field::<u32>(b, 0),
            cmm_type: field::<u32>(b, 4),
            version: field::<u32>(b, 8),
            device_class: field::<u32>(b, 12),
            color_space: field::<u32>(b, 16),
            pcs: field::<u32>(b, 20),
            creation_date_time: field::<DateTimeNum>(b, 24),
            profile_file_signature: field::<u32>(b, 40),
            primary_platform: field::<u32>(b, 44),
            flags: field::<u32>(b, 48),
            device_manufacturer: field::<u32>(b, 52),
            device_model: field::<u32>(b, 56),
            device_attributes: field::<DeviceAttributes>(b, 60),
            rendering_intent: field::<u32>(b, 68),
            illuminant: field::<XYZNum>(b, 72),
            creator: field::<u32>(b, 84),
            profile_id: field::<u128>(b, 88),
            reserved_1: [b[104], b[105], b[106], b[107], b[108], b[109], b[110], b[111], b[112], b[113], b[114], b[115], b[116], b[117], b[118], b[119], b[120], b[121], b[122], b[123], b[124], b[125], b[126], b[127], b[128], b[129], b[130], b[131]],
        }
    }

    proof fn lemma_enc(self) {
        let e = self.enc();
        lemma_packed_len(self.reserved_1@);
        self.profile_size.lemma_enc();
        self.cmm_type.lemma_enc();
        self.version.lemma_enc();
        self.device_class.lemma_enc();
        self.color_space.lemma_enc();
        self.pcs.lemma_enc();
        self.creation_date_time.lemma_enc();
        self.profile_file_signature.lemma_enc();
        self.primary_platform.lemma_enc();
        self.flags.lemma_enc();
        self.device_manufacturer.lemma_enc();
        self.device_model.lemma_enc();
        self.device_attributes.lemma_enc();
        self.rendering_intent.lemma_enc();
        self.illuminant.lemma_enc();
        self.creator.lemma_enc();
        self.profile_id.lemma_enc();
        assert(e.subrange(0, 4) =~= self.profile_size.enc());
        lemma_field(e, 0, self.profile_size);
        assert(e.subrange(4, 8) =~= self.cmm_type.enc());
        lemma_field(e, 4, self.cmm_type);
        assert(e.subrange(8, 12) =~= self.version.enc());
        lemma_field(e, 8, self.version);
        assert(e.subrange(12, 16) =~= self.device_class.enc());
        lemma_field(e, 12, self.device_class);
        assert(e.subrange(16, 20) =~= self.color_space.enc());
        lemma_field(e, 16, self.color_space);
        assert(e.subrange(20, 24) =~= self.pcs.enc());
        lemma_field(e, 20, self.pcs);
        assert(e.subrange(24, 40) =~= self.creation_date_time.enc());
        lemma_field(e, 24, self.creation_date_time);
        assert(e.subrange(40, 44) =~= self.profile_file_signature.enc());
        lemma_field(e, 40, self.profile_file_signature);
        assert(e.subrange(44, 48) =~= self.primary_platform.enc());
        lemma_field(e, 44, self.primary_platform);
        assert(e.subrange(48, 52) =~= self.flags.enc());
        lemma_field(e, 48, self.flags);
        assert(e.subrange(52, 56) =~= self.device_manufacturer.enc());
        lemma_field(e, 52, self.device_manufacturer);
        assert(e.subrange(56, 60) =~= self.device_model.enc());
        lemma_field(e, 56, self.device_model);
        assert(e.subrange(60, 68) =~= self.device_attributes.enc());
        lemma_field(e, 60, self.device_attributes);
        assert(e.subrange(68, 72) =~= self.rendering_intent.enc());
        lemma_field(e, 68, self.rendering_intent);
        assert(e.subrange(72, 84) =~= self.illuminant.enc());
        lemma_field(e, 72, self.illuminant);
        assert(e.subrange(84, 88) =~= self.creator.enc());
        lemma_field(e, 84, self.creator);
        assert(e.subrange(88, 104) =~= self.profile_id.enc());
        lemma_field(e, 88, self.profile_id);
        assert(e.subrange(104, 132) =~= packed(self.reserved_1@));
        assert forall|i: int| 0 <= i < 28 implies e[104 + i] == #[trigger] self.reserved_1@[i] by {
            lemma_packed_at(self.reserved_1@, i);
            assert(e[104 + i] == packed(self.reserved_1@)[i]);
            assert(packed(self.reserved_1@).subrange(i, i + 1)[0] == packed(self.reserved_1@)[i]);
        }
        assert(Self::dec(e).reserved_1@[0] == self.reserved_1@[0]);
        assert(Self::dec(e).reserved_1@[1] == self.reserved_1@[1]);
        assert(Self::dec(e).reserved_1@[2] == self.reserved_1@[2]);
        assert(Self::dec(e).reserved_1@[3] == self.reserved_1@[3]);
        assert(Self::dec(e).reserved_1@[4] == self.reserved_1@[4]);
        assert(Self::dec(e).reserved_1@[5] == self.reserved_1@[5]);
        assert(Self::dec(e).reserved_1@[6] == self.reserved_1@[6]);
        assert(Self::dec(e).reserved_1@[7] == self.reserved_1@[7]);
        assert(Self::dec(e).reserved_1@[8] == self.reserved_1@[8]);
        assert(Self::dec(e).reserved_1@[9] == self.reserved_1@[9]);
        assert(Self::dec(e).reserved_1@[10] == self.reserved_1@[10]);
        assert(Self::dec(e).reserved_1@[11] == self.reserved_1@[11]);
        assert(Self::dec(e).reserved_1@[12] == self.reserved_1@[12]);
        assert(Self::dec(e).reserved_1@[13] == self.reserved_1@[13]);
        assert(Self::dec(e).reserved_1@[14] == self.reserved_1@[14]);
        assert(Self::dec(e).reserved_1@[15] == self.reserved_1@[15]);
        assert(Self::dec(e).reserved_1@[16] == self.reserved_1@[16]);
        assert(Self::dec(e).reserved_1@[17] == self.reserved_1@[17]);
        assert(Self::dec(e).reserved_1@[18] == self.reserved_1@[18]);
        assert(Self::dec(e).reserved_1@[19] == self.reserved_1@[19]);
        assert(Self::dec(e).reserved_1@[20] == self.reserved_1@[20]);
        assert(Self::dec(e).reserved_1@[21] == self.reserved_1@[21]);
        assert(Self::dec(e).reserved_1@[22] == self.reserved_1@[22]);
        assert(Self::dec(e).reserved_1@[23] == self.reserved_1@[23]);
        assert(Self::dec(e).reserved_1@[24] == self.reserved_1@[24]);
        assert(Self::dec(e).reserved_1@[25] == self.reserved_1@[25]);
        assert(Self::dec(e).reserved_1@[26] == self.reserved_1@[26]);
        assert(Self::dec(e).reserved_1@[27] == self.reserved_1@[27]);
        assert(Self::dec(e).reserved_1 =~= self.reserved_1);
    }

    proof fn lemma_width() {
    }

    fn width() -> (r: usize) {
        132
    }

    fn push_to(&self, out: &mut Vec<u8>) {
        self.profile_size.push_to(out);
        self.cmm_type.push_to(out);
        self.version.push_to(out);
        self.device_class.push_to(out);
        self.color_space.push_to(out);
        self.pcs.push_to(out);
        self.creation_date_time.push_to(out);
        self.profile_file_signature.push_to(out);
        self.primary_platform.push_to(out);
        self.flags.push_to(out);
        self.device_manufacturer.push_to(out);
        self.device_model.push_to(out);
        self.device_attributes.push_to(out);
        self.rendering_intent.push_to(out);
        self.illuminant.push_to(out);
        self.creator.push_to(out);
        self.profile_id.push_to(out);
        let reserved = self.reserved_1;
        let mut i: usize = 0;
        let ghost before = out@;
        while i < 28
            invariant
                i <= 28,
                out@ == before + packed(reserved@.subrange(0, i as int)),
            decreases 28 - i,
        {
            reserved[i].push_to(out);
            proof {
                let t = reserved@.subrange(0, i + 1);
                assert(t.drop_last() =~= reserved@.subrange(0, i as int));
                assert(out@ =~= before + packed(t));
            }
            i = i + 1;
        }
        assert(reserved@.subrange(0, 28) =~= reserved@);
        assert(out@ =~= old(out)@ + self.enc());
    }

    #[verifier::rlimit(100)]
    fn read_at(b: &[u8], k: usize) -> (r: IccProfileHeaderU128) {
        let len = b.len();
        let ghost s = b@.subrange(k as int, k + 132);
        let profile_size = u32::read_at(b, k + 0);
        assert(s.subrange(0, 4) =~= b@.subrange(k + 0, k + 4));
        let cmm_type = u32::read_at(b, k + 4);
        assert(s.subrange(4, 8) =~= b@.subrange(k + 4, k + 8));
        let version = u32::read_at(b, k + 8);
        assert(s.subrange(8, 12) =~= b@.subrange(k + 8, k + 12));
        let device_class = u32::read_at(b, k + 12);
        assert(s.subrange(12, 16) =~= b@.subrange(k + 12, k + 16));
        let color_space = u32::read_at(b, k + 16);
        assert(s.subrange(16, 20) =~= b@.subrange(k + 16, k + 20));
        let pcs = u32::read_at(b, k + 20);
        assert(s.subrange(20, 24) =~= b@.subrange(k + 20, k + 24));
        let creation_date_time = DateTimeNum::read_at(b, k + 24);
        assert(s.subrange(24, 40) =~= b@.subrange(k + 24, k + 40));
        let profile_file_signature = u32::read_at(b, k + 40);
        assert(s.subrange(40, 44) =~= b@.subrange(k + 40, k + 44));
        let primary_platform = u32::read_at(b, k + 44);
        assert(s.subrange(44, 48) =~= b@.subrange(k + 44, k + 48));
        let flags = u32::read_at(b, k + 48);
        assert(s.subrange(48, 52) =~= b@.subrange(k + 48, k + 52));
        let device_manufacturer = u32::read_at(b, k + 52);
        assert(s.subrange(52, 56) =~= b@.subrange(k + 52, k + 56));
        let device_model = u32::read_at(b, k + 56);
        assert(s.subrange(56, 60) =~= b@.subrange(k + 56, k + 60));
        let device_attributes = DeviceAttributes::read_at(b, k + 60);
        assert(s.subrange(60, 68) =~= b@.subrange(k + 60, k + 68));
        let rendering_intent = u32::read_at(b, k + 68);
        assert(s.subrange(68, 72) =~= b@.subrange(k + 68, k + 72));
        let illuminant = XYZNum::read_at(b, k + 72);
        assert(s.subrange(72, 84) =~= b@.subrange(k + 72, k + 84));
        let creator = u32::read_at(b, k + 84);
        assert(s.subrange(84, 88) =~= b@.subrange(k + 84, k + 88));
        let profile_id = u128::read_at(b, k + 88);
        assert(s.subrange(88, 104) =~= b@.subrange(k + 88, k + 104));
        let reserved_1 = read_reserved(b, k + 104);
        let r = IccProfileHeaderU128 {
            profile_size,
            cmm_type,
            version,
            device_class,
            color_space,
            pcs,
            creation_date_time,
            profile_file_signature,
            primary_platform,
            flags,
            device_manufacturer,
            device_model,
            device_attributes,
            rendering_intent,
            illuminant,
            creator,
            profile_id,
            reserved_1,
        };
        assert(r.reserved_1@[0] == Self::dec(s).reserved_1@[0]);
        assert(r.reserved_1@[1] == Self::dec(s).reserved_1@[1]);
        assert(r.reserved_1@[2] == Self::dec(s).reserved_1@[2]);
        assert(r.reserved_1@[3] == Self::dec(s).reserved_1@[3]);
        assert(r.reserved_1@[4] == Self::dec(s).reserved_1@[4]);
        assert(r.reserved_1@[5] == Self::dec(s).reserved_1@[5]);
        assert(r.reserved_1@[6] == Self::dec(s).reserved_1@[6]);
        assert(r.reserved_1@[7] == Self::dec(s).reserved_1@[7]);
        assert(r.reserved_1@[8] == Self::dec(s).reserved_1@[8]);
        assert(r.reserved_1@[9] == Self::dec(s).reserved_1@[9]);
        assert(r.reserved_1@[10] == Self::dec(s).reserved_1@[10]);
        assert(r.reserved_1@[11] == Self::dec(s).reserved_1@[11]);
        assert(r.reserved_1@[12] == Self::dec(s).reserved_1@[12]);
        assert(r.reserved_1@[13] == Self::dec(s).reserved_1@[13]);
        assert(r.reserved_1@[14] == Self::dec(s).reserved_1@[14]);
        assert(r.reserved_1@[15] == Self::dec(s).reserved_1@[15]);
        assert(r.reserved_1@[16] == Self::dec(s).reserved_1@[16]);
        assert(r.reserved_1@[17] == Self::dec(s).reserved_1@[17]);
        assert(r.reserved_1@[18] == Self::dec(s).reserved_1@[18]);
        assert(r.reserved_1@[19] == Self::dec(s).reserved_1@[19]);
        assert(r.reserved_1@[20] == Self::dec(s).reserved_1@[20]);
        assert(r.reserved_1@[21] == Self::dec(s).reserved_1@[21]);
        assert(r.reserved_1@[22] == Self::dec(s).reserved_1@[22]);
        assert(r.reserved_1@[23] == Self::dec(s).reserved_1@[23]);
        assert(r.reserved_1@[24] == Self::dec(s).reserved_1@[24]);
        assert(r.reserved_1@[25] == Self::dec(s).reserved_1@[25]);
        assert(r.reserved_1@[26] == Self::dec(s).reserved_1@[26]);
        assert(r.reserved_1@[27] == Self::dec(s).reserved_1@[27]);
        assert(r.reserved_1 =~= Self::dec(s).reserved_1);
        r
    }
}

} // verus!
