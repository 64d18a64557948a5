//! Closed enumerations of four-byte codes.
//!
//! Each enumeration has one table, `spec_signature`, from each variant to its
//! 32-bit code; decoding and the four-character text form are derived from it.
//! The text form of a code is its four bytes, most significant first, read as
//! ASCII characters.
use vstd::prelude::*;
use vstd::string::StrSliceExecFns;
use crate::error::DecodeError;

verus! {

/// An enumeration whose variants are identified by distinct 32-bit codes.
pub trait SignatureCode: Sized + Copy {
    /// The code of each variant.
    spec fn spec_signature(self) -> u32;

    fn signature(&self) -> (r: u32)
        ensures
            r == self.spec_signature(),
    ;

    /// The variant with the given code, or `UnrecognizedSignature` where none has it.
    fn from_signature(code: u32) -> (r: Result<Self, DecodeError>)
        ensures
            match r {
                Ok(v) => v.spec_signature() == code,
                Err(e) => e == (DecodeError::UnrecognizedSignature { signature: code }) && forall|
                    v: Self,
                | #[trigger] v.spec_signature() != code,
            },
    ;

    /// No two variants share a code.
    proof fn lemma_injective(a: Self, b: Self)
        ensures
            a.spec_signature() == b.spec_signature() ==> a == b,
    ;
}

/// The variant of `E` whose code is `code`, if any.
pub open spec fn decode_signature<E: SignatureCode>(code: u32) -> Option<E> {
    if exists|v: E| v.spec_signature() == code {
        Some(choose|v: E| v.spec_signature() == code)
    } else {
        None
    }
}

/// Decoding a variant's code gives the variant back, and a code that decodes
/// is the code of what it decodes to.
pub proof fn lemma_signature_bijection<E: SignatureCode>(v: E, code: u32)
    ensures
        decode_signature::<E>(v.spec_signature()) == Some(v),
        decode_signature::<E>(code) matches Some(w) ==> w.spec_signature() == code,
{
    let w = choose|w: E| w.spec_signature() == v.spec_signature();
    E::lemma_injective(v, w);
}

/// `from_signature` returns exactly what `decode_signature` names.
pub proof fn lemma_from_signature<E: SignatureCode>(code: u32, r: Result<E, DecodeError>)
    requires
        match r {
            Ok(v) => v.spec_signature() == code,
            Err(e) => forall|v: E| #[trigger] v.spec_signature() != code,
        },
    ensures
        r matches Ok(v) ==> decode_signature::<E>(code) == Some(v),
        r is Err ==> decode_signature::<E>(code) is None,
{
    if let Ok(v) = r {
        lemma_signature_bijection(v, code);
    }
}

/// The code whose text form is `s`: four ASCII characters, the first the most
/// significant byte.
pub open spec fn code_of_text(s: Seq<char>) -> Option<u32> {
    if s.len() == 4 && (s[0] as u32) < 128 && (s[1] as u32) < 128 && (s[2] as u32) < 128 && (
    s[3] as u32) < 128 {
        Some(
            ((s[0] as u32) << 24u32) | ((s[1] as u32) << 16u32) | ((s[2] as u32) << 8u32) | (
            s[3] as u32),
        )
    } else {
        None
    }
}

/// The variant of `E` whose text form is `s`, or `Err(())`.
pub open spec fn text_result<E: SignatureCode>(s: Seq<char>) -> Result<E, ()> {
    match code_of_text(s) {
        Some(c) => match decode_signature::<E>(c) {
            Some(v) => Ok(v),
            None => Err(()),
        },
        None => Err(()),
    }
}

/// The code whose text form is `s`, if `s` is four ASCII characters.
pub fn code_of_str(s: &str) -> (r: Option<u32>)
    ensures
        r == code_of_text(s@),
{
    if s.unicode_len() != 4 {
        return None;
    }
    let c0 = s.get_char(0) as u32;
    let c1 = s.get_char(1) as u32;
    let c2 = s.get_char(2) as u32;
    let c3 = s.get_char(3) as u32;
    if c0 < 128 && c1 < 128 && c2 < 128 && c3 < 128 {
        Some((c0 << 24u32) | (c1 << 16u32) | (c2 << 8u32) | c3)
    } else {
        None
    }
}

/// The variant of `E` whose text form is `s`.
pub fn from_text_code<E: SignatureCode>(s: &str) -> (r: Result<E, ()>)
    ensures
        r == text_result::<E>(s@),
{
    match code_of_str(s) {
        Some(c) => {
            let r = E::from_signature(c);
            proof {
                lemma_from_signature(c, r);
            }
            match r {
                Ok(v) => Ok(v),
                Err(_) => Err(()),
            }
        },
        None => Err(()),
    }
}

/// A profile's device class.
#[derive(Debug, Copy, Clone, PartialEq, Eq, Hash, Structural)]
pub enum ProfileClass {
    InputDeviceProfile,
    DisplayDeviceProfile,
    OutputDeviceProfile,
    DeviceLinkProfile,
    ColorSpaceProfile,
    AbstractProfile,
    NamedColorProfile,
}

impl SignatureCode for ProfileClass {
    open spec fn spec_signature(self) -> u32 {
        match self {
            ProfileClass::InputDeviceProfile => 0x73636e72,
            ProfileClass::DisplayDeviceProfile => 0x6d6e7472,
            ProfileClass::OutputDeviceProfile => 0x70727472,
            ProfileClass::DeviceLinkProfile => 0x6c696e6b,
            ProfileClass::ColorSpaceProfile => 0x73706163,
            ProfileClass::AbstractProfile => 0x61627374,
            ProfileClass::NamedColorProfile => 0x6e6d636c,
        }
    }

    fn signature(&self) -> (r: u32) {
        match self {
            ProfileClass::InputDeviceProfile => 0x73636e72,
            ProfileClass::DisplayDeviceProfile => 0x6d6e7472,
            ProfileClass::OutputDeviceProfile => 0x70727472,
            ProfileClass::DeviceLinkProfile => 0x6c696e6b,
            ProfileClass::ColorSpaceProfile => 0x73706163,
            ProfileClass::AbstractProfile => 0x61627374,
            ProfileClass::NamedColorProfile => 0x6e6d636c,
        }
    }

    fn from_signature(code: u32) -> (r: Result<ProfileClass, DecodeError>) {
        match code {
            0x73636e72 => Ok(ProfileClass::InputDeviceProfile),
            0x6d6e7472 => Ok(ProfileClass::DisplayDeviceProfile),
            0x70727472 => Ok(ProfileClass::OutputDeviceProfile),
            0x6c696e6b => Ok(ProfileClass::DeviceLinkProfile),
            0x73706163 => Ok(ProfileClass::ColorSpaceProfile),
            0x61627374 => Ok(ProfileClass::AbstractProfile),
            0x6e6d636c => Ok(ProfileClass::NamedColorProfile),
            _ => Err(DecodeError::UnrecognizedSignature { signature: code }),
        }
    }

    proof fn lemma_injective(a: ProfileClass, b: ProfileClass) {
    }
}

impl ProfileClass {
    /// The variant whose four-character code is `s`.
    pub fn from_text(s: &str) -> (r: Result<ProfileClass, ()>)
        ensures
            r == text_result::<ProfileClass>(s@),
    {
        from_text_code(s)
    }
}

impl core::str::FromStr for ProfileClass {
    type Err = ();

    fn from_str(s: &str) -> (r: Result<ProfileClass, ()>)
        ensures
            r == text_result::<ProfileClass>(s@),
    {
        ProfileClass::from_text(s)
    }
}

/// A data colour space, or a profile connection space.
#[derive(Debug, Copy, Clone, PartialEq, Eq, Hash, Structural)]
pub enum ColorSpace {
    NCieXyz,
    CieLab,
    CieLuv,
    YcbCr,
    CieYxy,
    Rgb,
    Gray,
    Hsv,
    Hls,
    Cmyk,
    Cmy,
    Color2,
    Color3,
    Color4,
    Color5,
    Color6,
    Color7,
    Color8,
    Color9,
    Color10,
    Color11,
    Color12,
    Color13,
    Color14,
    Color15,
}

impl SignatureCode for ColorSpace {
    open spec fn spec_signature(self) -> u32 {
        match self {
            ColorSpace::NCieXyz => 0x58595a20,
            ColorSpace::CieLab => 0x4c616220,
            ColorSpace::CieLuv => 0x4c757620,
            ColorSpace::YcbCr => 0x59436272,
            ColorSpace::CieYxy => 0x59787920,
            ColorSpace::Rgb => 0x52474220,
            ColorSpace::Gray => 0x47524159,
            ColorSpace::Hsv => 0x48535620,
            ColorSpace::Hls => 0x484c5320,
            ColorSpace::Cmyk => 0x434d594b,
            ColorSpace::Cmy => 0x434d5920,
            ColorSpace::Color2 => 0x32434c52,
            ColorSpace::Color3 => 0x33434c52,
            ColorSpace::Color4 => 0x34434c52,
            ColorSpace::Color5 => 0x35434c52,
            ColorSpace::Color6 => 0x36434c52,
            ColorSpace::Color7 => 0x37434c52,
            ColorSpace::Color8 => 0x38434c52,
            ColorSpace::Color9 => 0x39434c52,
            ColorSpace::Color10 => 0x41434c52,
            ColorSpace::Color11 => 0x42434c52,
            ColorSpace::Color12 => 0x43434c52,
            ColorSpace::Color13 => 0x44434c52,
            ColorSpace::Color14 => 0x45434c52,
            ColorSpace::Color15 => 0x46434c52,
        }
    }

    fn signature(&self) -> (r: u32) {
        match self {
            ColorSpace::NCieXyz => 0x58595a20,
            ColorSpace::CieLab => 0x4c616220,
            ColorSpace::CieLuv => 0x4c757620,
            ColorSpace::YcbCr => 0x59436272,
            ColorSpace::CieYxy => 0x59787920,
            ColorSpace::Rgb => 0x52474220,
            ColorSpace::Gray => 0x47524159,
            ColorSpace::Hsv => 0x48535620,
            ColorSpace::Hls => 0x484c5320,
            ColorSpace::Cmyk => 0x434d594b,
            ColorSpace::Cmy => 0x434d5920,
            ColorSpace::Color2 => 0x32434c52,
            ColorSpace::Color3 => 0x33434c52,
            ColorSpace::Color4 => 0x34434c52,
            ColorSpace::Color5 => 0x35434c52,
            ColorSpace::Color6 => 0x36434c52,
            ColorSpace::Color7 => 0x37434c52,
            ColorSpace::Color8 => 0x38434c52,
            ColorSpace::Color9 => 0x39434c52,
            ColorSpace::Color10 => 0x41434c52,
            ColorSpace::Color11 => 0x42434c52,
            ColorSpace::Color12 => 0x43434c52,
            ColorSpace::Color13 => 0x44434c52,
            ColorSpace::Color14 => 0x45434c52,
            ColorSpace::Color15 => 0x46434c52,
        }
    }

    fn from_signature(code: u32) -> (r: Result<ColorSpace, DecodeError>) {
        match code {
            0x58595a20 => Ok(ColorSpace::NCieXyz),
            0x4c616220 => Ok(ColorSpace::CieLab),
            0x4c757620 => Ok(ColorSpace::CieLuv),
            0x59436272 => Ok(ColorSpace::YcbCr),
            0x59787920 => Ok(ColorSpace::CieYxy),
            0x52474220 => Ok(ColorSpace::Rgb),
            0x47524159 => Ok(ColorSpace::Gray),
            0x48535620 => Ok(ColorSpace::Hsv),
            0x484c5320 => Ok(ColorSpace::Hls),
            0x434d594b => Ok(ColorSpace::Cmyk),
            0x434d5920 => Ok(ColorSpace::Cmy),
            0x32434c52 => Ok(ColorSpace::Color2),
            0x33434c52 => Ok(ColorSpace::Color3),
            0x34434c52 => Ok(ColorSpace::Color4),
            0x35434c52 => Ok(ColorSpace::Color5),
            0x36434c52 => Ok(ColorSpace::Color6),
            0x37434c52 => Ok(ColorSpace::Color7),
            0x38434c52 => Ok(ColorSpace::Color8),
            0x39434c52 => Ok(ColorSpace::Color9),
            0x41434c52 => Ok(ColorSpace::Color10),
            0x42434c52 => Ok(ColorSpace::Color11),
            0x43434c52 => Ok(ColorSpace::Color12),
            0x44434c52 => Ok(ColorSpace::Color13),
            0x45434c52 => Ok(ColorSpace::Color14),
            0x46434c52 => Ok(ColorSpace::Color15),
            _ => Err(DecodeError::UnrecognizedSignature { signature: code }),
        }
    }

    proof fn lemma_injective(a: ColorSpace, b: ColorSpace) {
    }
}

impl ColorSpace {
    /// The variant whose four-character code is `s`.
    pub fn from_text(s: &str) -> (r: Result<ColorSpace, ()>)
        ensures
            r == text_result::<ColorSpace>(s@),
    {
        from_text_code(s)
    }
}

impl core::str::FromStr for ColorSpace {
    type Err = ();

    fn from_str(s: &str) -> (r: Result<ColorSpace, ()>)
        ensures
            r == text_result::<ColorSpace>(s@),
    {
        ColorSpace::from_text(s)
    }
}

/// The image state of colorimetric data.
#[derive(Debug, Copy, Clone, PartialEq, Eq, Hash, Structural)]
pub enum ColorimetricIntentImageStateTag {
    SceneColorimetryEstimates,
    SceneAppearanceEstimates,
    FocalPlaneColorimetryEstimates,
    ReflectionHardcopyOriginalColorimetry,
    ReflectionPrintOutputColorimetry,
}

impl SignatureCode for ColorimetricIntentImageStateTag {
    open spec fn spec_signature(self) -> u32 {
        match self {
            ColorimetricIntentImageStateTag::SceneColorimetryEstimates => 0x73636f65,
            ColorimetricIntentImageStateTag::SceneAppearanceEstimates => 0x73617065,
            ColorimetricIntentImageStateTag::FocalPlaneColorimetryEstimates => 0x66706365,
            ColorimetricIntentImageStateTag::ReflectionHardcopyOriginalColorimetry => 0x72686f63,
            ColorimetricIntentImageStateTag::ReflectionPrintOutputColorimetry => 0x72706f63,
        }
    }

    fn signature(&self) -> (r: u32) {
        match self {
            ColorimetricIntentImageStateTag::SceneColorimetryEstimates => 0x73636f65,
            ColorimetricIntentImageStateTag::SceneAppearanceEstimates => 0x73617065,
            ColorimetricIntentImageStateTag::FocalPlaneColorimetryEstimates => 0x66706365,
            ColorimetricIntentImageStateTag::ReflectionHardcopyOriginalColorimetry => 0x72686f63,
            ColorimetricIntentImageStateTag::ReflectionPrintOutputColorimetry => 0x72706f63,
        }
    }

    fn from_signature(code: u32) -> (r: Result<ColorimetricIntentImageStateTag, DecodeError>) {
        match code {
            0x73636f65 => Ok(ColorimetricIntentImageStateTag::SceneColorimetryEstimates),
            0x73617065 => Ok(ColorimetricIntentImageStateTag::SceneAppearanceEstimates),
            0x66706365 => Ok(ColorimetricIntentImageStateTag::FocalPlaneColorimetryEstimates),
            0x72686f63 => Ok(ColorimetricIntentImageStateTag::ReflectionHardcopyOriginalColorimetry),
            0x72706f63 => Ok(ColorimetricIntentImageStateTag::ReflectionPrintOutputColorimetry),
            _ => Err(DecodeError::UnrecognizedSignature { signature: code }),
        }
    }

    proof fn lemma_injective(a: ColorimetricIntentImageStateTag, b: ColorimetricIntentImageStateTag) {
    }
}

impl ColorimetricIntentImageStateTag {
    /// The variant whose four-character code is `s`.
    pub fn from_text(s: &str) -> (r: Result<ColorimetricIntentImageStateTag, ()>)
        ensures
            r == text_result::<ColorimetricIntentImageStateTag>(s@),
    {
        from_text_code(s)
    }
}

impl core::str::FromStr for ColorimetricIntentImageStateTag {
    type Err = ();

    fn from_str(s: &str) -> (r: Result<ColorimetricIntentImageStateTag, ()>)
        ensures
            r == text_result::<ColorimetricIntentImageStateTag>(s@),
    {
        ColorimetricIntentImageStateTag::from_text(s)
    }
}

/// The technology of a device.
#[derive(Debug, Copy, Clone, PartialEq, Eq, Hash, Structural)]
pub enum TechnologySignature {
    FilmScanner,
    DigitalCamera,
    ReflectiveScanner,
    InkJetPrinter,
    ThermalWaxPrinter,
    ElectrophotographicPrinter,
    ElectrostaticPrinter,
    DyeSublimationPrinter,
    PhotographicPaperPrinter,
    FilmWriter,
    VideoMonitor,
    VideoCamera,
    ProjectionTelevision,
    CRTDisplay,
    PMDisplay,
    AMDisplay,
    OLEDDisplay,
    PhotoCD,
    PhotoImageSetter,
    Gravure,
    OffsetLithography,
    SilkScreen,
    Flexography,
    MotionPictureFilmScanner,
    MotionPictureFilmRecorder,
    DigitalMotionPictureCamera,
    DigitalCinemaProjector,
}

impl SignatureCode for TechnologySignature {
    open spec fn spec_signature(self) -> u32 {
        match self {
            TechnologySignature::FilmScanner => 0x6673636e,
            TechnologySignature::DigitalCamera => 0x6463616d,
            TechnologySignature::ReflectiveScanner => 0x7273636e,
            TechnologySignature::InkJetPrinter => 0x696a6574,
            TechnologySignature::ThermalWaxPrinter => 0x74776178,
            TechnologySignature::ElectrophotographicPrinter => 0x6570686f,
            TechnologySignature::ElectrostaticPrinter => 0x65737461,
            TechnologySignature::DyeSublimationPrinter => 0x64737562,
            TechnologySignature::PhotographicPaperPrinter => 0x7270686f,
            TechnologySignature::FilmWriter => 0x6670726e,
            TechnologySignature::VideoMonitor => 0x7669646d,
            TechnologySignature::VideoCamera => 0x76696463,
            TechnologySignature::ProjectionTelevision => 0x706a7476,
            TechnologySignature::CRTDisplay => 0x43525420,
            TechnologySignature::PMDisplay => 0x504d4420,
            TechnologySignature::AMDisplay => 0x414d4420,
            TechnologySignature::OLEDDisplay => 0x4f4c4544,
            TechnologySignature::PhotoCD => 0x4b504344,
            TechnologySignature::PhotoImageSetter => 0x696d6773,
            TechnologySignature::Gravure => 0x67726176,
            TechnologySignature::OffsetLithography => 0x6f666673,
            TechnologySignature::SilkScreen => 0x73696c6b,
            TechnologySignature::Flexography => 0x666c6578,
            TechnologySignature::MotionPictureFilmScanner => 0x6d706673,
            TechnologySignature::MotionPictureFilmRecorder => 0x6d706672,
            TechnologySignature::DigitalMotionPictureCamera => 0x646d7063,
            TechnologySignature::DigitalCinemaProjector => 0x64636d70,
        }
    }

    fn signature(&self) -> (r: u32) {
        match self {
            TechnologySignature::FilmScanner => 0x6673636e,
            TechnologySignature::DigitalCamera => 0x6463616d,
            TechnologySignature::ReflectiveScanner => 0x7273636e,
            TechnologySignature::InkJetPrinter => 0x696a6574,
            TechnologySignature::ThermalWaxPrinter => 0x74776178,
            TechnologySignature::ElectrophotographicPrinter => 0x6570686f,
            TechnologySignature::ElectrostaticPrinter => 0x65737461,
            TechnologySignature::DyeSublimationPrinter => 0x64737562,
            TechnologySignature::PhotographicPaperPrinter => 0x7270686f,
            TechnologySignature::FilmWriter => 0x6670726e,
            TechnologySignature::VideoMonitor => 0x7669646d,
            TechnologySignature::VideoCamera => 0x76696463,
            TechnologySignature::ProjectionTelevision => 0x706a7476,
            TechnologySignature::CRTDisplay => 0x43525420,
            TechnologySignature::PMDisplay => 0x504d4420,
            TechnologySignature::AMDisplay => 0x414d4420,
            TechnologySignature::OLEDDisplay => 0x4f4c4544,
            TechnologySignature::PhotoCD => 0x4b504344,
            TechnologySignature::PhotoImageSetter => 0x696d6773,
            TechnologySignature::Gravure => 0x67726176,
            TechnologySignature::OffsetLithography => 0x6f666673,
            TechnologySignature::SilkScreen => 0x73696c6b,
            TechnologySignature::Flexography => 0x666c6578,
            TechnologySignature::MotionPictureFilmScanner => 0x6d706673,
            TechnologySignature::MotionPictureFilmRecorder => 0x6d706672,
            TechnologySignature::DigitalMotionPictureCamera => 0x646d7063,
            TechnologySignature::DigitalCinemaProjector => 0x64636d70,
        }
    }

    fn from_signature(code: u32) -> (r: Result<TechnologySignature, DecodeError>) {
        match code {
            0x6673636e => Ok(TechnologySignature::FilmScanner),
            0x6463616d => Ok(TechnologySignature::DigitalCamera),
            0x7273636e => Ok(TechnologySignature::ReflectiveScanner),
            0x696a6574 => Ok(TechnologySignature::InkJetPrinter),
            0x74776178 => Ok(TechnologySignature::ThermalWaxPrinter),
            0x6570686f => Ok(TechnologySignature::ElectrophotographicPrinter),
            0x65737461 => Ok(TechnologySignature::ElectrostaticPrinter),
            0x64737562 => Ok(TechnologySignature::DyeSublimationPrinter),
            0x7270686f => Ok(TechnologySignature::PhotographicPaperPrinter),
            0x6670726e => Ok(TechnologySignature::FilmWriter),
            0x7669646d => Ok(TechnologySignature::VideoMonitor),
            0x76696463 => Ok(TechnologySignature::VideoCamera),
            0x706a7476 => Ok(TechnologySignature::ProjectionTelevision),
            0x43525420 => Ok(TechnologySignature::CRTDisplay),
            0x504d4420 => Ok(TechnologySignature::PMDisplay),
            0x414d4420 => Ok(TechnologySignature::AMDisplay),
            0x4f4c4544 => Ok(TechnologySignature::OLEDDisplay),
            0x4b504344 => Ok(TechnologySignature::PhotoCD),
            0x696d6773 => Ok(TechnologySignature::PhotoImageSetter),
            0x67726176 => Ok(TechnologySignature::Gravure),
            0x6f666673 => Ok(TechnologySignature::OffsetLithography),
            0x73696c6b => Ok(TechnologySignature::SilkScreen),
            0x666c6578 => Ok(TechnologySignature::Flexography),
            0x6d706673 => Ok(TechnologySignature::MotionPictureFilmScanner),
            0x6d706672 => Ok(TechnologySignature::MotionPictureFilmRecorder),
            0x646d7063 => Ok(TechnologySignature::DigitalMotionPictureCamera),
            0x64636d70 => Ok(TechnologySignature::DigitalCinemaProjector),
            _ => Err(DecodeError::UnrecognizedSignature { signature: code }),
        }
    }

    proof fn lemma_injective(a: TechnologySignature, b: TechnologySignature) {
    }
}

impl TechnologySignature {
    /// The variant whose four-character code is `s`.
    pub fn from_text(s: &str) -> (r: Result<TechnologySignature, ()>)
        ensures
            r == text_result::<TechnologySignature>(s@),
    {
        from_text_code(s)
    }
}

impl core::str::FromStr for TechnologySignature {
    type Err = ();

    fn from_str(s: &str) -> (r: Result<TechnologySignature, ()>)
        ensures
            r == text_result::<TechnologySignature>(s@),
    {
        TechnologySignature::from_text(s)
    }
}

/// The measurement unit of a response curve.
#[derive(Debug, Copy, Clone, PartialEq, Eq, Hash, Structural)]
pub enum CurveMeasurement {
    StatusA,
    StatusE,
    StatusI,
    StatusT,
    StatusM,
    DinEPolarFilter,
    DinENoPolarFilter,
    DinIPolarFilter,
    DinINoPolarFilter,
}

impl SignatureCode for CurveMeasurement {
    open spec fn spec_signature(self) -> u32 {
        match self {
            CurveMeasurement::StatusA => 0x53746141,
            CurveMeasurement::StatusE => 0x53746145,
            CurveMeasurement::StatusI => 0x53746149,
            CurveMeasurement::StatusT => 0x53746154,
            CurveMeasurement::StatusM => 0x5374614d,
            CurveMeasurement::DinEPolarFilter => 0x444e2020,
            CurveMeasurement::DinENoPolarFilter => 0x444e2050,
            CurveMeasurement::DinIPolarFilter => 0x444e4e20,
            CurveMeasurement::DinINoPolarFilter => 0x444e4e50,
        }
    }

    fn signature(&self) -> (r: u32) {
        match self {
            CurveMeasurement::StatusA => 0x53746141,
            CurveMeasurement::StatusE => 0x53746145,
            CurveMeasurement::StatusI => 0x53746149,
            CurveMeasurement::StatusT => 0x53746154,
            CurveMeasurement::StatusM => 0x5374614d,
            CurveMeasurement::DinEPolarFilter => 0x444e2020,
            CurveMeasurement::DinENoPolarFilter => 0x444e2050,
            CurveMeasurement::DinIPolarFilter => 0x444e4e20,
            CurveMeasurement::DinINoPolarFilter => 0x444e4e50,
        }
    }

    fn from_signature(code: u32) -> (r: Result<CurveMeasurement, DecodeError>) {
        match code {
            0x53746141 => Ok(CurveMeasurement::StatusA),
            0x53746145 => Ok(CurveMeasurement::StatusE),
            0x53746149 => Ok(CurveMeasurement::StatusI),
            0x53746154 => Ok(CurveMeasurement::StatusT),
            0x5374614d => Ok(CurveMeasurement::StatusM),
            0x444e2020 => Ok(CurveMeasurement::DinEPolarFilter),
            0x444e2050 => Ok(CurveMeasurement::DinENoPolarFilter),
            0x444e4e20 => Ok(CurveMeasurement::DinIPolarFilter),
            0x444e4e50 => Ok(CurveMeasurement::DinINoPolarFilter),
            _ => Err(DecodeError::UnrecognizedSignature { signature: code }),
        }
    }

    proof fn lemma_injective(a: CurveMeasurement, b: CurveMeasurement) {
    }
}

impl CurveMeasurement {
    /// The variant whose four-character code is `s`.
    pub fn from_text(s: &str) -> (r: Result<CurveMeasurement, ()>)
        ensures
            r == text_result::<CurveMeasurement>(s@),
    {
        from_text_code(s)
    }
}

impl core::str::FromStr for CurveMeasurement {
    type Err = ();

    fn from_str(s: &str) -> (r: Result<CurveMeasurement, ()>)
        ensures
            r == text_result::<CurveMeasurement>(s@),
    {
        CurveMeasurement::from_text(s)
    }
}

/// A rendering intent.
#[derive(Debug, Copy, Clone, PartialEq, Eq, Hash, Structural)]
pub enum RenderingIntent {
    Perceptual,
    MediaRelativeColoriemtric,
    Saturation,
    IccAbsColorimetric,
}

impl SignatureCode for RenderingIntent {
    open spec fn spec_signature(self) -> u32 {
        match self {
            RenderingIntent::Perceptual => 0x00000000,
            RenderingIntent::MediaRelativeColoriemtric => 0x00000001,
            RenderingIntent::Saturation => 0x00000002,
            RenderingIntent::IccAbsColorimetric => 0x00000003,
        }
    }

    fn signature(&self) -> (r: u32) {
        match self {
            RenderingIntent::Perceptual => 0x00000000,
            RenderingIntent::MediaRelativeColoriemtric => 0x00000001,
            RenderingIntent::Saturation => 0x00000002,
            RenderingIntent::IccAbsColorimetric => 0x00000003,
        }
    }

    fn from_signature(code: u32) -> (r: Result<RenderingIntent, DecodeError>) {
        match code {
            0x00000000 => Ok(RenderingIntent::Perceptual),
            0x00000001 => Ok(RenderingIntent::MediaRelativeColoriemtric),
            0x00000002 => Ok(RenderingIntent::Saturation),
            0x00000003 => Ok(RenderingIntent::IccAbsColorimetric),
            _ => Err(DecodeError::UnrecognizedSignature { signature: code }),
        }
    }

    proof fn lemma_injective(a: RenderingIntent, b: RenderingIntent) {
    }
}

/// The phosphor or colorant set of a chromaticity record.
#[derive(Debug, Copy, Clone, PartialEq, Eq, Hash, Structural)]
pub enum PhosphorColorant {
    Unknown,
    ItuRBt709,
    SmpteRp145,
}

impl SignatureCode for PhosphorColorant {
    open spec fn spec_signature(self) -> u32 {
        match self {
            PhosphorColorant::Unknown => 0x00000000,
            PhosphorColorant::ItuRBt709 => 0x00000001,
            PhosphorColorant::SmpteRp145 => 0x00000002,
        }
    }

    fn signature(&self) -> (r: u32) {
        match self {
            PhosphorColorant::Unknown => 0x00000000,
            PhosphorColorant::ItuRBt709 => 0x00000001,
            PhosphorColorant::SmpteRp145 => 0x00000002,
        }
    }

    fn from_signature(code: u32) -> (r: Result<PhosphorColorant, DecodeError>) {
        match code {
            0x00000000 => Ok(PhosphorColorant::Unknown),
            0x00000001 => Ok(PhosphorColorant::ItuRBt709),
            0x00000002 => Ok(PhosphorColorant::SmpteRp145),
            _ => Err(DecodeError::UnrecognizedSignature { signature: code }),
        }
    }

    proof fn lemma_injective(a: PhosphorColorant, b: PhosphorColorant) {
    }
}

/// The standard observer of a measurement.
#[derive(Debug, Copy, Clone, PartialEq, Eq, Hash, Structural)]
pub enum StandardObserver {
    Unknown,
    Cie1931StdColorimetricObserver,
    Cie1964StdColorimetricObserver,
}

impl SignatureCode for StandardObserver {
    open spec fn spec_signature(self) -> u32 {
        match self {
            StandardObserver::Unknown => 0x00000000,
            StandardObserver::Cie1931StdColorimetricObserver => 0x00000001,
            StandardObserver::Cie1964StdColorimetricObserver => 0x00000002,
        }
    }

    fn signature(&self) -> (r: u32) {
        match self {
            StandardObserver::Unknown => 0x00000000,
            StandardObserver::Cie1931StdColorimetricObserver => 0x00000001,
            StandardObserver::Cie1964StdColorimetricObserver => 0x00000002,
        }
    }

    fn from_signature(code: u32) -> (r: Result<StandardObserver, DecodeError>) {
        match code {
            0x00000000 => Ok(StandardObserver::Unknown),
            0x00000001 => Ok(StandardObserver::Cie1931StdColorimetricObserver),
            0x00000002 => Ok(StandardObserver::Cie1964StdColorimetricObserver),
            _ => Err(DecodeError::UnrecognizedSignature { signature: code }),
        }
    }

    proof fn lemma_injective(a: StandardObserver, b: StandardObserver) {
    }
}

/// The geometry of a measurement.
#[derive(Debug, Copy, Clone, PartialEq, Eq, Hash, Structural)]
pub enum MeasurementGeometry {
    Unknown,
    Deg045,
    Deg0D,
}

impl SignatureCode for MeasurementGeometry {
    open spec fn spec_signature(self) -> u32 {
        match self {
            MeasurementGeometry::Unknown => 0x00000000,
            MeasurementGeometry::Deg045 => 0x00000001,
            MeasurementGeometry::Deg0D => 0x00000002,
        }
    }

    fn signature(&self) -> (r: u32) {
        match self {
            MeasurementGeometry::Unknown => 0x00000000,
            MeasurementGeometry::Deg045 => 0x00000001,
            MeasurementGeometry::Deg0D => 0x00000002,
        }
    }

    fn from_signature(code: u32) -> (r: Result<MeasurementGeometry, DecodeError>) {
        match code {
            0x00000000 => Ok(MeasurementGeometry::Unknown),
            0x00000001 => Ok(MeasurementGeometry::Deg045),
            0x00000002 => Ok(MeasurementGeometry::Deg0D),
            _ => Err(DecodeError::UnrecognizedSignature { signature: code }),
        }
    }

    proof fn lemma_injective(a: MeasurementGeometry, b: MeasurementGeometry) {
    }
}

/// The illuminant of a measurement.
#[derive(Debug, Copy, Clone, PartialEq, Eq, Hash, Structural)]
pub enum StandardIlluminant {
    Zero,
    OneHundred,
}

impl SignatureCode for StandardIlluminant {
    open spec fn spec_signature(self) -> u32 {
        match self {
            StandardIlluminant::Zero => 0x00000000,
            StandardIlluminant::OneHundred => 0x00010000,
        }
    }

    fn signature(&self) -> (r: u32) {
        match self {
            StandardIlluminant::Zero => 0x00000000,
            StandardIlluminant::OneHundred => 0x00010000,
        }
    }

    fn from_signature(code: u32) -> (r: Result<StandardIlluminant, DecodeError>) {
        match code {
            0x00000000 => Ok(StandardIlluminant::Zero),
            0x00010000 => Ok(StandardIlluminant::OneHundred),
            _ => Err(DecodeError::UnrecognizedSignature { signature: code }),
        }
    }

    proof fn lemma_injective(a: StandardIlluminant, b: StandardIlluminant) {
    }
}

} // verus!
