//! Record types of the data model that carry their fields as plain values,
//! without a codec of their own.
use vstd::prelude::*;
use crate::numbers::{Bit7Ascii, Response16};
use crate::signatures::CurveMeasurement;
use crate::mluc::MultiLocalizedUnicode;

verus! {

/// The common head of a processing element.
#[derive(Debug, Copy, Clone, PartialEq, Eq, Structural)]
pub struct GeneralElement {
    pub element_signature: u32,
    pub reserved_1: u32,
    pub input_channels: u16,
    pub output_channels: u16,
}

/// A description of a sequence of profiles.
#[derive(Debug, Copy, Clone, PartialEq, Eq, Structural)]
pub struct ProfileSequenceDesc();

/// A description of one profile within a sequence.
#[derive(Debug, Copy, Clone, PartialEq, Eq, Structural)]
pub struct ProfileDescriptionSignature();

/// The identifier of one profile in a sequence, with its description.
#[derive(Debug, Clone, PartialEq, Eq)]
pub struct ProfileIdentifier {
    pub id: u16,
    pub desc: MultiLocalizedUnicode,
}

/// Response curves of `N` measurement types.
#[derive(Debug, Copy, Clone, PartialEq, Eq)]
pub struct ResponseCurveSet16<const N: usize> {
    pub type_signature: u32,
    pub reserved_1: u32,
    pub channels: u16,
    pub measurement_types: u32,
    pub offsets: [u32; N],
}

/// One response curve structure: the unit, and the measurements of each channel.
#[derive(Debug, Copy, Clone, PartialEq, Eq)]
pub struct CurveStructure<const N: usize, const P: usize> {
    pub measurement_unit_signature: CurveMeasurement,
    pub count_measurements: [u32; N],
    pub pcsxyz_values: [u32; N],
    pub response_arrays: [Response16; P],
}

/// A list of named colours with their connection-space and device coordinates.
#[derive(Debug, Clone, PartialEq, Eq)]
pub struct NamedColor2 {
    pub count_colors: u32,
    pub count_device_coords: u32,
    pub color_name_prefix: Bit7Ascii,
    pub color_name_suffix: Bit7Ascii,
    pub first_color_name_root: Bit7Ascii,
    pub first_color_name_pcs_coords: [u16; 3],
    pub first_named_color_device_coords: Vec<u16>,
}

/// The colour lookup table of a multi-stage lookup table.
#[derive(Debug, Clone, PartialEq, Eq)]
pub struct LutAToBClut {
    pub grid_points: [u8; 16],
    pub precision: u8,
    pub reserved_1: [u8; 3],
    pub clut_data_points: Vec<u8>,
}

} // verus!
