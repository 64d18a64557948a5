//! Colour vision, and the data model and binary codec of ICC colour profiles.
//!
//! The profile side is built in layers: big-endian encodings of fixed-width
//! values (`bytes`, `numbers`), closed enumerations of four-byte codes
//! (`signatures`), tagged data records with their codecs (`record` and the
//! modules after it), the profile header (`header`), and the container that
//! binds header, tag table and records together (`profile`).

// Colour vision
pub mod vision;
pub mod greeting;

// Numbers, codes and errors
pub mod bytes;
pub mod numbers;
pub mod error;
pub mod signatures;

// Tagged data records
pub mod record;
pub mod tags;
pub mod arrays;
pub mod fixed;
pub mod measurement;
pub mod counted;
pub mod chromaticity;
pub mod curve;
pub mod lut;
pub mod lut16;
pub mod lut8;
pub mod mluc;
pub mod process_elements;
pub mod curve_set;
pub mod elements;

// Header and container
pub mod header;
pub mod profile;
