use vstd::prelude::*;

verus! {

/// Why an export attempt failed.
#[derive(Clone, Copy, Debug, PartialEq, Eq, Structural)]
pub enum ExportError {
    /// The layer count lies outside `2..=255`.
    InvalidParameter,
    /// The raster is too small to hold a single face, or its pixel
    /// count does not match its width and height.
    InvalidDimensions,
    /// The input bytes were not a supported image (reported by the decoder).
    DecodeError,
    /// The output could not be written (reported by the sink).
    IoError,
}

} // verus!
