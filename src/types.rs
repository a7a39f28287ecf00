//! Plain data shared by every stage of the pipeline.
use vstd::prelude::*;

verus! {

/// One pixel, or one palette entry: 8-bit red, green, blue and alpha.
#[derive(Clone, Copy, Debug, PartialEq, Eq, Structural)]
pub struct Rgba {
    pub r: u8,
    pub g: u8,
    pub b: u8,
    pub a: u8,
}

/// A decoded image: `pixels` holds `width * height` entries, row by row.
#[derive(Clone, Debug)]
pub struct Raster {
    pub width: u32,
    pub height: u32,
    pub pixels: Vec<Rgba>,
}

impl Raster {
    /// The one invariant of a raster: one pixel per grid cell.
    pub open spec fn wf(&self) -> bool {
        self.pixels@.len() == self.width as int * self.height as int
    }
}

/// Which documented constraint on the caller's parameters was broken.
#[derive(Clone, Copy, Debug, PartialEq, Eq, Structural)]
pub enum ParamProblem {
    /// `quality_max` is above 100.
    QualityOutOfRange,
    /// `quality_min` is above `quality_max`.
    QualityOrder,
    /// `speed` is outside 1 to 10.
    SpeedOutOfRange,
}

/// The four ways a run can fail; each carries the cause as text or as a
/// structured reason.
#[derive(Clone, Debug)]
pub enum QuantizeError {
    /// The input bytes are not an image that the decoder understands, or the
    /// decoded raster is inconsistent with its dimensions.
    Decode(String),
    /// A parameter is outside its documented range; nothing was decoded.
    InvalidParameter(ParamProblem),
    /// The quantisation engine could not produce a usable palette.
    Quantization(String),
    /// The output PNG could not be assembled, or failed its layout check.
    Encode(String),
}

impl QuantizeError {
    pub open spec fn is_decode(&self) -> bool {
        self is Decode
    }

    pub open spec fn is_invalid_parameter(&self) -> bool {
        self is InvalidParameter
    }

    pub open spec fn is_quantization(&self) -> bool {
        self is Quantization
    }

    pub open spec fn is_encode(&self) -> bool {
        self is Encode
    }
}

} // verus!
