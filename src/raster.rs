//! Turns a decoder's interleaved RGBA samples into a checked pixel raster.
use vstd::prelude::*;
use crate::types::{QuantizeError, Raster, Rgba};

verus! {

/// The pixels that interleaved samples describe: four bytes per pixel, in
/// the order red, green, blue, alpha.
pub open spec fn pixels_of(samples: Seq<u8>) -> Seq<Rgba> {
    Seq::new(
        samples.len() / 4,
        |i: int| Rgba { r: samples[4 * i], g: samples[4 * i + 1], b: samples[4 * i + 2], a: samples[4 * i + 3] },
    )
}

/// The samples fill a `width` by `height` grid exactly, four bytes per pixel.
pub open spec fn samples_fit(width: u32, height: u32, samples: Seq<u8>) -> bool {
    samples.len() == 4 * (width as int * height as int)
}

/// Builds a raster from a decoder's RGBA output, rejecting samples whose count
/// disagrees with the reported dimensions.
pub fn raster_from_rgba(width: u32, height: u32, samples: &Vec<u8>) -> (r: Result<Raster, QuantizeError>)
    ensures
        r is Ok <==> samples_fit(width, height, samples@),
        r matches Ok(ras) ==> ras.wf() && ras.width == width && ras.height == height
            && ras.pixels@ == pixels_of(samples@),
        r matches Err(e) ==> e.is_decode(),
{
    assert((width as u64) * (height as u64) <= u64::MAX) by (nonlinear_arith)
        requires
            width <= u32::MAX,
            height <= u32::MAX,
    ;
    let count: u64 = (width as u64) * (height as u64);
    if samples.len() % 4 != 0 || (samples.len() / 4) as u64 != count {
        return Err(QuantizeError::Decode("pixel data does not match the image dimensions".to_owned()));
    }
    let len = samples.len();
    let n: usize = len / 4;
    let mut pixels: Vec<Rgba> = Vec::new();
    let mut i: usize = 0;
    while i < n
        invariant
            n == samples@.len() / 4,
            samples@.len() <= usize::MAX,
            i <= n,
            pixels@ =~= pixels_of(samples@).subrange(0, i as int),
        decreases n - i,
    {
        assert(4 * i + 3 < samples@.len()) by (nonlinear_arith)
            requires
                i < n,
                n == samples@.len() / 4,
        ;
        let k: usize = 4 * i;
        pixels.push(Rgba { r: samples[k], g: samples[k + 1], b: samples[k + 2], a: samples[k + 3] });
        i = i + 1;
    }
    assert(pixels_of(samples@).subrange(0, n as int) =~= pixels_of(samples@));
    Ok(Raster { width, height, pixels })
}

} // verus!
