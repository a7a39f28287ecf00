//! The outside collaborators: the `image` decoder, the `imagequant` palette
//! engine and the `png` encoder, each call behind a small trusted item.
use vstd::prelude::*;
use crate::types::Rgba;

verus! {

#[verifier::external_type_specification]
#[verifier::external_body]
pub struct ExImageError(image::ImageError);

#[verifier::external_type_specification]
#[verifier::external_body]
pub struct ExAttributes(imagequant::Attributes);

#[verifier::external_type_specification]
#[verifier::external_body]
pub struct ExIqImage<'a>(imagequant::Image<'a>);

#[verifier::external_type_specification]
#[verifier::external_body]
pub struct ExQuantizationResult(imagequant::QuantizationResult);

#[verifier::external_type_specification]
#[verifier::external_body]
pub struct ExIqError(imagequant::Error);

#[verifier::external_type_specification]
#[verifier::external_body]
pub struct ExEncodingError(png::EncodingError);

/// What decoding `bytes` gives: the width, the height and the 8-bit RGBA
/// samples row by row, or nothing when the bytes are not a supported image.
pub uninterp spec fn decoded_rgba(bytes: Seq<u8>) -> Option<(u32, u32, Seq<u8>)>;

/// Relies on image::load_from_memory, which guesses the format from the bytes
/// and decodes them, and on DynamicImage::to_rgba8 with ImageBuffer's width,
/// height and into_raw. The outcome depends on the bytes alone.
#[verifier::external_body]
pub(crate) fn decode_rgba(bytes: &[u8]) -> (r: Result<(u32, u32, Vec<u8>), image::ImageError>)
    ensures
        r is Ok <==> decoded_rgba(bytes@) is Some,
        r matches Ok(t) ==> decoded_rgba(bytes@) == Some((t.0, t.1, t.2@)),
{
    let buf = image::load_from_memory(bytes)?.to_rgba8();
    Ok((buf.width(), buf.height(), buf.into_raw()))
}

/// Relies on ImageError's Display: the decoder's description of the failure.
#[verifier::external_body]
pub(crate) fn image_error_text(e: &image::ImageError) -> (r: String) {
    e.to_string()
}

/// Relies on imagequant::Attributes::new: the engine's default settings.
#[verifier::external_body]
pub(crate) fn new_attributes() -> (r: imagequant::Attributes) {
    imagequant::Attributes::new()
}

/// Relies on Attributes::set_quality, which refuses a target above 100 or
/// below the minimum and accepts every other pair.
#[verifier::external_body]
pub(crate) fn set_quality(attr: &mut imagequant::Attributes, minimum: u8, target: u8) -> (r: Result<(), imagequant::Error>)
    ensures
        r is Err <==> (target > 100 || target < minimum),
{
    attr.set_quality(minimum, target)
}

/// Relies on Attributes::set_speed, which refuses a value outside 1 to 10 and
/// accepts every other.
#[verifier::external_body]
pub(crate) fn set_speed(attr: &mut imagequant::Attributes, speed: i32) -> (r: Result<(), imagequant::Error>)
    ensures
        r is Err <==> !(1 <= speed && speed <= 10),
{
    attr.set_speed(speed)
}

/// Relies on Attributes::new_image: hands the pixels to the engine, with the
/// gamma left for the engine to choose (the default value, zero).
#[verifier::external_body]
pub(crate) fn new_engine_image(attr: &imagequant::Attributes, pixels: &Vec<Rgba>, width: usize, height: usize) -> (r: Result<imagequant::Image<'static>, imagequant::Error>) {
    let px: Vec<imagequant::RGBA> = pixels.iter().map(|p| imagequant::RGBA::new(p.r, p.g, p.b, p.a)).collect();
    attr.new_image(px, width, height, Default::default())
}

/// Relies on Attributes::quantize: chooses a palette for the image.
#[verifier::external_body]
pub(crate) fn choose_palette(attr: &imagequant::Attributes, img: &mut imagequant::Image<'static>) -> (r: Result<imagequant::QuantizationResult, imagequant::Error>) {
    attr.quantize(img)
}

/// Relies on QuantizationResult::remapped: the final palette, and one palette
/// index per pixel. Callers check both.
#[verifier::external_body]
pub(crate) fn remap(res: &mut imagequant::QuantizationResult, img: &mut imagequant::Image<'static>) -> (r: Result<(Vec<Rgba>, Vec<u8>), imagequant::Error>) {
    let (pal, indices) = res.remapped(img)?;
    Ok((pal.iter().map(|p| Rgba { r: p.r, g: p.g, b: p.b, a: p.a }).collect(), indices))
}

/// Relies on imagequant::Error's Display: the engine's description of the failure.
#[verifier::external_body]
pub(crate) fn engine_error_text(e: &imagequant::Error) -> (r: String) {
    e.to_string()
}

/// The bytes that png's encoder writes for an 8-bit indexed image of this
/// size, colour table, opacity table (written only when `with_trns`) and index
/// plane, or nothing when it refuses them.
pub uninterp spec fn png_indexed(width: u32, height: u32, rgb: Seq<u8>, alpha: Seq<u8>, with_trns: bool, indices: Seq<u8>) -> Option<Seq<u8>>;

/// Relies on png::Encoder and png::Writer (new, set_color, set_depth,
/// set_palette, write_header, write_image_data, finish): an 8-bit indexed PNG
/// with the colour table and no opacity table. Writing into a `Vec` cannot
/// fail; the encoder refuses a zero width or height (Writer::init) and index
/// data that is not one byte per pixel (Writer::write_image_data).
#[verifier::external_body]
pub(crate) fn encode_opaque(width: u32, height: u32, rgb: &Vec<u8>, indices: &Vec<u8>) -> (r: Result<Vec<u8>, png::EncodingError>)
    ensures
        r is Ok <==> png_indexed(width, height, rgb@, Seq::empty(), false, indices@) is Some,
        r matches Ok(o) ==> png_indexed(width, height, rgb@, Seq::empty(), false, indices@) == Some(o@),
        r is Ok <==> (width > 0 && height > 0 && indices@.len() == width as int * height as int),
{
    let mut out: Vec<u8> = Vec::new();
    let mut enc = png::Encoder::new(&mut out, width, height);
    enc.set_color(png::ColorType::Indexed);
    enc.set_depth(png::BitDepth::Eight);
    enc.set_palette(rgb.clone());
    let mut writer = enc.write_header()?;
    writer.write_image_data(indices)?;
    writer.finish()?;
    Ok(out)
}

/// Relies on png::Encoder and png::Writer as `encode_opaque` does, with
/// set_trns as well: the same PNG with an opacity table after the colour
/// table, refused in the same cases.
#[verifier::external_body]
pub(crate) fn encode_translucent(width: u32, height: u32, rgb: &Vec<u8>, alpha: &Vec<u8>, indices: &Vec<u8>) -> (r: Result<Vec<u8>, png::EncodingError>)
    ensures
        r is Ok <==> png_indexed(width, height, rgb@, alpha@, true, indices@) is Some,
        r matches Ok(o) ==> png_indexed(width, height, rgb@, alpha@, true, indices@) == Some(o@),
        r is Ok <==> (width > 0 && height > 0 && indices@.len() == width as int * height as int),
{
    let mut out: Vec<u8> = Vec::new();
    let mut enc = png::Encoder::new(&mut out, width, height);
    enc.set_color(png::ColorType::Indexed);
    enc.set_depth(png::BitDepth::Eight);
    enc.set_palette(rgb.clone());
    enc.set_trns(alpha.clone());
    let mut writer = enc.write_header()?;
    writer.write_image_data(indices)?;
    writer.finish()?;
    Ok(out)
}

/// Relies on png::EncodingError's Display: the encoder's description of the failure.
#[verifier::external_body]
pub(crate) fn encode_error_text(e: &png::EncodingError) -> (r: String) {
    e.to_string()
}

} // verus!
