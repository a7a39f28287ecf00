//! The whole run: parameter checks, decoding, quantisation, table split,
//! PNG assembly and the layout check of what was assembled.
use vstd::prelude::*;
use crate::engine::{
    choose_palette, decode_rgba, decoded_rgba, encode_error_text, encode_opaque, encode_translucent,
    engine_error_text, image_error_text, new_attributes, new_engine_image, png_indexed, remap,
    set_quality, set_speed,
};
use crate::palette::{alpha_table, has_translucent, rgb_table, split_palette, MAX_PALETTE};
use crate::params::{params_valid, validate_params};
use crate::png_layout::{
    check_layout, chunk, has_layout, ihdr_data, indexed_png_head, kind_idat, kind_trns, png_head,
    png_signature,
};
use crate::raster::{raster_from_rgba, samples_fit};
use crate::types::{ParamProblem, QuantizeError, Raster, Rgba};

verus! {

/// A palette of at most 256 entries with one index per pixel.
#[derive(Clone, Debug)]
pub struct Quantized {
    pub palette: Vec<Rgba>,
    pub indices: Vec<u8>,
}

/// `indices` holds one entry per cell of a `width` by `height` grid, and each
/// entry names an entry of a palette of `palette_len` colours.
pub open spec fn index_plane_ok(palette_len: nat, indices: Seq<u8>, width: u32, height: u32) -> bool {
    &&& indices.len() == width as int * height as int
    &&& forall|i: int| 0 <= i < indices.len() ==> (#[trigger] indices[i] as nat) < palette_len
}

/// A usable quantisation of a `width` by `height` raster.
pub open spec fn quantized_ok(q: Quantized, width: u32, height: u32) -> bool {
    &&& 1 <= q.palette@.len() <= 256
    &&& index_plane_ok(q.palette@.len(), q.indices@, width, height)
}

/// The bytes of an 8-bit indexed PNG of the given size and palette: the
/// signature, the header, the colour table, the opacity table exactly when
/// some entry is translucent, image data, and the end marker.
pub open spec fn indexed_png_of(out: Seq<u8>, width: u32, height: u32, palette: Seq<Rgba>) -> bool {
    has_layout(out, png_head(width, height, rgb_table(palette), alpha_table(palette), has_translucent(palette)))
}

/// What the encoder writes for a palette and an index plane: the palette's
/// colour table, and its opacity table exactly when some entry is translucent.
pub open spec fn encoder_output(width: u32, height: u32, palette: Seq<Rgba>, indices: Seq<u8>) -> Option<Seq<u8>> {
    let t = has_translucent(palette);
    png_indexed(
        width,
        height,
        rgb_table(palette),
        if t {
            alpha_table(palette)
        } else {
            Seq::empty()
        },
        t,
        indices,
    )
}

/// Where the chunk after the colour table starts, for a palette of `n` entries:
/// the signature, the 25-byte header chunk, and the colour table chunk.
pub open spec fn after_palette(n: nat) -> int {
    45 + 3 * (n as int)
}

/// In an indexed PNG of a palette, the chunk that follows the colour table is
/// an opacity table exactly when some palette entry is translucent; when it
/// is, it holds the palette's alphas, one per entry, in palette order.
pub proof fn lemma_opacity_chunk_iff_translucent(out: Seq<u8>, width: u32, height: u32, palette: Seq<Rgba>)
    requires
        palette.len() <= 256,
        indexed_png_of(out, width, height, palette),
    ensures
        out.subrange(after_palette(palette.len()) + 4, after_palette(palette.len()) + 8) == kind_trns()
            <==> has_translucent(palette),
        has_translucent(palette) ==> out.subrange(
            after_palette(palette.len()) + 8,
            after_palette(palette.len()) + 8 + palette.len(),
        ) == alpha_table(palette),
{
    crate::palette::lemma_rgb_table_len(palette);
    let rgb = rgb_table(palette);
    let alpha = alpha_table(palette);
    let t = has_translucent(palette);
    let head = png_head(width, height, rgb, alpha, t);
    let a = after_palette(palette.len());
    let base = png_signature() + chunk(crate::png_layout::kind_ihdr(), ihdr_data(width, height))
        + chunk(crate::png_layout::kind_plte(), rgb);
    assert(base.len() == a);
    assert(out.subrange(0, head.len() as int) == head);
    if t {
        let tr = chunk(kind_trns(), alpha);
        assert(head == base + tr);
        assert(out.subrange(a + 4, a + 8) =~= head.subrange(a + 4, a + 8));
        assert(head.subrange(a + 4, a + 8) =~= kind_trns());
        assert(out.subrange(a + 8, a + 8 + palette.len()) =~= head.subrange(a + 8, a + 8 + palette.len()));
        assert(head.subrange(a + 8, a + 8 + palette.len()) =~= alpha);
    } else {
        assert(head =~= base);
        assert(out.subrange(a + 4, a + 8) == kind_idat());
        assert(kind_idat()[1] != kind_trns()[1]);
    }
}

/// Whether an index plane fits its grid and its palette.
pub fn index_plane_fits(palette_len: usize, indices: &Vec<u8>, width: u32, height: u32) -> (r: bool)
    ensures
        r == index_plane_ok(palette_len as nat, indices@, width, height),
{
    assert((width as u64) * (height as u64) <= u64::MAX) by (nonlinear_arith)
        requires
            width <= u32::MAX,
            height <= u32::MAX,
    ;
    if indices.len() as u64 != (width as u64) * (height as u64) {
        return false;
    }
    let mut i: usize = 0;
    while i < indices.len()
        invariant
            i <= indices@.len(),
            forall|k: int| 0 <= k < i ==> (#[trigger] indices@[k] as nat) < palette_len,
        decreases indices@.len() - i,
    {
        if indices[i] as usize >= palette_len {
            return false;
        }
        i = i + 1;
    }
    true
}

/// Accepts the engine's palette and index plane when the palette holds 1 to
/// 256 colours and the plane one valid index per pixel; otherwise reports a
/// quantisation failure.
pub fn accept_remap(palette: Vec<Rgba>, indices: Vec<u8>, width: u32, height: u32) -> (r: Result<Quantized, QuantizeError>)
    ensures
        r is Ok <==> (1 <= palette@.len() <= 256 && index_plane_ok(palette@.len(), indices@, width, height)),
        r matches Ok(q) ==> q.palette@ == palette@ && q.indices@ == indices@,
        r matches Err(e) ==> e.is_quantization(),
{
    if palette.len() == 0 || palette.len() > MAX_PALETTE {
        return Err(QuantizeError::Quantization("palette size outside 1 to 256".to_owned()));
    }
    if !index_plane_fits(palette.len(), &indices, width, height) {
        return Err(QuantizeError::Quantization("index plane does not fit the image or its palette".to_owned()));
    }
    Ok(Quantized { palette, indices })
}

/// Has the engine choose a palette for the raster and map every pixel to it.
/// Parameters are checked first; on success the palette holds 1 to 256
/// colours and the index plane one valid index per pixel.
pub fn quantize_raster(raster: &Raster, quality_min: u8, quality_max: u8, speed: i32) -> (r: Result<Quantized, QuantizeError>)
    requires
        raster.wf(),
    ensures
        !params_valid(quality_min, quality_max, speed) ==> r is Err && r->Err_0.is_invalid_parameter(),
        params_valid(quality_min, quality_max, speed) ==> (r is Ok && quantized_ok(
            r->Ok_0,
            raster.width,
            raster.height,
        )) || (r is Err && r->Err_0.is_quantization()),
{
    match validate_params(quality_min, quality_max, speed) {
        Err(p) => return Err(QuantizeError::InvalidParameter(p)),
        Ok(()) => {},
    }
    let mut attr = new_attributes();
    if set_quality(&mut attr, quality_min, quality_max).is_err() {
        return Err(QuantizeError::InvalidParameter(ParamProblem::QualityOutOfRange));
    }
    if set_speed(&mut attr, speed).is_err() {
        return Err(QuantizeError::InvalidParameter(ParamProblem::SpeedOutOfRange));
    }
    let mut img = match new_engine_image(&attr, &raster.pixels, raster.width as usize, raster.height as usize) {
        Ok(img) => img,
        Err(e) => return Err(QuantizeError::Quantization(engine_error_text(&e))),
    };
    let mut res = match choose_palette(&attr, &mut img) {
        Ok(res) => res,
        Err(e) => return Err(QuantizeError::Quantization(engine_error_text(&e))),
    };
    let (palette, indices) = match remap(&mut res, &mut img) {
        Ok(pair) => pair,
        Err(e) => return Err(QuantizeError::Quantization(engine_error_text(&e))),
    };
    accept_remap(palette, indices, raster.width, raster.height)
}

/// Assembles the indexed PNG for a quantised image and checks its layout:
/// it succeeds exactly when the encoder accepts the image and its output has
/// the layout `indexed_png_of` the size and palette, and then returns that
/// output. The encoder accepts every non-empty image with one index per pixel.
pub fn encode_indexed(width: u32, height: u32, q: &Quantized) -> (r: Result<Vec<u8>, QuantizeError>)
    requires
        q.palette@.len() <= 256,
    ensures
        r is Ok <==> (encoder_output(width, height, q.palette@, q.indices@) matches Some(o)
            && indexed_png_of(o, width, height, q.palette@)),
        r matches Ok(out) ==> encoder_output(width, height, q.palette@, q.indices@) == Some(out@),
        (encoder_output(width, height, q.palette@, q.indices@) is Some) <==> (width > 0 && height > 0
            && q.indices@.len() == width as int * height as int),
        r matches Err(e) ==> e.is_encode(),
{
    let tables = split_palette(&q.palette);
    let encoded = if tables.has_transparency {
        encode_translucent(width, height, &tables.rgb, &tables.alpha, &q.indices)
    } else {
        encode_opaque(width, height, &tables.rgb, &q.indices)
    };
    assert(encoded is Ok <==> encoder_output(width, height, q.palette@, q.indices@) is Some);
    let out = match encoded {
        Ok(out) => out,
        Err(e) => return Err(QuantizeError::Encode(encode_error_text(&e))),
    };
    proof {
        crate::palette::lemma_rgb_table_len(q.palette@);
    }
    let head = indexed_png_head(width, height, &tables.rgb, &tables.alpha, tables.has_transparency);
    if !check_layout(&out, &head) {
        return Err(QuantizeError::Encode("encoder output does not have the indexed PNG layout".to_owned()));
    }
    Ok(out)
}

/// Converts an encoded image into a palette-indexed PNG.
///
/// Parameters are checked before anything is decoded. Input that does not
/// decode, or decodes to samples that do not fill its grid, is a decode
/// error. On success the result is what the encoder wrote for the decoded
/// size and some palette of 1 to 256 colours with one valid index per pixel:
/// an 8-bit indexed PNG with an opacity table exactly when that palette has a
/// translucent entry.
pub fn quantize(input: &[u8], quality_min: u8, quality_max: u8, speed: i32) -> (r: Result<Vec<u8>, QuantizeError>)
    ensures
        !params_valid(quality_min, quality_max, speed) <==> (r is Err && r->Err_0.is_invalid_parameter()),
        quality_min > quality_max ==> r matches Err(QuantizeError::InvalidParameter(ParamProblem::QualityOrder)),
        (r is Err && r->Err_0.is_decode()) <==> (params_valid(quality_min, quality_max, speed) && (
        decoded_rgba(input@) matches Some(d) ==> !samples_fit(d.0, d.1, d.2))),
        r matches Ok(out) ==> decoded_rgba(input@) matches Some(d) && exists|palette: Seq<Rgba>, indices: Seq<u8>|
            1 <= palette.len() <= 256 && index_plane_ok(palette.len(), indices, d.0, d.1)
                && #[trigger] encoder_output(d.0, d.1, palette, indices) == Some(out@)
                && indexed_png_of(out@, d.0, d.1, palette),
{
    match validate_params(quality_min, quality_max, speed) {
        Err(p) => return Err(QuantizeError::InvalidParameter(p)),
        Ok(()) => {},
    }
    let (width, height, samples) = match decode_rgba(input) {
        Ok(t) => t,
        Err(e) => return Err(QuantizeError::Decode(image_error_text(&e))),
    };
    let raster = raster_from_rgba(width, height, &samples)?;
    let q = quantize_raster(&raster, quality_min, quality_max, speed)?;
    let out = encode_indexed(width, height, &q)?;
    assert(encoder_output(width, height, q.palette@, q.indices@) == Some(out@));
    Ok(out)
}

} // verus!
