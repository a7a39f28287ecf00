use pngquant_py::params::validate_params;
use pngquant_py::pipeline::{
    accept_remap, encode_indexed, index_plane_fits, quantize, quantize_raster, Quantized,
};
use pngquant_py::types::{ParamProblem, QuantizeError, Raster, Rgba};

fn encode_rgba(width: u32, height: u32, samples: &[u8]) -> Vec<u8> {
    let mut out = Vec::new();
    {
        let mut enc = png::Encoder::new(&mut out, width, height);
        enc.set_color(png::ColorType::Rgba);
        enc.set_depth(png::BitDepth::Eight);
        let mut writer = enc.write_header().unwrap();
        writer.write_image_data(samples).unwrap();
        writer.finish().unwrap();
    }
    out
}

struct Decoded {
    color: png::ColorType,
    palette: Vec<u8>,
    trns: Option<Vec<u8>>,
    width: u32,
    height: u32,
    rgba_first_alpha: u8,
}

fn decode(bytes: &[u8]) -> Decoded {
    let dec = png::Decoder::new(std::io::Cursor::new(bytes));
    let mut reader = dec.read_info().unwrap();
    let info = reader.info().clone();
    let palette = info.palette.as_ref().map(|p| p.to_vec()).unwrap_or_default();
    let trns = info.trns.as_ref().map(|t| t.to_vec());
    let mut buf = vec![0u8; reader.output_buffer_size()];
    reader.next_frame(&mut buf).unwrap();
    let idx = buf[0] as usize;
    let rgba_first_alpha = match &trns {
        Some(t) if idx < t.len() => t[idx],
        _ => 255,
    };
    Decoded { color: info.color_type, palette, trns, width: info.width, height: info.height, rgba_first_alpha }
}

/// Chunk types in order, checking each stored length and CRC.
fn chunk_kinds(bytes: &[u8]) -> Vec<[u8; 4]> {
    assert_eq!(&bytes[..8], &[137u8, 80, 78, 71, 13, 10, 26, 10]);
    let mut kinds = Vec::new();
    let mut p = 8usize;
    while p < bytes.len() {
        let len = u32::from_be_bytes([bytes[p], bytes[p + 1], bytes[p + 2], bytes[p + 3]]) as usize;
        let kind = [bytes[p + 4], bytes[p + 5], bytes[p + 6], bytes[p + 7]];
        let body = &bytes[p + 4..p + 8 + len];
        let stored = u32::from_be_bytes([
            bytes[p + 8 + len],
            bytes[p + 9 + len],
            bytes[p + 10 + len],
            bytes[p + 11 + len],
        ]);
        assert_eq!(stored, crc32fast::hash(body));
        kinds.push(kind);
        p += 12 + len;
    }
    assert_eq!(p, bytes.len());
    kinds
}

#[test]
fn params_accept_defaults_and_edges() {
    assert!(validate_params(0, 100, 3).is_ok());
    assert!(validate_params(50, 50, 1).is_ok());
    assert!(validate_params(0, 0, 10).is_ok());
}

#[test]
fn params_reject_inverted_quality() {
    assert_eq!(validate_params(80, 20, 3), Err(ParamProblem::QualityOrder));
}

#[test]
fn params_reject_speed_out_of_range() {
    assert_eq!(validate_params(0, 100, 0), Err(ParamProblem::SpeedOutOfRange));
    assert_eq!(validate_params(0, 100, 11), Err(ParamProblem::SpeedOutOfRange));
    assert_eq!(validate_params(0, 100, -5), Err(ParamProblem::SpeedOutOfRange));
}

#[test]
fn params_reject_quality_above_hundred() {
    assert_eq!(validate_params(0, 101, 3), Err(ParamProblem::QualityOutOfRange));
}

#[test]
fn inverted_quality_is_reported_before_decoding() {
    let r = quantize(b"not an image at all", 80, 20, 3);
    assert!(matches!(r, Err(QuantizeError::InvalidParameter(ParamProblem::QualityOrder))));
}

#[test]
fn bad_speed_is_reported_before_decoding() {
    for speed in [0, 11] {
        let r = quantize(b"\x00\x01", 0, 100, speed);
        assert!(matches!(r, Err(QuantizeError::InvalidParameter(ParamProblem::SpeedOutOfRange))));
    }
}

#[test]
fn malformed_input_is_a_decode_error() {
    assert!(matches!(quantize(b"", 0, 100, 3), Err(QuantizeError::Decode(_))));
    assert!(matches!(quantize(b"garbage bytes here", 0, 100, 3), Err(QuantizeError::Decode(_))));
    let good = encode_rgba(2, 2, &[255u8; 16]);
    let truncated = &good[..good.len() / 2];
    match quantize(truncated, 0, 100, 3) {
        Err(QuantizeError::Decode(msg)) => assert!(!msg.is_empty()),
        other => panic!("expected a decode error, got {:?}", other.map(|v| v.len())),
    }
}

#[test]
fn red_pixel_becomes_small_opaque_indexed_png() {
    let input = encode_rgba(1, 1, &[255, 0, 0, 255]);
    let out = quantize(&input, 0, 100, 3).unwrap();
    let d = decode(&out);
    assert_eq!(d.color, png::ColorType::Indexed);
    assert_eq!((d.width, d.height), (1, 1));
    assert!(!d.palette.is_empty() && d.palette.len() <= 3 * 4);
    assert!(d.trns.is_none());
    let kinds = chunk_kinds(&out);
    assert!(!kinds.contains(b"tRNS"));
}

#[test]
fn semi_transparent_pixels_get_an_opacity_table() {
    let mut samples = Vec::new();
    for i in 0..16u8 {
        samples.extend_from_slice(&[i * 10, 255 - i * 10, 40, 128]);
    }
    let input = encode_rgba(4, 4, &samples);
    let out = quantize(&input, 0, 100, 3).unwrap();
    let d = decode(&out);
    assert_eq!(d.color, png::ColorType::Indexed);
    let trns = d.trns.clone().expect("opacity table");
    assert_eq!(trns.len() * 3, d.palette.len());
    assert!(d.rgba_first_alpha < 255);
}

#[test]
fn output_chunks_are_ordered_and_checksummed() {
    let mut samples = Vec::new();
    for i in 0..64u32 {
        let v = (i * 4) as u8;
        samples.extend_from_slice(&[v, 255 - v, v / 2, if i % 2 == 0 { 255 } else { 30 }]);
    }
    let input = encode_rgba(8, 8, &samples);
    let out = quantize(&input, 0, 100, 5).unwrap();
    let kinds = chunk_kinds(&out);
    assert_eq!(&kinds[0], b"IHDR");
    assert_eq!(&kinds[1], b"PLTE");
    assert_eq!(&kinds[2], b"tRNS");
    assert_eq!(&kinds[3], b"IDAT");
    assert_eq!(kinds.last().unwrap(), b"IEND");
}

#[test]
fn opaque_image_has_no_opacity_table() {
    let mut samples = Vec::new();
    for i in 0..9u8 {
        samples.extend_from_slice(&[i * 20, i * 5, 200, 255]);
    }
    let input = encode_rgba(3, 3, &samples);
    let out = quantize(&input, 0, 100, 10).unwrap();
    assert!(decode(&out).trns.is_none());
    let kinds = chunk_kinds(&out);
    assert_eq!(&kinds[2], b"IDAT");
}

#[test]
fn quantize_raster_gives_one_valid_index_per_pixel() {
    let pixels: Vec<Rgba> = (0..12u8).map(|i| Rgba { r: i * 20, g: 3, b: 250 - i, a: 255 }).collect();
    let raster = Raster { width: 4, height: 3, pixels };
    let q = quantize_raster(&raster, 0, 100, 3).unwrap();
    assert_eq!(q.indices.len(), 12);
    assert!(!q.palette.is_empty() && q.palette.len() <= 256);
    assert!(q.indices.iter().all(|&i| (i as usize) < q.palette.len()));
}

#[test]
fn quantize_raster_checks_parameters() {
    let raster = Raster { width: 1, height: 1, pixels: vec![Rgba { r: 1, g: 2, b: 3, a: 4 }] };
    assert!(matches!(
        quantize_raster(&raster, 0, 100, 0),
        Err(QuantizeError::InvalidParameter(ParamProblem::SpeedOutOfRange))
    ));
}

#[test]
fn index_plane_fit_cases() {
    assert!(index_plane_fits(2, &vec![0, 1, 1, 0], 2, 2));
    assert!(!index_plane_fits(2, &vec![0, 2, 1, 0], 2, 2));
    assert!(!index_plane_fits(2, &vec![0, 1, 1], 2, 2));
    assert!(index_plane_fits(1, &vec![], 0, 5));
}

#[test]
fn encode_indexed_writes_exact_header_and_palette() {
    let q = Quantized { palette: vec![Rgba { r: 255, g: 0, b: 0, a: 255 }], indices: vec![0] };
    let out = encode_indexed(1, 1, &q).unwrap();
    assert_eq!(&out[..8], &[137u8, 80, 78, 71, 13, 10, 26, 10]);
    assert_eq!(&out[8..16], &[0, 0, 0, 13, b'I', b'H', b'D', b'R']);
    assert_eq!(&out[16..29], &[0, 0, 0, 1, 0, 0, 0, 1, 8, 3, 0, 0, 0]);
    assert_eq!(&out[33..44], &[0, 0, 0, 3, b'P', b'L', b'T', b'E', 255, 0, 0]);
    assert_eq!(&out[out.len() - 12..], &[0, 0, 0, 0, b'I', b'E', b'N', b'D', 0xAE, 0x42, 0x60, 0x82]);
}

#[test]
fn encode_indexed_rejects_a_plane_that_does_not_fit() {
    let q = Quantized { palette: vec![Rgba { r: 0, g: 0, b: 0, a: 255 }], indices: vec![0, 0, 0] };
    assert!(matches!(encode_indexed(2, 2, &q), Err(QuantizeError::Encode(_))));
}

#[test]
fn accept_remap_keeps_a_fitting_result() {
    let pal = vec![Rgba { r: 1, g: 2, b: 3, a: 255 }, Rgba { r: 4, g: 5, b: 6, a: 0 }];
    let q = accept_remap(pal.clone(), vec![1, 0, 0, 1, 1, 1], 3, 2).unwrap();
    assert_eq!(q.palette, pal);
    assert_eq!(q.indices, vec![1, 0, 0, 1, 1, 1]);
}

#[test]
fn accept_remap_refuses_bad_results() {
    let one = vec![Rgba { r: 0, g: 0, b: 0, a: 255 }];
    assert!(matches!(accept_remap(vec![], vec![], 0, 0), Err(QuantizeError::Quantization(_))));
    assert!(matches!(accept_remap(one.clone(), vec![0, 1], 2, 1), Err(QuantizeError::Quantization(_))));
    assert!(matches!(accept_remap(one.clone(), vec![0], 2, 1), Err(QuantizeError::Quantization(_))));
    let big = vec![Rgba { r: 0, g: 0, b: 0, a: 255 }; 257];
    assert!(matches!(accept_remap(big, vec![0], 1, 1), Err(QuantizeError::Quantization(_))));
}

#[test]
fn encode_indexed_refuses_empty_images() {
    let q = Quantized { palette: vec![Rgba { r: 0, g: 0, b: 0, a: 255 }], indices: vec![] };
    assert!(matches!(encode_indexed(0, 3, &q), Err(QuantizeError::Encode(_))));
    assert!(matches!(encode_indexed(3, 0, &q), Err(QuantizeError::Encode(_))));
}

#[test]
fn encode_indexed_translucent_output_carries_the_alphas() {
    let q = Quantized {
        palette: vec![Rgba { r: 10, g: 20, b: 30, a: 255 }, Rgba { r: 40, g: 50, b: 60, a: 99 }],
        indices: vec![0, 1, 1, 0],
    };
    let out = encode_indexed(2, 2, &q).unwrap();
    assert_eq!(&out[33..47], &[0, 0, 0, 6, b'P', b'L', b'T', b'E', 10, 20, 30, 40, 50, 60]);
    assert_eq!(&out[51..61], &[0, 0, 0, 2, b't', b'R', b'N', b'S', 255, 99]);
    let d = decode(&out);
    assert_eq!(d.trns, Some(vec![255, 99]));
}
