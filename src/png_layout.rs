//! The byte layout of an 8-bit indexed PNG: signature, header chunk, colour
//! table, optional opacity table, image data and end marker.
use vstd::prelude::*;

verus! {

/// The CRC-32 that PNG stores after each chunk, over its type and data.
pub uninterp spec fn crc_of(bytes: Seq<u8>) -> u32;

/// Relies on crc32fast::hash: the CRC-32 (ISO-HDLC) of the bytes, the checksum
/// that PNG chunks carry.
#[verifier::external_body]
fn crc32(bytes: &Vec<u8>) -> (r: u32)
    ensures
        r == crc_of(bytes@),
{
    crc32fast::hash(bytes.as_slice())
}

/// A 32-bit number written most significant byte first.
pub open spec fn be32(n: u32) -> Seq<u8> {
    seq![
        (n / 0x100_0000) as u8,
        ((n / 0x1_0000) % 256) as u8,
        ((n / 0x100) % 256) as u8,
        (n % 256) as u8,
    ]
}

/// The eight bytes that open every PNG file.
pub open spec fn png_signature() -> Seq<u8> {
    seq![137u8, 80, 78, 71, 13, 10, 26, 10]
}

pub open spec fn kind_ihdr() -> Seq<u8> {
    seq![73u8, 72, 68, 82]
}

pub open spec fn kind_plte() -> Seq<u8> {
    seq![80u8, 76, 84, 69]
}

pub open spec fn kind_trns() -> Seq<u8> {
    seq![116u8, 82, 78, 83]
}

pub open spec fn kind_idat() -> Seq<u8> {
    seq![73u8, 68, 65, 84]
}

pub open spec fn kind_iend() -> Seq<u8> {
    seq![73u8, 69, 78, 68]
}

/// A chunk: data length, type, data, and the CRC over type and data.
pub open spec fn chunk(kind: Seq<u8>, data: Seq<u8>) -> Seq<u8> {
    be32(data.len() as u32) + kind + data + be32(crc_of(kind + data))
}

/// Header data for an indexed image: width, height, depth 8, colour type 3
/// (palette), default compression and filter, no interlacing.
pub open spec fn ihdr_data(width: u32, height: u32) -> Seq<u8> {
    be32(width) + be32(height) + seq![8u8, 3, 0, 0, 0]
}

/// Everything that precedes the image data of an indexed PNG: signature,
/// header, colour table, and the opacity table exactly when `with_trns`.
pub open spec fn png_head(width: u32, height: u32, rgb: Seq<u8>, alpha: Seq<u8>, with_trns: bool) -> Seq<u8> {
    png_signature() + chunk(kind_ihdr(), ihdr_data(width, height)) + chunk(kind_plte(), rgb) + if with_trns {
        chunk(kind_trns(), alpha)
    } else {
        Seq::empty()
    }
}

/// The end marker: an empty chunk of type IEND.
pub open spec fn png_tail() -> Seq<u8> {
    chunk(kind_iend(), Seq::empty())
}

/// The 32-bit number stored most significant byte first at `p`.
pub open spec fn read32(s: Seq<u8>, p: int) -> int {
    s[p] as int * 0x100_0000 + s[p + 1] as int * 0x1_0000 + s[p + 2] as int * 0x100 + s[p + 3] as int
}

/// `s` is a run of whole IDAT chunks, each with its stated length and a
/// correct CRC.
pub open spec fn idat_chunks(s: Seq<u8>) -> bool
    decreases s.len(),
{
    if s.len() == 0 {
        true
    } else if s.len() < 12 {
        false
    } else {
        let n = read32(s, 0);
        if 12 + n <= s.len() && s.subrange(4, 8) == kind_idat() && s.subrange(8 + n, 12 + n) == be32(
            crc_of(s.subrange(4, 8 + n)),
        ) {
            idat_chunks(s.subrange(12 + n, s.len() as int))
        } else {
            false
        }
    }
}

/// `out` opens with `head`, continues with one or more well-formed IDAT
/// chunks, and closes with the end marker.
pub open spec fn has_layout(out: Seq<u8>, head: Seq<u8>) -> bool {
    &&& head.len() + 8 + 12 <= out.len()
    &&& out.subrange(0, head.len() as int) == head
    &&& out.subrange(head.len() + 4int, head.len() + 8int) == kind_idat()
    &&& idat_chunks(out.subrange(head.len() as int, out.len() - 12int))
    &&& out.subrange(out.len() - 12int, out.len() as int) == png_tail()
}

fn push_be32(out: &mut Vec<u8>, n: u32)
    ensures
        final(out)@ == old(out)@ + be32(n),
{
    out.push((n / 0x100_0000) as u8);
    out.push(((n / 0x1_0000) % 256) as u8);
    out.push(((n / 0x100) % 256) as u8);
    out.push((n % 256) as u8);
    assert(final(out)@ =~= old(out)@ + be32(n));
}

fn push_all(out: &mut Vec<u8>, data: &Vec<u8>)
    ensures
        final(out)@ == old(out)@ + data@,
{
    let ghost start = out@;
    let mut i: usize = 0;
    while i < data.len()
        invariant
            i <= data@.len(),
            out@ == start + data@.subrange(0, i as int),
        decreases data@.len() - i,
    {
        out.push(data[i]);
        assert(data@.subrange(0, i as int + 1) =~= data@.subrange(0, i as int).push(data@[i as int]));
        i = i + 1;
    }
    assert(data@.subrange(0, data@.len() as int) =~= data@);
}

fn push_chunk(out: &mut Vec<u8>, kind: &Vec<u8>, data: &Vec<u8>)
    requires
        data@.len() <= u32::MAX,
    ensures
        final(out)@ == old(out)@ + chunk(kind@, data@),
{
    let mut body: Vec<u8> = Vec::new();
    push_all(&mut body, kind);
    push_all(&mut body, data);
    assert(body@ =~= kind@ + data@);
    let crc = crc32(&body);
    push_be32(out, data.len() as u32);
    push_all(out, &body);
    push_be32(out, crc);
    assert(final(out)@ =~= old(out)@ + chunk(kind@, data@));
}

/// Builds the bytes that must open an indexed PNG with these dimensions and
/// tables.
pub fn indexed_png_head(width: u32, height: u32, rgb: &Vec<u8>, alpha: &Vec<u8>, with_trns: bool) -> (r: Vec<u8>)
    requires
        rgb@.len() <= u32::MAX,
        alpha@.len() <= u32::MAX,
    ensures
        r@ == png_head(width, height, rgb@, alpha@, with_trns),
{
    let mut out: Vec<u8> = vec![137u8, 80, 78, 71, 13, 10, 26, 10];
    let mut ihdr: Vec<u8> = Vec::new();
    push_be32(&mut ihdr, width);
    push_be32(&mut ihdr, height);
    ihdr.push(8u8);
    ihdr.push(3u8);
    ihdr.push(0u8);
    ihdr.push(0u8);
    ihdr.push(0u8);
    assert(ihdr@ =~= ihdr_data(width, height));
    let kind_ihdr_v: Vec<u8> = vec![73u8, 72, 68, 82];
    let kind_plte_v: Vec<u8> = vec![80u8, 76, 84, 69];
    assert(kind_ihdr_v@ =~= kind_ihdr());
    assert(kind_plte_v@ =~= kind_plte());
    assert(out@ =~= png_signature());
    push_chunk(&mut out, &kind_ihdr_v, &ihdr);
    push_chunk(&mut out, &kind_plte_v, rgb);
    if with_trns {
        let kind_trns_v: Vec<u8> = vec![116u8, 82, 78, 83];
        assert(kind_trns_v@ =~= kind_trns());
        push_chunk(&mut out, &kind_trns_v, alpha);
    } else {
        assert(out@ =~= out@ + Seq::<u8>::empty());
    }
    out
}

/// Whether `out` holds `expected` starting at byte `start`.
fn holds_at(out: &Vec<u8>, start: usize, expected: &Vec<u8>) -> (r: bool)
    ensures
        r == (start + expected@.len() <= out@.len() && out@.subrange(
            start as int,
            start + expected@.len(),
        ) == expected@),
{
    if start > out.len() || expected.len() > out.len() - start {
        return false;
    }
    let n = out.len();
    let mut i: usize = 0;
    while i < expected.len()
        invariant
            n == out@.len(),
            start + expected@.len() <= out@.len(),
            i <= expected@.len(),
            forall|k: int| 0 <= k < i ==> out@[start + k] == expected@[k],
        decreases expected@.len() - i,
    {
        if out[start + i] != expected[i] {
            assert(out@.subrange(start as int, start + expected@.len())[i as int] != expected@[i as int]);
            return false;
        }
        i = i + 1;
    }
    assert(out@.subrange(start as int, start + expected@.len()) =~= expected@);
    true
}

fn read_be32(out: &Vec<u8>, p: usize) -> (r: u32)
    requires
        p + 4 <= out@.len(),
    ensures
        r as int == read32(out@, p as int),
{
    let len = out.len();
    assert(p + 3 < len);
    let a = out[p] as u64;
    let b = out[p + 1] as u64;
    let c = out[p + 2] as u64;
    let d = out[p + 3] as u64;
    assert(a * 0x100_0000 + b * 0x1_0000 + c * 0x100 + d <= 0xFFFF_FFFF) by (nonlinear_arith)
        requires
            a <= 255,
            b <= 255,
            c <= 255,
            d <= 255,
    ;
    (a * 0x100_0000 + b * 0x1_0000 + c * 0x100 + d) as u32
}

fn copy_range(out: &Vec<u8>, start: usize, end: usize) -> (r: Vec<u8>)
    requires
        start <= end <= out@.len(),
    ensures
        r@ == out@.subrange(start as int, end as int),
{
    let mut r: Vec<u8> = Vec::new();
    let mut i: usize = start;
    while i < end
        invariant
            start <= i <= end <= out@.len(),
            r@ == out@.subrange(start as int, i as int),
        decreases end - i,
    {
        r.push(out[i]);
        assert(out@.subrange(start as int, i + 1) =~= out@.subrange(start as int, i as int).push(out@[i as int]));
        i = i + 1;
    }
    r
}

/// Whether bytes `start` to `end` of `out` are a run of well-formed IDAT chunks.
pub fn check_idat_chunks(out: &Vec<u8>, start: usize, end: usize) -> (r: bool)
    requires
        start <= end <= out@.len(),
    ensures
        r == idat_chunks(out@.subrange(start as int, end as int)),
{
    let kind_idat_v: Vec<u8> = vec![73u8, 68, 65, 84];
    assert(kind_idat_v@ =~= kind_idat());
    let mut p: usize = start;
    while p < end
        invariant
            start <= p <= end <= out@.len(),
            kind_idat_v@ == kind_idat(),
            idat_chunks(out@.subrange(start as int, end as int)) == idat_chunks(
                out@.subrange(p as int, end as int),
            ),
        decreases end - p,
    {
        let ghost s = out@.subrange(p as int, end as int);
        if end - p < 12 {
            return false;
        }
        let n = read_be32(out, p);
        assert(n as int == read32(s, 0));
        if n as usize > end - p - 12 {
            return false;
        }
        let m: usize = n as usize;
        let kind_ok = holds_at(out, p + 4, &kind_idat_v);
        assert(kind_ok == (s.subrange(4, 8) == kind_idat())) by {
            assert(s.subrange(4, 8) =~= out@.subrange(p + 4, p + 8));
        }
        let body = copy_range(out, p + 4, p + 8 + m);
        assert(body@ =~= s.subrange(4, 8 + m));
        let crc = crc32(&body);
        let mut stored: Vec<u8> = Vec::new();
        push_be32(&mut stored, crc);
        assert(stored@ =~= be32(crc));
        let crc_ok = holds_at(out, p + 8 + m, &stored);
        assert(crc_ok == (s.subrange(8 + m, 12 + m) == be32(crc_of(s.subrange(4, 8 + m))))) by {
            assert(s.subrange(8 + m, 12 + m) =~= out@.subrange(p + 8 + m, p + 12 + m));
        }
        if !kind_ok || !crc_ok {
            return false;
        }
        assert(s.subrange(12 + m, s.len() as int) =~= out@.subrange(p + 12 + m, end as int));
        p = p + 12 + m;
    }
    assert(out@.subrange(p as int, end as int).len() == 0);
    true
}

/// Checks that `out` opens with `head`, that well-formed image data chunks
/// follow it, and that it closes with the end marker.
pub fn check_layout(out: &Vec<u8>, head: &Vec<u8>) -> (r: bool)
    ensures
        r == has_layout(out@, head@),
{
    if head.len() > out.len() || out.len() - head.len() < 20 {
        return false;
    }
    let kind_idat_v: Vec<u8> = vec![73u8, 68, 65, 84];
    let kind_iend_v: Vec<u8> = vec![73u8, 69, 78, 68];
    let empty: Vec<u8> = Vec::new();
    assert(kind_idat_v@ =~= kind_idat());
    assert(kind_iend_v@ =~= kind_iend());
    assert(empty@ =~= Seq::<u8>::empty());
    let mut tail: Vec<u8> = Vec::new();
    push_chunk(&mut tail, &kind_iend_v, &empty);
    assert(tail@ =~= png_tail());
    let head_ok = holds_at(out, 0, head);
    let idat_ok = holds_at(out, head.len() + 4, &kind_idat_v);
    let tail_ok = holds_at(out, out.len() - 12, &tail);
    let chunks_ok = check_idat_chunks(out, head.len(), out.len() - 12);
    head_ok && idat_ok && chunks_ok && tail_ok
}

} // verus!
