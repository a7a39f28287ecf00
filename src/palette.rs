//! Splits an RGBA palette into the PNG colour table and opacity table.
use vstd::prelude::*;
use crate::types::Rgba;

verus! {

/// Most entries an 8-bit indexed PNG palette can hold.
pub const MAX_PALETTE: usize = 256;

/// Colour table of a palette: red, green, blue of each entry, in order.
pub open spec fn rgb_table(pal: Seq<Rgba>) -> Seq<u8>
    decreases pal.len(),
{
    if pal.len() == 0 {
        Seq::empty()
    } else {
        rgb_table(pal.drop_last()) + seq![pal.last().r, pal.last().g, pal.last().b]
    }
}

/// Opacity table of a palette: the alpha of each entry, in order.
pub open spec fn alpha_table(pal: Seq<Rgba>) -> Seq<u8> {
    pal.map_values(|p: Rgba| p.a)
}

/// Some entry is not fully opaque.
pub open spec fn has_translucent(pal: Seq<Rgba>) -> bool {
    exists|i: int| 0 <= i < pal.len() && #[trigger] pal[i].a < 255
}

/// The two parallel tables that a palette becomes in a PNG.
#[derive(Clone, Debug)]
pub struct PaletteTables {
    /// Three bytes per entry: red, green, blue.
    pub rgb: Vec<u8>,
    /// One byte per entry: alpha.
    pub alpha: Vec<u8>,
    /// Whether any alpha is below 255, so that the opacity table must be written.
    pub has_transparency: bool,
}

/// Entry `i` of a palette occupies bytes `3 * i` to `3 * i + 2` of its colour table.
pub proof fn lemma_rgb_table_entry(pal: Seq<Rgba>, i: int)
    requires
        0 <= i < pal.len(),
    ensures
        rgb_table(pal).len() == 3 * pal.len(),
        rgb_table(pal)[3 * i] == pal[i].r,
        rgb_table(pal)[3 * i + 1] == pal[i].g,
        rgb_table(pal)[3 * i + 2] == pal[i].b,
    decreases pal.len(),
{
    lemma_rgb_table_len(pal);
    if i < pal.len() - 1 {
        lemma_rgb_table_entry(pal.drop_last(), i);
    }
}

/// A colour table holds three bytes per palette entry.
pub proof fn lemma_rgb_table_len(pal: Seq<Rgba>)
    ensures
        rgb_table(pal).len() == 3 * pal.len(),
    decreases pal.len(),
{
    if pal.len() > 0 {
        lemma_rgb_table_len(pal.drop_last());
    }
}

/// Splits a palette into its colour table and its opacity table, and notes
/// whether any entry is translucent.
pub fn split_palette(palette: &Vec<Rgba>) -> (t: PaletteTables)
    requires
        palette@.len() <= MAX_PALETTE,
    ensures
        t.rgb@ == rgb_table(palette@),
        t.alpha@ == alpha_table(palette@),
        t.has_transparency == has_translucent(palette@),
{
    let mut rgb: Vec<u8> = Vec::new();
    let mut alpha: Vec<u8> = Vec::new();
    let mut has_transparency = false;
    let mut i: usize = 0;
    while i < palette.len()
        invariant
            i <= palette@.len(),
            palette@.len() <= MAX_PALETTE,
            rgb@ == rgb_table(palette@.subrange(0, i as int)),
            alpha@ == alpha_table(palette@.subrange(0, i as int)),
            has_transparency == has_translucent(palette@.subrange(0, i as int)),
        decreases palette@.len() - i,
    {
        let px = palette[i];
        let ghost before = palette@.subrange(0, i as int);
        let ghost after = palette@.subrange(0, i as int + 1);
        assert(after.drop_last() =~= before);
        rgb.push(px.r);
        rgb.push(px.g);
        rgb.push(px.b);
        alpha.push(px.a);
        if px.a < 255 {
            has_transparency = true;
        }
        proof {
            assert(rgb@ =~= rgb_table(after));
            assert(alpha@ =~= alpha_table(after));
            if has_translucent(before) {
                let j = choose|j: int| 0 <= j < before.len() && #[trigger] before[j].a < 255;
                assert(after[j] == before[j]);
            }
            if has_translucent(after) && !has_translucent(before) {
                let j = choose|j: int| 0 <= j < after.len() && #[trigger] after[j].a < 255;
                if j < before.len() {
                    assert(before[j] == after[j]);
                }
            }
            if px.a < 255 {
                assert(after[i as int].a < 255);
            }
        }
        i = i + 1;
    }
    assert(palette@.subrange(0, palette@.len() as int) =~= palette@);
    PaletteTables { rgb, alpha, has_transparency }
}

/// The two tables of a palette describe it entry by entry: both have one
/// slot per palette entry, and slot `i` of each belongs to entry `i`.
pub proof fn lemma_tables_parallel(pal: Seq<Rgba>)
    requires
        pal.len() <= 256,
    ensures
        rgb_table(pal).len() == 3 * pal.len(),
        alpha_table(pal).len() == pal.len(),
        forall|i: int|
            0 <= i < pal.len() ==> #[trigger] alpha_table(pal)[i] == pal[i].a
                && rgb_table(pal)[3 * i] == pal[i].r && rgb_table(pal)[3 * i + 1] == pal[i].g
                && rgb_table(pal)[3 * i + 2] == pal[i].b,
{
    lemma_rgb_table_len(pal);
    assert forall|i: int| 0 <= i < pal.len() implies #[trigger] alpha_table(pal)[i] == pal[i].a
        && rgb_table(pal)[3 * i] == pal[i].r && rgb_table(pal)[3 * i + 1] == pal[i].g
        && rgb_table(pal)[3 * i + 2] == pal[i].b by {
        lemma_rgb_table_entry(pal, i);
    }
}

} // verus!
