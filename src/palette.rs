use vstd::prelude::*;

use crate::colormap::{Colormap, COLORMAP_COUNT};

verus! {

/// Opaque alpha value written into every rendered pixel.
pub const OPAQUE: u8 = 255;

/// A palette is usable when it holds at least one RGB triple and only whole triples.
pub open spec fn valid_palette(p: Seq<u8>) -> bool {
    p.len() >= 3 && p.len() % 3 == 0
}

/// Offset of the RGB triple used for a step count: three bytes per step,
/// clamped to the last triple of the palette.
pub open spec fn spec_palette_index(step: u32, palette_len: nat) -> nat {
    if 3 * step <= palette_len - 3 {
        (3 * step) as nat
    } else {
        (palette_len - 3) as nat
    }
}

/// The RGBA bytes of the pixel whose step count is `step`.
pub open spec fn spec_pixel_bytes(palette: Seq<u8>, step: u32) -> Seq<u8> {
    let k = spec_palette_index(step, palette.len()) as int;
    seq![palette[k], palette[k + 1], palette[k + 2], OPAQUE]
}

/// The palette lookup never leaves the palette: the triple read for any step
/// count starts at most three bytes before its end, and a step count whose
/// triple would lie past the end reads the last triple.
pub proof fn lemma_palette_index_clamped(step: u32, palette_len: nat)
    requires
        palette_len >= 3,
    ensures
        spec_palette_index(step, palette_len) + 3 <= palette_len,
        step >= palette_len / 3 ==> spec_palette_index(step, palette_len) == palette_len - 3,
{
}

/// An RGBA color.
#[derive(Copy, Clone, Debug, PartialEq, Eq, Structural)]
pub struct Color {
    pub r: u8,
    pub g: u8,
    pub b: u8,
    pub a: u8,
}

impl Color {
    pub open spec fn bytes(self) -> Seq<u8> {
        seq![self.r, self.g, self.b, self.a]
    }
}

/// Offset into a palette of `palette_len` bytes of the triple for `step`.
pub fn palette_index(step: u32, palette_len: usize) -> (r: usize)
    requires
        palette_len >= 3,
    ensures
        r == spec_palette_index(step, palette_len as nat),
        r + 3 <= palette_len,
        3 * step <= palette_len - 3 ==> r == 3 * step,
{
    let limit: usize = palette_len - 3;
    if (step as u64) <= (limit as u64) / 3 {
        3 * (step as usize)
    } else {
        limit
    }
}

/// The color of a pixel whose step count is `step`, read from `palette`.
pub fn pixel_color(palette: &[u8], step: u32) -> (c: Color)
    requires
        palette@.len() >= 3,
    ensures
        c.bytes() == spec_pixel_bytes(palette@, step),
{
    let k = palette_index(step, palette.len());
    Color { r: palette[k], g: palette[k + 1], b: palette[k + 2], a: OPAQUE }
}

/// The palette tables of every `Colormap`, in enumeration order.
pub struct PaletteSet {
    tables: Vec<Vec<u8>>,
}

impl View for PaletteSet {
    type V = Seq<Seq<u8>>;

    closed spec fn view(&self) -> Seq<Seq<u8>> {
        self.tables@.map_values(|t: Vec<u8>| t@)
    }
}

impl PaletteSet {
    /// One table for each colormap, each of them a valid palette.
    pub open spec fn wf(&self) -> bool {
        &&& self@.len() == COLORMAP_COUNT
        &&& forall|i: int| 0 <= i < self@.len() ==> valid_palette(#[trigger] self@[i])
    }

    /// Builds the set from one table per colormap, in enumeration order.
    /// Fails when the count is wrong or a table is not a valid palette.
    pub fn new(tables: Vec<Vec<u8>>) -> (r: Option<PaletteSet>)
        ensures
            r.is_some() <==> (tables@.len() == COLORMAP_COUNT && forall|i: int|
                0 <= i < tables@.len() ==> valid_palette(#[trigger] tables@[i]@)),
            r matches Some(s) ==> s@ == tables@.map_values(|t: Vec<u8>| t@) && s.wf(),
    {
        if tables.len() != COLORMAP_COUNT {
            return None;
        }
        let mut i: usize = 0;
        while i < tables.len()
            invariant
                0 <= i <= tables@.len(),
                forall|j: int| 0 <= j < i ==> valid_palette(#[trigger] tables@[j]@),
            decreases tables@.len() - i,
        {
            let n = tables[i].len();
            if n < 3 || n % 3 != 0 {
                assert(!valid_palette(tables@[i as int]@));
                return None;
            }
            i = i + 1;
        }
        let s = PaletteSet { tables };
        assert forall|i: int| 0 <= i < s@.len() implies valid_palette(#[trigger] s@[i]) by {
            assert(s@[i] == s.tables@[i]@);
        }
        Some(s)
    }
}

impl Colormap {
    /// The palette bytes of this colormap in `set`.
    pub fn to_colormap<'a>(&self, set: &'a PaletteSet) -> (r: &'a [u8])
        requires
            set.wf(),
        ensures
            r@ == set@[self.spec_index() as int],
            valid_palette(r@),
    {
        let i = self.index();
        assert(set@[i as int] == set.tables@[i as int]@);
        set.tables[i].as_slice()
    }
}

} // verus!
