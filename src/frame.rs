use vstd::prelude::*;

use crate::palette::{pixel_color, spec_pixel_bytes};

verus! {

/// RGBA bytes of a run of pixels, given their step counts in order.
pub open spec fn frame_bytes(palette: Seq<u8>, steps: Seq<u32>) -> Seq<u8>
    decreases steps.len(),
{
    if steps.len() == 0 {
        Seq::empty()
    } else {
        frame_bytes(palette, steps.drop_last()) + spec_pixel_bytes(palette, steps.last())
    }
}

/// Every pixel contributes exactly four bytes.
pub proof fn lemma_frame_len(palette: Seq<u8>, steps: Seq<u32>)
    ensures
        frame_bytes(palette, steps).len() == 4 * steps.len(),
    decreases steps.len(),
{
    if steps.len() > 0 {
        lemma_frame_len(palette, steps.drop_last());
    }
}

/// Rendering two consecutive runs of pixels separately and joining the bytes
/// gives the same bytes as rendering the joined run at once.
pub proof fn lemma_frame_concat(palette: Seq<u8>, a: Seq<u32>, b: Seq<u32>)
    ensures
        frame_bytes(palette, a + b) == frame_bytes(palette, a) + frame_bytes(palette, b),
    decreases b.len(),
{
    if b.len() == 0 {
        assert(a + b =~= a);
        assert(frame_bytes(palette, a) + frame_bytes(palette, b) =~= frame_bytes(palette, a));
    } else {
        assert((a + b).drop_last() =~= a + b.drop_last());
        assert((a + b).last() == b.last());
        lemma_frame_concat(palette, a, b.drop_last());
        assert(frame_bytes(palette, a + b) =~= frame_bytes(palette, a) + frame_bytes(
            palette,
            b.drop_last(),
        ) + spec_pixel_bytes(palette, b.last()));
    }
}

/// However the pixels are split into consecutive bands, rendering each band on
/// its own and joining the results in band order yields the frame that a
/// single pass over all pixels yields: the output does not depend on how many
/// workers shared the bands.
pub proof fn lemma_frame_bands(palette: Seq<u8>, bands: Seq<Seq<u32>>)
    ensures
        frame_bytes(palette, bands.flatten()) == bands.map_values(
            |band: Seq<u32>| frame_bytes(palette, band),
        ).flatten(),
    decreases bands.len(),
{
    let rendered = bands.map_values(|band: Seq<u32>| frame_bytes(palette, band));
    if bands.len() == 0 {
        assert(frame_bytes(palette, bands.flatten()) =~= rendered.flatten());
    } else {
        let rest = bands.drop_first();
        lemma_frame_bands(palette, rest);
        lemma_frame_concat(palette, bands.first(), rest.flatten());
        assert(rendered.drop_first() =~= rest.map_values(
            |band: Seq<u32>| frame_bytes(palette, band),
        ));
    }
}

/// The four bytes of pixel `i` sit at offset `4 * i` of the frame.
pub proof fn lemma_frame_pixel(palette: Seq<u8>, steps: Seq<u32>, i: int)
    requires
        0 <= i < steps.len(),
    ensures
        frame_bytes(palette, steps).subrange(4 * i, 4 * i + 4) == spec_pixel_bytes(
            palette,
            steps[i],
        ),
{
    let head = steps.subrange(0, i);
    let mid = steps.subrange(i, i + 1);
    let tail = steps.subrange(i + 1, steps.len() as int);
    assert(steps =~= head + mid + tail);
    lemma_frame_concat(palette, head + mid, tail);
    lemma_frame_concat(palette, head, mid);
    lemma_frame_len(palette, head);
    assert(mid.drop_last() =~= Seq::<u32>::empty());
    assert(mid.last() == steps[i]);
    assert(frame_bytes(palette, mid.drop_last()) == Seq::<u8>::empty());
    assert(frame_bytes(palette, mid) =~= spec_pixel_bytes(palette, steps[i]));
    assert(frame_bytes(palette, steps).subrange(4 * i, 4 * i + 4) =~= spec_pixel_bytes(
        palette,
        steps[i],
    ));
}

/// The RGBA bytes of a run of pixels: for each step count, in order, the
/// palette triple it selects followed by an opaque alpha byte.
pub fn render_frame(steps: &[u32], palette: &[u8]) -> (r: Vec<u8>)
    requires
        palette@.len() >= 3,
        4 * steps@.len() <= usize::MAX,
    ensures
        r@ == frame_bytes(palette@, steps@),
        r@.len() == 4 * steps@.len(),
        forall|i: int|
            0 <= i < steps@.len() ==> r@.subrange(4 * i, 4 * i + 4) == #[trigger] spec_pixel_bytes(
                palette@,
                steps@[i],
            ),
{
    let mut out: Vec<u8> = Vec::with_capacity(4 * steps.len());
    let mut i: usize = 0;
    while i < steps.len()
        invariant
            0 <= i <= steps@.len(),
            palette@.len() >= 3,
            out@ == frame_bytes(palette@, steps@.subrange(0, i as int)),
        decreases steps@.len() - i,
    {
        let c = pixel_color(palette, steps[i]);
        out.push(c.r);
        out.push(c.g);
        out.push(c.b);
        out.push(c.a);
        proof {
            let done = steps@.subrange(0, i + 1);
            assert(done.drop_last() =~= steps@.subrange(0, i as int));
            assert(done.last() == steps@[i as int]);
            assert(out@ =~= frame_bytes(palette@, done));
        }
        i = i + 1;
    }
    proof {
        assert(steps@.subrange(0, i as int) =~= steps@);
        lemma_frame_len(palette@, steps@);
        assert forall|i: int| 0 <= i < steps@.len() implies out@.subrange(4 * i, 4 * i + 4)
            == #[trigger] spec_pixel_bytes(palette@, steps@[i]) by {
            lemma_frame_pixel(palette@, steps@, i);
        }
    }
    out
}

} // verus!
