//! Post-processing of rendered pixel buffers.
//!
//! A rendered page arrives as a tightly packed buffer of 4-byte pixels
//! in blue-green-red-alpha order.  Three transforms operate on such a
//! buffer in place: negating the three color channels for dark mode,
//! compositing each pixel over a white background, and swapping the
//! blue and red channels when a consumer expects the opposite channel
//! order.

use vstd::prelude::*;

verus! {

/// The color channels of the pixel holding index `i`, negated; the
/// alpha channel (every fourth byte) untouched.
pub open spec fn spec_invert_colors(s: Seq<u8>) -> Seq<u8> {
    Seq::new(s.len(), |i: int| if i % 4 == 3 {
        s[i]
    } else {
        (255 - s[i]) as u8
    })
}

/// Byte `i` after swapping the first and third channel of every pixel.
pub open spec fn spec_swap_red_blue(s: Seq<u8>) -> Seq<u8> {
    Seq::new(s.len(), |i: int| if i % 4 == 0 {
        s[i + 2]
    } else if i % 4 == 2 {
        s[i - 2]
    } else {
        s[i]
    })
}

/// One color channel blended toward white in proportion to the pixel's
/// transparency: `(c * a + 255 * (255 - a)) / 255`, rounded down.
pub open spec fn spec_composite_channel(c: u8, a: u8) -> u8 {
    (((c as int) * (a as int) + 255 * (255 - (a as int))) / 255) as u8
}

/// The buffer composited over a white background: every color channel
/// blended toward white by its pixel's alpha, every alpha channel
/// forced to full opacity.
pub open spec fn spec_composite_over_white(s: Seq<u8>) -> Seq<u8> {
    Seq::new(s.len(), |i: int| if i % 4 == 3 {
        255u8
    } else {
        spec_composite_channel(s[i], s[i - i % 4 + 3])
    })
}

/// Dark-mode inversion: negates the blue, green and red channel of
/// every pixel and leaves the alpha channel as it was.
pub fn invert_colors(pixels: &mut Vec<u8>)
    requires
        old(pixels)@.len() % 4 == 0,
    ensures
        final(pixels)@ == spec_invert_colors(old(pixels)@),
{
    let n = pixels.len();
    let mut i: usize = 0;
    while i < n
        invariant
            i <= n,
            n == pixels@.len(),
            pixels@.len() == old(pixels)@.len(),
            forall|j: int| 0 <= j < i ==> pixels@[j] == spec_invert_colors(old(pixels)@)[j],
            forall|j: int| i <= j < n ==> pixels@[j] == old(pixels)@[j],
        decreases n - i,
    {
        if i % 4 != 3 {
            let b = pixels[i];
            pixels.set(i, 255 - b);
        }
        i = i + 1;
    }
    proof {
        assert(pixels@ =~= spec_invert_colors(old(pixels)@));
    }
}

/// Swaps the first and third channel of every pixel, turning a
/// blue-green-red-alpha buffer into red-green-blue-alpha or back.
pub fn swap_red_blue(pixels: &mut Vec<u8>)
    requires
        old(pixels)@.len() % 4 == 0,
    ensures
        final(pixels)@ == spec_swap_red_blue(old(pixels)@),
{
    let n = pixels.len();
    let mut i: usize = 0;
    while i < n
        invariant
            i <= n,
            i % 4 == 0,
            n == pixels@.len(),
            n % 4 == 0,
            pixels@.len() == old(pixels)@.len(),
            forall|j: int| 0 <= j < i ==> pixels@[j] == spec_swap_red_blue(old(pixels)@)[j],
            forall|j: int| i <= j < n ==> pixels@[j] == old(pixels)@[j],
        decreases n - i,
    {
        let first = pixels[i];
        let third = pixels[i + 2];
        pixels.set(i, third);
        pixels.set(i + 2, first);
        i = i + 4;
    }
    proof {
        assert(pixels@ =~= spec_swap_red_blue(old(pixels)@));
    }
}

/// One channel of the alpha-over-white blend, in executable form.
fn composite_channel(c: u8, a: u8) -> (r: u8)
    ensures
        r == spec_composite_channel(c, a),
{
    proof {
        assert((c as int) * (a as int) + 255 * (255 - (a as int)) <= 255 * 255) by (nonlinear_arith)
            requires
                0 <= c <= 255,
                0 <= a <= 255,
        ;
    }
    let num: u32 = (c as u32) * (a as u32) + 255 * (255 - (a as u32));
    (num / 255) as u8
}

/// Composites the buffer over a white background: each color channel
/// is blended toward white in proportion to `(255 - alpha) / 255`, and
/// the alpha channel is then forced to full opacity.
pub fn composite_over_white(pixels: &mut Vec<u8>)
    requires
        old(pixels)@.len() % 4 == 0,
    ensures
        final(pixels)@ == spec_composite_over_white(old(pixels)@),
{
    let n = pixels.len();
    let mut i: usize = 0;
    while i < n
        invariant
            i <= n,
            n == pixels@.len(),
            n % 4 == 0,
            pixels@.len() == old(pixels)@.len(),
            forall|j: int| 0 <= j < i ==> pixels@[j] == spec_composite_over_white(old(pixels)@)[j],
            forall|j: int| i <= j < n ==> pixels@[j] == old(pixels)@[j],
        decreases n - i,
    {
        if i % 4 == 3 {
            pixels.set(i, 255);
        } else {
            proof {
                assert(i - i % 4 + 3 < n);
            }
            let alpha_index = i - (i % 4) + 3;
            let a = pixels[alpha_index];
            let c = pixels[i];
            pixels.set(i, composite_channel(c, a));
        }
        i = i + 1;
    }
    proof {
        assert(pixels@ =~= spec_composite_over_white(old(pixels)@));
    }
}

/// Negating the color channels twice restores the buffer.
pub proof fn lemma_invert_colors_involution(s: Seq<u8>)
    ensures
        spec_invert_colors(spec_invert_colors(s)) == s,
{
    assert(spec_invert_colors(spec_invert_colors(s)) =~= s);
}

/// Swapping the first and third channel twice restores the buffer.
pub proof fn lemma_swap_red_blue_involution(s: Seq<u8>)
    requires
        s.len() % 4 == 0,
    ensures
        spec_swap_red_blue(spec_swap_red_blue(s)) == s,
{
    assert(spec_swap_red_blue(spec_swap_red_blue(s)) =~= s);
}

} // verus!
