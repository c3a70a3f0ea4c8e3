//! Rendering: from one shading outcome per pixel to the finished frame.
use crate::frame::{frame_len, lemma_byte_belongs_to_pixel, lemma_pixel_in_bounds, Frame};
use crate::pixel::{Rgb, Rgba, OPAQUE};
use vstd::prelude::*;

verus! {

/// The buffer that a row-major list of shading outcomes renders to: byte
/// `i` is channel `i % 4` of the pixel for outcome `i / 4`.
pub open spec fn rendered_bytes(shades: Seq<Option<Rgb>>) -> Seq<u8> {
    Seq::new(shades.len() * 4, |i: int| Rgba::spec_from_shade(shades[i / 4]).channel(i % 4))
}

/// `frame` shows `shades`: there is one outcome for each of its pixels, and
/// pixel `(x, y)` is the pixel for outcome `x + y * width`.
pub open spec fn shows(frame: Frame, shades: Seq<Option<Rgb>>) -> bool {
    &&& frame.wf()
    &&& shades.len() == frame.spec_width() * frame.spec_height()
    &&& forall|x: int, y: int|
        frame.contains(x, y) ==> #[trigger] frame.pixel_at(x, y) == Rgba::spec_from_shade(
            shades[x + y * frame.spec_width()],
        )
}

/// A frame that shows `shades` holds exactly `rendered_bytes(shades)`: the
/// pixels leave no byte of the buffer open.
pub proof fn lemma_shown_bytes(frame: Frame, shades: Seq<Option<Rgb>>)
    requires
        shows(frame, shades),
    ensures
        frame@ == rendered_bytes(shades),
{
    let w = frame.spec_width() as int;
    let h = frame.spec_height() as int;
    assert(frame@.len() == rendered_bytes(shades).len());
    assert forall|i: int| 0 <= i < frame@.len() implies frame@[i] == rendered_bytes(shades)[i] by {
        lemma_byte_belongs_to_pixel(i, w, h);
        let x = (i / 4) % w;
        let y = (i / 4) / w;
        assert(frame.pixel_at(x, y) == Rgba::spec_from_shade(shades[x + y * w]));
        assert(x + y * w == i / 4);
    }
}

/// Rendering is a function of the shading outcomes alone: two frames that
/// show the same outcomes are equal byte for byte.
pub proof fn lemma_rendering_is_unique(a: Frame, b: Frame, shades: Seq<Option<Rgb>>)
    requires
        shows(a, shades),
        shows(b, shades),
    ensures
        a@ == b@,
{
    lemma_shown_bytes(a, shades);
    lemma_shown_bytes(b, shades);
}

/// Every fourth byte of a rendered buffer, the alpha of its pixel, is 255.
pub proof fn lemma_rendered_alpha(shades: Seq<Option<Rgb>>, i: int)
    requires
        0 <= i < rendered_bytes(shades).len(),
        i % 4 == 3,
    ensures
        rendered_bytes(shades)[i] == OPAQUE,
{
}

/// Renders a `width` by `height` image from the shading outcomes of its
/// pixels, listed row by row: a miss becomes opaque black, a hit its colour
/// at full opacity.
///
/// There is no frame where `shades` does not hold one outcome per pixel, or
/// where the buffer would have more bytes than a `usize` can count.
pub fn render(width: u32, height: u32, shades: &Vec<Option<Rgb>>) -> (rendered: Option<Frame>)
    ensures
        rendered is Some <==> shades.len() == width * height && frame_len(
            width as int,
            height as int,
        ) <= usize::MAX,
        rendered matches Some(frame) ==> {
            &&& frame.spec_width() == width
            &&& frame.spec_height() == height
            &&& shows(frame, shades@)
            &&& frame@ == rendered_bytes(shades@)
            &&& forall|x: int, y: int|
                frame.contains(x, y) ==> (#[trigger] frame.pixel_at(x, y)).a == OPAQUE
        },
{
    proof {
        assert(0 <= width * height <= u32::MAX * u32::MAX) by (nonlinear_arith);
    }
    if shades.len() as u64 != width as u64 * height as u64 {
        return None;
    }
    let mut frame = match Frame::new(width, height) {
        Some(frame) => frame,
        None => {
            return None;
        },
    };
    for x in 0..width
        invariant
            frame.wf(),
            frame.spec_width() == width,
            frame.spec_height() == height,
            shades.len() == width * height,
            frame_len(width as int, height as int) <= usize::MAX,
            forall|u: int, v: int|
                0 <= u < x && 0 <= v < height ==> #[trigger] frame.pixel_at(u, v)
                    == Rgba::spec_from_shade(shades@[u + v * width]),
    {
        for y in 0..height
            invariant
                x < width,
                frame.wf(),
                frame.spec_width() == width,
                frame.spec_height() == height,
                shades.len() == width * height,
                frame_len(width as int, height as int) <= usize::MAX,
                forall|u: int, v: int|
                    (0 <= u < x && 0 <= v < height) || (u == x && 0 <= v < y)
                        ==> #[trigger] frame.pixel_at(u, v) == Rgba::spec_from_shade(
                        shades@[u + v * width],
                    ),
        {
            proof {
                lemma_pixel_in_bounds(x as int, y as int, width as int, height as int);
            }
            let k: usize = x as usize + y as usize * width as usize;
            let shade: Option<Rgb> = shades[k];
            frame.put(x, y, Rgba::from_shade(shade));
        }
    }
    proof {
        lemma_shown_bytes(frame, shades@);
    }
    Some(frame)
}

} // verus!
