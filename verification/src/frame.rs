//! The frame: a row-major buffer of RGBA pixels, four bytes each.
use crate::pixel::Rgba;
use vstd::prelude::*;

verus! {

/// Bytes taken by one pixel.
pub const CHANNELS: usize = 4;

/// Offset of the first byte of pixel `(x, y)` in a frame `width` pixels wide.
pub open spec fn pixel_offset(x: int, y: int, width: int) -> int {
    (x + y * width) * 4
}

/// Number of bytes in a frame of `width` by `height` pixels.
pub open spec fn frame_len(width: int, height: int) -> int {
    width * height * 4
}

/// Whether `(x, y)` names a pixel of a `width` by `height` frame.
pub open spec fn in_frame(x: int, y: int, width: int, height: int) -> bool {
    0 <= x < width && 0 <= y < height
}

/// The four bytes of a pixel lie inside the buffer.
pub proof fn lemma_pixel_in_bounds(x: int, y: int, width: int, height: int)
    requires
        in_frame(x, y, width, height),
    ensures
        0 <= pixel_offset(x, y, width),
        pixel_offset(x, y, width) + 4 <= frame_len(width, height),
        0 <= x + y * width < width * height,
{
    assert(0 <= y * width && y * width + width <= height * width) by (nonlinear_arith)
        requires
            0 <= y < height,
            0 < width,
    ;
    assert(height * width == width * height) by (nonlinear_arith);
}

/// Two different pixels of a frame share no byte.
pub proof fn lemma_pixels_disjoint(x1: int, y1: int, x2: int, y2: int, width: int)
    requires
        0 <= x1 < width,
        0 <= x2 < width,
        0 <= y1,
        0 <= y2,
        x1 != x2 || y1 != y2,
    ensures
        pixel_offset(x1, y1, width) + 4 <= pixel_offset(x2, y2, width) || pixel_offset(
            x2,
            y2,
            width,
        ) + 4 <= pixel_offset(x1, y1, width),
{
    if y1 < y2 {
        assert(y1 * width + width <= y2 * width) by (nonlinear_arith)
            requires
                y1 < y2,
                0 < width,
        ;
    } else if y2 < y1 {
        assert(y2 * width + width <= y1 * width) by (nonlinear_arith)
            requires
                y2 < y1,
                0 < width,
        ;
    }
}

/// Every byte of a frame belongs to a pixel: byte `i` is channel `i % 4` of
/// the pixel in column `(i / 4) % width` of row `(i / 4) / width`.
pub proof fn lemma_byte_belongs_to_pixel(i: int, width: int, height: int)
    requires
        0 <= width,
        0 <= height,
        0 <= i < frame_len(width, height),
    ensures
        in_frame((i / 4) % width, (i / 4) / width, width, height),
        i == pixel_offset((i / 4) % width, (i / 4) / width, width) + i % 4,
        0 <= i % 4 < 4,
{
    let k = i / 4;
    assert(0 < width) by (nonlinear_arith)
        requires
            0 <= width,
            0 <= i < width * height * 4,
    ;
    assert(0 <= k < width * height);
    vstd::arithmetic::div_mod::lemma_fundamental_div_mod(k, width);
    vstd::arithmetic::div_mod::lemma_mod_bound(k, width);
    let x = k % width;
    let y = k / width;
    assert(width * y == y * width) by (nonlinear_arith);
    assert(0 <= y < height) by (nonlinear_arith)
        requires
            k == width * y + x,
            0 <= x < width,
            0 <= k < width * height,
    ;
}

/// `bytes` with the four bytes from offset `o` on replaced by pixel `p`.
pub open spec fn with_pixel(bytes: Seq<u8>, o: int, p: Rgba) -> Seq<u8> {
    bytes.update(o, p.r).update(o + 1, p.g).update(o + 2, p.b).update(o + 3, p.a)
}

/// Writes to two different pixels do not depend on their order, so a frame
/// may be filled in any order of traversal.
pub proof fn lemma_writes_commute(
    bytes: Seq<u8>,
    width: int,
    height: int,
    x1: int,
    y1: int,
    p1: Rgba,
    x2: int,
    y2: int,
    p2: Rgba,
)
    requires
        bytes.len() == frame_len(width, height),
        in_frame(x1, y1, width, height),
        in_frame(x2, y2, width, height),
        x1 != x2 || y1 != y2,
    ensures
        with_pixel(with_pixel(bytes, pixel_offset(x1, y1, width), p1), pixel_offset(x2, y2, width), p2)
            == with_pixel(
            with_pixel(bytes, pixel_offset(x2, y2, width), p2),
            pixel_offset(x1, y1, width),
            p1,
        ),
{
    lemma_pixel_in_bounds(x1, y1, width, height);
    lemma_pixel_in_bounds(x2, y2, width, height);
    lemma_pixels_disjoint(x1, y1, x2, y2, width);
}

/// An image under construction or finished: `width * height` pixels, stored
/// row by row, each as red, green, blue, alpha.
///
/// The view of a frame is its byte buffer.
#[derive(Debug)]
pub struct Frame {
    width: u32,
    height: u32,
    data: Vec<u8>,
}

impl View for Frame {
    type V = Seq<u8>;

    closed spec fn view(&self) -> Seq<u8> {
        self.data@
    }
}

impl Frame {
    pub closed spec fn spec_width(&self) -> u32 {
        self.width
    }

    pub closed spec fn spec_height(&self) -> u32 {
        self.height
    }

    /// The buffer has exactly the bytes of its pixels. Every frame that
    /// runs through executable code satisfies this.
    #[verifier::type_invariant]
    pub open spec fn wf(&self) -> bool {
        self@.len() == frame_len(self.spec_width() as int, self.spec_height() as int)
    }

    /// Whether `(x, y)` names a pixel of this frame.
    pub open spec fn contains(&self, x: int, y: int) -> bool {
        in_frame(x, y, self.spec_width() as int, self.spec_height() as int)
    }

    /// The pixel stored at `(x, y)`.
    pub open spec fn pixel_at(&self, x: int, y: int) -> Rgba {
        let o = pixel_offset(x, y, self.spec_width() as int);
        Rgba { r: self@[o], g: self@[o + 1], b: self@[o + 2], a: self@[o + 3] }
    }

    /// A frame of the given size with every byte zero; none where its
    /// buffer would have more bytes than a `usize` can count.
    pub fn new(width: u32, height: u32) -> (frame: Option<Frame>)
        ensures
            frame is Some <==> frame_len(width as int, height as int) <= usize::MAX,
            frame matches Some(f) ==> {
                &&& f.wf()
                &&& f.spec_width() == width
                &&& f.spec_height() == height
                &&& forall|i: int| 0 <= i < f@.len() ==> f@[i] == 0
            },
    {
        proof {
            assert(0 <= width * height <= u32::MAX * u32::MAX) by (nonlinear_arith);
        }
        let wanted: u128 = width as u128 * height as u128 * 4;
        if wanted > usize::MAX as u128 {
            return None;
        }
        let data: Vec<u8> = vec![0u8; wanted as usize];
        Some(Frame { width, height, data })
    }

    #[verifier::when_used_as_spec(spec_width)]
    pub fn width(&self) -> (w: u32)
        ensures
            w == self.spec_width(),
    {
        self.width
    }

    #[verifier::when_used_as_spec(spec_height)]
    pub fn height(&self) -> (h: u32)
        ensures
            h == self.spec_height(),
    {
        self.height
    }

    /// Where pixel `(x, y)` starts in the buffer.
    pub fn offset(&self, x: u32, y: u32) -> (o: usize)
        requires
            self.contains(x as int, y as int),
        ensures
            o == pixel_offset(x as int, y as int, self.spec_width() as int),
            o + 4 <= self@.len(),
    {
        proof {
            use_type_invariant(self);
            lemma_pixel_in_bounds(x as int, y as int, self.width as int, self.height as int);
            assert(self.data.len() == frame_len(self.width as int, self.height as int));
        }
        (x as usize + y as usize * self.width as usize) * CHANNELS
    }

    /// Reads the pixel at `(x, y)`.
    pub fn get(&self, x: u32, y: u32) -> (p: Rgba)
        requires
            self.contains(x as int, y as int),
        ensures
            p == self.pixel_at(x as int, y as int),
    {
        let o = self.offset(x, y);
        Rgba { r: self.data[o], g: self.data[o + 1], b: self.data[o + 2], a: self.data[o + 3] }
    }

    /// Writes `p` at `(x, y)`. Its four bytes change; no other byte does, so
    /// every other pixel keeps its value.
    pub fn put(&mut self, x: u32, y: u32, p: Rgba)
        requires
            old(self).contains(x as int, y as int),
        ensures
            final(self).wf(),
            final(self).spec_width() == old(self).spec_width(),
            final(self).spec_height() == old(self).spec_height(),
            final(self)@ == with_pixel(
                old(self)@,
                pixel_offset(x as int, y as int, old(self).spec_width() as int),
                p,
            ),
            final(self).pixel_at(x as int, y as int) == p,
            forall|u: int, v: int|
                old(self).contains(u, v) && (u != x || v != y) ==> #[trigger] final(self).pixel_at(
                    u,
                    v,
                ) == old(self).pixel_at(u, v),
    {
        proof {
            use_type_invariant(&*self);
        }
        let o = self.offset(x, y);
        self.data[o] = p.r;
        self.data[o + 1] = p.g;
        self.data[o + 2] = p.b;
        self.data[o + 3] = p.a;
        proof {
            let w = self.width as int;
            assert forall|u: int, v: int|
                old(self).contains(u, v) && (u != x || v != y) implies #[trigger] self.pixel_at(
                u,
                v,
            ) == old(self).pixel_at(u, v) by {
                lemma_pixels_disjoint(u, v, x as int, y as int, w);
                lemma_pixel_in_bounds(u, v, w, self.height as int);
            }
        }
    }

    /// The buffer, as an encoder takes it.
    pub fn as_bytes(&self) -> (bytes: &Vec<u8>)
        ensures
            bytes@ == self@,
    {
        &self.data
    }

    /// Gives up the frame for its buffer.
    pub fn into_bytes(self) -> (bytes: Vec<u8>)
        ensures
            bytes@ == self@,
    {
        self.data
    }
}

} // verus!
