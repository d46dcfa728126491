use vstd::prelude::*;
use vstd::slice::slice_to_vec;

use crate::coords::map_in_bounds;

verus! {

/// Width and height of a frame, in pixels.
#[derive(Clone, Copy, Debug, PartialEq, Eq, Structural)]
pub struct Size {
    pub width: i32,
    pub height: i32,
}

/// Why a buffer could not become a frame.
#[derive(Clone, Copy, Debug, PartialEq, Eq, Structural)]
pub enum FrameError {
    /// A width or a height below zero.
    NegativeSize,
    /// The buffer does not hold three bytes for each pixel.
    LengthMismatch { expected: u64, actual: u64 },
    /// Entry `index` of the coordinate map lies outside the frame.
    PointOutOfBounds { index: u64 },
}

/// A color as red, green and blue.
#[derive(Clone, Copy, Debug, PartialEq, Eq, Structural)]
pub struct Rgb {
    pub r: u8,
    pub g: u8,
    pub b: u8,
}

/// One point to paint on the canvas, whose origin is the frame's center.
#[derive(Clone, Copy, Debug, PartialEq, Eq, Structural)]
pub struct DrawCall {
    pub x: i64,
    pub y: i64,
    pub color: Rgb,
}

/// The abstract content of a frame: its bytes, its size and the positions
/// that are drawn.
pub struct FrameView {
    pub pixels: Seq<u8>,
    pub width: nat,
    pub height: nat,
    pub map: Seq<(usize, usize)>,
}

/// Number of bytes of a frame of `width` x `height` pixels: three per pixel.
pub open spec fn frame_len(width: int, height: int) -> int {
    width * height * 3
}

/// Offset of the first byte of pixel `(x, y)` in a frame `width` pixels wide.
pub open spec fn pixel_offset(x: int, y: int, width: int) -> int {
    3 * (x + width * y)
}

impl FrameView {
    /// Three bytes per pixel, and every mapped position inside the frame.
    pub open spec fn valid(self) -> bool {
        &&& self.pixels.len() == frame_len(self.width as int, self.height as int)
        &&& map_in_bounds(self.map, self.width, self.height)
    }

    /// Whether `pixels` may take the place of this frame's bytes.
    pub open spec fn accepts(self, pixels: Seq<u8>) -> bool {
        pixels.len() == frame_len(self.width as int, self.height as int)
    }

    /// The frame once its bytes are swapped for `pixels`; a buffer of the
    /// wrong length leaves it as it was.
    pub open spec fn replace(self, pixels: Seq<u8>) -> FrameView {
        if self.accepts(pixels) {
            FrameView { pixels, ..self }
        } else {
            self
        }
    }

    /// The point drawn for position `p`: the canvas origin sits at the
    /// frame's center and the y axis points up; the bytes at the pixel's
    /// offset are read as blue, green, red.
    pub open spec fn draw_call_at(self, p: (usize, usize)) -> DrawCall {
        let off = pixel_offset(p.0 as int, p.1 as int, self.width as int);
        DrawCall {
            x: (p.0 as int - (self.width as int) / 2) as i64,
            y: ((self.height as int) / 2 - p.1 as int) as i64,
            color: Rgb { r: self.pixels[off + 2], g: self.pixels[off + 1], b: self.pixels[off] },
        }
    }

    /// The points drawn for the whole frame, one per map entry, in map order.
    pub open spec fn draw_calls(self) -> Seq<DrawCall> {
        self.map.map_values(|p: (usize, usize)| self.draw_call_at(p))
    }
}

/// The frame that the constructors build from `pixels`, when they accept it.
pub open spec fn frame_of(
    pixels: Seq<u8>,
    map: Seq<(usize, usize)>,
    height: i32,
    width: i32,
) -> FrameView {
    FrameView { pixels, width: width as nat, height: height as nat, map }
}

/// Whether a frame can be built from a buffer of `len` bytes, with `map`.
pub open spec fn frame_ok(len: int, map: Seq<(usize, usize)>, height: i32, width: i32) -> bool {
    &&& height >= 0
    &&& width >= 0
    &&& len == frame_len(width as int, height as int)
    &&& map_in_bounds(map, width as nat, height as nat)
}

/// Whether map entry `i` lies outside a `width` x `height` frame.
pub open spec fn point_outside(map: Seq<(usize, usize)>, i: int, width: nat, height: nat) -> bool {
    map[i].0 >= width || map[i].1 >= height
}

/// Whether map entry `i` is the first that lies outside the frame.
pub open spec fn first_outside(map: Seq<(usize, usize)>, i: int, width: nat, height: nat) -> bool {
    &&& 0 <= i < map.len()
    &&& point_outside(map, i, width, height)
    &&& forall|j: int| 0 <= j < i ==> !#[trigger] point_outside(map, j, width, height)
}

/// The error that the constructors report for a buffer of `len` bytes and
/// `map`, when they do not accept them: the size first, then the length,
/// then the first map entry outside the frame.
pub open spec fn frame_error(len: int, map: Seq<(usize, usize)>, height: i32, width: i32) -> FrameError {
    if height < 0 || width < 0 {
        FrameError::NegativeSize
    } else if len != frame_len(width as int, height as int) {
        FrameError::LengthMismatch {
            expected: frame_len(width as int, height as int) as u64,
            actual: len as u64,
        }
    } else {
        let i = choose|i: int| #[trigger] first_outside(map, i, width as nat, height as nat);
        FrameError::PointOutOfBounds { index: i as u64 }
    }
}

/// The byte offset of any pixel of a `width` x `height` frame leaves room
/// for its three bytes inside the frame's buffer.
pub proof fn lemma_pixel_offset_in_bounds(width: nat, height: nat, x: nat, y: nat)
    requires
        x < width,
        y < height,
    ensures
        0 <= pixel_offset(x as int, y as int, width as int),
        pixel_offset(x as int, y as int, width as int) + 3 <= frame_len(
            width as int,
            height as int,
        ),
{
    assert(x + width * y + 1 <= width * height) by (nonlinear_arith)
        requires
            x < width,
            y < height,
    ;
    assert(3 * (x + width * y) + 3 <= width * height * 3) by (nonlinear_arith)
        requires
            x + width * y + 1 <= width * height,
    ;
}

/// A captured frame: its bytes, three per pixel in blue, green, red order,
/// row by row; its size; and the positions that are drawn.
pub struct Image {
    color: Vec<u8>,
    size: Size,
    image_map: Vec<(usize, usize)>,
}

impl View for Image {
    type V = FrameView;

    closed spec fn view(&self) -> FrameView {
        frame_of(self.color@, self.image_map@, self.size.height, self.size.width)
    }
}

impl Image {
    #[verifier::type_invariant]
    spec fn well_formed(self) -> bool {
        &&& self.size.width >= 0
        &&& self.size.height >= 0
        &&& self@.valid()
    }

    /// A placeholder frame of the given size whose byte `i` is `i` modulo 256.
    pub fn default(image_height: i32, image_width: i32, image_map: Vec<(usize, usize)>) -> (r:
        Image)
        requires
            image_height >= 0,
            image_width >= 0,
            frame_len(image_width as int, image_height as int) <= usize::MAX,
            map_in_bounds(image_map@, image_width as nat, image_height as nat),
        ensures
            r@.width == image_width,
            r@.height == image_height,
            r@.map == image_map@,
            r@.pixels.len() == frame_len(image_width as int, image_height as int),
            forall|i: int| 0 <= i < r@.pixels.len() ==> #[trigger] r@.pixels[i] == (i % 256) as u8,
    {
        assert(image_width * image_height <= image_width * image_height * 3) by (nonlinear_arith)
            requires
                image_width >= 0,
                image_height >= 0,
        ;
        let pixels: usize = image_width as usize * image_height as usize * 3;
        let mut v: Vec<u8> = Vec::new();
        let mut i: usize = 0;
        while i < pixels
            invariant
                i <= pixels,
                v@.len() == i,
                forall|k: int| 0 <= k < i ==> #[trigger] v@[k] == (k % 256) as u8,
            decreases pixels - i,
        {
            v.push((i % 256) as u8);
            i = i + 1;
        }
        let size = Size { width: image_width, height: image_height };
        Image { color: v, size, image_map }
    }

    /// Checks a buffer and a map against a size; `Ok(())` exactly when a
    /// frame can be built from them.
    fn check(len: usize, image_map: &Vec<(usize, usize)>, image_height: i32, image_width: i32) -> (r:
        Result<(), FrameError>)
        ensures
            r is Ok <==> frame_ok(len as int, image_map@, image_height, image_width),
            r matches Err(e) ==> e == frame_error(len as int, image_map@, image_height, image_width),
    {
        if image_height < 0 || image_width < 0 {
            return Err(FrameError::NegativeSize);
        }
        let h = image_height as u64;
        let w = image_width as u64;
        assert(w * h * 3 < 0x1_0000_0000_0000_0000) by (nonlinear_arith)
            requires
                h < 0x8000_0000,
                w < 0x8000_0000,
        ;
        let expected = w * h * 3;
        if len as u64 != expected {
            return Err(FrameError::LengthMismatch { expected, actual: len as u64 });
        }
        let mut i: usize = 0;
        while i < image_map.len()
            invariant
                i <= image_map@.len(),
                w == image_width,
                h == image_height,
                len as int == frame_len(image_width as int, image_height as int),
                forall|j: int|
                    0 <= j < i ==> !#[trigger] point_outside(image_map@, j, w as nat, h as nat),
            decreases image_map@.len() - i,
        {
            let (x, y) = image_map[i];
            if x as u64 >= w || y as u64 >= h {
                proof {
                    let m = image_map@;
                    let (wn, hn) = (image_width as nat, image_height as nat);
                    assert(point_outside(m, i as int, wn, hn));
                    assert(first_outside(m, i as int, wn, hn));
                    let k = choose|k: int| #[trigger] first_outside(m, k, wn, hn);
                    if k < i {
                        assert(!point_outside(m, k, wn, hn));
                    } else if k > i {
                        assert(!point_outside(m, i as int, wn, hn));
                    }
                    assert(k == i);
                    assert(frame_error(len as int, m, image_height, image_width) == (
                    FrameError::PointOutOfBounds { index: i as u64 }));
                }
                return Err(FrameError::PointOutOfBounds { index: i as u64 });
            }
            i = i + 1;
        }
        assert(map_in_bounds(image_map@, w as nat, h as nat)) by {
            assert forall|j: int| 0 <= j < image_map@.len() implies #[trigger] image_map@[j].0 < w
                && image_map@[j].1 < h by {
                assert(!point_outside(image_map@, j, w as nat, h as nat));
            }
        }
        Ok(())
    }

    /// Builds a frame from a buffer of three bytes per pixel; fails on a
    /// negative size, a buffer of the wrong length or a map entry outside
    /// the frame.
    pub fn new_from_vec(
        v: Vec<u8>,
        image_map: Vec<(usize, usize)>,
        image_height: i32,
        image_width: i32,
    ) -> (r: Result<Image, FrameError>)
        ensures
            r is Ok <==> frame_ok(v@.len() as int, image_map@, image_height, image_width),
            r matches Ok(img) ==> img@ == frame_of(v@, image_map@, image_height, image_width),
            r matches Err(e) ==> e == frame_error(
                v@.len() as int,
                image_map@,
                image_height,
                image_width,
            ),
    {
        match Image::check(v.len(), &image_map, image_height, image_width) {
            Ok(()) => {
                let size = Size { width: image_width, height: image_height };
                Ok(Image { color: v, size, image_map })
            },
            Err(e) => Err(e),
        }
    }

    /// Builds a frame from the payload of a binary message, copying it.
    pub fn new_from_bytes(
        bytes: &[u8],
        image_map: Vec<(usize, usize)>,
        image_height: i32,
        image_width: i32,
    ) -> (r: Result<Image, FrameError>)
        ensures
            r is Ok <==> frame_ok(bytes@.len() as int, image_map@, image_height, image_width),
            r matches Ok(img) ==> img@ == frame_of(bytes@, image_map@, image_height, image_width),
            r matches Err(e) ==> e == frame_error(
                bytes@.len() as int,
                image_map@,
                image_height,
                image_width,
            ),
    {
        Image::new_from_vec(slice_to_vec(bytes), image_map, image_height, image_width)
    }

    /// The frame's bytes.
    pub fn color(&self) -> (r: &Vec<u8>)
        ensures
            r@ == self@.pixels,
    {
        &self.color
    }

    /// The positions that are drawn.
    pub fn image_map(&self) -> (r: &Vec<(usize, usize)>)
        ensures
            r@ == self@.map,
    {
        &self.image_map
    }

    /// The frame's size.
    pub fn size(&self) -> (r: &Size)
        ensures
            r.width == self@.width,
            r.height == self@.height,
            self@.valid(),
    {
        proof {
            use_type_invariant(self);
        }
        &self.size
    }

    /// The points to paint for this frame: one per map entry, in map order,
    /// placed with the canvas origin at the frame's center and the y axis
    /// pointing up, colored from the pixel's bytes read as blue, green, red.
    pub fn draw_calls(&self) -> (r: Vec<DrawCall>)
        ensures
            r@ == self@.draw_calls(),
    {
        proof {
            use_type_invariant(self);
        }
        let w = self.size.width as usize;
        let h = self.size.height as usize;
        let left = (w / 2) as i64;
        let top = (h / 2) as i64;
        let len = self.color.len();
        let mut calls: Vec<DrawCall> = Vec::new();
        let mut i: usize = 0;
        while i < self.image_map.len()
            invariant
                i <= self@.map.len(),
                self@.valid(),
                len == self@.pixels.len(),
                w == self@.width,
                h == self@.height,
                w <= i32::MAX,
                h <= i32::MAX,
                left == w / 2,
                top == h / 2,
                calls@.len() == i,
                forall|k: int| 0 <= k < i ==> #[trigger] calls@[k] == self@.draw_call_at(self@.map[k]),
            decreases self@.map.len() - i,
        {
            let (x, y) = self.image_map[i];
            proof {
                assert(x < w && y < h);
                lemma_pixel_offset_in_bounds(w as nat, h as nat, x as nat, y as nat);
                assert(w * y <= x + w * y) by (nonlinear_arith)
                    requires
                        x >= 0,
                ;
            }
            let pixel = 3 * (x + w * y);
            let color = Rgb {
                r: self.color[pixel + 2],
                g: self.color[pixel + 1],
                b: self.color[pixel],
            };
            calls.push(DrawCall { x: x as i64 - left, y: top - y as i64, color });
            i = i + 1;
        }
        assert(calls@ =~= self@.draw_calls());
        calls
    }

    /// Swaps in new bytes; a buffer of the wrong length is refused and the
    /// frame stays as it was.
    pub fn update(&mut self, color: Vec<u8>) -> (r: Result<(), FrameError>)
        ensures
            r is Ok <==> old(self)@.accepts(color@),
            final(self)@ == old(self)@.replace(color@),
            r matches Err(e) ==> e == (FrameError::LengthMismatch {
                expected: frame_len(old(self)@.width as int, old(self)@.height as int) as u64,
                actual: color@.len() as u64,
            }),
    {
        proof {
            use_type_invariant(&*self);
        }
        let expected = self.color.len();
        if color.len() != expected {
            return Err(
                FrameError::LengthMismatch { expected: expected as u64, actual: color.len() as u64 },
            );
        }
        self.color = color;
        Ok(())
    }
}

} // verus!
