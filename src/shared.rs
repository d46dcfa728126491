use vstd::prelude::*;

use crate::coords::map_in_bounds;
use crate::image::{frame_len, FrameError, FrameView, Image};

verus! {

/// The one frame that a producer replaces and a render pass reads.
///
/// Only the latest frame is kept: a replace discards the previous bytes,
/// and nothing is queued.
pub struct SharedImage {
    image: Image,
}

impl View for SharedImage {
    type V = FrameView;

    closed spec fn view(&self) -> FrameView {
        self.image@
    }
}

impl SharedImage {
    /// A cell holding the placeholder frame of the given size.
    pub fn default(image_height: i32, image_width: i32, image_map: Vec<(usize, usize)>) -> (r:
        SharedImage)
        requires
            image_height >= 0,
            image_width >= 0,
            frame_len(image_width as int, image_height as int) <= usize::MAX,
            map_in_bounds(image_map@, image_width as nat, image_height as nat),
        ensures
            r@.width == image_width,
            r@.height == image_height,
            r@.map == image_map@,
            r@.pixels.len() == frame_len(image_width as int, image_height as int),
            forall|i: int| 0 <= i < r@.pixels.len() ==> #[trigger] r@.pixels[i] == (i % 256) as u8,
    {
        let image = Image::default(image_height, image_width, image_map);
        SharedImage { image }
    }

    /// Replaces the frame's bytes with `color`; a buffer of the wrong length
    /// is refused and the frame stays as it was.
    pub fn update(&mut self, color: Vec<u8>) -> (r: Result<(), FrameError>)
        ensures
            r is Ok <==> old(self)@.accepts(color@),
            final(self)@ == old(self)@.replace(color@),
            r matches Err(e) ==> e == (FrameError::LengthMismatch {
                expected: frame_len(old(self)@.width as int, old(self)@.height as int) as u64,
                actual: color@.len() as u64,
            }),
    {
        self.image.update(color)
    }

    /// The current frame.
    pub fn image(&self) -> (r: &Image)
        ensures
            r@ == self@,
    {
        &self.image
    }
}

/// Read after write: once a buffer of the right length is written, the next
/// read sees exactly that buffer.
pub proof fn lemma_read_after_write(frame: FrameView, pixels: Seq<u8>)
    requires
        frame.accepts(pixels),
    ensures
        frame.replace(pixels).pixels == pixels,
{
}

/// Latest wins: after two writes with no read between them, a read sees the
/// second buffer, and the frame is as if the first had never been written.
pub proof fn lemma_latest_wins(frame: FrameView, first: Seq<u8>, second: Seq<u8>)
    requires
        frame.accepts(second),
    ensures
        frame.replace(first).replace(second) == frame.replace(second),
        frame.replace(first).replace(second).pixels == second,
{
}

} // verus!
