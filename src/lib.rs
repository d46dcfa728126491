use vstd::prelude::*;

pub mod ansi;
pub mod control;
pub mod coords;
pub mod image;
pub mod shared;
pub mod transport;

verus! {

/// Width, in pixels, of the frames that are captured and streamed.
pub const IMAGE_WIDTH: usize = 720;

/// Height, in pixels, of the frames that are captured and streamed.
pub const IMAGE_HEIGHT: usize = 180;

} // verus!
