use vstd::prelude::*;
use vstd::slice::slice_to_vec;

use crate::image::{frame_of, frame_ok, FrameView, Image};
use crate::shared::SharedImage;

verus! {

/// A message of the streaming channel: a frame's bytes, or text that the
/// frame pipeline does not read.
pub enum WireMessage {
    Text(String),
    Binary(Vec<u8>),
}

/// What receiving a message did to the shared frame.
#[derive(Clone, Copy, Debug, PartialEq, Eq, Structural)]
pub enum MessageOutcome {
    /// A text message: the frame is untouched.
    Ignored,
    /// A binary message of the frame's length: it is the new frame.
    Applied,
    /// A binary message of another length: the frame is untouched.
    Rejected,
}

/// The frame that `frame` becomes when `msg` arrives.
pub open spec fn received(frame: FrameView, msg: WireMessage) -> FrameView {
    match msg {
        WireMessage::Text(_) => frame,
        WireMessage::Binary(v) => frame.replace(v@),
    }
}

/// How receiving `msg` on `frame` is reported.
pub open spec fn outcome(frame: FrameView, msg: WireMessage) -> MessageOutcome {
    match msg {
        WireMessage::Text(_) => MessageOutcome::Ignored,
        WireMessage::Binary(v) => if frame.accepts(v@) {
            MessageOutcome::Applied
        } else {
            MessageOutcome::Rejected
        },
    }
}

/// The message that carries a frame: one binary message of its bytes as
/// they are, with no header.
pub fn frame_message(image: &Image) -> (r: WireMessage)
    ensures
        r matches WireMessage::Binary(v) && v@ == image@.pixels,
{
    WireMessage::Binary(slice_to_vec(image.color().as_slice()))
}

/// Hands a received message to the shared frame: binary messages of the
/// frame's length replace it, all else leaves it as it was.
pub fn receive_message(shared: &mut SharedImage, msg: WireMessage) -> (r: MessageOutcome)
    ensures
        final(shared)@ == received(old(shared)@, msg),
        r == outcome(old(shared)@, msg),
{
    match msg {
        WireMessage::Text(_) => MessageOutcome::Ignored,
        WireMessage::Binary(v) => match shared.update(v) {
            Ok(()) => MessageOutcome::Applied,
            Err(_) => MessageOutcome::Rejected,
        },
    }
}

/// Round trip: the bytes of a frame's message rebuild that same frame, and
/// a receiver of the same size that takes the message holds exactly those
/// bytes.
pub proof fn lemma_round_trip(frame: FrameView, receiver: FrameView, msg: WireMessage)
    requires
        frame.valid(),
        frame.width <= i32::MAX,
        frame.height <= i32::MAX,
        msg matches WireMessage::Binary(v) && v@ == frame.pixels,
        receiver.width == frame.width,
        receiver.height == frame.height,
    ensures
        msg matches WireMessage::Binary(v) && frame_ok(
            v@.len() as int,
            frame.map,
            frame.height as i32,
            frame.width as i32,
        ) && frame_of(v@, frame.map, frame.height as i32, frame.width as i32) == frame,
        received(receiver, msg).pixels == frame.pixels,
        outcome(receiver, msg) == MessageOutcome::Applied,
{
}

} // verus!
