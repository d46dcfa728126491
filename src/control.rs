use vstd::prelude::*;

use crate::shared::SharedImage;

verus! {

/// The key that ends a session.
pub const QUIT_KEY: char = 'q';

/// What the render loop does after a tick's input poll.
#[derive(Clone, Copy, Debug, PartialEq, Eq, Structural)]
pub enum RenderAction {
    /// Draw the current frame and wait for the next tick.
    Redraw,
    /// Send the quit signal to the producer and leave the loop.
    Quit,
}

/// What happened in one iteration of the producer loop.
#[derive(Clone, Copy, Debug, PartialEq, Eq, Structural)]
pub enum ProducerEvent {
    /// No frame this time: the capture failed or gave a frame of the wrong size.
    FrameDropped,
    /// The frame reached its sink.
    Delivered,
    /// The peer is gone: sending failed.
    SendFailed,
}

/// What the producer loop does next.
#[derive(Clone, Copy, Debug, PartialEq, Eq, Structural)]
pub enum ProducerAction {
    /// Capture the next frame.
    Continue,
    /// Close the connection, if any, and leave the loop.
    CloseAndStop,
}

/// The render loop's decision for the key read in a tick, if any.
pub open spec fn render_decision(key: Option<char>) -> RenderAction {
    if key == Some(QUIT_KEY) {
        RenderAction::Quit
    } else {
        RenderAction::Redraw
    }
}

/// The producer loop's decision after `event`, given whether the quit
/// signal has arrived.
pub open spec fn producer_decision(event: ProducerEvent, quit_received: bool) -> ProducerAction {
    if quit_received || event == ProducerEvent::SendFailed {
        ProducerAction::CloseAndStop
    } else {
        ProducerAction::Continue
    }
}

/// Decides what the render loop does with the key read in a tick.
pub fn key_action(key: Option<char>) -> (r: RenderAction)
    ensures
        r == render_decision(key),
{
    match key {
        Some(c) => if c == QUIT_KEY {
            RenderAction::Quit
        } else {
            RenderAction::Redraw
        },
        None => RenderAction::Redraw,
    }
}

/// How long the input poll may wait: what is left of the tick, or nothing
/// once the tick is over.
pub fn poll_timeout(tick_rate: u64, elapsed: u64) -> (r: u64)
    ensures
        r == if elapsed <= tick_rate {
            tick_rate - elapsed
        } else {
            0
        },
{
    if elapsed <= tick_rate {
        tick_rate - elapsed
    } else {
        0
    }
}

/// Whether the current tick is over, so that the next one starts now.
pub fn tick_finished(tick_rate: u64, elapsed: u64) -> (r: bool)
    ensures
        r == (elapsed >= tick_rate),
{
    elapsed >= tick_rate
}

/// Whether a key code read by the preview window's key poll ends the
/// preview: any key pressed, where `0` or below and `255` mean none.
pub fn preview_key_stops(key: i32) -> (r: bool)
    ensures
        r == (key > 0 && key != 255),
{
    key > 0 && key != 255
}

/// Decides what the producer loop does after `event`: a failed send or the
/// quit signal ends it, a dropped frame is retried on the next iteration.
pub fn producer_step(event: ProducerEvent, quit_received: bool) -> (r: ProducerAction)
    ensures
        r == producer_decision(event, quit_received),
{
    if quit_received {
        return ProducerAction::CloseAndStop;
    }
    match event {
        ProducerEvent::SendFailed => ProducerAction::CloseAndStop,
        ProducerEvent::FrameDropped => ProducerAction::Continue,
        ProducerEvent::Delivered => ProducerAction::Continue,
    }
}

/// Delivers a captured frame to the local shared frame; a frame of the
/// wrong size is dropped and the shared frame stays as it was.
pub fn deliver_local(shared: &mut SharedImage, frame: Vec<u8>) -> (r: ProducerEvent)
    ensures
        final(shared)@ == old(shared)@.replace(frame@),
        r == if old(shared)@.accepts(frame@) {
            ProducerEvent::Delivered
        } else {
            ProducerEvent::FrameDropped
        },
{
    match shared.update(frame) {
        Ok(()) => ProducerEvent::Delivered,
        Err(_) => ProducerEvent::FrameDropped,
    }
}

/// Quit: the quit key makes the render loop send the signal and leave at
/// once, and the producer, on its next iteration after the signal arrives,
/// closes its connection and leaves, whatever that iteration brought.
pub proof fn lemma_quit_stops_both(event: ProducerEvent)
    ensures
        render_decision(Some(QUIT_KEY)) == RenderAction::Quit,
        producer_decision(event, true) == ProducerAction::CloseAndStop,
{
}

} // verus!
