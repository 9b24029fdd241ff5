//! The sample stream: a bounded FIFO channel carries `(dx, dy)` motion
//! samples from the background sampler thread to the per-tick drain.
//!
//! The channel itself is `crossbeam_channel`; this module declares its
//! types and the three calls the pipeline makes, and builds the verified
//! per-tick step on top: drain whatever is queued, in arrival order, and
//! fold exactly those samples into the trail buffer.
//!
//! Nothing can be promised of what a receive returns — it depends on what
//! the sampler thread has sent so far — so the drain's contract is carried
//! by the tick step: whatever samples the drain handed over, the buffer
//! advances by exactly those, in order.

use vstd::prelude::*;

use crate::trail::{tick_spec, TrailBuffer};

verus! {

/// Capacity of the bounded sample channel; a full channel blocks the
/// sampler until the drain catches up.
pub const CHANNEL_CAP: usize = 10;

#[verifier::external_type_specification]
#[verifier::external_body]
#[verifier::reject_recursive_types(T)]
/// `crossbeam_channel`'s sending half, declared so it can cross verified
/// signatures; its value is opaque here.
pub struct ExSender<T>(crossbeam_channel::Sender<T>);

#[verifier::external_type_specification]
#[verifier::external_body]
#[verifier::reject_recursive_types(T)]
/// `crossbeam_channel`'s receiving half, declared so it can cross verified
/// signatures; its value is opaque here.
pub struct ExReceiver<T>(crossbeam_channel::Receiver<T>);

/// Relies on `crossbeam_channel::bounded`: creates a FIFO channel that
/// holds at most `cap` messages.  `bounded` panics only on a capacity too
/// large to initialize, which the bound on `cap` rules out.
#[verifier::external_body]
fn bounded_sample_channel(cap: usize) -> (ends: (
    crossbeam_channel::Sender<(i32, i32)>,
    crossbeam_channel::Receiver<(i32, i32)>,
))
    requires
        1 <= cap <= 65536,
{
    crossbeam_channel::bounded(cap)
}

/// Relies on `crossbeam_channel::Sender::send`: blocks while the channel
/// is full, delivers the sample in FIFO order, and errs only when every
/// receiver is gone.  Whether it succeeds depends on the other side, so
/// nothing more is stated.
#[verifier::external_body]
pub fn send_sample(tx: &crossbeam_channel::Sender<(i32, i32)>, dx: i32, dy: i32) -> (delivered:
    bool)
{
    tx.send((dx, dy)).is_ok()
}

/// Relies on `crossbeam_channel::Receiver::try_recv`: without blocking,
/// returns the oldest queued sample, or nothing when the channel is empty
/// or disconnected.  What is queued depends on the sampler thread, so
/// nothing more is stated.
#[verifier::external_body]
pub fn try_recv_sample(rx: &crossbeam_channel::Receiver<(i32, i32)>) -> (sample: Option<
    (i32, i32),
>)
{
    rx.try_recv().ok()
}

/// A fresh bounded sample channel of capacity [`CHANNEL_CAP`].
pub fn sample_channel() -> (ends: (
    crossbeam_channel::Sender<(i32, i32)>,
    crossbeam_channel::Receiver<(i32, i32)>,
))
{
    bounded_sample_channel(CHANNEL_CAP)
}

/// Drains the samples queued at the start of the tick, in arrival (FIFO)
/// order, without blocking: an empty channel yields an empty batch.  The
/// channel holds at most [`CHANNEL_CAP`] samples, so that many reads drain
/// everything queued when the tick began; a sample sent while the drain
/// runs waits for the next tick.  The batch's relation to the buffer is
/// stated by [`frame_tick`].
pub fn drain_samples(rx: &crossbeam_channel::Receiver<(i32, i32)>) -> (samples: Vec<(i32, i32)>)
    ensures
        samples@.len() <= CHANNEL_CAP,
{
    let mut samples: Vec<(i32, i32)> = Vec::new();
    let mut i: usize = 0;
    while i < CHANNEL_CAP
        invariant
            i <= CHANNEL_CAP,
            samples@.len() == i,
        decreases CHANNEL_CAP - i,
    {
        match try_recv_sample(rx) {
            Some(s) => samples.push(s),
            None => {
                return samples;
            },
        }
        i = i + 1;
    }
    samples
}

/// One frame tick of the pipeline: drains the channel and folds the drained
/// batch into the trail buffer.  Whatever batch came out of the channel,
/// the buffer advances by exactly that batch, in arrival order, idle
/// counting and idle reset included; the batch is handed back for the
/// caller to inspect.
pub fn frame_tick(buffer: &mut TrailBuffer, rx: &crossbeam_channel::Receiver<(i32, i32)>) -> (
    samples: Vec<(i32, i32)>)
    requires
        old(buffer).wf(),
    ensures
        final(buffer).wf(),
        final(buffer)@ == tick_spec(old(buffer)@, samples@),
{
    let samples = drain_samples(rx);
    buffer.tick(&samples);
    samples
}

} // verus!
