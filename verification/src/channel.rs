//! The event channel between control threads and the audio thread.
//!
//! The channel is a bounded ring buffer with one sending end and one
//! receiving end. Neither end blocks: a send into a full channel fails and
//! hands the event back, a receive from an empty channel gives nothing. The
//! two ends work at the same time on different threads, so what one end
//! finds depends on what the other has done: nothing is promised of whether a
//! send succeeds or of what a receive gives.

use vstd::prelude::*;
use crate::common::SynthEvent;
use crate::engine::SynthEngine;
use crate::midi::{decode_midi, decoded};

verus! {

/// The largest capacity a channel can be made with.
pub const MAX_CHANNEL_CAPACITY: usize = 65_536;

/// The sending end of a channel. It holds the producer of a `ringbuf::HeapRb`
/// of events.
#[verifier::external_body]
pub struct EventProducer {
    inner: ringbuf::HeapProducer<SynthEvent>,
}

/// The receiving end of a channel. It holds the consumer of a
/// `ringbuf::HeapRb` of events.
#[verifier::external_body]
pub struct EventConsumer {
    inner: ringbuf::HeapConsumer<SynthEvent>,
}

/// Makes a ring buffer with `ringbuf::HeapRb::new` and parts it into its two
/// ends with `split`. `new` panics on a capacity of zero, which is left out;
/// the upper bound keeps the allocation it asks for small. Nothing is
/// claimed of the two ends.
#[verifier::external_body]
fn split_ring(capacity: usize) -> (ends: (EventProducer, EventConsumer))
    requires
        0 < capacity <= MAX_CHANNEL_CAPACITY,
{
    let (producer, consumer) = ringbuf::HeapRb::<SynthEvent>::new(capacity).split();
    (EventProducer { inner: producer }, EventConsumer { inner: consumer })
}

/// Calls `ringbuf::Producer::push`, which appends the event unless it finds
/// the ring full. The claim: an error holds the event that was not appended.
/// Nothing is claimed of when the push succeeds.
#[verifier::external_body]
fn push_event(producer: &mut EventProducer, event: SynthEvent) -> (outcome: Result<(), SynthEvent>)
    ensures
        outcome matches Err(returned) ==> returned == event,
{
    producer.inner.push(event)
}

/// Calls `ringbuf::Consumer::pop`, which removes the oldest event of the
/// ring and returns it, or returns `None` if it finds the ring empty. Nothing
/// is claimed of the result.
#[verifier::external_body]
fn pop_event(consumer: &mut EventConsumer) -> (event: Option<SynthEvent>)
{
    consumer.inner.pop()
}

/// Makes a channel that holds up to `capacity` events, and gives its two
/// ends. There is no channel of capacity zero or above
/// `MAX_CHANNEL_CAPACITY`.
pub fn event_channel(capacity: usize) -> (ends: Option<(EventProducer, EventConsumer)>)
    ensures
        ends is Some <==> 0 < capacity <= MAX_CHANNEL_CAPACITY,
{
    if capacity == 0 || capacity > MAX_CHANNEL_CAPACITY {
        None
    } else {
        Some(split_ring(capacity))
    }
}

impl EventProducer {
    /// Sends an event without blocking. If the channel is full the event is
    /// not sent and comes back in the error.
    pub fn send(&mut self, event: SynthEvent) -> (outcome: Result<(), SynthEvent>)
        ensures
            outcome matches Err(returned) ==> returned == event,
    {
        push_event(self, event)
    }

    /// Reads a raw MIDI message and sends the event it stands for, if any.
    /// Gives the event, and whether it was sent: it is lost if the channel is
    /// full.
    pub fn send_midi(&mut self, message: &[u8]) -> (outcome: (Option<SynthEvent>, bool))
        ensures
            outcome.0 == decoded(message@),
            outcome.0 is None ==> !outcome.1,
    {
        match decode_midi(message) {
            Some(event) => {
                let sent = push_event(self, event).is_ok();
                (Some(event), sent)
            },
            None => (None, false),
        }
    }
}

impl EventConsumer {
    /// Takes events out of the channel until it is found empty, and lets the
    /// engine handle each in the order they come. Gives the number of events
    /// handled, which the loop counts in a `usize` and so never lets pass
    /// `usize::MAX`. The engine ends as if it had handled some sequence of
    /// that many events and nothing else.
    pub fn drain_into(&mut self, engine: &mut SynthEngine) -> (handled: usize)
        requires
            old(engine).wf(),
        ensures
            final(engine).wf(),
            exists|events: Seq<SynthEvent>|
                events.len() == handled && final(engine)@ == old(engine)@.handle_all(events),
    {
        let ghost mut events: Seq<SynthEvent> = Seq::empty();
        let mut handled: usize = 0;
        while handled < usize::MAX
            invariant
                engine.wf(),
                events.len() == handled,
                engine@ == old(engine)@.handle_all(events),
            decreases usize::MAX - handled,
        {
            match pop_event(self) {
                Some(event) => {
                    engine.handle_event(event);
                    proof {
                        let earlier = events;
                        events = earlier.push(event);
                        assert(events.drop_last() =~= earlier);
                    }
                    handled = handled + 1;
                },
                None => {
                    break ;
                },
            }
        }
        handled
    }
}

} // verus!
