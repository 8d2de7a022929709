use crate::event::{InputEvent, PotentialInputEvent};
use crate::timestamp::Timestamp;
use std::sync::atomic::{AtomicBool, Ordering};
use std::sync::mpsc::Sender;
use vstd::prelude::*;

verus! {

#[verifier::external_type_specification]
#[verifier::external_body]
#[verifier::reject_recursive_types(T)]
pub struct ExSender<T>(Sender<T>);

/// What the fan-out channel carries: an event and the instant it was captured.
pub type Captured = (PotentialInputEvent, Timestamp);

/// Relies on std's `Sender::send`: it never blocks, fails only once the receiver
/// is gone, and then hands the value back inside the error.
#[verifier::external_body]
fn enqueue(tx: &Sender<Captured>, item: Captured) -> (r: Result<(), Captured>)
    ensures
        r matches Err(back) ==> back == item,
{
    tx.send(item).map_err(|e| e.0)
}

/// The channel item for `event`: the event, never the placeholder, stamped
/// with the time now.
pub fn stamped(event: InputEvent) -> (r: Captured)
    ensures
        r.0 == PotentialInputEvent::InputEvent(event),
{
    (PotentialInputEvent::InputEvent(event), Timestamp::now())
}

/// What became of one forwarded event.
#[derive(Debug)]
pub enum Forwarded {
    /// It is on the channel.
    Delivered,
    /// The receiver is gone: the stamped event comes back and this producer closes.
    Refused(Captured),
    /// An earlier send was refused, so nothing was sent.
    Closed,
}

/// One callback's producer end of the fan-out channel. After the first refused
/// send it forwards nothing more, so that a consumer that went away disables
/// this callback alone.
pub struct Forwarder {
    tx: Sender<Captured>,
    open: AtomicBool,
}

impl Forwarder {
    /// A producer that forwards onto `tx`.
    pub fn new(tx: Sender<Captured>) -> (r: Self) {
        Forwarder { tx, open: AtomicBool::new(true) }
    }

    /// Stamps `event` with the time now and puts it on the channel, unless this
    /// producer is closed. A refused send closes it and returns the stamped event.
    pub fn forward(&self, event: InputEvent) -> (r: Forwarded)
        ensures
            r matches Forwarded::Refused(back) ==> back.0 == PotentialInputEvent::InputEvent(event),
    {
        let open = self.open.load(Ordering::Acquire);
        self.forward_when(open, event)
    }

    /// Forwards `event` given whether this producer is still `open`: a closed
    /// producer sends nothing; an open one sends `stamped(event)` once and
    /// reports the send's result as `settle` does.
    pub fn forward_when(&self, open: bool, event: InputEvent) -> (r: Forwarded)
        ensures
            (r is Closed) <==> !open,
            r matches Forwarded::Refused(back) ==> back.0 == PotentialInputEvent::InputEvent(event),
    {
        if !open {
            return Forwarded::Closed;
        }
        let item = stamped(event);
        let sent = enqueue(&self.tx, item);
        self.settle(sent)
    }

    /// What a send's result means for this producer: a delivered event is
    /// reported as such; a refused one closes the producer and comes back.
    pub fn settle(&self, sent: Result<(), Captured>) -> (r: Forwarded)
        ensures
            match sent {
                Ok(()) => r is Delivered,
                Err(back) => r == Forwarded::Refused(back),
            },
    {
        match sent {
            Ok(()) => Forwarded::Delivered,
            Err(back) => {
                self.open.store(false, Ordering::Release);
                Forwarded::Refused(back)
            },
        }
    }
}

} // verus!
