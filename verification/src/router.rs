//! The event router: the three event families the core exchanges with its
//! collaborators, and the FIFO channel they travel through.
//!
//! Three independent unbounded channels connect the reconciliation loop,
//! the presentation layer and the routing-service client. Delivery is
//! first-in first-out per channel, with no ordering across channels, and
//! without backpressure: a slow consumer accumulates entries rather than
//! blocking producers. A channel can be closed as an explicit shutdown
//! signal; its already-queued events still drain.

use vstd::prelude::*;

use crate::record::Record;
use crate::sonar::{AudioDevice, ClassicRedirection, RedirectionId, VolumeInfo};

verus! {

/// A request to the routing service.
#[derive(Clone, PartialEq, Eq, Debug)]
pub enum SonarRequest {
    /// List the audio devices, optionally filtering out the service's own
    /// virtual device.
    FetchDevices { remove_steelseries_vad: Option<bool> },
    /// List the classic role-to-device redirections.
    FetchClassicRedirections,
    /// Fetch the per-role volume settings.
    FetchDeviceVolume,
    /// Point a redirection at another device.
    RedirectDevice { redirection: RedirectionId, device: String },
    /// Ask for the routing service's base URL.
    GetSonarUrl,
}

/// A reply from the routing service.
#[derive(Clone, PartialEq, Eq, Debug)]
pub enum SonarResponse {
    FetchDevices(Vec<AudioDevice>),
    FetchClassicRedirections(Vec<ClassicRedirection>),
    FetchDeviceVolume(VolumeInfo),
    GetSonarUrl(String),
}

/// One message between the core and its collaborators.
#[derive(Clone, PartialEq, Eq, Debug)]
pub enum Event {
    DeviceConnected,
    DeviceDisconnected,
    /// A record the peripheral sent, for observers.
    RecordFromDevice(Record),
    /// A record to be written to the peripheral, or the observation that
    /// one was.
    RecordToDevice(Record),
    SonarRequest(SonarRequest),
    SonarResponse(SonarResponse),
}

/// What one receive attempt yields.
#[derive(Clone, PartialEq, Eq, Debug)]
pub enum RecvOutcome {
    /// The oldest queued event.
    Next(Event),
    /// Nothing queued right now; the channel stays usable.
    Empty,
    /// Nothing queued and the channel is closed: no event will ever
    /// arrive again.
    Closed,
}

/// One unbounded FIFO channel of events.
#[derive(Clone, PartialEq, Eq, Debug)]
pub struct Channel {
    pub queue: Vec<Event>,
    pub closed: bool,
}

impl Channel {
    /// An open channel with nothing queued.
    pub fn new() -> (c: Channel)
        ensures
            c.queue@ == Seq::<Event>::empty(),
            !c.closed,
    {
        Channel { queue: Vec::new(), closed: false }
    }

    /// How many events are queued.
    pub fn len(&self) -> (n: usize)
        ensures
            n == self.queue@.len(),
    {
        self.queue.len()
    }

    /// Queue an event at the back. Succeeds exactly when the channel is
    /// open; a closed channel refuses the event and stays as it is.
    pub fn send(&mut self, e: Event) -> (ok: bool)
        ensures
            ok == !old(self).closed,
            old(self).closed ==> *final(self) == *old(self),
            !old(self).closed ==> final(self).queue@ == old(self).queue@.push(e)
                && !final(self).closed,
    {
        if self.closed {
            false
        } else {
            self.queue.push(e);
            true
        }
    }

    /// Take the oldest queued event, if any: events leave in the order
    /// they were sent. An empty channel reports whether it is merely
    /// empty or closed for good.
    pub fn try_recv(&mut self) -> (r: RecvOutcome)
        ensures
            old(self).queue@.len() > 0 ==> r == RecvOutcome::Next(old(self).queue@[0])
                && final(self).queue@ == old(self).queue@.drop_first()
                && final(self).closed == old(self).closed,
            old(self).queue@.len() == 0 ==> *final(self) == *old(self) && r == (if old(self).closed {
                RecvOutcome::Closed
            } else {
                RecvOutcome::Empty
            }),
    {
        if self.queue.len() > 0 {
            let e = self.queue.remove(0);
            assert(self.queue@ =~= old(self).queue@.drop_first());
            RecvOutcome::Next(e)
        } else if self.closed {
            RecvOutcome::Closed
        } else {
            RecvOutcome::Empty
        }
    }

    /// Close the channel: the shutdown signal. Queued events still drain;
    /// nothing can be sent any more.
    pub fn close(&mut self)
        ensures
            final(self).queue@ == old(self).queue@,
            final(self).closed,
    {
        self.closed = true;
    }
}

/// The relay between the core and its collaborators: one channel toward
/// the presentation layer, one toward the device loop, one toward the
/// routing-service client. Each carries its events FIFO; nothing orders
/// events across channels.
#[derive(Clone, PartialEq, Eq, Debug)]
pub struct EventRouter {
    pub to_gui: Channel,
    pub to_device: Channel,
    pub to_sonar: Channel,
}

impl EventRouter {
    /// A router with all three channels open and empty.
    pub fn new() -> (r: EventRouter)
        ensures
            r.to_gui.queue@.len() == 0 && !r.to_gui.closed,
            r.to_device.queue@.len() == 0 && !r.to_device.closed,
            r.to_sonar.queue@.len() == 0 && !r.to_sonar.closed,
    {
        EventRouter { to_gui: Channel::new(), to_device: Channel::new(), to_sonar: Channel::new() }
    }
}

/// The record an event from the router asks the session loop to forward
/// verbatim to the device: exactly the `RecordToDevice` events carry one;
/// every other event is not the session loop's to act on.
pub fn outbound_request(event: &Event) -> (r: Option<Record>)
    ensures
        r == (match event {
            Event::RecordToDevice(rec) => Some(*rec),
            _ => None::<Record>,
        }),
{
    match event {
        Event::RecordToDevice(rec) => Some(*rec),
        _ => None,
    }
}

} // verus!
