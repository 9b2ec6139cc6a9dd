//! The event distributor: a relay that hands every published frame to every
//! subscriber that is registered at that moment.
//!
//! A subscriber registers and receives a handle. From then on each published
//! frame is put, in publish order, into the inbox that belongs to the handle,
//! and the subscriber takes the frames out when it is ready to handle them.
//! What one subscriber does with its frames, or whether it fails on one, is
//! nothing the distributor or another subscriber ever sees.

use vstd::prelude::*;
use crate::wire::texts;

verus! {

/// What identifies one registration with an [`EventBus`].
#[derive(Debug)]
pub struct SubscriptionHandle {
    slot: usize,
}

impl View for SubscriptionHandle {
    type V = int;

    closed spec fn view(&self) -> int {
        self.slot as int
    }
}

/// The relay. Each registration has a slot; the slot of a registration that
/// has ended stays empty and is not given out again.
#[derive(Debug)]
pub struct EventBus {
    slots: Vec<Option<Vec<String>>>,
}

/// Mathematical model of an [`EventBus`]: for each registration ever made,
/// the frames that wait for the subscriber, or `None` once it has ended.
#[verifier::ext_equal]
pub struct EventBusModel {
    pub inboxes: Seq<Option<Seq<Seq<char>>>>,
}

/// The frames that wait in a slot.
pub open spec fn slot_model(slot: Option<Vec<String>>) -> Option<Seq<Seq<char>>> {
    match slot {
        Some(inbox) => Some(texts(inbox@)),
        None => None,
    }
}

impl EventBusModel {
    /// The relay without registrations.
    pub open spec fn empty() -> EventBusModel {
        EventBusModel { inboxes: Seq::empty() }
    }

    /// Whether the registration exists and has not ended.
    pub open spec fn registered(self, handle: int) -> bool {
        0 <= handle < self.inboxes.len() && self.inboxes[handle] is Some
    }

    /// The frames that wait for a registered subscriber.
    pub open spec fn pending(self, handle: int) -> Seq<Seq<char>> {
        if self.registered(handle) {
            self.inboxes[handle]->Some_0
        } else {
            Seq::empty()
        }
    }

    /// After one more registration, which starts without frames.
    pub open spec fn subscribe(self) -> EventBusModel {
        EventBusModel { inboxes: self.inboxes.push(Some(Seq::empty())) }
    }

    /// After a registration has ended.
    pub open spec fn unsubscribe(self, handle: int) -> EventBusModel {
        if self.registered(handle) {
            EventBusModel { inboxes: self.inboxes.update(handle, None) }
        } else {
            self
        }
    }

    /// After a frame was published: it is the last frame in every inbox.
    pub open spec fn publish(self, frame: Seq<char>) -> EventBusModel {
        EventBusModel {
            inboxes: Seq::new(
                self.inboxes.len(),
                |i: int|
                    match self.inboxes[i] {
                        Some(inbox) => Some(inbox.push(frame)),
                        None => None,
                    },
            ),
        }
    }

    /// After a subscriber has taken its frames out.
    pub open spec fn take(self, handle: int) -> EventBusModel {
        if self.registered(handle) {
            EventBusModel { inboxes: self.inboxes.update(handle, Some(Seq::empty())) }
        } else {
            self
        }
    }

    /// After a sequence of frames was published, one after the other.
    pub open spec fn publish_all(self, frames: Seq<Seq<char>>) -> EventBusModel
        decreases frames.len(),
    {
        if frames.len() == 0 {
            self
        } else {
            self.publish_all(frames.drop_last()).publish(frames.last())
        }
    }
}

impl View for EventBus {
    type V = EventBusModel;

    closed spec fn view(&self) -> EventBusModel {
        EventBusModel { inboxes: self.slots@.map_values(|slot: Option<Vec<String>>| slot_model(slot)) }
    }
}

impl EventBus {
    /// A relay without registrations.
    pub fn new() -> (bus: EventBus)
        ensures
            bus@ == EventBusModel::empty(),
    {
        EventBus { slots: Vec::new() }
    }

    /// Registers a subscriber. It receives the frames that are published
    /// from now on, and none that was published before.
    pub fn subscribe(&mut self) -> (handle: SubscriptionHandle)
        ensures
            final(self)@ == old(self)@.subscribe(),
            handle@ == old(self)@.inboxes.len(),
    {
        let slot = self.slots.len();
        self.slots.push(Some(Vec::new()));
        assert(texts(Seq::<String>::empty()) =~= Seq::<Seq<char>>::empty());
        SubscriptionHandle { slot }
    }

    /// Hands the frame to every registered subscriber.
    pub fn publish(&mut self, frame: &str)
        ensures
            final(self)@ == old(self)@.publish(frame@),
    {
        let mut i: usize = 0;
        while i < self.slots.len()
            invariant
                i <= self.slots.len(),
                self.slots.len() == old(self).slots.len(),
                forall|j: int| 0 <= j < i ==> slot_model(#[trigger] self.slots[j]) == old(self)@.publish(frame@).inboxes[j],
                forall|j: int| i <= j < self.slots.len() ==> self.slots[j] == old(self).slots[j],
            decreases self.slots.len() - i,
        {
            match &mut self.slots[i] {
                Some(inbox) => {
                    inbox.push(frame.to_owned());
                },
                None => {},
            }
            i = i + 1;
        }
    }

    /// Ends a registration: the subscriber receives nothing further, and
    /// the frames that still waited for it are dropped.
    pub fn unsubscribe(&mut self, handle: SubscriptionHandle)
        ensures
            final(self)@ == old(self)@.unsubscribe(handle@),
    {
        if handle.slot < self.slots.len() {
            self.slots[handle.slot] = None;
        }
    }

    /// Whether the registration exists and has not ended.
    pub fn is_registered(&self, handle: &SubscriptionHandle) -> (registered: bool)
        ensures
            registered == self@.registered(handle@),
    {
        handle.slot < self.slots.len() && self.slots[handle.slot].is_some()
    }

    /// Takes out the frames that wait for the subscriber, in the order in
    /// which they were published. Nothing waits for a registration that has
    /// ended.
    pub fn take(&mut self, handle: &SubscriptionHandle) -> (frames: Vec<String>)
        ensures
            texts(frames@) == old(self)@.pending(handle@),
            final(self)@ == old(self)@.take(handle@),
    {
        let mut frames: Vec<String> = Vec::new();
        assert(texts(frames@) =~= Seq::<Seq<char>>::empty());
        if handle.slot < self.slots.len() {
            match &mut self.slots[handle.slot] {
                Some(inbox) => {
                    std::mem::swap(inbox, &mut frames);
                },
                None => {},
            }
        }
        frames
    }
}

/// A published frame reaches every registered subscriber, as the last frame
/// of its inbox, and changes nothing else: no registration begins or ends.
pub proof fn law_publish_reaches_every_subscriber(bus: EventBusModel, frame: Seq<char>, handle: int)
    ensures
        bus.publish(frame).registered(handle) == bus.registered(handle),
        bus.registered(handle) ==> bus.publish(frame).pending(handle) == bus.pending(handle).push(
            frame,
        ),
        bus.publish(frame).inboxes.len() == bus.inboxes.len(),
{
}

/// A subscriber sees the frames in the order in which they were published:
/// after a run of publications its inbox is what it was, followed by the
/// frames of the run.
pub proof fn law_frames_arrive_in_publish_order(
    bus: EventBusModel,
    frames: Seq<Seq<char>>,
    handle: int,
)
    requires
        bus.registered(handle),
    ensures
        bus.publish_all(frames).registered(handle),
        bus.publish_all(frames).pending(handle) == bus.pending(handle) + frames,
    decreases frames.len(),
{
    if frames.len() > 0 {
        law_frames_arrive_in_publish_order(bus, frames.drop_last(), handle);
        assert(bus.pending(handle) + frames =~= (bus.pending(handle) + frames.drop_last()).push(
            frames.last(),
        ));
    } else {
        assert(bus.pending(handle) + frames =~= bus.pending(handle));
    }
}

/// Subscribers are independent: whether another subscriber has taken its
/// frames, or has left, makes no difference to what a subscriber receives.
pub proof fn law_subscribers_are_independent(
    bus: EventBusModel,
    frame: Seq<char>,
    handle: int,
    other: int,
)
    requires
        handle != other,
    ensures
        bus.take(other).publish(frame).pending(handle) == bus.publish(frame).pending(handle),
        bus.unsubscribe(other).publish(frame).pending(handle) == bus.publish(frame).pending(handle),
        bus.take(other).registered(handle) == bus.registered(handle),
        bus.unsubscribe(other).registered(handle) == bus.registered(handle),
{
}

/// The relay keeps no history: a subscriber that registers after a frame was
/// published starts with an empty inbox.
pub proof fn law_no_replay_for_late_subscriber(bus: EventBusModel, frame: Seq<char>)
    ensures
        bus.publish(frame).subscribe().registered(bus.inboxes.len() as int),
        bus.publish(frame).subscribe().pending(bus.inboxes.len() as int) == Seq::<
            Seq<char>,
        >::empty(),
{
}

} // verus!
