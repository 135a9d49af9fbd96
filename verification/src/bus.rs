use vstd::prelude::*;
use crate::event::PresenceEvent;

verus! {

/// `bus::Bus`, the sending side of the outside broadcast channel. Nothing
/// inside it is visible here.
#[verifier::external_type_specification]
#[verifier::external_body]
#[verifier::reject_recursive_types(T)]
pub struct ExBus<T>(bus::Bus<T>);

/// `bus::BusReader`, one receiving side of the outside broadcast channel.
/// Nothing inside it is visible here.
#[verifier::external_type_specification]
#[verifier::external_body]
#[verifier::reject_recursive_types(T)]
pub struct ExBusReader<T>(bus::BusReader<T>);

/// A message on the bus: an event and the number of broadcasts that the bus
/// had accepted before it.
#[derive(Clone, Debug)]
pub struct Stamped<C> {
    pub seq: u64,
    pub event: PresenceEvent<C>,
}

/// What one look at a subscription brought.
#[derive(Debug)]
pub enum Received<C> {
    /// The oldest message that was waiting.
    Message(Stamped<C>),
    /// Nothing is waiting; the bus is still there.
    Empty,
    /// Nothing is waiting and the bus is gone: nothing will ever come.
    Closed,
}

/// Why a broadcast did not go out. Either way the event comes back.
#[derive(Debug)]
pub enum BroadcastError<C> {
    /// Some subscriber's buffer is full.
    Full(PresenceEvent<C>),
    /// The bus has numbered as many broadcasts as it can.
    Exhausted(PresenceEvent<C>),
}

/// The sending side of the broadcast channel, with a record of every message
/// it has accepted.
#[verifier::reject_recursive_types(C)]
pub struct EventBus<C> {
    inner: bus::Bus<Stamped<C>>,
    capacity: usize,
    sent: u64,
    log: Ghost<Seq<Stamped<C>>>,
}

/// One subscription to an [`EventBus`].
#[verifier::reject_recursive_types(C)]
pub struct Receiver<C> {
    inner: bus::BusReader<Stamped<C>>,
    since: u64,
}

/// `bus::Bus::new`: a bus whose ring has room for `size` messages. The
/// constructor adds one to `size`, so the largest `usize` is left out.
/// Nothing is claimed of the bus it returns.
#[verifier::external_body]
fn bus_new<C>(size: usize) -> (b: bus::Bus<Stamped<C>>)
    requires
        size < usize::MAX,
{
    bus::Bus::new(size)
}

/// `bus::Bus::add_rx`: a new reader on the bus. Nothing is claimed of what
/// it will read.
#[verifier::external_body]
fn bus_add_rx<C>(b: &mut bus::Bus<Stamped<C>>) -> (r: bus::BusReader<Stamped<C>>) {
    b.add_rx()
}

/// `bus::Bus::try_broadcast`: never blocks; where the ring is full the
/// message is handed back as it was given.
#[verifier::external_body]
fn bus_try_broadcast<C>(b: &mut bus::Bus<Stamped<C>>, msg: Stamped<C>) -> (r: Result<
    (),
    Stamped<C>,
>)
    ensures
        r is Err ==> r->Err_0 == msg,
{
    b.try_broadcast(msg)
}

/// `bus::BusReader::try_recv`: never blocks. Which of the three outcomes
/// comes depends on the other side of the channel, so nothing is claimed.
#[verifier::external_body]
fn reader_try_recv<C: Clone + Sync>(r: &mut bus::BusReader<Stamped<C>>) -> (got: Received<C>) {
    match r.try_recv() {
        Ok(msg) => Received::Message(msg),
        Err(std::sync::mpsc::TryRecvError::Empty) => Received::Empty,
        Err(std::sync::mpsc::TryRecvError::Disconnected) => Received::Closed,
    }
}

impl<C> EventBus<C> {
    /// Every message this bus has accepted, oldest first.
    pub closed spec fn log(&self) -> Seq<Stamped<C>> {
        self.log@
    }

    /// The stamps count the broadcasts: the message at place `i` bears `i`.
    pub closed spec fn wf(&self) -> bool {
        &&& self.sent as nat == self.log@.len()
        &&& forall|i: int| 0 <= i < self.log@.len() ==> (#[trigger] self.log@[i]).seq as int == i
    }

    /// How many messages the bus buffers for each subscriber.
    pub closed spec fn spec_capacity(&self) -> usize {
        self.capacity
    }

    /// Whether the bus can still number another broadcast.
    pub open spec fn has_room_to_count(&self) -> bool {
        self.log().len() < u64::MAX
    }

    /// A bus that buffers up to `size` messages for each subscriber.
    pub fn new(size: usize) -> (b: Self)
        requires
            size < usize::MAX,
        ensures
            b.wf(),
            b.log() == Seq::<Stamped<C>>::empty(),
            b.spec_capacity() == size,
    {
        EventBus { inner: bus_new(size), capacity: size, sent: 0, log: Ghost(Seq::empty()) }
    }

    /// How many messages the bus buffers for each subscriber.
    pub fn capacity(&self) -> (n: usize)
        ensures
            n == self.spec_capacity(),
    {
        self.capacity
    }

    /// How many broadcasts the bus has accepted.
    pub fn sent(&self) -> (n: u64)
        requires
            self.wf(),
        ensures
            n as nat == self.log().len(),
    {
        self.sent
    }

    /// Registers a new consumption point. It admits nothing that the bus has
    /// accepted so far.
    pub fn subscribe(&mut self) -> (r: Receiver<C>)
        requires
            old(self).wf(),
        ensures
            final(self).wf(),
            final(self).log() == old(self).log(),
            final(self).spec_capacity() == old(self).spec_capacity(),
            r.since() == old(self).log().len(),
            forall|i: int| 0 <= i < old(self).log().len() ==> !r.admits(#[trigger] old(self).log()[i]),
    {
        let inner = bus_add_rx(&mut self.inner);
        Receiver { inner, since: self.sent }
    }

    /// Offers `event` to every current subscriber without waiting for any of
    /// them. An accepted event is logged under the next stamp; a refused one
    /// comes back and leaves the log as it was.
    pub fn broadcast(&mut self, event: PresenceEvent<C>) -> (r: Result<(), BroadcastError<C>>)
        requires
            old(self).wf(),
        ensures
            final(self).wf(),
            final(self).spec_capacity() == old(self).spec_capacity(),
            r is Ok ==> old(self).has_room_to_count() && final(self).log() == old(self).log().push(
                Stamped { seq: old(self).log().len() as u64, event },
            ),
            r is Err ==> final(self).log() == old(self).log(),
            !old(self).has_room_to_count() ==> r == Err::<(), BroadcastError<C>>(
                BroadcastError::Exhausted(event),
            ),
            old(self).has_room_to_count() && r is Err ==> r->Err_0 == BroadcastError::Full(event),
    {
        if self.sent == u64::MAX {
            return Err(BroadcastError::Exhausted(event));
        }
        let msg = Stamped { seq: self.sent, event };
        let ghost sent_msg = msg;
        match bus_try_broadcast(&mut self.inner, msg) {
            Ok(()) => {
                self.sent = self.sent + 1;
                self.log = Ghost(self.log@.push(sent_msg));
                Ok(())
            },
            Err(back) => Err(BroadcastError::Full(back.event)),
        }
    }
}

impl<C> Receiver<C> {
    /// How many broadcasts the bus had accepted when this subscription began.
    pub closed spec fn since(&self) -> nat {
        self.since as nat
    }

    /// A message is admitted when it was stamped at or after the
    /// subscription's beginning.
    pub open spec fn admits(&self, msg: Stamped<C>) -> bool {
        msg.seq as nat >= self.since()
    }

    /// What `look` makes of a message.
    pub open spec fn screened(&self, got: Received<C>) -> Received<C> {
        match got {
            Received::Message(msg) => if self.admits(msg) {
                got
            } else {
                Received::Empty
            },
            _ => got,
        }
    }

    /// Passes on what the channel brought, but for a message from before the
    /// subscription, which counts as nothing.
    pub fn screen(&self, got: Received<C>) -> (r: Received<C>)
        ensures
            r == self.screened(got),
            r matches Received::Message(msg) ==> self.admits(msg),
    {
        match got {
            Received::Message(msg) => {
                if msg.seq >= self.since {
                    Received::Message(msg)
                } else {
                    Received::Empty
                }
            },
            Received::Empty => Received::Empty,
            Received::Closed => Received::Closed,
        }
    }
}

impl<C: Clone + Sync> Receiver<C> {
    /// Looks once for the next message, without waiting. Whatever comes is
    /// one that this subscription admits.
    pub fn look(&mut self) -> (r: Received<C>)
        ensures
            final(self).since() == old(self).since(),
            r matches Received::Message(msg) ==> old(self).admits(msg),
    {
        let got = reader_try_recv(&mut self.inner);
        self.screen(got)
    }
}

/// No replay: a message that a bus had already accepted when a subscription
/// began is never admitted by that subscription, however the bus went on
/// afterwards.
pub proof fn lemma_no_replay<C>(before: EventBus<C>, receiver: Receiver<C>, i: int)
    requires
        before.wf(),
        receiver.since() == before.log().len(),
        0 <= i < before.log().len(),
    ensures
        !receiver.admits(before.log()[i]),
{
}

/// Every message accepted after a subscription began is one that the
/// subscription admits.
pub proof fn lemma_later_broadcasts_admitted<C>(
    before: EventBus<C>,
    after: EventBus<C>,
    receiver: Receiver<C>,
    i: int,
)
    requires
        before.wf(),
        after.wf(),
        receiver.since() == before.log().len(),
        before.log().len() <= i < after.log().len(),
    ensures
        receiver.admits(after.log()[i]),
{
}

} // verus!
