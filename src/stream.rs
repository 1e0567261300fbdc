use vstd::prelude::*;

use crate::reminder::{encode, Reminder, ReminderView};
use crate::service::{status, RpcStatus, StatusCode, StatusView};
use crate::wire::{ReminderDto, ReminderDtoView};

verus! {

/// What a streaming call's producer learns next: an entity from the store's cursor, a store
/// failure, the end of the cursor, or that the consumer has gone away.
#[derive(Debug)]
pub enum StoreEvent {
    Item(Reminder),
    Failed(String),
    Exhausted,
    ConsumerGone,
}

pub enum StoreEventView {
    Item(ReminderView),
    Failed(Seq<char>),
    Exhausted,
    ConsumerGone,
}

impl View for StoreEvent {
    type V = StoreEventView;

    open spec fn view(&self) -> StoreEventView {
        match self {
            StoreEvent::Item(r) => StoreEventView::Item(r@),
            StoreEvent::Failed(m) => StoreEventView::Failed(m@),
            StoreEvent::Exhausted => StoreEventView::Exhausted,
            StoreEvent::ConsumerGone => StoreEventView::ConsumerGone,
        }
    }
}

/// What the producer does about an event: send one message, end the stream with an error,
/// end it cleanly, or stop pulling from the store without sending anything more.
#[derive(Debug)]
pub enum StreamAction {
    Send(ReminderDto),
    SendError(RpcStatus),
    Close,
    Stop,
}

pub enum StreamActionView {
    Send(ReminderDtoView),
    SendError(StatusView),
    Close,
    Stop,
}

impl View for StreamAction {
    type V = StreamActionView;

    open spec fn view(&self) -> StreamActionView {
        match self {
            StreamAction::Send(d) => StreamActionView::Send(d@),
            StreamAction::SendError(s) => StreamActionView::SendError(s@),
            StreamAction::Close => StreamActionView::Close,
            StreamAction::Stop => StreamActionView::Stop,
        }
    }
}

/// Whether an event is fit to be handed to the producer: an entity must be well formed.
pub open spec fn event_wf(e: StoreEventView) -> bool {
    e matches StoreEventView::Item(r) ==> r.wf()
}

/// One step of the producer: whether it stays open, and what it does. An open producer
/// forwards each entity as its own message; a store failure ends the stream with `Aborted`
/// and the failure's message; the end of the cursor closes it; a departed consumer stops it.
/// A producer that is no longer open only stops.
pub open spec fn step_spec(open: bool, e: StoreEventView) -> (bool, StreamActionView) {
    if !open {
        (false, StreamActionView::Stop)
    } else {
        match e {
            StoreEventView::Item(r) => (true, StreamActionView::Send(encode(r))),
            StoreEventView::Failed(m) => (
                false,
                StreamActionView::SendError(status(StatusCode::Aborted, m)),
            ),
            StoreEventView::Exhausted => (false, StreamActionView::Close),
            StoreEventView::ConsumerGone => (false, StreamActionView::Stop),
        }
    }
}

/// The actions a producer takes on a sequence of events.
pub open spec fn run(open: bool, events: Seq<StoreEventView>) -> Seq<StreamActionView>
    decreases events.len(),
{
    if events.len() == 0 {
        Seq::empty()
    } else {
        let (next, action) = step_spec(open, events[0]);
        seq![action] + run(next, events.drop_first())
    }
}

/// The events a cursor over `store` produces: each entity in turn, then its end.
pub open spec fn cursor_events(store: Seq<ReminderView>) -> Seq<StoreEventView> {
    Seq::new(store.len(), |i: int| StoreEventView::Item(store[i])) + seq![
        StoreEventView::Exhausted,
    ]
}

/// The messages a full drain of `store` sends: each entity's wire form in turn, then a clean close.
pub open spec fn drained(store: Seq<ReminderView>) -> Seq<StreamActionView> {
    Seq::new(store.len(), |i: int| StreamActionView::Send(encode(store[i]))) + seq![
        StreamActionView::Close,
    ]
}

/// What the producer does before pulling from the store: pull the next entity, wait until the
/// consumer has taken a message, or nothing more.
#[derive(Debug, Clone, Copy, PartialEq, Eq, Structural)]
pub enum Move {
    Pull,
    WaitForSpace,
    Done,
}

/// An open producer pulls only while fewer than `capacity` messages wait for the consumer.
pub open spec fn move_spec(open: bool, capacity: nat, buffered: nat) -> Move {
    if !open {
        Move::Done
    } else if buffered < capacity {
        Move::Pull
    } else {
        Move::WaitForSpace
    }
}

/// One thing that happens to the relay between producer and consumer: the producer adds a
/// message, or the consumer takes one.
pub enum RelayOp {
    Offer,
    Take,
}

/// How many messages wait in the relay after `ops`, starting from `buffered`, when the
/// producer offers a message only where `move_spec` says to pull (an offer made otherwise is
/// held back) and a take from an empty relay takes nothing.
pub open spec fn buffered_after(capacity: nat, buffered: nat, ops: Seq<RelayOp>) -> nat
    decreases ops.len(),
{
    if ops.len() == 0 {
        buffered
    } else {
        let next: nat = match ops[0] {
            RelayOp::Offer => if move_spec(true, capacity, buffered) == Move::Pull {
                buffered + 1
            } else {
                buffered
            },
            RelayOp::Take => if buffered > 0 {
                (buffered - 1) as nat
            } else {
                0
            },
        };
        buffered_after(capacity, next, ops.drop_first())
    }
}

/// The producer of one streaming call.
pub struct StreamProducer {
    open: bool,
    capacity: usize,
}

impl StreamProducer {
    pub closed spec fn is_open(&self) -> bool {
        self.open
    }

    pub closed spec fn capacity_spec(&self) -> nat {
        self.capacity as nat
    }

    /// A producer that has not yet seen any event, relaying through a buffer of `capacity`
    /// messages.
    pub fn new(capacity: usize) -> (r: StreamProducer)
        requires
            capacity > 0,
        ensures
            r.is_open(),
            r.capacity_spec() == capacity,
    {
        StreamProducer { open: true, capacity }
    }

    /// The size of the buffer between producer and consumer.
    pub fn capacity(&self) -> (r: usize)
        ensures
            r == self.capacity_spec(),
    {
        self.capacity
    }

    /// Whether to pull from the store now, with `buffered` messages not yet taken by the
    /// consumer.
    pub fn next_move(&self, buffered: usize) -> (r: Move)
        ensures
            r == move_spec(self.is_open(), self.capacity_spec(), buffered as nat),
    {
        if !self.open {
            Move::Done
        } else if buffered < self.capacity {
            Move::Pull
        } else {
            Move::WaitForSpace
        }
    }

    /// Whether the producer still pulls from the store.
    pub fn open(&self) -> (r: bool)
        ensures
            r == self.is_open(),
    {
        self.open
    }

    /// Handles one event, with the rules of `step_spec`.
    pub fn step(&mut self, event: StoreEvent) -> (r: StreamAction)
        requires
            event_wf(event@),
        ensures
            (final(self).is_open(), r@) == step_spec(old(self).is_open(), event@),
            final(self).capacity_spec() == old(self).capacity_spec(),
    {
        if !self.open {
            return StreamAction::Stop;
        }
        match event {
            StoreEvent::Item(rem) => StreamAction::Send(rem.into_dto()),
            StoreEvent::Failed(m) => {
                self.open = false;
                StreamAction::SendError(RpcStatus { code: StatusCode::Aborted, message: m })
            },
            StoreEvent::Exhausted => {
                self.open = false;
                StreamAction::Close
            },
            StoreEvent::ConsumerGone => {
                self.open = false;
                StreamAction::Stop
            },
        }
    }
}

/// Draining a store of N entities sends exactly N messages, each the wire form of the entity
/// in the store's order, and then closes the stream cleanly with no error; an empty store
/// closes at once.
pub proof fn lemma_stream_drains_fully(store: Seq<ReminderView>)
    ensures
        run(true, cursor_events(store)) == drained(store),
        drained(store).len() == store.len() + 1,
        forall|i: int| 0 <= i < store.len() ==> #[trigger] drained(store)[i]
            == StreamActionView::Send(encode(store[i])),
        drained(store).last() == StreamActionView::Close,
    decreases store.len(),
{
    if store.len() == 0 {
        let ev = cursor_events(store);
        assert(ev.drop_first() =~= Seq::<StoreEventView>::empty());
        assert(run(false, ev.drop_first()) == Seq::<StreamActionView>::empty());
        assert(run(true, ev) =~= drained(store));
    } else {
        let rest = store.drop_first();
        lemma_stream_drains_fully(rest);
        let ev = cursor_events(store);
        assert(ev.drop_first() =~= cursor_events(rest));
        assert(run(true, ev) == seq![StreamActionView::Send(encode(store[0]))] + run(
            true,
            cursor_events(rest),
        ));
        assert(run(true, ev) =~= drained(store));
    }
}

/// However fast the producer and however slow the consumer, a relay that starts within its
/// capacity never holds more than `capacity` messages: the producer pulls only when there is
/// room.
pub proof fn lemma_relay_stays_bounded(capacity: nat, buffered: nat, ops: Seq<RelayOp>)
    requires
        buffered <= capacity,
    ensures
        buffered_after(capacity, buffered, ops) <= capacity,
    decreases ops.len(),
{
    if ops.len() > 0 {
        let next: nat = match ops[0] {
            RelayOp::Offer => if move_spec(true, capacity, buffered) == Move::Pull {
                buffered + 1
            } else {
                buffered
            },
            RelayOp::Take => if buffered > 0 {
                (buffered - 1) as nat
            } else {
                0
            },
        };
        lemma_relay_stays_bounded(capacity, next, ops.drop_first());
    }
}

} // verus!
