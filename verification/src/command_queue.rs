//! The queue of commands between the control server and the task that owns
//! the connection.

use std::collections::VecDeque;
use vstd::prelude::*;

use crate::service::request::{WsRequest, WsRequestView};

verus! {

/// How many commands the queue holds at most.
pub const COMMAND_QUEUE_CAPACITY: usize = 32;

/// The commands of `items`, as plain values.
pub open spec fn request_views(items: Seq<WsRequest>) -> Seq<WsRequestView> {
    items.map_values(|r: WsRequest| r@)
}

/// Whether a queue that holds `pending` takes one more command.
pub open spec fn has_room(pending: Seq<WsRequestView>) -> bool {
    pending.len() < COMMAND_QUEUE_CAPACITY
}

/// The queue after `request` was offered to it: the request is behind all
/// others, or the queue was full and is as before.
pub open spec fn after_send(pending: Seq<WsRequestView>, request: WsRequestView) -> Seq<
    WsRequestView,
> {
    if has_room(pending) {
        pending.push(request)
    } else {
        pending
    }
}

/// The queue after its oldest command was taken from it.
pub open spec fn after_recv(pending: Seq<WsRequestView>) -> Seq<WsRequestView> {
    if pending.len() > 0 {
        pending.drop_first()
    } else {
        pending
    }
}

/// A bounded queue of commands, first in, first out. A full queue takes
/// nothing: the sender gets its command back and has to wait until there
/// is room, so a client that sends faster than the connection can follow is
/// slowed down rather than buffered without end.
pub struct CommandQueue {
    items: VecDeque<WsRequest>,
}

impl View for CommandQueue {
    type V = Seq<WsRequestView>;

    closed spec fn view(&self) -> Seq<WsRequestView> {
        request_views(self.items@)
    }
}

impl CommandQueue {
    /// An empty queue.
    pub fn new() -> (queue: Self)
        ensures
            queue@ == Seq::<WsRequestView>::empty(),
    {
        let queue = CommandQueue { items: VecDeque::new() };
        assert(queue@ =~= Seq::<WsRequestView>::empty());
        queue
    }

    /// How many commands wait in the queue.
    pub fn len(&self) -> (len: usize)
        ensures
            len == self@.len(),
    {
        self.items.len()
    }

    /// Whether no command waits.
    pub fn is_empty(&self) -> (empty: bool)
        ensures
            empty == (self@.len() == 0),
    {
        self.items.len() == 0
    }

    /// Whether the queue takes no more.
    pub fn is_full(&self) -> (full: bool)
        ensures
            full == !has_room(self@),
    {
        self.items.len() >= COMMAND_QUEUE_CAPACITY
    }

    /// Offers `request` to the queue. With room left the request goes
    /// behind all others. A full queue stays as it is and hands the request
    /// back, for the sender to offer again later.
    pub fn try_send(&mut self, request: WsRequest) -> (refused: Option<WsRequest>)
        ensures
            final(self)@ == after_send(old(self)@, request@),
            has_room(old(self)@) ==> refused is None,
            !has_room(old(self)@) ==> refused == Some(request),
    {
        if self.items.len() >= COMMAND_QUEUE_CAPACITY {
            Some(request)
        } else {
            self.items.push_back(request);
            assert(self@ =~= old(self)@.push(request@));
            None
        }
    }

    /// Takes the oldest command from the queue, if there is one.
    pub fn recv(&mut self) -> (request: Option<WsRequest>)
        ensures
            final(self)@ == after_recv(old(self)@),
            old(self)@.len() == 0 ==> request is None,
            old(self)@.len() > 0 ==> request is Some && request.unwrap()@ == old(self)@[0],
    {
        let request = self.items.pop_front();
        assert(self@ =~= after_recv(old(self)@));
        request
    }
}

} // verus!
