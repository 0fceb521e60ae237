use std::collections::VecDeque;
use vstd::prelude::*;

verus! {

/// Why the event stream ended.
#[derive(PartialEq, Eq, Structural, Clone, Copy, Debug)]
pub enum CloseCause {
    /// The caller shut the manager down.
    Requested,
    /// Every reconnect attempt allowed by the policy failed.
    ReconnectExhausted,
}

/// Why an event was not enqueued.
#[derive(PartialEq, Eq, Structural, Clone, Copy, Debug)]
pub enum PushError {
    Full,
    Closed,
}

/// What a consumer's pull yields.
#[derive(Debug)]
pub enum Poll {
    /// The oldest buffered event.
    Ready(String),
    /// Nothing buffered yet and the stream is open: the consumer waits.
    Pending,
    /// Nothing buffered and the stream has ended.
    Closed(CloseCause),
}

/// Whether a queue holding `len` events accepts one more.
pub open spec fn accepts(len: nat, capacity: Option<usize>, closed: bool) -> bool {
    !closed && match capacity {
        Some(c) => len < c,
        None => true,
    }
}

/// A first-in first-out buffer of events between the connection driver and consumers,
/// optionally bounded, that can be closed with a cause.
pub struct EventQueue {
    items: VecDeque<String>,
    capacity: Option<usize>,
    closed: Option<CloseCause>,
}

impl View for EventQueue {
    type V = Seq<String>;

    closed spec fn view(&self) -> Seq<String> {
        self.items@
    }
}

impl EventQueue {
    pub closed spec fn spec_capacity(&self) -> Option<usize> {
        self.capacity
    }

    pub closed spec fn spec_closed(&self) -> Option<CloseCause> {
        self.closed
    }

    /// A queue with room for `capacity` events, or without bound if `None`.
    pub fn new(capacity: Option<usize>) -> (r: EventQueue)
        ensures
            r@ == Seq::<String>::empty(),
            r.spec_capacity() == capacity,
            r.spec_closed() == None::<CloseCause>,
    {
        EventQueue { items: VecDeque::new(), capacity, closed: None }
    }

    pub fn len(&self) -> (r: usize)
        ensures
            r == self@.len(),
    {
        self.items.len()
    }

    pub fn is_closed(&self) -> (r: bool)
        ensures
            r == self.spec_closed().is_some(),
    {
        self.closed.is_some()
    }

    pub fn close_cause(&self) -> (r: Option<CloseCause>)
        ensures
            r == self.spec_closed(),
    {
        self.closed
    }

    /// Appends `event` at the back, unless the queue is closed or full.
    pub fn push(&mut self, event: String) -> (r: Result<(), PushError>)
        ensures
            final(self).spec_capacity() == old(self).spec_capacity(),
            final(self).spec_closed() == old(self).spec_closed(),
            accepts(old(self)@.len(), old(self).spec_capacity(), old(self).spec_closed().is_some())
                ==> r is Ok && final(self)@ == old(self)@.push(event),
            old(self).spec_closed().is_some() ==> r == Err::<(), PushError>(PushError::Closed)
                && final(self)@ == old(self)@,
            old(self).spec_closed().is_none() && !accepts(
                old(self)@.len(),
                old(self).spec_capacity(),
                false,
            ) ==> r == Err::<(), PushError>(PushError::Full) && final(self)@ == old(self)@,
    {
        if self.closed.is_some() {
            return Err(PushError::Closed);
        }
        match self.capacity {
            Some(c) => {
                if self.items.len() >= c {
                    return Err(PushError::Full);
                }
            },
            None => {},
        }
        self.items.push_back(event);
        Ok(())
    }

    /// Takes the oldest event. Buffered events are still handed out after the queue closed;
    /// once none is left a closed queue reports its cause, an open one `Pending`.
    pub fn pop(&mut self) -> (r: Poll)
        ensures
            final(self).spec_capacity() == old(self).spec_capacity(),
            final(self).spec_closed() == old(self).spec_closed(),
            old(self)@.len() > 0 ==> r == Poll::Ready(old(self)@[0]) && final(self)@
                == old(self)@.drop_first(),
            old(self)@.len() == 0 ==> final(self)@ == old(self)@ && match old(self).spec_closed() {
                Some(c) => r == Poll::Closed(c),
                None => r is Pending,
            },
    {
        match self.items.pop_front() {
            Some(e) => Poll::Ready(e),
            None => match self.closed {
                Some(c) => Poll::Closed(c),
                None => Poll::Pending,
            },
        }
    }

    /// Ends the stream. Closing twice keeps the first cause.
    pub fn close(&mut self, cause: CloseCause)
        ensures
            final(self)@ == old(self)@,
            final(self).spec_capacity() == old(self).spec_capacity(),
            final(self).spec_closed() == match old(self).spec_closed() {
                Some(c) => Some(c),
                None => Some(cause),
            },
    {
        if self.closed.is_none() {
            self.closed = Some(cause);
        }
    }
}

/// The result of a run of pushes (`Some(event)`) and pops (`None`) on a queue that starts
/// with `items`: the events left, the events accepted by pushes, and the events handed
/// out by pops, each in order.
pub open spec fn run_ops(
    items: Seq<String>,
    capacity: Option<usize>,
    closed: bool,
    ops: Seq<Option<String>>,
) -> (Seq<String>, Seq<String>, Seq<String>)
    decreases ops.len(),
{
    if ops.len() == 0 {
        (items, Seq::empty(), Seq::empty())
    } else {
        let (q, accepted, delivered) = run_ops(items, capacity, closed, ops.drop_last());
        match ops.last() {
            Some(e) => if accepts(q.len(), capacity, closed) {
                (q.push(e), accepted.push(e), delivered)
            } else {
                (q, accepted, delivered)
            },
            None => if q.len() > 0 {
                (q.drop_first(), accepted, delivered.push(q[0]))
            } else {
                (q, accepted, delivered)
            },
        }
    }
}

/// Order is kept and nothing is lost: over any run of pushes and pops, the events that
/// were buffered followed by those accepted are exactly the events handed out followed
/// by those still buffered.
pub proof fn lemma_queue_fifo(
    items: Seq<String>,
    capacity: Option<usize>,
    closed: bool,
    ops: Seq<Option<String>>,
)
    ensures
        ({
            let (q, accepted, delivered) = run_ops(items, capacity, closed, ops);
            items + accepted == delivered + q
        }),
    decreases ops.len(),
{
    if ops.len() > 0 {
        lemma_queue_fifo(items, capacity, closed, ops.drop_last());
        let (q, accepted, delivered) = run_ops(items, capacity, closed, ops.drop_last());
        match ops.last() {
            Some(e) => {
                assert(items + accepted.push(e) =~= (items + accepted).push(e));
                assert(delivered + q.push(e) =~= (delivered + q).push(e));
            },
            None => {
                if q.len() > 0 {
                    assert(delivered.push(q[0]) + q.drop_first() =~= delivered + q);
                }
            },
        }
    }
}

} // verus!
