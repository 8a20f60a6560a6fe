use std::collections::VecDeque;
use vstd::prelude::*;

verus! {

/// The reply slots of the requests written on one stream connection, oldest
/// first. Riemann answers frames in the order it received them and carries no
/// request identifier, so each reply belongs to the oldest slot still waiting.
/// A slot must be added under the same lock as the write of its frame.
pub struct CallbackQueue<T> {
    slots: VecDeque<T>,
    open: bool,
}

/// What a callback queue holds: the waiting slots, oldest first, and whether
/// the receive side still runs.
pub struct QueueModel<T> {
    pub slots: Seq<T>,
    pub open: bool,
}

impl<T> View for CallbackQueue<T> {
    type V = QueueModel<T>;

    closed spec fn view(&self) -> QueueModel<T> {
        QueueModel { slots: self.slots@, open: self.open }
    }
}

/// A closed queue holds no slot.
pub open spec fn queue_wf<T>(m: QueueModel<T>) -> bool {
    !m.open ==> m.slots.len() == 0
}

/// A caller adds its slot before writing its frame: accepted while the receive
/// side runs, refused once it has stopped.
pub open spec fn enqueue_step<T>(m: QueueModel<T>, slot: T) -> (QueueModel<T>, bool) {
    if m.open {
        (QueueModel { slots: m.slots.push(slot), open: true }, true)
    } else {
        (m, false)
    }
}

/// A reply frame arrived: it goes to the oldest waiting slot. A frame that no
/// slot waits for means the stream is out of step, and the receive side stops.
pub open spec fn deliver_step<T>(m: QueueModel<T>) -> (QueueModel<T>, Option<T>) {
    if m.slots.len() > 0 {
        (QueueModel { slots: m.slots.drop_first(), open: m.open }, Some(m.slots[0]))
    } else {
        (QueueModel { slots: m.slots, open: false }, None)
    }
}

/// One event on a queue: a caller submits a request with its slot, or a reply
/// frame arrives.
pub enum QueueOp<T> {
    Submit(T),
    Frame,
}

/// Runs a sequence of events on a queue: the queue afterwards, the slots that
/// were accepted in order, and the slots that received a reply in order.
pub open spec fn run_queue<T>(m: QueueModel<T>, ops: Seq<QueueOp<T>>) -> (
    QueueModel<T>,
    Seq<T>,
    Seq<T>,
)
    decreases ops.len(),
{
    if ops.len() == 0 {
        (m, Seq::empty(), Seq::empty())
    } else {
        let (m1, accepted, delivered) = run_queue(m, ops.drop_last());
        match ops.last() {
            QueueOp::Submit(x) => {
                let (m2, ok) = enqueue_step(m1, x);
                (m2, if ok {
                    accepted.push(x)
                } else {
                    accepted
                }, delivered)
            },
            QueueOp::Frame => {
                let (m2, out) = deliver_step(m1);
                (m2, accepted, match out {
                    Some(x) => delivered.push(x),
                    None => delivered,
                })
            },
        }
    }
}

impl<T> CallbackQueue<T> {
    /// An open queue with no slot.
    pub fn new() -> (r: CallbackQueue<T>)
        ensures
            r@.slots.len() == 0,
            r@.open,
    {
        CallbackQueue { slots: VecDeque::new(), open: true }
    }

    pub fn is_open(&self) -> (r: bool)
        ensures
            r == self@.open,
    {
        self.open
    }

    /// The number of slots that wait for a reply.
    pub fn len(&self) -> (r: usize)
        ensures
            r == self@.slots.len(),
    {
        self.slots.len()
    }

    /// Adds the slot of a request about to be written. Once the receive side
    /// has stopped the slot is handed back, and the request must not be sent.
    pub fn enqueue(&mut self, slot: T) -> (r: Result<(), T>)
        requires
            queue_wf(old(self)@),
        ensures
            queue_wf(final(self)@),
            final(self)@ == enqueue_step(old(self)@, slot).0,
            r == (if old(self)@.open {
                Ok::<(), T>(())
            } else {
                Err::<(), T>(slot)
            }),
    {
        if self.open {
            self.slots.push_back(slot);
            assert(self.slots@ =~= old(self)@.slots.push(slot));
            Ok(())
        } else {
            Err(slot)
        }
    }

    /// A reply frame arrived: hands out the slot it belongs to. `None` means
    /// that no slot waited for it; the queue is then closed.
    pub fn deliver(&mut self) -> (r: Option<T>)
        requires
            queue_wf(old(self)@),
        ensures
            queue_wf(final(self)@),
            (final(self)@, r) == deliver_step(old(self)@),
    {
        match self.slots.pop_front() {
            Some(slot) => {
                assert(self.slots@ =~= old(self)@.slots.drop_first());
                Some(slot)
            },
            None => {
                self.open = false;
                None
            },
        }
    }

    /// The connection is dead: closes the queue and hands out every slot that
    /// still waits, oldest first, so that its caller learns of the failure.
    pub fn close(&mut self) -> (r: Vec<T>)
        ensures
            r@ == old(self)@.slots,
            final(self)@.slots.len() == 0,
            !final(self)@.open,
    {
        let mut out: Vec<T> = Vec::new();
        while self.slots.len() > 0
            invariant
                out@ + self.slots@ == old(self)@.slots,
            decreases self.slots@.len(),
        {
            let ghost before = self.slots@;
            match self.slots.pop_front() {
                Some(slot) => {
                    out.push(slot);
                    assert(out@ + self.slots@ =~= old(self)@.slots) by {
                        assert(before =~= seq![slot] + self.slots@);
                    }
                },
                None => {},
            }
        }
        assert(out@ + self.slots@ =~= out@);
        self.open = false;
        out
    }
}

/// Replies are matched to requests in order: over any sequence of submitted
/// requests and arriving reply frames on a new queue, the i-th reply goes to
/// the slot of the i-th accepted request, and the slots still waiting are the
/// accepted ones that have had no reply yet, in order.
pub proof fn lemma_fifo_matching<T>(ops: Seq<QueueOp<T>>)
    ensures
        ({
            let (m, accepted, delivered) = run_queue(
                QueueModel { slots: Seq::<T>::empty(), open: true },
                ops,
            );
            &&& delivered.len() <= accepted.len()
            &&& forall|i: int| 0 <= i < delivered.len() ==> #[trigger] delivered[i] == accepted[i]
            &&& m.slots == accepted.subrange(delivered.len() as int, accepted.len() as int)
            &&& queue_wf(m)
        }),
    decreases ops.len(),
{
    let m0 = QueueModel { slots: Seq::<T>::empty(), open: true };
    if ops.len() == 0 {
        let (m, accepted, delivered) = run_queue(m0, ops);
        assert(m.slots =~= accepted.subrange(0, 0));
    } else {
        lemma_fifo_matching(ops.drop_last());
        let (m1, acc1, del1) = run_queue(m0, ops.drop_last());
        let (m, accepted, delivered) = run_queue(m0, ops);
        if let QueueOp::Frame = ops.last() {
            if m1.slots.len() > 0 {
                assert(delivered == del1.push(m1.slots[0]));
                assert(m1.slots[0] == acc1[del1.len() as int]);
            }
        }
        assert(m.slots =~= accepted.subrange(delivered.len() as int, accepted.len() as int));
    }
}

} // verus!
