//! The bounded operation queue the renderer consumes.
//!
//! Operations are primitive state-machine steps. The queue is a bounded
//! FIFO with a `current` head: the head is the operation whose transition
//! is in flight, and `pop` advances it to the next queued operation.

use vstd::prelude::*;

use crate::color::Rgb;
use crate::effect::EffectId;

verus! {

/// A primitive step of the renderer's state machine.
#[derive(Clone, Copy, Debug, PartialEq, Eq, Structural)]
pub enum Operation {
    /// Fade the brightness to a new target.
    SetBrightness(u8),
    /// Replace the active effect, identified by its id.
    SwitchEffect(EffectId),
    /// Fade the active effect's color to a new anchor.
    SetColor(Rgb),
    /// Fade out to darkness, keeping the stored brightness target.
    PowerOff,
    /// Fade back in to the stored brightness target.
    PowerOn,
}

/// Capacity of the operation queue.
pub const OP_QUEUE_CAPACITY: usize = 10;

/// Fixed-capacity FIFO of operations, backed by `heapless::Deque`.
#[verifier::external_body]
pub struct OpDeque {
    inner: heapless::Deque<Operation, OP_QUEUE_CAPACITY>,
}

/// The operations an `OpDeque` holds, front first.
pub uninterp spec fn op_deque_items(q: OpDeque) -> Seq<Operation>;

impl OpDeque {
    /// Relies on `heapless::Deque::new`: a new deque holds nothing.
    #[verifier::external_body]
    fn new() -> (q: OpDeque)
        ensures
            op_deque_items(q) == Seq::<Operation>::empty(),
    {
        OpDeque { inner: heapless::Deque::new() }
    }

    /// Relies on `heapless::Deque::len`: the number of items held.
    #[verifier::external_body]
    fn len(&self) -> (n: usize)
        ensures
            n == op_deque_items(*self).len(),
    {
        self.inner.len()
    }

    /// Relies on `heapless::Deque::push_back`: appends the item at the back
    /// when there is room, and hands it back unchanged when the deque holds
    /// its full capacity.
    #[verifier::external_body]
    fn push_back(&mut self, op: Operation) -> (r: Result<(), Operation>)
        ensures
            r == (if op_deque_items(*old(self)).len() < OP_QUEUE_CAPACITY {
                Ok::<(), Operation>(())
            } else {
                Err::<(), Operation>(op)
            }),
            op_deque_items(*final(self)) == (if op_deque_items(*old(self)).len()
                < OP_QUEUE_CAPACITY {
                op_deque_items(*old(self)).push(op)
            } else {
                op_deque_items(*old(self))
            }),
            op_deque_items(*old(self)).len() >= OP_QUEUE_CAPACITY ==> *final(self) == *old(self),
    {
        self.inner.push_back(op)
    }

    /// Relies on `heapless::Deque::pop_front`: removes and returns the front
    /// item, or returns nothing from an empty deque.
    #[verifier::external_body]
    fn pop_front(&mut self) -> (r: Option<Operation>)
        ensures
            r == (if op_deque_items(*old(self)).len() == 0 {
                None
            } else {
                Some(op_deque_items(*old(self))[0])
            }),
            op_deque_items(*final(self)) == (if op_deque_items(*old(self)).len() == 0 {
                op_deque_items(*old(self))
            } else {
                op_deque_items(*old(self)).drop_first()
            }),
    {
        self.inner.pop_front()
    }
}

/// Bounded FIFO of operations with a `current` head.
///
/// The queued operations wait behind the head; the head is the operation
/// the renderer is carrying out. A freshly pushed operation becomes the
/// head at once when the queue was idle.
pub struct OperationStack {
    inner: OpDeque,
    current: Option<Operation>,
}

impl OperationStack {
    /// The operations waiting in the queue, front first.
    pub closed spec fn queue(self) -> Seq<Operation> {
        op_deque_items(self.inner)
    }

    /// The head operation, if any.
    pub closed spec fn current_op(self) -> Option<Operation> {
        self.current
    }

    /// The queue never holds more than its capacity.
    pub closed spec fn wf(self) -> bool {
        self.queue().len() <= OP_QUEUE_CAPACITY
    }

    /// Create an empty queue.
    pub fn new() -> (s: OperationStack)
        ensures
            s.queue() == Seq::<Operation>::empty(),
            s.current_op() is None,
            s.wf(),
    {
        OperationStack { inner: OpDeque::new(), current: None }
    }

    /// The head operation; nothing when the queue is idle.
    pub fn current(&self) -> (r: Option<Operation>)
        ensures
            r == self.current_op(),
    {
        self.current
    }

    /// Append an operation; it becomes the head at once if the queue was
    /// idle. A full queue rejects the operation and stays unchanged.
    pub fn push(&mut self, operation: Operation) -> (r: Result<(), Operation>)
        requires
            old(self).wf(),
        ensures
            final(self).wf(),
            old(self).queue().len() < OP_QUEUE_CAPACITY ==> r == Ok::<(), Operation>(()) && final(self).queue() == old(self).queue().push(operation) && final(self).current_op() == (
            if old(self).current_op() is None {
                Some(operation)
            } else {
                old(self).current_op()
            }),
            old(self).queue().len() >= OP_QUEUE_CAPACITY ==> r == Err::<(), Operation>(operation)
                && *final(self) == *old(self),
    {
        match self.inner.push_back(operation) {
            Err(op) => Err(op),
            Ok(_) => {
                if self.current.is_none() {
                    self.current = Some(operation);
                }
                Ok(())
            },
        }
    }

    /// Advance the head to the next queued operation and return the new
    /// head; the head clears when the queue has drained.
    pub fn pop(&mut self) -> (r: Option<Operation>)
        ensures
            old(self).wf() ==> final(self).wf(),
            final(self).current_op() == r,
            old(self).queue().len() == 0 ==> r is None && final(self).queue() == old(self).queue(),
            old(self).queue().len() > 0 ==> r == Some(old(self).queue()[0]) && final(self).queue()
                == old(self).queue().drop_first(),
    {
        let r = self.inner.pop_front();
        self.current = r;
        r
    }

    /// Queue a brightness change.
    pub fn push_brightness(&mut self, brightness: u8) -> (r: Result<(), Operation>)
        requires
            old(self).wf(),
        ensures
            final(self).wf(),
            old(self).queue().len() < OP_QUEUE_CAPACITY ==> r == Ok::<(), Operation>(()) && final(self).queue() == old(self).queue().push(Operation::SetBrightness(brightness)) && final(self).current_op() == (if old(self).current_op() is None {
                Some(Operation::SetBrightness(brightness))
            } else {
                old(self).current_op()
            }),
            old(self).queue().len() >= OP_QUEUE_CAPACITY ==> r == Err::<(), Operation>(
                Operation::SetBrightness(brightness),
            ) && *final(self) == *old(self),
    {
        self.push(Operation::SetBrightness(brightness))
    }

    /// Queue a color change.
    pub fn push_color(&mut self, color: Rgb) -> (r: Result<(), Operation>)
        requires
            old(self).wf(),
        ensures
            final(self).wf(),
            old(self).queue().len() < OP_QUEUE_CAPACITY ==> r == Ok::<(), Operation>(()) && final(self).queue() == old(self).queue().push(Operation::SetColor(color)) && final(self).current_op() == (if old(self).current_op() is None {
                Some(Operation::SetColor(color))
            } else {
                old(self).current_op()
            }),
            old(self).queue().len() >= OP_QUEUE_CAPACITY ==> r == Err::<(), Operation>(
                Operation::SetColor(color),
            ) && *final(self) == *old(self),
    {
        self.push(Operation::SetColor(color))
    }

    /// Queue a power-off.
    pub fn push_power_off(&mut self) -> (r: Result<(), Operation>)
        requires
            old(self).wf(),
        ensures
            final(self).wf(),
            old(self).queue().len() < OP_QUEUE_CAPACITY ==> r == Ok::<(), Operation>(()) && final(self).queue() == old(self).queue().push(Operation::PowerOff) && final(self).current_op()
                == (if old(self).current_op() is None {
                Some(Operation::PowerOff)
            } else {
                old(self).current_op()
            }),
            old(self).queue().len() >= OP_QUEUE_CAPACITY ==> r == Err::<(), Operation>(
                Operation::PowerOff,
            ) && *final(self) == *old(self),
    {
        self.push(Operation::PowerOff)
    }

    /// Queue a power-on.
    pub fn push_power_on(&mut self) -> (r: Result<(), Operation>)
        requires
            old(self).wf(),
        ensures
            final(self).wf(),
            old(self).queue().len() < OP_QUEUE_CAPACITY ==> r == Ok::<(), Operation>(()) && final(self).queue() == old(self).queue().push(Operation::PowerOn) && final(self).current_op() == (
            if old(self).current_op() is None {
                Some(Operation::PowerOn)
            } else {
                old(self).current_op()
            }),
            old(self).queue().len() >= OP_QUEUE_CAPACITY ==> r == Err::<(), Operation>(
                Operation::PowerOn,
            ) && *final(self) == *old(self),
    {
        self.push(Operation::PowerOn)
    }

    /// Queue the three-step effect swap atomically: fade the brightness to
    /// zero, switch the effect, fade back to `brightness`. Either all three
    /// operations enqueue, or — with fewer than three free slots — none do
    /// and the queue is handed back unchanged.
    pub fn push_effect(&mut self, id: EffectId, brightness: u8) -> (r: Result<(), Operation>)
        requires
            old(self).wf(),
        ensures
            final(self).wf(),
            old(self).queue().len() + 3 <= OP_QUEUE_CAPACITY ==> r == Ok::<(), Operation>(())
                && final(self).queue() == old(self).queue() + seq![
                Operation::SetBrightness(0),
                Operation::SwitchEffect(id),
                Operation::SetBrightness(brightness),
            ] && final(self).current_op() == (if old(self).current_op() is None {
                Some(Operation::SetBrightness(0))
            } else {
                old(self).current_op()
            }),
            old(self).queue().len() + 3 > OP_QUEUE_CAPACITY ==> r == Err::<(), Operation>(
                Operation::SwitchEffect(id),
            ) && *final(self) == *old(self),
    {
        let free_slots = OP_QUEUE_CAPACITY - self.inner.len();
        if free_slots < 3 {
            return Err(Operation::SwitchEffect(id));
        }
        let _ = self.push(Operation::SetBrightness(0));
        let _ = self.push(Operation::SwitchEffect(id));
        let _ = self.push(Operation::SetBrightness(brightness));
        proof {
            assert(self.queue() =~= old(self).queue() + seq![
                Operation::SetBrightness(0),
                Operation::SwitchEffect(id),
                Operation::SetBrightness(brightness),
            ]);
        }
        Ok(())
    }
}

} // verus!
