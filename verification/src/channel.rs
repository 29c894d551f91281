//! Bounded FIFO channel carrying user intents toward the renderer.
//!
//! The channel itself is a plain single-owner queue; callers that share it
//! between execution contexts serialize access around it.

use vstd::prelude::*;

use crate::intent_processor::LightChangeIntent;

verus! {

/// Capacity of the intent channel.
pub const INTENT_CHANNEL_CAPACITY: usize = 16;

/// Error returned when sending into a full channel; carries the rejected
/// value.
#[derive(Clone, Copy, Debug)]
pub struct TrySendError<T>(pub T);

/// Error returned when receiving from an empty channel.
#[derive(Clone, Copy, Debug, PartialEq, Eq, Structural)]
pub struct TryReceiveError;

/// Fixed-capacity FIFO of intents, backed by `heapless::Deque`.
#[verifier::external_body]
pub struct IntentDeque {
    inner: heapless::Deque<LightChangeIntent, INTENT_CHANNEL_CAPACITY>,
}

/// The intents an `IntentDeque` holds, front first.
pub uninterp spec fn intent_deque_items(q: IntentDeque) -> Seq<LightChangeIntent>;

impl IntentDeque {
    /// Relies on `heapless::Deque::new`: a new deque holds nothing.
    #[verifier::external_body]
    fn new() -> (q: IntentDeque)
        ensures
            intent_deque_items(q) == Seq::<LightChangeIntent>::empty(),
    {
        IntentDeque { inner: heapless::Deque::new() }
    }

    /// Relies on `heapless::Deque::push_back`: appends the item at the back
    /// when there is room, and hands it back unchanged when the deque holds
    /// its full capacity.
    #[verifier::external_body]
    fn push_back(&mut self, value: LightChangeIntent) -> (r: Result<(), LightChangeIntent>)
        ensures
            r == (if intent_deque_items(*old(self)).len() < INTENT_CHANNEL_CAPACITY {
                Ok::<(), LightChangeIntent>(())
            } else {
                Err::<(), LightChangeIntent>(value)
            }),
            intent_deque_items(*final(self)) == (if intent_deque_items(*old(self)).len()
                < INTENT_CHANNEL_CAPACITY {
                intent_deque_items(*old(self)).push(value)
            } else {
                intent_deque_items(*old(self))
            }),
            intent_deque_items(*old(self)).len() >= INTENT_CHANNEL_CAPACITY ==> *final(self)
                == *old(self),
    {
        self.inner.push_back(value)
    }

    /// Relies on `heapless::Deque::pop_front`: removes and returns the front
    /// item, or returns nothing from an empty deque.
    #[verifier::external_body]
    fn pop_front(&mut self) -> (r: Option<LightChangeIntent>)
        ensures
            r == (if intent_deque_items(*old(self)).len() == 0 {
                None
            } else {
                Some(intent_deque_items(*old(self))[0])
            }),
            intent_deque_items(*final(self)) == (if intent_deque_items(*old(self)).len() == 0 {
                intent_deque_items(*old(self))
            } else {
                intent_deque_items(*old(self)).drop_first()
            }),
    {
        self.inner.pop_front()
    }
}

/// A bounded FIFO of intents: sends fail on a full channel and hand the
/// intent back, receives fail on an empty one.
pub struct Channel {
    inner: IntentDeque,
}

impl Channel {
    /// The queued intents, oldest first.
    pub closed spec fn items(self) -> Seq<LightChangeIntent> {
        intent_deque_items(self.inner)
    }

    /// The channel never holds more than its capacity.
    pub closed spec fn wf(self) -> bool {
        self.items().len() <= INTENT_CHANNEL_CAPACITY
    }

    /// Create an empty channel.
    pub fn new() -> (c: Channel)
        ensures
            c.items() == Seq::<LightChangeIntent>::empty(),
            c.wf(),
    {
        Channel { inner: IntentDeque::new() }
    }

    /// Try to queue an intent; a full channel rejects it and hands it back.
    pub fn try_send(&mut self, value: LightChangeIntent) -> (r: Result<
        (),
        TrySendError<LightChangeIntent>,
    >)
        requires
            old(self).wf(),
        ensures
            final(self).wf(),
            old(self).items().len() < INTENT_CHANNEL_CAPACITY ==> r is Ok && final(self).items()
                == old(self).items().push(value),
            old(self).items().len() >= INTENT_CHANNEL_CAPACITY ==> (r matches Err(e) && e.0
                == value) && *final(self) == *old(self),
    {
        match self.inner.push_back(value) {
            Ok(_) => Ok(()),
            Err(v) => Err(TrySendError(v)),
        }
    }

    /// Try to take the oldest intent; an empty channel reports so.
    pub fn try_receive(&mut self) -> (r: Result<LightChangeIntent, TryReceiveError>)
        ensures
            old(self).wf() ==> final(self).wf(),
            old(self).items().len() == 0 ==> r == Err::<LightChangeIntent, TryReceiveError>(
                TryReceiveError,
            ) && final(self).items() == old(self).items(),
            old(self).items().len() > 0 ==> r == Ok::<LightChangeIntent, TryReceiveError>(
                old(self).items()[0],
            ) && final(self).items() == old(self).items().drop_first(),
    {
        match self.inner.pop_front() {
            Some(v) => Ok(v),
            None => Err(TryReceiveError),
        }
    }

    /// Drain every queued intent, oldest first.
    pub fn drain(&mut self) -> (v: Vec<LightChangeIntent>)
        ensures
            final(self).items() == Seq::<LightChangeIntent>::empty(),
            old(self).wf() ==> final(self).wf(),
            v@ == old(self).items(),
    {
        let mut v: Vec<LightChangeIntent> = Vec::new();
        loop
            invariant_except_break
                self.items() == old(self).items().skip(v@.len() as int),
                v@ == old(self).items().subrange(0, v@.len() as int),
                v@.len() <= old(self).items().len(),
            ensures
                v@ == old(self).items(),
                self.items().len() == 0,
            decreases self.items().len(),
        {
            let ghost taken = v@.len() as int;
            match self.try_receive() {
                Ok(intent) => {
                    v.push(intent);
                    proof {
                        assert(old(self).items().skip(taken)[0] == old(self).items()[taken]);
                        assert(old(self).items().skip(taken).drop_first() =~= old(
                            self,
                        ).items().skip(taken + 1));
                        assert(v@ =~= old(self).items().subrange(0, taken + 1));
                    }
                },
                Err(_) => {
                    proof {
                        assert(v@ =~= old(self).items());
                    }
                    break ;
                },
            }
        }
        v
    }
}

} // verus!
