use vstd::prelude::*;
use crate::escrow::{
    Escrows,
    Gate,
    Slot,
    checkin_spec,
    checkout_spec,
    held_handler,
    live_timer,
    placed,
    rearm_spec,
    release_spec,
    slot_at,
};
use crate::fd::{FdEvent, FdInterest};

verus! {

/// What the reactor is asked to do for a registration.
#[derive(Clone, Copy, Debug, PartialEq, Eq, Structural)]
pub enum Request<T> {
    /// End the registration.
    Unregister(T),
    /// Change the interest of a file descriptor registration.
    UpdateFdMask(T, u32),
    /// Arm a timer registration for this many milliseconds; 0 disarms it.
    UpdateTimerDelay(T, i32),
}

/// The event of a timer source.
#[derive(Clone, Copy, Debug, PartialEq, Eq, Structural)]
pub struct TimerEvent;

/// A registration with the reactor, for events of kind `E`.
///
/// It holds the reactor's token and the slot of the escrowed handler.
pub struct Source<E, T> {
    token: T,
    slot: usize,
    kind: core::marker::PhantomData<E>,
}

impl<E, T> Source<E, T> {
    /// The reactor's token of this registration.
    pub closed spec fn token(&self) -> T {
        self.token
    }

    /// The slot of this registration's handler.
    pub closed spec fn slot(&self) -> int {
        self.slot as int
    }

    /// A handle for the registration `token`, whose handler waits in `slot`.
    pub fn make(token: T, slot: usize) -> (r: Source<E, T>)
        ensures
            r.token() == token,
            r.slot() == slot,
    {
        Source { token, slot, kind: core::marker::PhantomData }
    }

    /// The slot of this registration's handler.
    pub fn slot_index(&self) -> (r: usize)
        ensures
            r == self.slot(),
    {
        self.slot
    }

    /// Ends the registration: hands back the handler and asks the reactor to
    /// unregister. The slot is freed, so no dispatch reaches the handler again.
    pub fn remove<H>(self, escrows: &mut Escrows<H>) -> (r: (H, Request<T>))
        requires
            slot_at(old(escrows)@, self.slot()) is Held,
        ensures
            r.0 == held_handler(old(escrows)@, self.slot()),
            r.1 == Request::Unregister(self.token()),
            final(escrows)@ == release_spec(old(escrows)@, self.slot()),
    {
        let (h, _) = escrows.take(self.slot);
        (h, Request::Unregister(self.token))
    }
}

impl<T: Copy> Source<FdEvent, T> {
    /// Asks the reactor to change the interest of this descriptor. `None`
    /// where no registration lives at this slot any more.
    pub fn update_mask<H>(&mut self, mask: FdInterest, escrows: &Escrows<H>) -> (r: Option<Request<T>>)
        ensures
            final(self).token() == old(self).token(),
            final(self).slot() == old(self).slot(),
            r == if slot_at(escrows@, old(self).slot()) is Free {
                None
            } else {
                Some(Request::UpdateFdMask(old(self).token(), mask@))
            },
    {
        if escrows.is_free(self.slot) {
            None
        } else {
            Some(Request::UpdateFdMask(self.token, mask.bits()))
        }
    }
}

impl<T: Copy> Source<TimerEvent, T> {
    /// Arms the timer for `delay` milliseconds; a delay of 0 disarms it.
    ///
    /// An armed timer is dispatched once when it expires, then stays dormant
    /// until it is armed again. `None` where no timer lives at this slot.
    pub fn set_delay_ms<H>(&mut self, delay: i32, escrows: &mut Escrows<H>) -> (r: Option<Request<T>>)
        ensures
            final(self).token() == old(self).token(),
            final(self).slot() == old(self).slot(),
            live_timer(old(escrows)@, old(self).slot()) ==> r == Some(
                Request::UpdateTimerDelay(old(self).token(), delay),
            ) && final(escrows)@ == rearm_spec(old(escrows)@, old(self).slot(), delay > 0),
            !live_timer(old(escrows)@, old(self).slot()) ==> r is None && final(escrows)@ == old(
                escrows,
            )@,
    {
        if escrows.set_timer(self.slot, delay > 0) {
            Some(Request::UpdateTimerDelay(self.token, delay))
        } else {
            None
        }
    }
}

/// Whether an idle registration waits at `i`.
pub open spec fn idle_at<H>(s: Seq<Slot<H>>, i: int) -> bool {
    slot_at(s, i) matches Slot::Held(_, Gate::Idle { .. })
}

/// Whether the idle registration at `i` has been dispatched.
pub open spec fn idle_dispatched<H>(s: Seq<Slot<H>>, i: int) -> bool {
    slot_at(s, i) matches Slot::Held(_, Gate::Idle { dispatched }) && dispatched
}

/// What the reactor is asked when the idle registration `token` at `i` is
/// removed: to unregister it, unless its one dispatch already consumed it.
pub open spec fn idle_removal<H, T>(s: Seq<Slot<H>>, i: int, token: T) -> Option<Request<T>> {
    if idle_dispatched(s, i) {
        None
    } else {
        Some(Request::Unregister(token))
    }
}

/// A registration with the reactor that is dispatched at most once, when the
/// reactor has nothing else to do.
///
/// Dropping this handle does not end the registration; `remove` does.
pub struct IdleSource<T> {
    token: T,
    slot: usize,
}

impl<T> IdleSource<T> {
    /// The reactor's token of this registration.
    pub closed spec fn token(&self) -> T {
        self.token
    }

    /// The slot of this registration's handler.
    pub closed spec fn slot(&self) -> int {
        self.slot as int
    }

    /// A handle for the idle registration `token`, whose handler waits in `slot`.
    pub fn make(token: T, slot: usize) -> (r: IdleSource<T>)
        ensures
            r.token() == token,
            r.slot() == slot,
    {
        IdleSource { token, slot }
    }

    /// The slot of this registration's handler.
    pub fn slot_index(&self) -> (r: usize)
        ensures
            r == self.slot(),
    {
        self.slot
    }

    /// Ends the registration and hands back the handler. The reactor is asked
    /// to unregister only where the source has not been dispatched yet.
    pub fn remove<H>(self, escrows: &mut Escrows<H>) -> (r: (H, Option<Request<T>>))
        requires
            idle_at(old(escrows)@, self.slot()),
        ensures
            r.0 == held_handler(old(escrows)@, self.slot()),
            r.1 == idle_removal(old(escrows)@, self.slot(), self.token()),
            final(escrows)@ == release_spec(old(escrows)@, self.slot()),
    {
        let (h, g) = escrows.take(self.slot);
        let dispatched = match g {
            Gate::Idle { dispatched } => dispatched,
            _ => false,
        };
        if dispatched {
            (h, None)
        } else {
            (h, Some(Request::Unregister(self.token)))
        }
    }
}

/// The handler escrowed for a registration is the one that its removal hands
/// back, and once it is removed no dispatch reaches its slot.
pub proof fn lemma_remove_hands_back<H>(s0: Seq<Slot<H>>, i: int, h: H, g: Gate, s1: Seq<Slot<H>>)
    requires
        placed(s0, i, h, g, s1),
    ensures
        slot_at(s1, i) is Held,
        held_handler(s1, i) == h,
        checkout_spec(release_spec(s1, i), i) == (release_spec(s1, i), None::<H>),
{
}

/// An idle source removed before it was dispatched has the reactor asked to
/// unregister it once, and hands back its handler.
pub proof fn lemma_idle_removed_unfired<H, T>(s0: Seq<Slot<H>>, i: int, h: H, s1: Seq<Slot<H>>, token: T)
    requires
        placed(s0, i, h, Gate::Idle { dispatched: false }, s1),
    ensures
        idle_at(s1, i),
        held_handler(s1, i) == h,
        idle_removal(s1, i, token) == Some(Request::Unregister(token)),
{
}

/// An idle source removed after its one dispatch has the reactor asked for
/// nothing, and still hands back its handler.
pub proof fn lemma_idle_removed_after_firing<H, T>(
    s0: Seq<Slot<H>>,
    i: int,
    h: H,
    s1: Seq<Slot<H>>,
    token: T,
)
    requires
        placed(s0, i, h, Gate::Idle { dispatched: false }, s1),
    ensures
        checkout_spec(s1, i).1 == Some(h),
        idle_at(checkin_spec(checkout_spec(s1, i).0, i, h), i),
        held_handler(checkin_spec(checkout_spec(s1, i).0, i, h), i) == h,
        idle_removal(checkin_spec(checkout_spec(s1, i).0, i, h), i, token) == None::<Request<T>>,
{
}

/// An idle source is dispatched at most once: once the reactor signaled it,
/// signaling it again, while its handler runs or after, reaches no handler.
pub proof fn lemma_idle_dispatched_once<H>(s: Seq<Slot<H>>, i: int, back: H)
    requires
        idle_at(s, i),
    ensures
        checkout_spec(checkout_spec(s, i).0, i).1 is None,
        checkout_spec(checkin_spec(checkout_spec(s, i).0, i, back), i).1 is None,
{
}

/// A timer given the delay 0 is not dispatched, whether its handler waits or
/// runs, until a positive delay arms it again.
pub proof fn lemma_disarmed_timer_is_quiet<H>(s: Seq<Slot<H>>, i: int, back: H)
    requires
        live_timer(s, i),
    ensures
        checkout_spec(rearm_spec(s, i, false), i) == (rearm_spec(s, i, false), None::<H>),
        checkout_spec(checkin_spec(rearm_spec(s, i, false), i, back), i).1 is None,
        checkout_spec(rearm_spec(checkin_spec(rearm_spec(s, i, false), i, back), i, true), i).1 is Some,
{
}

} // verus!
