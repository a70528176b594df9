use vstd::prelude::*;

verus! {

/// When an escrowed handler may be dispatched.
#[derive(Clone, Copy, Debug, PartialEq, Eq, Structural)]
pub enum Gate {
    /// File descriptor and signal sources: every event reaches the handler.
    Always,
    /// Timer sources: one dispatch per arming, then dormant until rearmed.
    Timer { armed: bool },
    /// Idle sources: at most one dispatch over the whole registration.
    Idle { dispatched: bool },
}

/// Whether a gate lets the next event through.
pub open spec fn admits(g: Gate) -> bool {
    match g {
        Gate::Always => true,
        Gate::Timer { armed } => armed,
        Gate::Idle { dispatched } => !dispatched,
    }
}

/// How a gate stands after it let an event through.
pub open spec fn spent(g: Gate) -> Gate {
    match g {
        Gate::Always => Gate::Always,
        Gate::Timer { .. } => Gate::Timer { armed: false },
        Gate::Idle { .. } => Gate::Idle { dispatched: true },
    }
}

/// One slot of the escrow table.
pub enum Slot<H> {
    /// Nothing is registered here.
    Free,
    /// A handler waits for its events.
    Held(H, Gate),
    /// The handler is out, being invoked by a dispatch.
    Lent(Gate),
}

/// The slot at `i`; every index past the end is free.
pub open spec fn slot_at<H>(s: Seq<Slot<H>>, i: int) -> Slot<H> {
    if 0 <= i < s.len() {
        s[i]
    } else {
        Slot::Free
    }
}

/// The table after a dispatch is asked for at `i`, with the handler handed out, if any.
pub open spec fn checkout_spec<H>(s: Seq<Slot<H>>, i: int) -> (Seq<Slot<H>>, Option<H>) {
    match slot_at(s, i) {
        Slot::Held(h, g) => if admits(g) {
            (s.update(i, Slot::Lent(spent(g))), Some(h))
        } else {
            (s, None)
        },
        _ => (s, None),
    }
}

/// The table after the handler lent out at `i` came back.
pub open spec fn checkin_spec<H>(s: Seq<Slot<H>>, i: int, h: H) -> Seq<Slot<H>> {
    match slot_at(s, i) {
        Slot::Lent(g) => s.update(i, Slot::Held(h, g)),
        _ => s,
    }
}

/// The table after the registration at `i` ended.
pub open spec fn release_spec<H>(s: Seq<Slot<H>>, i: int) -> Seq<Slot<H>> {
    if 0 <= i < s.len() {
        s.update(i, Slot::Free)
    } else {
        s
    }
}

/// Whether `s2` is `s1` with `Held(h, g)` placed at `i`, the first free slot of `s1`.
pub open spec fn placed<H>(s1: Seq<Slot<H>>, i: int, h: H, g: Gate, s2: Seq<Slot<H>>) -> bool {
    &&& 0 <= i <= s1.len()
    &&& slot_at(s1, i) is Free
    &&& forall|j: int| 0 <= j < i ==> !(#[trigger] s1[j] is Free)
    &&& s2 == if i < s1.len() {
        s1.update(i, Slot::Held(h, g))
    } else {
        s1.push(Slot::Held(h, g))
    }
}

/// Whether `g` belongs to a timer.
pub open spec fn is_timer_gate(g: Gate) -> bool {
    g is Timer
}

/// Whether a timer registration lives at `i`, waiting or being dispatched.
pub open spec fn live_timer<H>(s: Seq<Slot<H>>, i: int) -> bool {
    match slot_at(s, i) {
        Slot::Held(_, g) => is_timer_gate(g),
        Slot::Lent(g) => is_timer_gate(g),
        Slot::Free => false,
    }
}

/// The table after the timer at `i` was armed (`armed`) or disarmed.
pub open spec fn rearm_spec<H>(s: Seq<Slot<H>>, i: int, armed: bool) -> Seq<Slot<H>> {
    let g = Gate::Timer { armed };
    match slot_at(s, i) {
        Slot::Held(h, _) => s.update(i, Slot::Held(h, g)),
        Slot::Lent(_) => s.update(i, Slot::Lent(g)),
        Slot::Free => s,
    }
}

/// The handler that waits at `i`.
pub open spec fn held_handler<H>(s: Seq<Slot<H>>, i: int) -> H
    recommends
        slot_at(s, i) is Held,
{
    match slot_at(s, i) {
        Slot::Held(h, _) => h,
        _ => arbitrary(),
    }
}

/// Handlers kept alive for as long as their registrations last.
///
/// The reactor gets a slot index as its callback data. Each handler is
/// taken out of the table exactly once: by the removal of its source.
pub struct Escrows<H> {
    slots: Vec<Slot<H>>,
}

impl<H> View for Escrows<H> {
    type V = Seq<Slot<H>>;

    closed spec fn view(&self) -> Seq<Slot<H>> {
        self.slots@
    }
}

impl<H> Escrows<H> {
    /// An empty table.
    pub fn new() -> (r: Escrows<H>)
        ensures
            r@ == Seq::<Slot<H>>::empty(),
    {
        Escrows { slots: Vec::new() }
    }

    /// Puts `new` at `i` and returns what stood there.
    fn replace(&mut self, i: usize, new: Slot<H>) -> (r: Slot<H>)
        requires
            i < old(self)@.len(),
        ensures
            r == old(self)@[i as int],
            final(self)@ == old(self)@.update(i as int, new),
    {
        self.slots.push(new);
        let r = self.slots.swap_remove(i);
        proof {
            assert(self.slots@ =~= old(self)@.update(i as int, new));
        }
        r
    }

    /// Escrows `handler` under `gate` in the first free slot and returns its index.
    pub fn escrow(&mut self, handler: H, gate: Gate) -> (slot: usize)
        requires
            old(self)@.len() < usize::MAX,
        ensures
            placed(old(self)@, slot as int, handler, gate, final(self)@),
    {
        let n = self.slots.len();
        let mut i: usize = 0;
        while i < n
            invariant
                n == self.slots@.len(),
                self.slots@ == old(self)@,
                i <= n,
                forall|j: int| 0 <= j < i ==> !(#[trigger] self.slots@[j] is Free),
            decreases n - i,
        {
            let free = match &self.slots[i] {
                Slot::Free => true,
                _ => false,
            };
            if free {
                let _ = self.replace(i, Slot::Held(handler, gate));
                return i;
            }
            i = i + 1;
        }
        self.slots.push(Slot::Held(handler, gate));
        i
    }

    /// Hands out the handler at `slot` for one dispatch, if its gate lets the event through.
    ///
    /// While the handler is out the slot is lent, so the same registration
    /// cannot be dispatched again before `checkin`.
    pub fn checkout(&mut self, slot: usize) -> (r: Option<H>)
        ensures
            (final(self)@, r) == checkout_spec(old(self)@, slot as int),
    {
        if slot >= self.slots.len() {
            return None;
        }
        let s = self.replace(slot, Slot::Free);
        match s {
            Slot::Held(h, g) => {
                let open = match g {
                    Gate::Always => true,
                    Gate::Timer { armed } => armed,
                    Gate::Idle { dispatched } => !dispatched,
                };
                if open {
                    let after = match g {
                        Gate::Always => Gate::Always,
                        Gate::Timer { .. } => Gate::Timer { armed: false },
                        Gate::Idle { .. } => Gate::Idle { dispatched: true },
                    };
                    let _ = self.replace(slot, Slot::Lent(after));
                    proof {
                        assert(self@ =~= old(self)@.update(slot as int, Slot::Lent(spent(g))));
                    }
                    Some(h)
                } else {
                    let _ = self.replace(slot, Slot::Held(h, g));
                    proof {
                        assert(self@ =~= old(self)@);
                    }
                    None
                }
            },
            other => {
                let _ = self.replace(slot, other);
                proof {
                    assert(self@ =~= old(self)@);
                }
                None
            },
        }
    }

    /// Whether the handler at `slot` is out for a dispatch.
    pub fn is_lent(&self, slot: usize) -> (r: bool)
        ensures
            r == (slot_at(self@, slot as int) is Lent),
    {
        slot < self.slots.len() && match &self.slots[slot] {
            Slot::Lent(_) => true,
            _ => false,
        }
    }

    /// How the registration at `slot` is gated, if one lives there.
    pub fn gate_at(&self, slot: usize) -> (r: Option<Gate>)
        ensures
            r == match slot_at(self@, slot as int) {
                Slot::Held(_, g) => Some(g),
                Slot::Lent(g) => Some(g),
                Slot::Free => None::<Gate>,
            },
    {
        if slot >= self.slots.len() {
            return None;
        }
        match &self.slots[slot] {
            Slot::Held(_, g) => Some(*g),
            Slot::Lent(g) => Some(*g),
            Slot::Free => None,
        }
    }

    /// Whether no registration lives at `slot`.
    pub fn is_free(&self, slot: usize) -> (r: bool)
        ensures
            r == (slot_at(self@, slot as int) is Free),
    {
        slot >= self.slots.len() || match &self.slots[slot] {
            Slot::Free => true,
            _ => false,
        }
    }

    /// Whether a handler waits at `slot`.
    pub fn holds(&self, slot: usize) -> (r: bool)
        ensures
            r == (slot_at(self@, slot as int) is Held),
    {
        slot < self.slots.len() && match &self.slots[slot] {
            Slot::Held(..) => true,
            _ => false,
        }
    }

    /// Takes the handler out of `slot` for good, with its gate, and frees the slot.
    pub fn take(&mut self, slot: usize) -> (r: (H, Gate))
        requires
            slot_at(old(self)@, slot as int) is Held,
        ensures
            slot_at(old(self)@, slot as int) == Slot::Held(r.0, r.1),
            final(self)@ == release_spec(old(self)@, slot as int),
    {
        match self.replace(slot, Slot::Free) {
            Slot::Held(h, g) => (h, g),
            _ => vstd::pervasive::unreached(),
        }
    }

    /// Arms or disarms the timer at `slot`; false, with nothing changed, where
    /// no timer lives there.
    pub fn set_timer(&mut self, slot: usize, armed: bool) -> (r: bool)
        ensures
            r == live_timer(old(self)@, slot as int),
            r ==> final(self)@ == rearm_spec(old(self)@, slot as int, armed),
            !r ==> final(self)@ == old(self)@,
    {
        if slot >= self.slots.len() {
            return false;
        }
        let g = Gate::Timer { armed };
        let s = self.replace(slot, Slot::Free);
        match s {
            Slot::Held(h, Gate::Timer { .. }) => {
                let _ = self.replace(slot, Slot::Held(h, g));
                proof {
                    assert(self@ =~= rearm_spec(old(self)@, slot as int, armed));
                }
                true
            },
            Slot::Lent(Gate::Timer { .. }) => {
                let _ = self.replace(slot, Slot::Lent(g));
                proof {
                    assert(self@ =~= rearm_spec(old(self)@, slot as int, armed));
                }
                true
            },
            other => {
                let _ = self.replace(slot, other);
                proof {
                    assert(self@ =~= old(self)@);
                }
                false
            },
        }
    }

    /// Gives back the handler that `checkout` lent out at `slot`.
    pub fn checkin(&mut self, slot: usize, handler: H)
        requires
            slot_at(old(self)@, slot as int) is Lent,
        ensures
            final(self)@ == checkin_spec(old(self)@, slot as int, handler),
    {
        let s = self.replace(slot, Slot::Free);
        match s {
            Slot::Lent(g) => {
                let _ = self.replace(slot, Slot::Held(handler, g));
                proof {
                    assert(self@ =~= old(self)@.update(slot as int, Slot::Held(handler, g)));
                }
            },
            _ => {},
        }
    }
}

} // verus!
