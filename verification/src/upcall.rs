//! The upcall registry: tracks callbacks registered by subscribe-class calls
//! and their readiness, and delivers at most one ready entry per yield,
//! oldest-ready-first.

use vstd::prelude::*;

verus! {

/// One registered upcall. It is created not-yet-ready when a subscription is
/// made, transitions to ready when the test marks the simulated external
/// event, and is removed when a yield delivers it.
#[derive(Clone, Copy, Debug, PartialEq, Eq, Structural)]
pub struct PendingUpcall {
    pub driver_id: u32,
    pub subscribe_slot: u32,
    /// Whether the simulated external event has occurred.
    pub ready: bool,
    /// First argument recorded by `mark_ready`; zero until then.
    pub argument0: u32,
    /// Second argument recorded by `mark_ready`; zero until then.
    pub argument1: u32,
}

/// A delivered upcall, handed to the caller of a yield so that the recorded
/// callback target can be invoked with the recorded arguments.
#[derive(Clone, Copy, Debug, PartialEq, Eq, Structural)]
pub struct UpcallEvent {
    pub driver_id: u32,
    pub subscribe_slot: u32,
    pub argument0: u32,
    pub argument1: u32,
}

/// The event that delivering the pending entry `p` produces.
pub open spec fn event_of(p: PendingUpcall) -> UpcallEvent {
    UpcallEvent {
        driver_id: p.driver_id,
        subscribe_slot: p.subscribe_slot,
        argument0: p.argument0,
        argument1: p.argument1,
    }
}

/// The index of the oldest ready entry in `s`, or `s.len()` if none is ready.
pub open spec fn first_ready(s: Seq<PendingUpcall>) -> int
    decreases s.len(),
{
    if s.len() == 0 {
        0
    } else if s[0].ready {
        0
    } else {
        1 + first_ready(s.drop_first())
    }
}

/// Whether some entry of `s` is ready for delivery.
pub open spec fn has_ready(s: Seq<PendingUpcall>) -> bool {
    first_ready(s) < s.len()
}

/// The index of the oldest not-yet-ready entry of `s` registered for the
/// given driver and slot, or `s.len()` if there is none.
pub open spec fn first_waiting(s: Seq<PendingUpcall>, driver_id: u32, subscribe_slot: u32) -> int
    decreases s.len(),
{
    if s.len() == 0 {
        0
    } else if s[0].driver_id == driver_id && s[0].subscribe_slot == subscribe_slot && !s[0].ready {
        0
    } else {
        1 + first_waiting(s.drop_first(), driver_id, subscribe_slot)
    }
}

/// Law (delivery order): delivery is oldest-ready-first. `first_ready`
/// designates an in-range ready entry whenever one exists, and every entry
/// before it is not ready.
pub proof fn lemma_first_ready_bounds(s: Seq<PendingUpcall>)
    ensures
        0 <= first_ready(s) <= s.len(),
        forall|j: int| 0 <= j < first_ready(s) ==> !s[j].ready,
        first_ready(s) < s.len() ==> s[first_ready(s)].ready,
    decreases s.len(),
{
    if s.len() > 0 && !s[0].ready {
        lemma_first_ready_bounds(s.drop_first());
        assert forall|j: int| 0 <= j < first_ready(s) implies !s[j].ready by {
            if j > 0 {
                assert(s.drop_first()[j - 1] == s[j]);
            }
        }
    }
}

/// `first_ready` is the unique index with nothing ready before it that is
/// either ready itself or the end of the sequence.
pub proof fn lemma_first_ready_is(s: Seq<PendingUpcall>, i: int)
    requires
        0 <= i <= s.len(),
        forall|j: int| 0 <= j < i ==> !s[j].ready,
        i < s.len() ==> s[i].ready,
    ensures
        first_ready(s) == i,
    decreases s.len(),
{
    if s.len() > 0 && !s[0].ready {
        assert forall|j: int| 0 <= j < i - 1 implies !s.drop_first()[j].ready by {
            assert(s.drop_first()[j] == s[j + 1]);
        }
        assert(i - 1 < s.drop_first().len() ==> s.drop_first()[i - 1].ready);
        lemma_first_ready_is(s.drop_first(), i - 1);
    }
}

/// `first_waiting` is the unique index with no matching not-ready entry
/// before it that either matches itself or is the end of the sequence.
pub proof fn lemma_first_waiting_is(
    s: Seq<PendingUpcall>,
    driver_id: u32,
    subscribe_slot: u32,
    i: int,
)
    requires
        0 <= i <= s.len(),
        forall|j: int| 0 <= j < i
            ==> !(s[j].driver_id == driver_id && s[j].subscribe_slot == subscribe_slot
                && !s[j].ready),
        i < s.len() ==> s[i].driver_id == driver_id && s[i].subscribe_slot == subscribe_slot
            && !s[i].ready,
    ensures
        first_waiting(s, driver_id, subscribe_slot) == i,
    decreases s.len(),
{
    if s.len() > 0
        && !(s[0].driver_id == driver_id && s[0].subscribe_slot == subscribe_slot && !s[0].ready) {
        assert forall|j: int| 0 <= j < i - 1 implies !(s.drop_first()[j].driver_id == driver_id
            && s.drop_first()[j].subscribe_slot == subscribe_slot
            && !s.drop_first()[j].ready) by {
            assert(s.drop_first()[j] == s[j + 1]);
        }
        assert(i - 1 < s.drop_first().len() ==> s.drop_first()[i - 1] == s[i]);
        lemma_first_waiting_is(s.drop_first(), driver_id, subscribe_slot, i - 1);
    }
}

/// Tracks pending upcalls in registration order. Owned by the fake kernel;
/// registered by subscribe-class calls or by test setup, readied by test
/// setup, and drained one entry per delivering yield.
pub struct UpcallRegistry {
    pending: Vec<PendingUpcall>,
}

impl UpcallRegistry {
    /// The registered entries, oldest first.
    pub closed spec fn entries(&self) -> Seq<PendingUpcall> {
        self.pending@
    }

    /// An empty registry.
    pub fn new() -> (r: UpcallRegistry)
        ensures
            r.entries() == Seq::<PendingUpcall>::empty(),
    {
        UpcallRegistry { pending: Vec::new() }
    }

    /// How many entries are registered, ready or not.
    pub fn len(&self) -> (n: usize)
        ensures
            n == self.entries().len(),
    {
        self.pending.len()
    }

    /// Whether some entry is ready for delivery.
    pub fn any_ready(&self) -> (r: bool)
        ensures
            r == has_ready(self.entries()),
    {
        let n = self.pending.len();
        let mut i: usize = 0;
        while i < n
            invariant
                n == self.pending@.len(),
                0 <= i <= n,
                forall|j: int| 0 <= j < i ==> !self.pending@[j].ready,
            decreases n - i,
        {
            if self.pending[i].ready {
                proof {
                    lemma_first_ready_is(self.pending@, i as int);
                }
                return true;
            }
            i = i + 1;
        }
        proof {
            lemma_first_ready_is(self.pending@, n as int);
        }
        false
    }

    /// Stores a pending, not-yet-ready entry for the given driver and slot.
    pub fn register(&mut self, driver_id: u32, subscribe_slot: u32)
        ensures
            final(self).entries() == old(self).entries().push(
                PendingUpcall {
                    driver_id,
                    subscribe_slot,
                    ready: false,
                    argument0: 0,
                    argument1: 0,
                },
            ),
    {
        self.pending.push(
            PendingUpcall { driver_id, subscribe_slot, ready: false, argument0: 0, argument1: 0 },
        );
    }

    /// Transitions the oldest matching not-yet-ready entry to ready,
    /// recording the arguments its callback will be invoked with. Returns
    /// whether such an entry existed; if none did, nothing changes.
    pub fn mark_ready(
        &mut self,
        driver_id: u32,
        subscribe_slot: u32,
        argument0: u32,
        argument1: u32,
    ) -> (found: bool)
        ensures
            ({
                let k = first_waiting(old(self).entries(), driver_id, subscribe_slot);
                if k < old(self).entries().len() {
                    found && final(self).entries() == old(self).entries().update(
                        k,
                        (PendingUpcall {
                            driver_id,
                            subscribe_slot,
                            ready: true,
                            argument0,
                            argument1,
                        }),
                    )
                } else {
                    !found && final(self).entries() == old(self).entries()
                }
            }),
    {
        let n = self.pending.len();
        let mut i: usize = 0;
        while i < n
            invariant
                n == self.pending@.len(),
                0 <= i <= n,
                self.pending@ == old(self).pending@,
                forall|j: int| 0 <= j < i
                    ==> !(self.pending@[j].driver_id == driver_id
                        && self.pending@[j].subscribe_slot == subscribe_slot
                        && !self.pending@[j].ready),
            decreases n - i,
        {
            let entry = self.pending[i];
            if entry.driver_id == driver_id && entry.subscribe_slot == subscribe_slot
                && !entry.ready {
                proof {
                    lemma_first_waiting_is(self.pending@, driver_id, subscribe_slot, i as int);
                }
                self.pending[i] = PendingUpcall {
                    driver_id,
                    subscribe_slot,
                    ready: true,
                    argument0,
                    argument1,
                };
                return true;
            }
            i = i + 1;
        }
        proof {
            lemma_first_waiting_is(self.pending@, driver_id, subscribe_slot, n as int);
        }
        false
    }

    /// Selects the oldest ready entry, removes it, and returns the event to
    /// deliver. If no entry is ready, reports `None` and changes nothing.
    pub fn deliver_one(&mut self) -> (r: Option<UpcallEvent>)
        ensures
            ({
                let k = first_ready(old(self).entries());
                if k < old(self).entries().len() {
                    r == Some(event_of(old(self).entries()[k])) && final(self).entries() == old(
                        self,
                    ).entries().remove(k)
                } else {
                    r is None && final(self).entries() == old(self).entries()
                }
            }),
    {
        let n = self.pending.len();
        let mut i: usize = 0;
        while i < n
            invariant
                n == self.pending@.len(),
                0 <= i <= n,
                self.pending@ == old(self).pending@,
                forall|j: int| 0 <= j < i ==> !self.pending@[j].ready,
            decreases n - i,
        {
            let entry = self.pending[i];
            if entry.ready {
                proof {
                    lemma_first_ready_is(self.pending@, i as int);
                }
                let _ = self.pending.remove(i);
                return Some(
                    UpcallEvent {
                        driver_id: entry.driver_id,
                        subscribe_slot: entry.subscribe_slot,
                        argument0: entry.argument0,
                        argument1: entry.argument1,
                    },
                );
            }
            i = i + 1;
        }
        proof {
            lemma_first_ready_is(self.pending@, n as int);
        }
        None
    }
}

} // verus!
