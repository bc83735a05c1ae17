//! The ring of reward events of a pool.
//!
//! Every reward that is dropped on a pool leaves an event in the ring. Events are
//! counted by cursors that only grow; the slot of a cursor is the cursor modulo the
//! capacity, so a ring of `n` slots forgets an event when the `n`-th event after it
//! comes in.

use vstd::prelude::*;

use crate::error::ErrorCode;
use crate::key::{zero_key, Pubkey};

verus! {

/// That a reward was dropped.
#[derive(Clone, Copy, Debug, PartialEq, Eq)]
pub struct RewardEvent {
    /// The rewarder that pays the reward.
    pub rewarder: Pubkey,
    /// When it was dropped.
    pub ts: i64,
    /// Whether the reward is paid into lockers.
    pub locked: bool,
}

/// The event in a slot that none was written to.
pub open spec fn empty_event() -> RewardEvent {
    RewardEvent { rewarder: zero_key(), ts: 0, locked: false }
}

impl Default for RewardEvent {
    fn default() -> (r: Self)
        ensures
            r == empty_event(),
    {
        RewardEvent { rewarder: Pubkey::default(), ts: 0, locked: false }
    }
}

/// What a ring holds: the cursor of the next event, the cursor of the oldest event
/// that counts as live, and the slots.
#[verifier::ext_equal]
pub struct Ring {
    pub head: nat,
    pub tail: nat,
    pub slots: Seq<RewardEvent>,
}

impl Ring {
    /// How many slots there are.
    pub open spec fn capacity(self) -> nat {
        self.slots.len()
    }

    /// The slot of a cursor.
    pub open spec fn index_of(self, cursor: nat) -> int {
        cursor as int % self.capacity() as int
    }

    /// The event in the slot of a cursor.
    pub open spec fn event(self, cursor: nat) -> RewardEvent {
        self.slots[self.index_of(cursor)]
    }

    /// The next event will push the oldest live one out.
    pub open spec fn is_full(self) -> bool {
        self.index_of(self.head + 1) == self.index_of(self.tail)
    }

    /// The cursors are in order, and the live events fit with one slot to spare.
    pub open spec fn wf(self) -> bool {
        self.tail <= self.head < self.tail + self.capacity()
    }

    /// The live events, oldest first.
    pub open spec fn live(self) -> Seq<RewardEvent> {
        Seq::new((self.head - self.tail) as nat, |i: int| self.event((self.tail + i) as nat))
    }

    /// The ring after one more event.
    pub open spec fn append(self, event: RewardEvent) -> Ring {
        Ring {
            head: self.head + 1,
            tail: if self.is_full() {
                self.tail + 1
            } else {
                self.tail
            },
            slots: self.slots.update(self.index_of(self.head), event),
        }
    }

    /// The ring after more events, the first of them first.
    pub open spec fn append_all(self, events: Seq<RewardEvent>) -> Ring
        decreases events.len(),
    {
        if events.len() == 0 {
            self
        } else {
            self.append_all(events.drop_last()).append(events.last())
        }
    }

    /// An event can be appended: there is a slot for it, and the cursors that move
    /// stay within 32 bits.
    pub open spec fn can_append(self) -> bool {
        &&& 0 < self.capacity()
        &&& self.head < u32::MAX
        &&& self.is_full() ==> self.tail < u32::MAX
    }

    /// The ring with another number of slots: the first ones kept, new ones empty.
    pub open spec fn resize(self, len: nat) -> Ring {
        Ring {
            slots: Seq::new(
                len,
                |i: int|
                    if i < self.slots.len() {
                        self.slots[i]
                    } else {
                        empty_event()
                    },
            ),
            ..self
        }
    }
}

/// A ring of reward events.
#[derive(Clone, Debug, PartialEq)]
pub struct RewardQueue {
    head: u32,
    tail: u32,
    events: Vec<RewardEvent>,
}

impl View for RewardQueue {
    type V = Ring;

    closed spec fn view(&self) -> Ring {
        Ring { head: self.head as nat, tail: self.tail as nat, slots: self.events@ }
    }
}

impl RewardQueue {
    /// A ring out of its parts.
    pub fn from_parts(head: u32, tail: u32, events: Vec<RewardEvent>) -> (r: Self)
        ensures
            r@ == (Ring { head: head as nat, tail: tail as nat, slots: events@ }),
    {
        RewardQueue { head, tail, events }
    }

    /// The slots.
    pub fn events(&self) -> (r: &Vec<RewardEvent>)
        ensures
            r@ == self@.slots,
    {
        &self.events
    }

    /// Whether an event can be appended.
    pub fn can_append(&self) -> (r: bool)
        ensures
            r == self@.can_append(),
    {
        if self.capacity() == 0 || self.head == u32::MAX {
            return false;
        }
        let is_full = self.index_of(self.head + 1) == self.index_of(self.tail);
        !is_full || self.tail < u32::MAX
    }

    /// Writes an event into the slot of the next cursor and returns that cursor. A
    /// full ring gives up its oldest live event.
    pub fn append(&mut self, event: RewardEvent) -> (r: Result<u32, ErrorCode>)
        requires
            old(self)@.can_append(),
        ensures
            r is Ok,
            r->Ok_0 == old(self)@.head,
            final(self)@ == old(self)@.append(event),
            old(self)@.wf() ==> final(self)@.wf(),
    {
        let cursor = self.head;

        let h_idx = self.index_of(self.head);
        self.events.set(h_idx, event);

        let is_full = self.index_of(self.head + 1) == self.index_of(self.tail);
        if is_full {
            self.tail += 1;
        }
        self.head += 1;

        proof {
            if old(self)@.wf() {
                law_append_keeps_order(old(self)@, event);
            }
        }
        Ok(cursor)
    }

    /// The slot of a cursor.
    pub fn index_of(&self, counter: u32) -> (r: usize)
        requires
            0 < self@.capacity(),
        ensures
            r == self@.index_of(counter as nat),
            r < self@.capacity(),
    {
        counter as usize % self.capacity()
    }

    /// How many slots there are.
    pub fn capacity(&self) -> (r: usize)
        ensures
            r == self@.capacity(),
    {
        self.events.len()
    }

    /// The event in the slot of a cursor.
    pub fn get(&self, cursor: u32) -> (r: &RewardEvent)
        requires
            0 < self@.capacity(),
        ensures
            *r == self@.event(cursor as nat),
    {
        &self.events[cursor as usize % self.capacity()]
    }

    /// The cursor of the next event.
    pub fn head(&self) -> (r: u32)
        ensures
            r == self@.head,
    {
        self.head
    }

    /// The cursor of the oldest live event.
    pub fn tail(&self) -> (r: u32)
        ensures
            r == self@.tail,
    {
        self.tail
    }

    /// Changes the number of slots: the first ones are kept, new ones are empty.
    pub fn resize(&mut self, len: u32)
        ensures
            final(self)@ == old(self)@.resize(len as nat),
    {
        self.events.resize(len as usize, RewardEvent::default());
        proof {
            let slots = old(self)@.resize(len as nat).slots;
            assert forall|i: int| 0 <= i < len implies self.events@[i] == slots[i] by {
                if i < old(self).events@.len() && old(self).events@.len() < len {
                    assert(self.events@.subrange(0, old(self).events@.len() as int)[i]
                        == old(self).events@[i]);
                }
            }
            assert(self.events@ =~= slots);
        }
    }
}

/// Two numbers less than `n` apart that are equal modulo `n` are equal.
proof fn lemma_mod_injective(a: int, b: int, n: int)
    requires
        0 < n,
        a <= b < a + n,
        a % n == b % n,
    ensures
        a == b,
{
    vstd::arithmetic::div_mod::lemma_fundamental_div_mod(a, n);
    vstd::arithmetic::div_mod::lemma_fundamental_div_mod(b, n);
    let qa = a / n;
    let qb = b / n;
    assert(b - a == n * (qb - qa)) by (nonlinear_arith)
        requires
            a == n * qa + a % n,
            b == n * qb + b % n,
            a % n == b % n,
    ;
    assert(qb - qa == 0) by (nonlinear_arith)
        requires
            0 <= b - a < n,
            b - a == n * (qb - qa),
    ;
}

/// Cursors one capacity apart share their slot.
proof fn lemma_mod_period(a: int, n: int)
    requires
        0 < n,
    ensures
        (a + n) % n == a % n,
{
    vstd::arithmetic::div_mod::lemma_mod_add_multiples_vanish(a, n);
}

/// In a ring in order, the next event pushes the oldest live one out exactly when
/// the live events fill all slots but one.
pub proof fn law_full_when_one_slot_is_spare(ring: Ring)
    requires
        ring.wf(),
    ensures
        ring.is_full() <==> ring.live().len() + 1 == ring.capacity(),
{
    let n = ring.capacity() as int;
    if ring.is_full() {
        if ring.head + 1 < ring.tail + n {
            lemma_mod_injective(ring.tail as int, (ring.head + 1) as int, n);
        }
    }
    if ring.head + 1 == ring.tail + n {
        lemma_mod_period(ring.tail as int, n);
    }
}

/// Appending keeps a ring in order, and moves its head by one.
pub proof fn law_append_keeps_order(ring: Ring, event: RewardEvent)
    requires
        ring.wf(),
    ensures
        ring.append(event).wf(),
        ring.append(event).head == ring.head + 1,
        ring.append(event).capacity() == ring.capacity(),
{
    law_full_when_one_slot_is_spare(ring);
}

/// Appending adds the event behind the live ones, and takes the oldest of them away
/// when the ring is full.
pub proof fn law_append_adds_to_the_live_events(ring: Ring, event: RewardEvent)
    requires
        ring.wf(),
    ensures
        ring.append(event).live() == if ring.is_full() {
            ring.live().push(event).drop_first()
        } else {
            ring.live().push(event)
        },
{
    let n = ring.capacity() as int;
    let next = ring.append(event);
    law_full_when_one_slot_is_spare(ring);
    assert forall|c: nat| ring.tail <= c < ring.head implies #[trigger] next.event(c)
        == ring.event(c) by {
        if ring.index_of(c) == ring.index_of(ring.head) {
            lemma_mod_injective(c as int, ring.head as int, n);
        }
    }
    assert(next.event(ring.head) == event) by {
        assert(0 <= ring.index_of(ring.head) < n);
    }
    let expected = if ring.is_full() {
        ring.live().push(event).drop_first()
    } else {
        ring.live().push(event)
    };
    assert(next.live() =~= expected);
}

/// Appending more events keeps the capacity and moves the head by their number.
pub proof fn law_append_all_counts(ring: Ring, events: Seq<RewardEvent>)
    requires
        0 < ring.capacity(),
    ensures
        ring.append_all(events).capacity() == ring.capacity(),
        ring.append_all(events).head == ring.head + events.len(),
    decreases events.len(),
{
    if events.len() > 0 {
        law_append_all_counts(ring, events.drop_last());
        let before = ring.append_all(events.drop_last());
        assert(0 <= before.index_of(before.head) < before.capacity());
    }
}

/// An event can be read back by the cursor that it was appended with, as long as
/// fewer events than there are slots come after it.
pub proof fn law_event_reads_back(ring: Ring, event: RewardEvent, later: Seq<RewardEvent>)
    requires
        later.len() < ring.capacity(),
    ensures
        ring.append(event).append_all(later).event(ring.head) == event,
    decreases later.len(),
{
    let n = ring.capacity() as int;
    assert(0 <= ring.index_of(ring.head) < n);
    if later.len() > 0 {
        let before = ring.append(event).append_all(later.drop_last());
        law_event_reads_back(ring, event, later.drop_last());
        law_append_all_counts(ring.append(event), later.drop_last());
        if before.index_of(before.head) == before.index_of(ring.head) {
            lemma_mod_injective(ring.head as int, before.head as int, n);
        }
    }
}

/// An event is forgotten once as many events as there are slots have come after it: the
/// last of them takes over its slot.
pub proof fn law_event_is_forgotten(
    ring: Ring,
    event: RewardEvent,
    between: Seq<RewardEvent>,
    last: RewardEvent,
)
    requires
        between.len() + 1 == ring.capacity(),
    ensures
        ring.append(event).append_all(between).append(last).event(ring.head) == last,
{
    let n = ring.capacity() as int;
    law_append_all_counts(ring.append(event), between);
    lemma_mod_period(ring.head as int, n);
    assert(0 <= ring.index_of(ring.head) < n);
}

/// A ring that is in order stays so through any number of events.
pub proof fn law_append_all_keeps_order(ring: Ring, events: Seq<RewardEvent>)
    requires
        ring.wf(),
    ensures
        ring.append_all(events).wf(),
    decreases events.len(),
{
    if events.len() > 0 {
        law_append_all_keeps_order(ring, events.drop_last());
        law_append_keeps_order(ring.append_all(events.drop_last()), events.last());
    }
}

/// A ring that starts with no event and is given slots is in order, and no event in
/// it is live.
pub proof fn law_fresh_ring_is_in_order(len: nat)
    requires
        0 < len,
    ensures
        (Ring { head: 0, tail: 0, slots: Seq::empty() }).resize(len).wf(),
        (Ring { head: 0, tail: 0, slots: Seq::empty() }).resize(len).capacity() == len,
        (Ring { head: 0, tail: 0, slots: Seq::empty() }).resize(len).live() == Seq::<
            RewardEvent,
        >::empty(),
{
}

/// A ring that is in order takes events until the cursors run out.
pub proof fn law_ring_in_order_takes_events(ring: Ring)
    requires
        ring.wf(),
    ensures
        ring.can_append() <==> ring.head < u32::MAX,
{
}

/// An empty slot names no rewarder, no time and no locker.
pub proof fn law_empty_event_says_nothing()
    ensures
        empty_event().ts == 0,
        !empty_event().locked,
        forall|i: int| 0 <= i < 32 ==> #[trigger] empty_event().rewarder.bytes@[i] == 0,
{
}

/// The event of a cursor is read from the slot whose number is the cursor modulo the
/// number of slots.
pub proof fn law_event_is_read_modulo_the_slots(ring: Ring, cursor: nat)
    ensures
        ring.capacity() == ring.slots.len(),
        ring.index_of(cursor) == cursor as int % ring.slots.len() as int,
        ring.event(cursor) == ring.slots[cursor as int % ring.slots.len() as int],
{
}

/// Appending writes the event into the slot of the head, leaves every other slot as it
/// is, moves the head by one, and moves the tail by one exactly when the new head comes to
/// lie on its slot.
pub proof fn law_append_writes_one_slot(ring: Ring, event: RewardEvent)
    requires
        0 < ring.slots.len(),
    ensures
        ({
            let n = ring.slots.len() as int;
            let after = ring.append(event);
            &&& after.slots.len() == n
            &&& after.slots[ring.head as int % n] == event
            &&& forall|i: int|
                0 <= i < n && i != ring.head as int % n ==> #[trigger] after.slots[i]
                    == ring.slots[i]
            &&& after.head == ring.head + 1
            &&& (ring.head + 1) as int % n == ring.tail as int % n ==> after.tail == ring.tail + 1
            &&& (ring.head + 1) as int % n != ring.tail as int % n ==> after.tail == ring.tail
        }),
{
    assert(0 <= ring.head as int % ring.slots.len() as int);
}

/// An event can be appended exactly when there is a slot, and neither the head nor a tail
/// that has to move is at the last cursor of 32 bits.
pub proof fn law_when_an_event_can_be_appended(ring: Ring)
    ensures
        ring.can_append() <==> {
            let n = ring.slots.len() as int;
            &&& 0 < n
            &&& ring.head < 0xffff_ffff
            &&& (ring.head + 1) as int % n == ring.tail as int % n ==> ring.tail < 0xffff_ffff
        },
{
}

/// Events are appended one by one, the first of them first.
pub proof fn law_append_all_appends_in_order(
    ring: Ring,
    events: Seq<RewardEvent>,
    last: RewardEvent,
)
    ensures
        ring.append_all(Seq::empty()) == ring,
        ring.append_all(events.push(last)) == ring.append_all(events).append(last),
{
    assert(events.push(last).drop_last() =~= events);
}

/// A ring is in order exactly when the tail is not past the head and fewer events than
/// there are slots lie between them; those are the live ones, the oldest first.
pub proof fn law_live_events_lie_between_tail_and_head(ring: Ring)
    ensures
        ring.wf() <==> ring.tail <= ring.head && ring.head - ring.tail < ring.slots.len(),
        ring.wf() ==> {
            &&& ring.live().len() == ring.head - ring.tail
            &&& forall|i: int|
                0 <= i < ring.head - ring.tail ==> #[trigger] ring.live()[i]
                    == ring.slots[(ring.tail + i) % ring.slots.len() as int]
        },
{
}

/// Giving a ring another number of slots keeps the cursors and the slots that it had and
/// still has, and leaves the new ones empty.
pub proof fn law_resize_keeps_what_fits(ring: Ring, len: nat)
    ensures
        ring.resize(len).slots.len() == len,
        ring.resize(len).head == ring.head,
        ring.resize(len).tail == ring.tail,
        forall|i: int|
            0 <= i < len && i < ring.slots.len() ==> #[trigger] ring.resize(len).slots[i]
                == ring.slots[i],
        forall|i: int|
            ring.slots.len() <= i < len ==> #[trigger] ring.resize(len).slots[i]
                == empty_event(),
{
}

} // verus!
