//! The event records and the queue that shows them in round-robin order.

use vstd::arithmetic::div_mod::{lemma_add_mod_noop, lemma_mod_self_0, lemma_small_mod};
use vstd::prelude::*;
use vstd::seq_lib::{to_multiset_build, to_multiset_remove};

verus! {

/// The kind of an event; the display colours an entry by it.
#[derive(Clone, Copy, Debug, PartialEq, Eq, Structural)]
pub enum Category {
    Type1,
    Type2,
    Type3,
    Type4,
}

/// Mathematical model of an [`EventRecord`].
pub struct EventModel {
    pub message: Seq<char>,
    pub category: Category,
}

/// One entry of the event list.
#[derive(Debug, PartialEq, Eq)]
pub struct EventRecord {
    pub message: String,
    pub category: Category,
}

impl View for EventRecord {
    type V = EventModel;

    open spec fn view(&self) -> EventModel {
        EventModel { message: self.message@, category: self.category }
    }
}

impl Clone for EventRecord {
    fn clone(&self) -> (copy: EventRecord)
        ensures
            copy@ == self@,
    {
        EventRecord { message: self.message.clone(), category: self.category }
    }
}

impl EventRecord {
    pub fn new(message: &str, category: Category) -> (record: EventRecord)
        ensures
            record@ == (EventModel { message: message@, category }),
    {
        EventRecord { message: String::from_str(message), category }
    }
}

/// The sequence `s` turned left by `k` places: what was at index `k` (counted
/// round the end) comes first. An empty sequence stays empty.
pub open spec fn rotated<A>(s: Seq<A>, k: nat) -> Seq<A> {
    if s.len() == 0 {
        s
    } else {
        Seq::new(s.len(), |i: int| s[(i + k) % (s.len() as int)])
    }
}

/// The sequence `s` after `n` single rotations in a row.
pub open spec fn rotated_times<A>(s: Seq<A>, n: nat) -> Seq<A>
    decreases n,
{
    if n == 0 {
        s
    } else {
        rotated(rotated_times(s, (n - 1) as nat), 1)
    }
}

/// A single rotation moves the front element to the back and keeps the order
/// of the others.
pub proof fn lemma_rotated_once<A>(s: Seq<A>)
    requires
        s.len() > 0,
    ensures
        rotated(s, 1) == s.subrange(1, s.len() as int).push(s[0]),
        rotated(s, 1) == s.remove(0).push(s[0]),
{
    let n = s.len() as int;
    let r = s.subrange(1, n).push(s[0]);
    assert forall|i: int| 0 <= i < n implies rotated(s, 1)[i] == r[i] by {
        if i + 1 < n {
            lemma_small_mod((i + 1) as nat, n as nat);
        } else {
            lemma_mod_self_0(n);
        }
    }
    assert(rotated(s, 1) =~= r);
    assert(s.remove(0) =~= s.subrange(1, n));
}

/// Rotating by `a` and then by `b` is rotating by `a + b`.
pub proof fn lemma_rotated_twice<A>(s: Seq<A>, a: nat, b: nat)
    ensures
        rotated(rotated(s, a), b) == rotated(s, a + b),
{
    if s.len() > 0 {
        let n = s.len() as int;
        assert forall|i: int| 0 <= i < n implies rotated(rotated(s, a), b)[i] == rotated(
            s,
            a + b,
        )[i] by {
            let j = (i + b) % n;
            lemma_add_mod_noop(i + b, a as int, n);
            lemma_small_mod((a as int % n) as nat, n as nat);
            lemma_add_mod_noop(j, a as int, n);
            lemma_small_mod(j as nat, n as nat);
            assert((j + a) % n == (i + b + a) % n);
            assert(i + (a + b) == i + b + a);
        }
        assert(rotated(rotated(s, a), b) =~= rotated(s, a + b));
    }
}

/// `n` single rotations in a row turn the sequence by `n` places.
pub proof fn lemma_rotated_times<A>(s: Seq<A>, n: nat)
    ensures
        rotated_times(s, n) == rotated(s, n),
    decreases n,
{
    if n == 0 {
        if s.len() > 0 {
            assert forall|i: int| 0 <= i < s.len() implies rotated(s, 0)[i] == s[i] by {
                lemma_small_mod(i as nat, s.len());
            }
        }
        assert(rotated(s, 0) =~= s);
    } else {
        lemma_rotated_times(s, (n - 1) as nat);
        lemma_rotated_twice(s, (n - 1) as nat, 1);
    }
}

/// Turning a sequence by a number of places is the same as turning it by
/// that number modulo its length.
pub proof fn lemma_rotated_mod<A>(s: Seq<A>, k: nat)
    requires
        s.len() > 0,
    ensures
        rotated(s, k) == rotated(s, k % s.len()),
{
    let n = s.len() as int;
    assert forall|i: int| 0 <= i < n implies rotated(s, k)[i] == rotated(s, k % s.len())[i] by {
        lemma_add_mod_noop(i, k as int, n);
        lemma_add_mod_noop(i, (k as int) % n, n);
        lemma_small_mod(((k as int) % n) as nat, n as nat);
    }
    assert(rotated(s, k) =~= rotated(s, k % s.len()));
}

/// After as many single rotations as the sequence has elements, the sequence
/// is back in its first order.
pub proof fn lemma_rotation_round_trip<A>(s: Seq<A>)
    ensures
        rotated_times(s, s.len()) == s,
{
    lemma_rotated_times(s, s.len());
    if s.len() > 0 {
        lemma_rotated_mod(s, s.len());
        lemma_mod_self_0(s.len() as int);
        lemma_rotated_times(s, 0);
    }
}

/// A rotation keeps every element, each as often as before.
pub proof fn lemma_rotated_keeps_elements<A>(s: Seq<A>, k: nat)
    ensures
        rotated(s, k).to_multiset() == s.to_multiset(),
    decreases k,
{
    if k == 0 {
        lemma_rotated_times(s, 0);
    } else {
        lemma_rotated_keeps_elements(s, (k - 1) as nat);
        lemma_rotated_twice(s, (k - 1) as nat, 1);
        let t = rotated(s, (k - 1) as nat);
        if t.len() > 0 {
            lemma_rotated_once(t);
            to_multiset_remove(t, 0);
            to_multiset_build(t.remove(0), t[0]);
            t.to_multiset_ensures();
            assert(t.to_multiset().count(t[0]) > 0);
            assert(t.to_multiset().remove(t[0]).insert(t[0]) =~= t.to_multiset());
        }
    }
}

/// The events on display, in the order in which they take their turn.
pub struct EventQueue {
    records: Vec<EventRecord>,
}

impl View for EventQueue {
    type V = Seq<EventModel>;

    closed spec fn view(&self) -> Seq<EventModel> {
        self.records@.map_values(|r: EventRecord| r@)
    }
}

impl EventQueue {
    /// A queue that holds `records`, the first of them at the front.
    pub fn new(records: Vec<EventRecord>) -> (queue: EventQueue)
        ensures
            queue@ == records@.map_values(|r: EventRecord| r@),
    {
        EventQueue { records }
    }

    pub fn len(&self) -> (n: usize)
        ensures
            n == self@.len(),
    {
        self.records.len()
    }

    /// The record `i` places behind the front.
    pub fn get(&self, i: usize) -> (record: &EventRecord)
        requires
            i < self@.len(),
        ensures
            record@ == self@[i as int],
    {
        &self.records[i]
    }

    /// Moves the front record to the back. Nothing is lost or copied, and an
    /// empty queue stays empty.
    pub fn rotate(&mut self)
        ensures
            final(self)@ == rotated(old(self)@, 1),
            final(self)@.len() == old(self)@.len(),
            final(self)@.to_multiset() == old(self)@.to_multiset(),
    {
        proof {
            lemma_rotated_keeps_elements(self@, 1);
        }
        if self.records.len() > 0 {
            let front = self.records.remove(0);
            self.records.push(front);
            proof {
                lemma_rotated_once(old(self)@);
                assert(self@ =~= old(self)@.remove(0).push(old(self)@[0]));
            }
        }
    }
}

} // verus!
