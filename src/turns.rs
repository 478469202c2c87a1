//! Tracks the single in-flight turn of each conversation thread.
//!
//! Each turn carries a ticket (`turn_id`); clearing or interrupting a thread
//! only acts when the caller's ticket matches the stored one, so a request
//! aimed at a turn that has since been replaced leaves the new turn alone.
use vstd::prelude::*;
use crate::text::same_text;

verus! {

/// One in-flight turn: its ticket and the handle of the process running it.
pub struct ActiveTurn<H> {
    pub turn_id: String,
    pub handle: H,
}

struct Slot<H> {
    thread_id: String,
    turn: ActiveTurn<H>,
}

/// What the tracker records for a thread: the turn ticket and its handle.
pub type TurnRecord<H> = (Seq<char>, H);

/// Mapping from thread id to its active turn, at most one per thread.
pub struct TurnTracker<H> {
    slots: Vec<Slot<H>>,
}

spec fn record_of<H>(s: Slot<H>) -> TurnRecord<H> {
    (s.turn.turn_id@, s.turn.handle)
}

spec fn map_of<H>(s: Seq<Slot<H>>) -> Map<Seq<char>, TurnRecord<H>>
    decreases s.len(),
{
    if s.len() == 0 {
        Map::empty()
    } else {
        map_of(s.drop_last()).insert(s.last().thread_id@, record_of(s.last()))
    }
}

spec fn unique_keys<H>(s: Seq<Slot<H>>) -> bool {
    forall|i: int, j: int|
        0 <= i < s.len() && 0 <= j < s.len() && i != j ==> s[i].thread_id@ != s[j].thread_id@
}

proof fn lemma_map_of_dom<H>(s: Seq<Slot<H>>, k: Seq<char>)
    ensures
        map_of(s).contains_key(k) <==> exists|i: int| 0 <= i < s.len() && s[i].thread_id@ == k,
    decreases s.len(),
{
    if s.len() > 0 {
        lemma_map_of_dom(s.drop_last(), k);
        if map_of(s.drop_last()).contains_key(k) {
            let i = choose|i: int| 0 <= i < s.len() - 1 && s.drop_last()[i].thread_id@ == k;
            assert(s[i].thread_id@ == k);
        }
        if exists|i: int| 0 <= i < s.len() && s[i].thread_id@ == k {
            let i = choose|i: int| 0 <= i < s.len() && s[i].thread_id@ == k;
            if i < s.len() - 1 {
                assert(s.drop_last()[i].thread_id@ == k);
            }
        }
    }
}

proof fn lemma_map_of_at<H>(s: Seq<Slot<H>>, i: int)
    requires
        unique_keys(s),
        0 <= i < s.len(),
    ensures
        map_of(s).contains_key(s[i].thread_id@),
        map_of(s)[s[i].thread_id@] == record_of(s[i]),
    decreases s.len(),
{
    if i < s.len() - 1 {
        let t = s.drop_last();
        assert(t[i] == s[i]);
        assert(unique_keys(t));
        lemma_map_of_at(t, i);
        assert(s.last().thread_id@ != s[i].thread_id@);
    }
}

proof fn lemma_map_of_remove<H>(s: Seq<Slot<H>>, i: int)
    requires
        unique_keys(s),
        0 <= i < s.len(),
    ensures
        map_of(s.remove(i)) == map_of(s).remove(s[i].thread_id@),
        unique_keys(s.remove(i)),
    decreases s.len(),
{
    let k = s[i].thread_id@;
    let t = s.drop_last();
    assert(unique_keys(t));
    if i == s.len() - 1 {
        assert(s.remove(i) == t);
        assert forall|j: int| 0 <= j < t.len() implies t[j].thread_id@ != k by {
            assert(t[j] == s[j]);
        }
        lemma_map_of_dom(t, k);
        assert(map_of(s).remove(k) =~= map_of(t));
    } else {
        lemma_map_of_remove(t, i);
        assert(s.remove(i) == t.remove(i).push(s.last()));
        assert(s.remove(i).drop_last() == t.remove(i));
        assert(s.last().thread_id@ != k);
        assert(map_of(s.remove(i)) =~= map_of(s).remove(k));
    }
}

proof fn lemma_unique_push<H>(s: Seq<Slot<H>>, x: Slot<H>)
    requires
        unique_keys(s),
        !map_of(s).contains_key(x.thread_id@),
    ensures
        unique_keys(s.push(x)),
        map_of(s.push(x)) == map_of(s).insert(x.thread_id@, record_of(x)),
{
    lemma_map_of_dom(s, x.thread_id@);
    assert(s.push(x).drop_last() == s);
    assert forall|i: int, j: int|
        0 <= i < s.len() + 1 && 0 <= j < s.len() + 1 && i != j implies s.push(x)[i].thread_id@
        != s.push(x)[j].thread_id@ by {
        if i < s.len() && j < s.len() {
        } else if i < s.len() {
            assert(s[i].thread_id@ != x.thread_id@);
        } else {
            assert(s[j].thread_id@ != x.thread_id@);
        }
    }
}

/// The mapping after `track_turn(thread_id, turn_id, handle)`.
pub open spec fn registered<H>(
    m: Map<Seq<char>, TurnRecord<H>>,
    thread_id: Seq<char>,
    turn_id: Seq<char>,
    handle: H,
) -> Map<Seq<char>, TurnRecord<H>> {
    m.insert(thread_id, (turn_id, handle))
}

/// Whether `thread_id` has an active turn whose ticket is `turn_id`.
pub open spec fn is_current<H>(
    m: Map<Seq<char>, TurnRecord<H>>,
    thread_id: Seq<char>,
    turn_id: Seq<char>,
) -> bool {
    m.contains_key(thread_id) && m[thread_id].0 == turn_id
}

/// The mapping after `clear_turn(thread_id, turn_id)`, and after an
/// `interrupt_turn` with the same arguments.
pub open spec fn cleared<H>(
    m: Map<Seq<char>, TurnRecord<H>>,
    thread_id: Seq<char>,
    turn_id: Seq<char>,
) -> Map<Seq<char>, TurnRecord<H>> {
    if is_current(m, thread_id, turn_id) {
        m.remove(thread_id)
    } else {
        m
    }
}

/// The handle that `interrupt_turn(thread_id, turn_id)` hands back to be killed.
pub open spec fn to_kill<H>(
    m: Map<Seq<char>, TurnRecord<H>>,
    thread_id: Seq<char>,
    turn_id: Seq<char>,
) -> Option<H> {
    if is_current(m, thread_id, turn_id) {
        Some(m[thread_id].1)
    } else {
        None
    }
}

/// Clearing a thread with a ticket other than the one just registered is a
/// no-op: the registered entry stays as it was.
pub proof fn lemma_clear_other_ticket_keeps_entry<H>(
    m: Map<Seq<char>, TurnRecord<H>>,
    t: Seq<char>,
    a: Seq<char>,
    b: Seq<char>,
    h: H,
)
    requires
        a != b,
    ensures
        cleared(registered(m, t, a, h), t, b) == registered(m, t, a, h),
        cleared(registered(m, t, a, h), t, b)[t] == (a, h),
{
}

/// Clearing a thread with the ticket just registered leaves no entry for it.
pub proof fn lemma_clear_same_ticket_removes_entry<H>(
    m: Map<Seq<char>, TurnRecord<H>>,
    t: Seq<char>,
    a: Seq<char>,
    h: H,
)
    ensures
        !cleared(registered(m, t, a, h), t, a).contains_key(t),
{
}

/// Interrupting a thread that has no entry kills nothing and changes nothing;
/// in particular an empty tracker stays empty.
pub proof fn lemma_interrupt_absent_thread<H>(
    m: Map<Seq<char>, TurnRecord<H>>,
    t: Seq<char>,
    a: Seq<char>,
)
    requires
        !m.contains_key(t),
    ensures
        to_kill(m, t, a) is None,
        cleared(m, t, a) == m,
        m.is_empty() ==> cleared(m, t, a).is_empty(),
{
}

/// Interrupting with a stale ticket kills nothing, and the registered entry
/// stays with its handle.
pub proof fn lemma_interrupt_other_ticket_keeps_turn<H>(
    m: Map<Seq<char>, TurnRecord<H>>,
    t: Seq<char>,
    a: Seq<char>,
    b: Seq<char>,
    h1: H,
)
    requires
        a != b,
    ensures
        to_kill(registered(m, t, a, h1), t, b) is None,
        cleared(registered(m, t, a, h1), t, b).contains_key(t),
        cleared(registered(m, t, a, h1), t, b)[t] == (a, h1),
{
}

/// Interrupting with the current ticket hands back the registered handle to
/// be killed and removes the entry.
pub proof fn lemma_interrupt_current_ticket_kills<H>(
    m: Map<Seq<char>, TurnRecord<H>>,
    t: Seq<char>,
    a: Seq<char>,
    h: H,
)
    ensures
        to_kill(registered(m, t, a, h), t, a) == Some(h),
        !cleared(registered(m, t, a, h), t, a).contains_key(t),
{
}

impl<H> View for TurnTracker<H> {
    type V = Map<Seq<char>, TurnRecord<H>>;

    closed spec fn view(&self) -> Map<Seq<char>, TurnRecord<H>> {
        map_of(self.slots@)
    }
}

impl<H> TurnTracker<H> {
    /// The tracker's internal invariant: one slot per thread id.
    pub closed spec fn wf(&self) -> bool {
        unique_keys(self.slots@)
    }

    pub fn new() -> (r: Self)
        ensures
            r.wf(),
            r@ == Map::<Seq<char>, TurnRecord<H>>::empty(),
    {
        TurnTracker { slots: Vec::new() }
    }

    fn find(&self, thread_id: &str) -> (r: Option<usize>)
        requires
            self.wf(),
        ensures
            match r {
                Some(i) => i < self.slots.len() && self.slots@[i as int].thread_id@ == thread_id@,
                None => !self@.contains_key(thread_id@),
            },
    {
        let mut i: usize = 0;
        while i < self.slots.len()
            invariant
                i <= self.slots.len(),
                forall|j: int| 0 <= j < i ==> self.slots@[j].thread_id@ != thread_id@,
            decreases self.slots.len() - i,
        {
            if same_text(self.slots[i].thread_id.as_str(), thread_id) {
                return Some(i);
            }
            i = i + 1;
        }
        proof {
            lemma_map_of_dom(self.slots@, thread_id@);
        }
        None
    }

    /// Number of threads with an active turn.
    pub fn len(&self) -> (r: usize)
        requires
            self.wf(),
        ensures
            r == self@.len(),
    {
        proof {
            self.lemma_len();
        }
        self.slots.len()
    }

    proof fn lemma_len(&self)
        requires
            self.wf(),
        ensures
            self@.dom().finite(),
            self@.len() == self.slots@.len(),
    {
        lemma_len_of(self.slots@);
    }

    /// Whether no thread has an active turn.
    pub fn is_empty(&self) -> (r: bool)
        requires
            self.wf(),
        ensures
            r == (self@.len() == 0),
    {
        self.len() == 0
    }

    /// The active turn of `thread_id`, if any.
    pub fn active_turn(&self, thread_id: &str) -> (r: Option<&ActiveTurn<H>>)
        requires
            self.wf(),
        ensures
            match r {
                Some(t) => self@.contains_key(thread_id@) && self@[thread_id@] == (
                t.turn_id@,
                t.handle,
                ),
                None => !self@.contains_key(thread_id@),
            },
    {
        match self.find(thread_id) {
            Some(i) => {
                proof {
                    lemma_map_of_at(self.slots@, i as int);
                }
                Some(&self.slots[i].turn)
            },
            None => None,
        }
    }

    /// Records `turn_id` as the active turn of `thread_id`, replacing any
    /// earlier one. A replaced turn's handle is dropped, not killed.
    pub fn track_turn(&mut self, thread_id: String, turn_id: String, handle: H)
        requires
            old(self).wf(),
        ensures
            final(self).wf(),
            final(self)@ == registered(old(self)@, thread_id@, turn_id@, handle),
    {
        let ghost before = self@;
        match self.find(thread_id.as_str()) {
            Some(i) => {
                proof {
                    lemma_map_of_remove(self.slots@, i as int);
                }
                let _replaced = self.slots.remove(i);
            },
            None => {},
        }
        assert(self@ == before.remove(thread_id@));
        let slot = Slot { thread_id, turn: ActiveTurn { turn_id, handle } };
        proof {
            lemma_unique_push(self.slots@, slot);
        }
        self.slots.push(slot);
        assert(self@ =~= registered(before, slot.thread_id@, slot.turn.turn_id@, slot.turn.handle));
    }

    fn take_if_current(&mut self, thread_id: &str, turn_id: &str) -> (r: Option<H>)
        requires
            old(self).wf(),
        ensures
            final(self).wf(),
            final(self)@ == cleared(old(self)@, thread_id@, turn_id@),
            r == to_kill(old(self)@, thread_id@, turn_id@),
    {
        match self.find(thread_id) {
            Some(i) => {
                proof {
                    lemma_map_of_at(self.slots@, i as int);
                }
                if same_text(self.slots[i].turn.turn_id.as_str(), turn_id) {
                    proof {
                        lemma_map_of_remove(self.slots@, i as int);
                    }
                    let slot = self.slots.remove(i);
                    Some(slot.turn.handle)
                } else {
                    None
                }
            },
            None => None,
        }
    }

    /// Removes the active turn of `thread_id` if its ticket is `turn_id`;
    /// otherwise leaves the tracker as it is.
    pub fn clear_turn(&mut self, thread_id: &str, turn_id: &str)
        requires
            old(self).wf(),
        ensures
            final(self).wf(),
            final(self)@ == cleared(old(self)@, thread_id@, turn_id@),
    {
        let _finished = self.take_if_current(thread_id, turn_id);
    }

    /// Takes the active turn of `thread_id` out of the tracker if its ticket
    /// is `turn_id`, and returns its handle so that the caller kills the
    /// process. With no entry, or another ticket, nothing changes and `None`
    /// comes back: a turn that replaced the targeted one is left running.
    pub fn interrupt_turn(&mut self, thread_id: &str, turn_id: &str) -> (r: Option<H>)
        requires
            old(self).wf(),
        ensures
            final(self).wf(),
            final(self)@ == cleared(old(self)@, thread_id@, turn_id@),
            r == to_kill(old(self)@, thread_id@, turn_id@),
    {
        self.take_if_current(thread_id, turn_id)
    }
}

proof fn lemma_len_of<H>(s: Seq<Slot<H>>)
    requires
        unique_keys(s),
    ensures
        map_of(s).dom().finite(),
        map_of(s).len() == s.len(),
    decreases s.len(),
{
    if s.len() > 0 {
        let t = s.drop_last();
        assert(unique_keys(t));
        lemma_len_of(t);
        lemma_map_of_dom(t, s.last().thread_id@);
        assert forall|j: int| 0 <= j < t.len() implies t[j].thread_id@ != s.last().thread_id@ by {
            assert(t[j] == s[j]);
        }
    }
}

} // verus!
