//! Registries of callers blocked on a reply: the approval waiters of `Ask`
//! (several per message) and the long-poll waiters of `PollInbox` (at most one
//! per participant of a workspace). The wake-up handle type `T` is left open.

use vstd::prelude::*;
use crate::text::str_eq;

verus! {

/// One caller blocked on the reply to a message.
#[derive(Debug)]
pub struct Waiter<T> {
    pub id: String,
    pub tx: T,
}

/// The waiters blocked on one message.
#[derive(Debug)]
pub struct AskSlot<T> {
    pub msg_id: String,
    pub waiters: Vec<Waiter<T>>,
}

/// A waiter as the specification sees it: its id and its handle.
pub open spec fn waiter_view<T>(w: Waiter<T>) -> (Seq<char>, T) {
    (w.id@, w.tx)
}

/// The waiters of a slot, as the specification sees them.
pub open spec fn slot_waiters<T>(s: AskSlot<T>) -> Seq<(Seq<char>, T)> {
    s.waiters@.map_values(|w: Waiter<T>| waiter_view(w))
}

/// `s` without the waiters whose id is `id`, the others kept in order.
pub open spec fn without_waiter<T>(s: Seq<(Seq<char>, T)>, id: Seq<char>) -> Seq<(Seq<char>, T)>
    decreases s.len(),
{
    if s.len() == 0 {
        s
    } else {
        without_waiter(s.drop_last(), id) + if s.last().0 == id {
            Seq::<(Seq<char>, T)>::empty()
        } else {
            seq![s.last()]
        }
    }
}

/// The registry after `register(msg, id, tx)`.
pub open spec fn spec_register<T>(
    m: Map<Seq<char>, Seq<(Seq<char>, T)>>,
    msg: Seq<char>,
    id: Seq<char>,
    tx: T,
) -> Map<Seq<char>, Seq<(Seq<char>, T)>> {
    let before = if m.contains_key(msg) { m[msg] } else { Seq::empty() };
    m.insert(msg, before.push((id, tx)))
}

/// The registry after `remove(msg, id)`: the waiter leaves, and a message
/// left without waiters leaves the registry.
pub open spec fn spec_remove<T>(
    m: Map<Seq<char>, Seq<(Seq<char>, T)>>,
    msg: Seq<char>,
    id: Seq<char>,
) -> Map<Seq<char>, Seq<(Seq<char>, T)>> {
    if !m.contains_key(msg) {
        m
    } else {
        let rest = without_waiter(m[msg], id);
        if rest.len() == 0 {
            m.remove(msg)
        } else {
            m.insert(msg, rest)
        }
    }
}

/// The waiters of `msg`, oldest first.
pub open spec fn spec_waiters_of<T>(m: Map<Seq<char>, Seq<(Seq<char>, T)>>, msg: Seq<char>) -> Seq<
    (Seq<char>, T),
> {
    if m.contains_key(msg) {
        m[msg]
    } else {
        Seq::empty()
    }
}

/// Every message of the registry has at least one waiter.
pub open spec fn no_empty_slots<T>(m: Map<Seq<char>, Seq<(Seq<char>, T)>>) -> bool {
    forall|k: Seq<char>| #[trigger] m.contains_key(k) ==> m[k].len() > 0
}

/// The callers blocked on the reply of each message.
#[derive(Debug)]
pub struct PendingAsks<T> {
    slots: Vec<AskSlot<T>>,
}

impl<T> PendingAsks<T> {
    /// Each message has one slot, and each slot holds a waiter.
    pub closed spec fn wf(&self) -> bool {
        &&& forall|i: int, j: int|
            0 <= i < self.slots@.len() && 0 <= j < self.slots@.len() && i != j
                ==> #[trigger] self.slots@[i].msg_id@ != #[trigger] self.slots@[j].msg_id@
        &&& forall|i: int| 0 <= i < self.slots@.len() ==> #[trigger] self.slots@[i].waiters@.len() > 0
    }

    /// Message id to its waiters, oldest first.
    pub closed spec fn view(&self) -> Map<Seq<char>, Seq<(Seq<char>, T)>> {
        Map::new(
            |k: Seq<char>| exists|i: int| 0 <= i < self.slots@.len() && #[trigger] self.slots@[i].msg_id@ == k,
            |k: Seq<char>|
                slot_waiters(
                    self.slots@[choose|i: int| 0 <= i < self.slots@.len() && #[trigger] self.slots@[i].msg_id@ == k],
                ),
        )
    }

    proof fn lemma_view_at(&self, i: int)
        requires
            self.wf(),
            0 <= i < self.slots@.len(),
        ensures
            self.view().contains_key(self.slots@[i].msg_id@),
            self.view()[self.slots@[i].msg_id@] == slot_waiters(self.slots@[i]),
    {
        let k = self.slots@[i].msg_id@;
        assert(self.view().contains_key(k));
        let j = choose|j: int| 0 <= j < self.slots@.len() && #[trigger] self.slots@[j].msg_id@ == k;
        assert(i == j);
    }

    proof fn lemma_view_absent(&self, k: Seq<char>)
        requires
            forall|i: int| 0 <= i < self.slots@.len() ==> #[trigger] self.slots@[i].msg_id@ != k,
        ensures
            !self.view().contains_key(k),
    {
    }

    proof fn lemma_no_empty(&self)
        requires
            self.wf(),
        ensures
            no_empty_slots(self.view()),
    {
        assert forall|k: Seq<char>| #[trigger] self.view().contains_key(k) implies self.view()[k].len() > 0 by {
            let i = choose|i: int| 0 <= i < self.slots@.len() && #[trigger] self.slots@[i].msg_id@ == k;
            self.lemma_view_at(i);
        }
    }

    /// An empty registry.
    pub fn new() -> (r: Self)
        ensures
            r.wf(),
            r.view() == Map::<Seq<char>, Seq<(Seq<char>, T)>>::empty(),
    {
        let r = PendingAsks { slots: Vec::new() };
        assert(r.view() =~= Map::<Seq<char>, Seq<(Seq<char>, T)>>::empty());
        r
    }

    fn find(&self, msg_id: &str) -> (r: Option<usize>)
        ensures
            r matches Some(i) ==> i < self.slots@.len() && self.slots@[i as int].msg_id@ == msg_id@,
            r is None ==> forall|i: int| 0 <= i < self.slots@.len() ==> #[trigger] self.slots@[i].msg_id@ != msg_id@,
    {
        let mut i: usize = 0;
        while i < self.slots.len()
            invariant
                i <= self.slots@.len(),
                forall|j: int| 0 <= j < i ==> #[trigger] self.slots@[j].msg_id@ != msg_id@,
            decreases self.slots@.len() - i,
        {
            if str_eq(self.slots[i].msg_id.as_str(), msg_id) {
                return Some(i);
            }
            i = i + 1;
        }
        None
    }

    /// Takes the slot at `i` out of the registry.
    fn take_slot(&mut self, i: usize) -> (r: AskSlot<T>)
        requires
            old(self).wf(),
            i < old(self).slots@.len(),
        ensures
            final(self).wf(),
            r == old(self).slots@[i as int],
            final(self).view() == old(self).view().remove(r.msg_id@),
    {
        let ghost before = self.slots@;
        let r = self.slots.remove(i);
        proof {
            assert(self.slots@ == before.remove(i as int));
            let k = r.msg_id@;
            assert forall|j: int| 0 <= j < self.slots@.len() implies #[trigger] self.slots@[j].msg_id@ != k by {
                if j < i {
                    assert(self.slots@[j] == before[j]);
                } else {
                    assert(self.slots@[j] == before[j + 1]);
                }
            }
            assert forall|kk: Seq<char>| #[trigger] self.view().contains_key(kk) <==> old(self).view().remove(k).contains_key(kk) by {
                if self.view().contains_key(kk) {
                    let j = choose|j: int| 0 <= j < self.slots@.len() && #[trigger] self.slots@[j].msg_id@ == kk;
                    if j < i {
                        assert(before[j].msg_id@ == kk);
                    } else {
                        assert(before[j + 1].msg_id@ == kk);
                    }
                }
                if old(self).view().remove(k).contains_key(kk) {
                    let j = choose|j: int| 0 <= j < before.len() && #[trigger] before[j].msg_id@ == kk;
                    assert(j != i);
                    if j < i {
                        assert(self.slots@[j].msg_id@ == kk);
                    } else {
                        assert(self.slots@[j - 1].msg_id@ == kk);
                    }
                }
            }
            assert forall|kk: Seq<char>| #[trigger] self.view().contains_key(kk) implies self.view()[kk] == old(self).view()[kk] by {
                let j = choose|j: int| 0 <= j < self.slots@.len() && #[trigger] self.slots@[j].msg_id@ == kk;
                self.lemma_view_at(j);
                if j < i {
                    old(self).lemma_view_at(j);
                } else {
                    old(self).lemma_view_at(j + 1);
                }
            }
            assert(self.view() =~= old(self).view().remove(k));
        }
        r
    }

    /// Puts a slot for a message that has none back into the registry.
    fn put_slot(&mut self, s: AskSlot<T>)
        requires
            old(self).wf(),
            s.waiters@.len() > 0,
            !old(self).view().contains_key(s.msg_id@),
        ensures
            final(self).wf(),
            final(self).view() == old(self).view().insert(s.msg_id@, slot_waiters(s)),
    {
        let ghost before = self.slots@;
        let ghost k = s.msg_id@;
        let ghost w = slot_waiters(s);
        proof {
            assert forall|j: int| 0 <= j < before.len() implies #[trigger] before[j].msg_id@ != k by {
                if before[j].msg_id@ == k {
                    old(self).lemma_view_at(j);
                }
            }
        }
        self.slots.push(s);
        proof {
            let n = before.len() as int;
            assert(self.slots@[n].msg_id@ == k);
            self.lemma_view_at(n);
            assert forall|kk: Seq<char>| #[trigger] self.view().contains_key(kk) <==> old(self).view().insert(k, w).contains_key(kk) by {
                if self.view().contains_key(kk) && kk != k {
                    let j = choose|j: int| 0 <= j < self.slots@.len() && #[trigger] self.slots@[j].msg_id@ == kk;
                    assert(j != n);
                    assert(before[j].msg_id@ == kk);
                }
                if old(self).view().contains_key(kk) {
                    let j = choose|j: int| 0 <= j < before.len() && #[trigger] before[j].msg_id@ == kk;
                    assert(self.slots@[j].msg_id@ == kk);
                }
            }
            assert forall|kk: Seq<char>| #[trigger] self.view().contains_key(kk) implies self.view()[kk] == old(self).view().insert(k, w)[kk] by {
                let j = choose|j: int| 0 <= j < self.slots@.len() && #[trigger] self.slots@[j].msg_id@ == kk;
                self.lemma_view_at(j);
                if j < n {
                    old(self).lemma_view_at(j);
                }
            }
            assert(self.view() =~= old(self).view().insert(k, w));
        }
    }

    /// Registers waiter `id` with handle `tx` on message `msg_id`.
    pub fn register(&mut self, msg_id: &str, id: String, tx: T)
        requires
            old(self).wf(),
        ensures
            final(self).wf(),
            final(self).view() == spec_register(old(self).view(), msg_id@, id@, tx),
    {
        let ghost w = (id@, tx);
        match self.find(msg_id) {
            Some(i) => {
                proof {
                    self.lemma_view_at(i as int);
                }
                let mut slot = self.take_slot(i);
                let ghost prev = slot_waiters(slot);
                slot.waiters.push(Waiter { id, tx });
                assert(slot_waiters(slot) =~= prev.push(w));
                self.put_slot(slot);
                assert(self.view() =~= spec_register(old(self).view(), msg_id@, w.0, w.1));
            },
            None => {
                proof {
                    self.lemma_view_absent(msg_id@);
                }
                let mut waiters = Vec::new();
                waiters.push(Waiter { id, tx });
                let slot = AskSlot { msg_id: String::from_str(msg_id), waiters };
                assert(slot_waiters(slot) =~= Seq::<(Seq<char>, T)>::empty().push(w));
                self.put_slot(slot);
                assert(self.view() =~= spec_register(old(self).view(), msg_id@, w.0, w.1));
            },
        }
    }

    /// Removes waiter `id` from message `msg_id` only, leaving the other
    /// waiters of that message in place.
    pub fn remove(&mut self, msg_id: &str, id: &str)
        requires
            old(self).wf(),
        ensures
            final(self).wf(),
            final(self).view() == spec_remove(old(self).view(), msg_id@, id@),
    {
        match self.find(msg_id) {
            Some(i) => {
                proof {
                    self.lemma_view_at(i as int);
                }
                let mut slot = self.take_slot(i);
                let ghost all = slot_waiters(slot);
                let mut j: usize = 0;
                let ghost mut k: int = 0;
                assert(all.take(0) =~= Seq::<(Seq<char>, T)>::empty());
                while j < slot.waiters.len()
                    invariant
                        0 <= j <= k <= all.len(),
                        slot.msg_id@ == msg_id@,
                        slot_waiters(slot).take(j as int) == without_waiter(all.take(k), id@),
                        slot_waiters(slot).skip(j as int) == all.skip(k),
                        slot.waiters@.len() - j == all.len() - k,
                    decreases slot.waiters@.len() - j,
                {
                    let ghost cur = slot_waiters(slot);
                    assert(k < all.len());
                    assert(cur.skip(j as int)[0] == all.skip(k)[0]);
                    assert(all.take(k + 1).drop_last() =~= all.take(k));
                    if str_eq(slot.waiters[j].id.as_str(), id) {
                        slot.waiters.remove(j);
                        proof {
                            let nxt = slot_waiters(slot);
                            assert(nxt.take(j as int) =~= cur.take(j as int));
                            assert(nxt.skip(j as int) =~= cur.skip(j as int).drop_first());
                            assert(all.skip(k + 1) =~= all.skip(k).drop_first());
                            k = k + 1;
                        }
                    } else {
                        proof {
                            let nxt = slot_waiters(slot);
                            assert(nxt.take(j + 1) =~= cur.take(j as int).push(cur[j as int]));
                            assert(nxt.skip(j + 1) =~= cur.skip(j as int).drop_first());
                            assert(all.skip(k + 1) =~= all.skip(k).drop_first());
                            k = k + 1;
                        }
                        j = j + 1;
                    }
                }
                proof {
                    assert(all.skip(k).len() == 0);
                    assert(k == all.len());
                    assert(all.take(k) =~= all);
                    assert(slot_waiters(slot).take(j as int) =~= slot_waiters(slot));
                }
                if slot.waiters.len() > 0 {
                    self.put_slot(slot);
                    assert(self.view() =~= spec_remove(old(self).view(), msg_id@, id@));
                } else {
                    assert(self.view() =~= spec_remove(old(self).view(), msg_id@, id@));
                }
            },
            None => {
                proof {
                    self.lemma_view_absent(msg_id@);
                }
            },
        }
    }

    /// Takes every waiter of `msg_id` out of the registry, oldest first, to
    /// be woken with the reply.
    pub fn take_all(&mut self, msg_id: &str) -> (r: Vec<T>)
        requires
            old(self).wf(),
        ensures
            final(self).wf(),
            final(self).view() == old(self).view().remove(msg_id@),
            r@ == spec_waiters_of(old(self).view(), msg_id@).map_values(|w: (Seq<char>, T)| w.1),
    {
        match self.find(msg_id) {
            Some(i) => {
                proof {
                    self.lemma_view_at(i as int);
                }
                let slot = self.take_slot(i);
                let ghost all = slot_waiters(slot);
                let mut waiters = slot.waiters;
                let mut out: Vec<T> = Vec::new();
                let ghost n = waiters@.len();
                while waiters.len() > 0
                    invariant
                        n == all.len(),
                        waiters@.len() <= n,
                        forall|q: int| 0 <= q < waiters@.len() ==> waiter_view(#[trigger] waiters@[q]) == all[q],
                        out@.len() == n - waiters@.len(),
                        forall|q: int| 0 <= q < out@.len() ==> #[trigger] out@[q] == all[n - 1 - q].1,
                    decreases waiters@.len(),
                {
                    let w = waiters.pop().unwrap();
                    out.push(w.tx);
                }
                let mut r: Vec<T> = Vec::new();
                while out.len() > 0
                    invariant
                        n == all.len(),
                        out@.len() + r@.len() == n,
                        forall|q: int| 0 <= q < out@.len() ==> #[trigger] out@[q] == all[n - 1 - q].1,
                        forall|q: int| 0 <= q < r@.len() ==> #[trigger] r@[q] == all[q].1,
                    decreases out@.len(),
                {
                    let t = out.pop().unwrap();
                    r.push(t);
                }
                assert(r@ =~= all.map_values(|w: (Seq<char>, T)| w.1));
                r
            },
            None => {
                proof {
                    self.lemma_view_absent(msg_id@);
                    assert(self.view().remove(msg_id@) =~= self.view());
                }
                let r: Vec<T> = Vec::new();
                assert(r@ =~= Seq::<(Seq<char>, T)>::empty().map_values(|w: (Seq<char>, T)| w.1));
                r
            },
        }
    }

    /// Whether some caller waits on `msg_id`.
    pub fn has_waiters(&self, msg_id: &str) -> (r: bool)
        requires
            self.wf(),
        ensures
            r == self.view().contains_key(msg_id@),
    {
        match self.find(msg_id) {
            Some(i) => {
                proof {
                    self.lemma_view_at(i as int);
                }
                true
            },
            None => {
                proof {
                    self.lemma_view_absent(msg_id@);
                }
                false
            },
        }
    }

    /// No message in the registry is left without a waiter.
    pub proof fn lemma_no_empty_slots(&self)
        requires
            self.wf(),
        ensures
            no_empty_slots(self.view()),
    {
        self.lemma_no_empty();
    }
}


proof fn lemma_without_absent<T>(s: Seq<(Seq<char>, T)>, id: Seq<char>)
    requires
        forall|i: int| 0 <= i < s.len() ==> #[trigger] s[i].0 != id,
    ensures
        without_waiter(s, id) == s,
    decreases s.len(),
{
    if s.len() > 0 {
        lemma_without_absent(s.drop_last(), id);
        assert(s.drop_last().push(s.last()) =~= s);
        assert(s.drop_last() + seq![s.last()] =~= s);
    }
}

/// Removing a waiter leaves every other waiter of that message in place, in
/// order, and leaves the other messages untouched.
pub proof fn lemma_remove_only_that_waiter<T>(
    m: Map<Seq<char>, Seq<(Seq<char>, T)>>,
    msg: Seq<char>,
    id: Seq<char>,
    other: Seq<char>,
)
    requires
        other != msg,
    ensures
        spec_waiters_of(spec_remove(m, msg, id), msg) == without_waiter(spec_waiters_of(m, msg), id),
        spec_waiters_of(spec_remove(m, msg, id), other) == spec_waiters_of(m, other),
{
    if m.contains_key(msg) && without_waiter(m[msg], id).len() == 0 {
        assert(without_waiter(m[msg], id) =~= Seq::<(Seq<char>, T)>::empty());
    }
}

/// A fresh waiter that registers and then gives up leaves the registry as it
/// was.
pub proof fn lemma_register_then_remove<T>(
    m: Map<Seq<char>, Seq<(Seq<char>, T)>>,
    msg: Seq<char>,
    id: Seq<char>,
    tx: T,
)
    requires
        no_empty_slots(m),
        forall|i: int| 0 <= i < spec_waiters_of(m, msg).len() ==> #[trigger] spec_waiters_of(m, msg)[i].0 != id,
    ensures
        spec_remove(spec_register(m, msg, id, tx), msg, id) == m,
{
    let before = spec_waiters_of(m, msg);
    let after = before.push((id, tx));
    assert(after.drop_last() =~= before);
    lemma_without_absent(before, id);
    assert(without_waiter(after, id) =~= before);
    if m.contains_key(msg) {
        assert(spec_remove(spec_register(m, msg, id, tx), msg, id) =~= m.insert(msg, before));
        assert(m.insert(msg, before) =~= m);
    } else {
        assert(spec_remove(spec_register(m, msg, id, tx), msg, id) =~= m);
    }
}

/// A waiter that registers on a message is the last one woken by the reply.
pub proof fn lemma_register_then_take<T>(
    m: Map<Seq<char>, Seq<(Seq<char>, T)>>,
    msg: Seq<char>,
    id: Seq<char>,
    tx: T,
)
    ensures
        spec_waiters_of(spec_register(m, msg, id, tx), msg).last() == (id, tx),
        spec_waiters_of(spec_register(m, msg, id, tx), msg).drop_last() == spec_waiters_of(m, msg),
{
    assert(spec_waiters_of(spec_register(m, msg, id, tx), msg).drop_last() =~= spec_waiters_of(m, msg));
}


/// Identifies the participant of a workspace that long-polls its inbox.
#[derive(Debug)]
pub struct PollKey {
    pub workspace_id: String,
    pub participant_id: String,
}

/// A poll key as the specification sees it.
pub open spec fn poll_key_view(k: PollKey) -> (Seq<char>, Seq<char>) {
    (k.workspace_id@, k.participant_id@)
}

/// One blocked long poll.
#[derive(Debug)]
pub struct PollEntry<T> {
    pub key: PollKey,
    pub tx: T,
}

/// The pending long polls: at most one per participant of a workspace.
#[derive(Debug)]
pub struct PollWaiters<T> {
    entries: Vec<PollEntry<T>>,
}

impl<T> PollWaiters<T> {
    /// No key occurs twice.
    pub closed spec fn wf(&self) -> bool {
        forall|i: int, j: int|
            0 <= i < self.entries@.len() && 0 <= j < self.entries@.len() && i != j
                ==> poll_key_view(#[trigger] self.entries@[i].key) != poll_key_view(#[trigger] self.entries@[j].key)
    }

    /// Key to the handle that wakes its poll.
    pub closed spec fn view(&self) -> Map<(Seq<char>, Seq<char>), T> {
        Map::new(
            |k: (Seq<char>, Seq<char>)| exists|i: int| 0 <= i < self.entries@.len() && poll_key_view(#[trigger] self.entries@[i].key) == k,
            |k: (Seq<char>, Seq<char>)|
                self.entries@[choose|i: int| 0 <= i < self.entries@.len() && poll_key_view(#[trigger] self.entries@[i].key) == k].tx,
        )
    }

    proof fn lemma_view_at(&self, i: int)
        requires
            self.wf(),
            0 <= i < self.entries@.len(),
        ensures
            self.view().contains_key(poll_key_view(self.entries@[i].key)),
            self.view()[poll_key_view(self.entries@[i].key)] == self.entries@[i].tx,
    {
        let k = poll_key_view(self.entries@[i].key);
        assert(self.view().contains_key(k));
        let j = choose|j: int| 0 <= j < self.entries@.len() && poll_key_view(#[trigger] self.entries@[j].key) == k;
        assert(i == j);
    }

    /// No poll is pending.
    pub fn new() -> (r: Self)
        ensures
            r.wf(),
            r.view() == Map::<(Seq<char>, Seq<char>), T>::empty(),
    {
        let r = PollWaiters { entries: Vec::new() };
        assert(r.view() =~= Map::<(Seq<char>, Seq<char>), T>::empty());
        r
    }

    fn find(&self, workspace_id: &str, participant_id: &str) -> (r: Option<usize>)
        ensures
            r matches Some(i) ==> i < self.entries@.len() && poll_key_view(self.entries@[i as int].key)
                == (workspace_id@, participant_id@),
            r is None ==> forall|i: int| 0 <= i < self.entries@.len() ==> poll_key_view(#[trigger] self.entries@[i].key)
                != (workspace_id@, participant_id@),
    {
        let mut i: usize = 0;
        while i < self.entries.len()
            invariant
                i <= self.entries@.len(),
                forall|j: int| 0 <= j < i ==> poll_key_view(#[trigger] self.entries@[j].key) != (workspace_id@, participant_id@),
            decreases self.entries@.len() - i,
        {
            if str_eq(self.entries[i].key.workspace_id.as_str(), workspace_id) && str_eq(
                self.entries[i].key.participant_id.as_str(),
                participant_id,
            ) {
                return Some(i);
            }
            i = i + 1;
        }
        None
    }

    /// Whether a poll is pending for the key.
    pub fn contains(&self, workspace_id: &str, participant_id: &str) -> (r: bool)
        requires
            self.wf(),
        ensures
            r == self.view().contains_key((workspace_id@, participant_id@)),
    {
        match self.find(workspace_id, participant_id) {
            Some(i) => {
                proof {
                    self.lemma_view_at(i as int);
                }
                true
            },
            None => false,
        }
    }

    /// Registers a poll for the key unless one is already pending, in which
    /// case the registry is unchanged and the handle comes back.
    pub fn try_register(&mut self, key: PollKey, tx: T) -> (r: Result<(), T>)
        requires
            old(self).wf(),
        ensures
            final(self).wf(),
            old(self).view().contains_key(poll_key_view(key)) ==> r == Err::<(), T>(tx) && final(self).view()
                == old(self).view(),
            !old(self).view().contains_key(poll_key_view(key)) ==> r is Ok && final(self).view()
                == old(self).view().insert(poll_key_view(key), tx),
    {
        match self.find(key.workspace_id.as_str(), key.participant_id.as_str()) {
            Some(i) => {
                proof {
                    self.lemma_view_at(i as int);
                }
                Err(tx)
            },
            None => {
                let ghost before = self.entries@;
                let ghost k = poll_key_view(key);
                self.entries.push(PollEntry { key, tx });
                proof {
                    let n = before.len() as int;
                    self.lemma_view_at(n);
                    assert forall|kk: (Seq<char>, Seq<char>)| #[trigger] self.view().contains_key(kk) <==> old(self).view().insert(k, tx).contains_key(kk) by {
                        if self.view().contains_key(kk) && kk != k {
                            let j = choose|j: int| 0 <= j < self.entries@.len() && poll_key_view(#[trigger] self.entries@[j].key) == kk;
                            assert(j != n);
                            assert(poll_key_view(before[j].key) == kk);
                        }
                        if old(self).view().contains_key(kk) {
                            let j = choose|j: int| 0 <= j < before.len() && poll_key_view(#[trigger] before[j].key) == kk;
                            assert(poll_key_view(self.entries@[j].key) == kk);
                        }
                    }
                    assert forall|kk: (Seq<char>, Seq<char>)| #[trigger] self.view().contains_key(kk) implies self.view()[kk] == old(self).view().insert(k, tx)[kk] by {
                        let j = choose|j: int| 0 <= j < self.entries@.len() && poll_key_view(#[trigger] self.entries@[j].key) == kk;
                        self.lemma_view_at(j);
                        if j < n {
                            old(self).lemma_view_at(j);
                        }
                    }
                    assert(self.view() =~= old(self).view().insert(k, tx));
                }
                Ok(())
            },
        }
    }

    /// Takes the pending poll of the key out of the registry, if any: to wake
    /// it, or to clean up after it ended.
    pub fn take(&mut self, workspace_id: &str, participant_id: &str) -> (r: Option<T>)
        requires
            old(self).wf(),
        ensures
            final(self).wf(),
            final(self).view() == old(self).view().remove((workspace_id@, participant_id@)),
            old(self).view().contains_key((workspace_id@, participant_id@)) ==> r == Some(
                old(self).view()[(workspace_id@, participant_id@)],
            ),
            !old(self).view().contains_key((workspace_id@, participant_id@)) ==> r is None,
    {
        let ghost k = (workspace_id@, participant_id@);
        match self.find(workspace_id, participant_id) {
            Some(i) => {
                proof {
                    self.lemma_view_at(i as int);
                }
                let ghost before = self.entries@;
                let e = self.entries.remove(i);
                proof {
                    assert(self.entries@ == before.remove(i as int));
                    assert forall|kk: (Seq<char>, Seq<char>)| #[trigger] self.view().contains_key(kk) <==> old(self).view().remove(k).contains_key(kk) by {
                        if self.view().contains_key(kk) {
                            let j = choose|j: int| 0 <= j < self.entries@.len() && poll_key_view(#[trigger] self.entries@[j].key) == kk;
                            if j < i {
                                assert(poll_key_view(before[j].key) == kk);
                            } else {
                                assert(poll_key_view(before[j + 1].key) == kk);
                            }
                        }
                        if old(self).view().remove(k).contains_key(kk) {
                            let j = choose|j: int| 0 <= j < before.len() && poll_key_view(#[trigger] before[j].key) == kk;
                            assert(j != i);
                            if j < i {
                                assert(poll_key_view(self.entries@[j].key) == kk);
                            } else {
                                assert(poll_key_view(self.entries@[j - 1].key) == kk);
                            }
                        }
                    }
                    assert forall|kk: (Seq<char>, Seq<char>)| #[trigger] self.view().contains_key(kk) implies self.view()[kk] == old(self).view()[kk] by {
                        let j = choose|j: int| 0 <= j < self.entries@.len() && poll_key_view(#[trigger] self.entries@[j].key) == kk;
                        self.lemma_view_at(j);
                        if j < i {
                            old(self).lemma_view_at(j);
                        } else {
                            old(self).lemma_view_at(j + 1);
                        }
                    }
                    assert(self.view() =~= old(self).view().remove(k));
                }
                Some(e.tx)
            },
            None => {
                assert(self.view().remove(k) =~= self.view());
                None
            },
        }
    }
}

/// The long-poll timeout after clamping into [100, 30000] ms.
pub open spec fn spec_poll_timeout(timeout_ms: u64) -> u64 {
    if timeout_ms < 100 {
        100
    } else if timeout_ms > 30000 {
        30000
    } else {
        timeout_ms
    }
}

/// The long-poll page size: 10 when none was asked for, at most 50.
pub open spec fn spec_poll_limit(limit: u32) -> u32 {
    if limit == 0 {
        10
    } else if limit > 50 {
        50
    } else {
        limit
    }
}

/// A long poll that registers on a free key and is then taken hands back
/// its own wake-up handle, and leaves the registry as it was.
pub proof fn lemma_poll_register_then_take<T>(m: Map<(Seq<char>, Seq<char>), T>, key: (Seq<char>, Seq<char>), tx: T)
    requires
        !m.contains_key(key),
    ensures
        m.insert(key, tx).contains_key(key),
        m.insert(key, tx)[key] == tx,
        m.insert(key, tx).remove(key) == m,
{
    assert(m.insert(key, tx).remove(key) =~= m);
}

/// Normalizes the parameters of a long poll: the timeout is clamped into
/// [100, 30000] ms, a zero limit becomes 10 and larger limits are capped at 50.
pub fn normalize_poll_params(timeout_ms: u64, limit: u32) -> (r: (u64, u32))
    ensures
        r == (spec_poll_timeout(timeout_ms), spec_poll_limit(limit)),
{
    let t = if timeout_ms < 100 {
        100
    } else if timeout_ms > 30000 {
        30000
    } else {
        timeout_ms
    };
    let l = if limit == 0 {
        10
    } else if limit > 50 {
        50
    } else {
        limit
    };
    (t, l)
}

} // verus!
