//! The broadcast hub: one process-wide topic, many subscribers, each with an
//! unbounded queue of its own, so that a publisher never waits on a reader.
use vstd::prelude::*;
use vstd::string::StringExecFns;

verus! {

/// The character sequences of a list of lines.
pub open spec fn lines_of(v: Seq<String>) -> Seq<Seq<char>> {
    v.map_values(|s: String| s@)
}

struct Subscriber {
    id: u64,
    queue: Vec<String>,
}

/// A publish/subscribe hub over formatted chat lines.
///
/// Its view maps each live subscription id to the lines published since that
/// subscription began and not yet taken by its reader, oldest first.
pub struct Hub {
    subs: Vec<Subscriber>,
    next_id: u64,
    queues: Ghost<Map<u64, Seq<Seq<char>>>>,
}

impl View for Hub {
    type V = Map<u64, Seq<Seq<char>>>;

    closed spec fn view(&self) -> Map<u64, Seq<Seq<char>>> {
        self.queues@
    }
}

impl Hub {
    /// The representation agrees with the view: one entry per subscription,
    /// ids distinct and below the next id to hand out.
    pub closed spec fn wf(&self) -> bool {
        &&& self.queues@.dom().finite()
        &&& self.queues@.dom().len() == self.subs@.len()
        &&& forall|i: int|
            0 <= i < self.subs@.len() ==> {
                &&& #[trigger] self.subs@[i].id < self.next_id
                &&& self.queues@.contains_key(self.subs@[i].id)
                &&& self.queues@[self.subs@[i].id] == lines_of(self.subs@[i].queue@)
            }
        &&& forall|i: int, j: int|
            0 <= i < self.subs@.len() && 0 <= j < self.subs@.len() && #[trigger] self.subs@[i].id
                == #[trigger] self.subs@[j].id ==> i == j
        &&& forall|k: u64| #[trigger]
            self.queues@.contains_key(k) ==> exists|i: int|
                0 <= i < self.subs@.len() && #[trigger] self.subs@[i].id == k
    }

    /// A well-formed hub has finitely many subscriptions.
    pub proof fn lemma_finite(&self)
        requires
            self.wf(),
        ensures
            self@.dom().finite(),
    {
    }

    /// Whether another subscription id can still be handed out.
    pub closed spec fn has_free_id(&self) -> bool {
        self.next_id < u64::MAX
    }

    /// A hub with no subscribers.
    pub fn new() -> (r: Hub)
        ensures
            r.wf(),
            r@ == Map::<u64, Seq<Seq<char>>>::empty(),
            r@.dom().finite(),
            r.has_free_id(),
    {
        Hub { subs: Vec::new(), next_id: 0, queues: Ghost(Map::empty()) }
    }

    /// Number of live subscriptions.
    pub fn subscriber_count(&self) -> (r: usize)
        requires
            self.wf(),
        ensures
            r == self@.dom().len(),
            self@.dom().finite(),
    {
        self.subs.len()
    }

    fn find(&self, id: u64) -> (r: Option<usize>)
        requires
            self.wf(),
        ensures
            match r {
                Some(i) => i < self.subs@.len() && self.subs@[i as int].id == id,
                None => !self@.contains_key(id),
            },
    {
        let mut i: usize = 0;
        while i < self.subs.len()
            invariant
                i <= self.subs@.len(),
                forall|j: int| 0 <= j < i ==> self.subs@[j].id != id,
            decreases self.subs@.len() - i,
        {
            if self.subs[i].id == id {
                return Some(i);
            }
            i = i + 1;
        }
        None
    }

    /// Whether `id` is a live subscription.
    pub fn is_subscribed(&self, id: u64) -> (r: bool)
        requires
            self.wf(),
        ensures
            r == self@.contains_key(id),
    {
        self.find(id).is_some()
    }

    /// Opens a subscription with an empty queue. Fails only when the ids are
    /// used up, and then changes nothing.
    pub fn subscribe(&mut self) -> (r: Option<u64>)
        requires
            old(self).wf(),
        ensures
            final(self).wf(),
            final(self)@.dom().finite(),
            r.is_some() == old(self).has_free_id(),
            match r {
                Some(id) => {
                    &&& !old(self)@.contains_key(id)
                    &&& final(self)@ == old(self)@.insert(id, Seq::<Seq<char>>::empty())
                },
                None => *final(self) == *old(self),
            },
    {
        if self.next_id == u64::MAX {
            return None;
        }
        let id = self.next_id;
        let ghost old_subs = self.subs@;
        let ghost old_q = self.queues@;
        proof {
            if old_q.contains_key(id) {
                let i = choose|i: int| 0 <= i < old_subs.len() && #[trigger] old_subs[i].id == id;
                assert(old_subs[i].id < id);
            }
        }
        self.subs.push(Subscriber { id, queue: Vec::new() });
        self.next_id = id + 1;
        self.queues = Ghost(old_q.insert(id, Seq::empty()));
        proof {
            assert(lines_of(Seq::<String>::empty()) =~= Seq::<Seq<char>>::empty());
            assert forall|k: u64| #[trigger] self.queues@.contains_key(k) implies exists|i: int|
                0 <= i < self.subs@.len() && #[trigger] self.subs@[i].id == k by {
                if k == id {
                    assert(self.subs@[old_subs.len() as int].id == k);
                } else {
                    let i = choose|i: int| 0 <= i < old_subs.len() && #[trigger] old_subs[i].id == k;
                    assert(self.subs@[i].id == k);
                }
            }
        }
        Some(id)
    }

    /// Ends a subscription; its pending lines are discarded. Returns whether
    /// it was live.
    pub fn unsubscribe(&mut self, id: u64) -> (r: bool)
        requires
            old(self).wf(),
        ensures
            final(self).wf(),
            final(self)@.dom().finite(),
            r == old(self)@.contains_key(id),
            final(self)@ == old(self)@.remove(id),
            final(self).has_free_id() == old(self).has_free_id(),
    {
        match self.find(id) {
            None => {
                assert(self.queues@.remove(id) =~= self.queues@);
                false
            },
            Some(i) => {
                let ghost old_subs = self.subs@;
                let ghost old_q = self.queues@;
                self.subs.remove(i);
                self.queues = Ghost(old_q.remove(id));
                proof {
                    assert forall|k: u64| #[trigger] self.queues@.contains_key(k) implies exists|
                        j: int,
                    |
                        0 <= j < self.subs@.len() && #[trigger] self.subs@[j].id == k by {
                        let j = choose|j: int|
                            0 <= j < old_subs.len() && #[trigger] old_subs[j].id == k;
                        if j < i {
                            assert(self.subs@[j].id == k);
                        } else {
                            assert(j != i);
                            assert(self.subs@[j - 1].id == k);
                        }
                    }
                }
                true
            },
        }
    }

    /// Appends `line` to the queue of every live subscription. Never waits on
    /// any reader.
    pub fn publish(&mut self, line: &str)
        requires
            old(self).wf(),
        ensures
            final(self).wf(),
            final(self)@.dom().finite(),
            final(self)@ == old(self)@.map_values(|q: Seq<Seq<char>>| q.push(line@)),
            final(self).has_free_id() == old(self).has_free_id(),
    {
        let ghost old_subs = self.subs@;
        let ghost old_q = self.queues@;
        let mut i: usize = 0;
        while i < self.subs.len()
            invariant
                0 <= i <= self.subs@.len(),
                self.subs@.len() == old_subs.len(),
                self.next_id == old(self).next_id,
                self.queues@ == old_q,
                forall|j: int| 0 <= j < self.subs@.len() ==> #[trigger] self.subs@[j].id == old_subs[j].id,
                forall|j: int|
                    0 <= j < i ==> lines_of(#[trigger] self.subs@[j].queue@) == lines_of(
                        old_subs[j].queue@,
                    ).push(line@),
                forall|j: int|
                    i <= j < self.subs@.len() ==> #[trigger] self.subs@[j].queue@
                        == old_subs[j].queue@,
            decreases self.subs@.len() - i,
        {
            let ghost before = self.subs@[i as int].queue@;
            self.subs[i].queue.push(String::from_str(line));
            assert(lines_of(self.subs@[i as int].queue@) =~= lines_of(before).push(line@));
            i = i + 1;
        }
        self.queues = Ghost(old_q.map_values(|q: Seq<Seq<char>>| q.push(line@)));
        proof {
            assert forall|k: u64| #[trigger] self.queues@.contains_key(k) implies exists|j: int|
                0 <= j < self.subs@.len() && #[trigger] self.subs@[j].id == k by {
                let j = choose|j: int| 0 <= j < old_subs.len() && #[trigger] old_subs[j].id == k;
                assert(self.subs@[j].id == k);
            }
            assert(self.queues@.dom() =~= old_q.dom());
        }
    }

    /// Hands out the pending lines of subscription `id`, oldest first, and
    /// empties its queue. An id that is not live yields nothing.
    pub fn take_pending(&mut self, id: u64) -> (r: Vec<String>)
        requires
            old(self).wf(),
        ensures
            final(self).wf(),
            final(self)@.dom().finite(),
            final(self).has_free_id() == old(self).has_free_id(),
            old(self)@.contains_key(id) ==> {
                &&& lines_of(r@) == old(self)@[id]
                &&& final(self)@ == old(self)@.insert(id, Seq::<Seq<char>>::empty())
            },
            !old(self)@.contains_key(id) ==> r@.len() == 0 && final(self)@ == old(self)@,
    {
        let mut out: Vec<String> = Vec::new();
        match self.find(id) {
            None => out,
            Some(i) => {
                let ghost old_subs = self.subs@;
                let ghost old_q = self.queues@;
                let mut sub = self.subs.remove(i);
                std::mem::swap(&mut sub.queue, &mut out);
                self.subs.insert(i, sub);
                self.queues = Ghost(old_q.insert(id, Seq::empty()));
                proof {
                    assert(lines_of(Seq::<String>::empty()) =~= Seq::<Seq<char>>::empty());
                    assert(self.queues@.dom() =~= old_q.dom());
                    assert forall|j: int| 0 <= j < self.subs@.len() && j != i implies #[trigger] self.subs@[j]
                        == old_subs[j] by {}
                    assert forall|k: u64| #[trigger] self.queues@.contains_key(k) implies exists|
                        j: int,
                    |
                        0 <= j < self.subs@.len() && #[trigger] self.subs@[j].id == k by {
                        let j = choose|j: int|
                            0 <= j < old_subs.len() && #[trigger] old_subs[j].id == k;
                        assert(self.subs@[j].id == k);
                    }
                }
                out
            },
        }
    }
}

} // verus!
