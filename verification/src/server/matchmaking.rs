use vstd::prelude::*;

use crate::ssh::session::SessionId;

verus! {

/// A first-come, first-served queue of players waiting for an opponent.
pub struct Matchmaking {
    queue: Vec<SessionId>,
}

impl View for Matchmaking {
    type V = Seq<SessionId>;

    closed spec fn view(&self) -> Seq<SessionId> {
        self.queue@
    }
}

/// Keeps every queue entry except those equal to `id`.
pub open spec fn without(q: Seq<SessionId>, id: SessionId) -> Seq<SessionId> {
    q.filter(|x: SessionId| x != id)
}

proof fn lemma_without_step(q: Seq<SessionId>, id: SessionId, i: int)
    requires
        0 <= i < q.len(),
    ensures
        without(q.take(i + 1), id) == if q[i] != id {
            without(q.take(i), id).push(q[i])
        } else {
            without(q.take(i), id)
        },
{
    reveal(Seq::filter);
    assert(q.take(i + 1).drop_last() =~= q.take(i));
}

proof fn lemma_without_facts(q: Seq<SessionId>, id: SessionId)
    requires
        q.no_duplicates(),
    ensures
        without(q, id).no_duplicates(),
        !without(q, id).contains(id),
        forall|x: SessionId| x != id ==> (#[trigger] without(q, id).contains(x) <==> q.contains(x)),
        !q.contains(id) ==> without(q, id) == q,
    decreases q.len(),
{
    reveal(Seq::filter);
    if q.len() > 0 {
        let p = q.drop_last();
        assert(p.no_duplicates());
        lemma_without_facts(p, id);
        assert forall|x: SessionId| x != id implies (#[trigger] without(q, id).contains(x)
            <==> q.contains(x)) by {
            if q.contains(x) && x != q.last() {
                let k = choose|k: int| 0 <= k < q.len() && q[k] == x;
                assert(p[k] == x);
            }
            if without(p, id).contains(x) {
                assert(p.contains(x));
                let k = choose|k: int| 0 <= k < p.len() && p[k] == x;
                assert(q[k] == x);
            }
        }
        if q.last() != id {
            assert(!without(p, id).contains(q.last())) by {
                if without(p, id).contains(q.last()) {
                    let k = choose|k: int| 0 <= k < p.len() && p[k] == q.last();
                    assert(q[k] == q[q.len() - 1]);
                }
            }
        }
        if !q.contains(id) {
            assert(!p.contains(id)) by {
                if p.contains(id) {
                    let k = choose|k: int| 0 <= k < p.len() && p[k] == id;
                    assert(q[k] == id);
                }
            }
            assert(q.last() != id);
            assert(q =~= p.push(q.last()));
        }
    } else {
        assert(without(q, id) =~= q);
    }
}

impl Matchmaking {
    /// Well-formedness: nobody waits in the queue twice.
    pub open spec fn wf(&self) -> bool {
        self@.no_duplicates()
    }

    pub fn new() -> (m: Matchmaking)
        ensures
            m.wf(),
            m@ == Seq::<SessionId>::empty(),
    {
        Matchmaking { queue: Vec::new() }
    }

    fn contains(&self, id: SessionId) -> (r: bool)
        ensures
            r == self@.contains(id),
    {
        let mut i: usize = 0;
        while i < self.queue.len()
            invariant
                i <= self.queue@.len(),
                forall|k: int| 0 <= k < i ==> self.queue@[k] != id,
            decreases self.queue@.len() - i,
        {
            if self.queue[i] == id {
                return true;
            }
            i = i + 1;
        }
        false
    }

    /// Puts a player at the back of the queue unless they already wait in it.
    pub fn add_to_queue(&mut self, session_id: SessionId)
        requires
            old(self).wf(),
        ensures
            final(self).wf(),
            final(self)@ == if old(self)@.contains(session_id) {
                old(self)@
            } else {
                old(self)@.push(session_id)
            },
    {
        if !self.contains(session_id) {
            self.queue.push(session_id);
        }
    }

    /// Takes every entry of a player out of the queue.
    pub fn remove_from_queue(&mut self, session_id: SessionId)
        requires
            old(self).wf(),
        ensures
            final(self).wf(),
            final(self)@ == without(old(self)@, session_id),
    {
        let ghost q = self.queue@;
        let mut kept: Vec<SessionId> = Vec::new();
        let mut i: usize = 0;
        proof {
            reveal(Seq::filter);
            assert(q.take(0) =~= Seq::<SessionId>::empty());
        }
        while i < self.queue.len()
            invariant
                self.queue@ == q,
                i <= q.len(),
                kept@ == without(q.take(i as int), session_id),
            decreases q.len() - i,
        {
            proof {
                lemma_without_step(q, session_id, i as int);
            }
            if self.queue[i] != session_id {
                kept.push(self.queue[i]);
            }
            i = i + 1;
        }
        proof {
            assert(q.take(q.len() as int) =~= q);
            lemma_without_facts(q, session_id);
        }
        self.queue = kept;
    }

    /// Pairs the two players who have waited longest.
    pub fn try_match(&mut self) -> (pair: Option<(SessionId, SessionId)>)
        requires
            old(self).wf(),
        ensures
            final(self).wf(),
            old(self)@.len() >= 2 ==> pair == Some((old(self)@[0], old(self)@[1]))
                && final(self)@ == old(self)@.skip(2),
            old(self)@.len() < 2 ==> pair.is_none() && final(self)@ == old(self)@,
    {
        if self.queue.len() >= 2 {
            let player1 = self.queue.remove(0);
            let player2 = self.queue.remove(0);
            proof {
                let q = self.queue@;
                assert forall|a: int, b: int| 0 <= a < b < q.len() implies q[a] != q[b] by {
                    assert(q[a] == old(self).queue@[a + 2]);
                    assert(q[b] == old(self).queue@[b + 2]);
                }
                assert(q =~= old(self)@.skip(2));
            }
            Some((player1, player2))
        } else {
            None
        }
    }

    /// Zero-based place of a player in the queue.
    pub fn queue_position(&self, session_id: SessionId) -> (pos: Option<usize>)
        requires
            self.wf(),
        ensures
            match pos {
                Some(i) => i < self@.len() && self@[i as int] == session_id,
                None => !self@.contains(session_id),
            },
    {
        let mut i: usize = 0;
        while i < self.queue.len()
            invariant
                i <= self.queue@.len(),
                forall|k: int| 0 <= k < i ==> self.queue@[k] != session_id,
            decreases self.queue@.len() - i,
        {
            if self.queue[i] == session_id {
                return Some(i);
            }
            i = i + 1;
        }
        None
    }

    pub fn queue_size(&self) -> (n: usize)
        ensures
            n == self@.len(),
    {
        self.queue.len()
    }
}

} // verus!
