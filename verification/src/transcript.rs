use vstd::prelude::*;
use std::collections::VecDeque;
use crate::turn::{Turn, TurnView};

verus! {

/// The entry limit of a newly created channel.
pub const DEFAULT_ENTRY_LIMIT: u64 = 64;

/// The newest `limit` entries of `s` in their order, or all of `s` where it
/// holds no more than `limit`.
pub open spec fn newest<T>(s: Seq<T>, limit: nat) -> Seq<T> {
    if s.len() <= limit {
        s
    } else {
        s.skip(s.len() - limit)
    }
}

/// What a log with entry limit `limit` keeps of `s`: its newest part, all of
/// it where there is no limit.
pub open spec fn kept<T>(s: Seq<T>, limit: Option<nat>) -> Seq<T> {
    match limit {
        Some(most) => newest(s, most),
        None => s,
    }
}

/// Moves `turns` to the newest end of `queue`, in their order.
fn enqueue(queue: &mut VecDeque<Turn>, turns: Vec<Turn>)
    ensures
        final(queue).deep_view() == old(queue).deep_view() + turns.deep_view(),
{
    let ghost added = turns.deep_view();
    assert(queue.deep_view() =~= old(queue).deep_view() + added.take(0));
    for turn in iter: turns
        invariant
            iter.seq().len() == added.len(),
            forall|j: int| 0 <= j < added.len() ==> (#[trigger] iter.seq()[j])@ == added[j],
            queue.deep_view() == old(queue).deep_view() + added.take(iter.index() as int),
    {
        let ghost before = queue.deep_view();
        queue.push_back(turn);
        assert(queue.deep_view() =~= before.push(added[iter.index() as int]));
        assert(added.take(iter.index() + 1) =~= added.take(iter.index() as int).push(
            added[iter.index() as int],
        ));
    }
    assert(added.take(added.len() as int) =~= added);
}

/// The ordered log of one channel's turns. Turns enter at the newest end and
/// leave, once the log is over its entry limit, from the oldest end.
#[derive(Debug, PartialEq, Eq)]
pub struct Transcript {
    turns: VecDeque<Turn>,
    entry_limit: Option<u64>,
}

impl View for Transcript {
    type V = Seq<TurnView>;

    closed spec fn view(&self) -> Seq<TurnView> {
        self.turns.deep_view()
    }
}

impl Transcript {
    /// The most turns the log keeps, if it is limited.
    pub closed spec fn limit(&self) -> Option<nat> {
        match self.entry_limit {
            Some(most) => Some(most as nat),
            None => None,
        }
    }

    /// An empty log that keeps at most `entry_limit` turns.
    pub fn new(entry_limit: u64) -> (r: Transcript)
        ensures
            r@ == Seq::<TurnView>::empty(),
            r.limit() == Some(entry_limit as nat),
    {
        let r = Transcript { turns: VecDeque::new(), entry_limit: Some(entry_limit) };
        assert(r.turns.deep_view() =~= Seq::<TurnView>::empty());
        r
    }

    /// A log that holds `turns` as they are, oldest first, under the entry
    /// limit given (none: unlimited). Nothing is evicted before the next
    /// turn is added.
    pub fn from_parts(turns: Vec<Turn>, entry_limit: Option<u64>) -> (r: Transcript)
        ensures
            r@ == turns.deep_view(),
            r.limit() == match entry_limit {
                Some(most) => Some(most as nat),
                None => None,
            },
    {
        let mut queue: VecDeque<Turn> = VecDeque::new();
        assert(queue.deep_view() =~= Seq::<TurnView>::empty());
        enqueue(&mut queue, turns);
        assert(queue.deep_view() =~= turns.deep_view());
        Transcript { turns: queue, entry_limit }
    }

    /// The number of turns held.
    pub fn len(&self) -> (n: usize)
        ensures
            n == self@.len(),
    {
        self.turns.len()
    }

    /// The most turns the log keeps, if it is limited.
    pub fn entry_limit(&self) -> (limit: Option<u64>)
        ensures
            self.limit() == match limit {
                Some(most) => Some(most as nat),
                None => None,
            },
    {
        self.entry_limit
    }

    /// The turn at position `index`, counted from the oldest, if there is one.
    pub fn get(&self, index: usize) -> (r: Option<&Turn>)
        ensures
            match r {
                Some(turn) => index < self@.len() && turn@ == self@[index as int],
                None => index >= self@.len(),
            },
    {
        if index < self.turns.len() {
            Some(&self.turns[index])
        } else {
            None
        }
    }

    /// Copies of the turns from position `from` to the newest; none where
    /// `from` is past the end.
    pub fn suffix(&self, from: usize) -> (r: Vec<Turn>)
        ensures
            r.deep_view() == if from <= self@.len() {
                self@.skip(from as int)
            } else {
                Seq::<TurnView>::empty()
            },
    {
        let mut out: Vec<Turn> = Vec::new();
        let mut i: usize = from;
        while i < self.turns.len()
            invariant
                from <= i,
                from <= self.turns.len() ==> i <= self.turns.len(),
                from <= self.turns.len() ==> out.len() == i - from,
                from > self.turns.len() ==> out.len() == 0,
                forall|j: int| 0 <= j < out.len() ==> out@[j]@ == self.turns@[from + j]@,
            decreases self.turns.len() - i,
        {
            out.push(self.turns[i].clone());
            i += 1;
        }
        assert(out.deep_view() =~= if from <= self@.len() {
            self@.skip(from as int)
        } else {
            Seq::<TurnView>::empty()
        });
        out
    }

    /// Drops the oldest turns until no more than the entry limit are left.
    fn trim(&mut self)
        ensures
            final(self)@ == kept(old(self)@, old(self).limit()),
            final(self).limit() == old(self).limit(),
    {
        match self.entry_limit {
            Some(most) => {
                let ghost all = self.turns.deep_view();
                assert(self.turns.deep_view() =~= all.skip(0));
                while self.turns.len() as u64 > most
                    invariant
                        self.entry_limit == old(self).entry_limit,
                        all == old(self).turns.deep_view(),
                        self.turns.len() <= all.len(),
                        self.turns.len() == all.len() || self.turns.len() >= most,
                        self.turns.deep_view() == all.skip(all.len() - self.turns.len()),
                    decreases self.turns.len(),
                {
                    let ghost before = self.turns.deep_view();
                    self.turns.pop_front();
                    assert(self.turns.deep_view() =~= before.skip(1));
                    assert(self.turns.deep_view() =~= all.skip(all.len() - self.turns.len()));
                }
            },
            None => {},
        }
    }

    /// Appends `turns` in their order, then drops the oldest turns until no
    /// more than the entry limit are left.
    pub fn add(&mut self, turns: Vec<Turn>)
        ensures
            final(self)@ == kept(old(self)@ + turns.deep_view(), old(self).limit()),
            final(self).limit() == old(self).limit(),
    {
        enqueue(&mut self.turns, turns);
        self.trim();
    }

    /// Empties the log; the entry limit stays.
    pub fn clear(&mut self)
        ensures
            final(self)@ == Seq::<TurnView>::empty(),
            final(self).limit() == old(self).limit(),
    {
        self.turns.clear();
        assert(self.turns.deep_view() =~= Seq::<TurnView>::empty());
    }

    /// Sets the entry limit, dropping the oldest turns that no longer fit.
    pub fn set_entry_limit(&mut self, entry_limit: u64)
        ensures
            final(self)@ == newest(old(self)@, entry_limit as nat),
            final(self).limit() == Some(entry_limit as nat),
    {
        self.entry_limit = Some(entry_limit);
        self.trim();
    }

    /// Lifts the entry limit: from now on nothing is evicted.
    pub fn lift_entry_limit(&mut self)
        ensures
            final(self)@ == old(self)@,
            final(self).limit() == None::<nat>,
    {
        self.entry_limit = None;
    }

    /// An independent copy: same turns, same entry limit, no shared storage.
    pub fn snapshot(&self) -> (r: Transcript)
        ensures
            r@ == self@,
            r.limit() == self.limit(),
    {
        let mut copy: VecDeque<Turn> = VecDeque::new();
        let mut i: usize = 0;
        while i < self.turns.len()
            invariant
                i <= self.turns.len(),
                copy.len() == i,
                forall|j: int| 0 <= j < i ==> copy@[j]@ == self.turns@[j]@,
            decreases self.turns.len() - i,
        {
            copy.push_back(self.turns[i].clone());
            i += 1;
        }
        assert(copy.deep_view() =~= self.turns.deep_view());
        Transcript { turns: copy, entry_limit: self.entry_limit }
    }
}

/// Eviction takes from the oldest end only: what is kept of a log is its
/// newest part, as long as the limit allows, each turn at its old place
/// relative to the others.
pub proof fn lemma_eviction_order<T>(log: Seq<T>, limit: nat)
    ensures
        newest(log, limit).len() == if log.len() <= limit {
            log.len()
        } else {
            limit
        },
        forall|i: int|
            0 <= i < newest(log, limit).len() ==> newest(log, limit)[i] == log[i + (log.len()
                - newest(log, limit).len())],
{
}

} // verus!
