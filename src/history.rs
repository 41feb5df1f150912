use vstd::prelude::*;
use std::collections::VecDeque;

verus! {

/// `b` after `x` arrives at a buffer of capacity `cap`: the oldest record
/// leaves first when the buffer is full.
pub open spec fn inserted<T>(b: Seq<T>, cap: nat, x: T) -> Seq<T> {
    if cap == 0 {
        b
    } else if b.len() >= cap {
        b.drop_first().push(x)
    } else {
        b.push(x)
    }
}

/// `b` after every record of `s` has arrived, in order.
pub open spec fn insert_all<T>(b: Seq<T>, cap: nat, s: Seq<T>) -> Seq<T>
    decreases s.len(),
{
    if s.len() == 0 {
        b
    } else {
        inserted(insert_all(b, cap, s.drop_last()), cap, s.last())
    }
}

/// The last `n` items of `s` (all of them when there are fewer).
pub open spec fn last_n<T>(s: Seq<T>, n: nat) -> Seq<T> {
    if s.len() <= n {
        s
    } else {
        s.subrange(s.len() - n, s.len() as int)
    }
}

/// A bounded buffer of records in arrival order.
pub struct HistoryBuffer<T> {
    items: VecDeque<T>,
    capacity: usize,
}

impl<T> View for HistoryBuffer<T> {
    type V = Seq<T>;

    closed spec fn view(&self) -> Seq<T> {
        self.items@
    }
}

impl<T> HistoryBuffer<T> {
    /// The capacity the buffer was made with.
    pub closed spec fn cap(&self) -> nat {
        self.capacity as nat
    }

    /// The buffer never holds more than its capacity.
    pub closed spec fn wf(&self) -> bool {
        self.items@.len() <= self.capacity
    }

    /// An empty buffer that keeps at most `capacity` records.
    pub fn new(capacity: usize) -> (r: Self)
        ensures
            r.wf(),
            r@ == Seq::<T>::empty(),
            r.cap() == capacity,
    {
        HistoryBuffer { items: VecDeque::new(), capacity }
    }

    pub fn capacity(&self) -> (r: usize)
        ensures
            r == self.cap(),
    {
        self.capacity
    }

    pub fn len(&self) -> (r: usize)
        requires
            self.wf(),
        ensures
            r == self@.len(),
    {
        self.items.len()
    }

    /// Appends `x`, evicting the oldest record first when the buffer is full.
    pub fn push(&mut self, x: T)
        requires
            old(self).wf(),
        ensures
            final(self).wf(),
            final(self).cap() == old(self).cap(),
            final(self)@ == inserted(old(self)@, old(self).cap(), x),
    {
        if self.capacity == 0 {
            return;
        }
        if self.items.len() >= self.capacity {
            let _ = self.items.pop_front();
        }
        self.items.push_back(x);
        proof {
            assert(self.items@ =~= inserted(old(self)@, old(self).cap(), x));
        }
    }

    /// Hands out the records, oldest first.
    pub fn into_vec(self) -> (r: Vec<T>)
        requires
            self.wf(),
        ensures
            r@ == self@,
    {
        let ghost all = self.items@;
        let mut items = self.items;
        let mut r: Vec<T> = Vec::new();
        while items.len() > 0
            invariant
                r@ + items@ == all,
            decreases items@.len(),
        {
            let ghost before = items@;
            match items.pop_front() {
                Some(x) => {
                    r.push(x);
                    proof {
                        assert(r@ + items@ =~= all);
                    }
                },
                None => {},
            }
        }
        proof {
            assert(r@ =~= all);
        }
        r
    }
}

/// Starting from a buffer within its capacity, inserting a sequence of records
/// leaves exactly the last `cap` records of all of them.
pub proof fn lemma_insert_all_keeps_last<T>(b: Seq<T>, cap: nat, s: Seq<T>)
    requires
        cap >= 1,
        b.len() <= cap,
    ensures
        insert_all(b, cap, s) == last_n(b + s, cap),
    decreases s.len(),
{
    if s.len() == 0 {
        assert(b + s =~= b);
    } else {
        lemma_insert_all_keeps_last(b, cap, s.drop_last());
        let prev = insert_all(b, cap, s.drop_last());
        let all = b + s;
        assert(b + s.drop_last() =~= all.drop_last());
        assert(all.last() == s.last());
        if all.drop_last().len() <= cap {
            assert(prev == all.drop_last());
            if prev.len() >= cap {
                assert(prev.drop_first().push(s.last()) =~= all.subrange(all.len() - cap, all.len() as int));
            } else {
                assert(prev.push(s.last()) =~= all);
            }
        } else {
            assert(prev =~= all.drop_last().subrange(all.drop_last().len() - cap, all.drop_last().len() as int));
            assert(prev.drop_first().push(s.last()) =~= all.subrange(all.len() - cap, all.len() as int));
        }
    }
}

/// FIFO eviction: for every capacity of at least one, after any sequence of
/// insertions into an empty buffer, it holds at most that many records, and they
/// are the last ones inserted, in arrival order.
pub proof fn lemma_fifo_eviction<T>(cap: nat, s: Seq<T>)
    requires
        cap >= 1,
    ensures
        insert_all(Seq::<T>::empty(), cap, s).len() <= cap,
        insert_all(Seq::<T>::empty(), cap, s) == last_n(s, cap),
{
    lemma_insert_all_keeps_last(Seq::<T>::empty(), cap, s);
    assert(Seq::<T>::empty() + s =~= s);
}

} // verus!
