use vstd::prelude::*;

verus! {

/// The larger of two integers.
pub open spec fn max2(a: int, b: int) -> int {
    if a >= b {
        a
    } else {
        b
    }
}

/// Where a cursor that started at `start` stands after advancing to each of
/// `vs` in turn.
pub open spec fn max_fold(start: int, vs: Seq<i64>) -> int
    decreases vs.len(),
{
    if vs.len() == 0 {
        start
    } else {
        max2(max_fold(start, vs.drop_last()), vs.last() as int)
    }
}

/// Timestamp of the newest delivered message. It starts at zero and never
/// moves back.
pub struct DeliveryCursor {
    value: i64,
}

impl View for DeliveryCursor {
    type V = int;

    closed spec fn view(&self) -> int {
        self.value as int
    }
}

impl DeliveryCursor {
    /// A cursor that has seen nothing yet.
    pub fn new() -> (r: Self)
        ensures
            r@ == 0,
    {
        DeliveryCursor { value: 0 }
    }

    /// The current position.
    pub fn read(&self) -> (r: i64)
        ensures
            r as int == self@,
    {
        self.value
    }

    /// Moves the cursor to `candidate` if that is further on; otherwise
    /// leaves it where it is.
    pub fn advance_to(&mut self, candidate: i64)
        ensures
            final(self)@ == max2(old(self)@, candidate as int),
    {
        if candidate > self.value {
            self.value = candidate;
        }
    }
}

/// After any run of advances, in any order and with repeats, the cursor
/// stands at the largest of its start and every value passed, never below a
/// position it held on the way, and no prefix of the run leaves it further on
/// than the whole run.
pub proof fn lemma_cursor_is_running_max(start: int, vs: Seq<i64>)
    ensures
        max_fold(start, vs) >= start,
        forall|i: int| 0 <= i < vs.len() ==> max_fold(start, vs) >= vs[i] as int,
        max_fold(start, vs) == start
            || exists|i: int| 0 <= i < vs.len() && max_fold(start, vs) == vs[i] as int,
        forall|k: int| 0 <= k <= vs.len() ==> #[trigger] max_fold(start, vs.take(k)) <= max_fold(start, vs),
    decreases vs.len(),
{
    if vs.len() > 0 {
        let init = vs.drop_last();
        lemma_cursor_is_running_max(start, init);
        assert forall|i: int| 0 <= i < vs.len() implies max_fold(start, vs) >= vs[i] as int by {
            if i < vs.len() - 1 {
                assert(init[i] == vs[i]);
            }
        }
        if max_fold(start, vs) != start {
            if max_fold(start, vs) == vs.last() as int {
                assert(max_fold(start, vs) == vs[vs.len() - 1] as int);
            } else {
                let j = choose|j: int| 0 <= j < init.len() && max_fold(start, init) == init[j] as int;
                assert(max_fold(start, vs) == vs[j] as int);
            }
        }
        assert forall|k: int| 0 <= k <= vs.len() implies #[trigger] max_fold(start, vs.take(k)) <= max_fold(start, vs) by {
            if k == vs.len() {
                assert(vs.take(k) =~= vs);
            } else {
                assert(vs.take(k) =~= init.take(k));
            }
        }
    }
}

/// Advancing over `a` and then over `b` is advancing over `a` followed by `b`.
pub proof fn lemma_max_fold_append(start: int, a: Seq<i64>, b: Seq<i64>)
    ensures
        max_fold(start, a + b) == max_fold(max_fold(start, a), b),
    decreases b.len(),
{
    if b.len() == 0 {
        assert(a + b =~= a);
    } else {
        lemma_max_fold_append(start, a, b.drop_last());
        assert((a + b).drop_last() =~= a + b.drop_last());
        assert((a + b).last() == b.last());
    }
}

} // verus!
