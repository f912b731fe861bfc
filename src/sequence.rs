use vstd::prelude::*;

verus! {

/// Why a sequence could not hand out a further value.
#[derive(Debug, Clone, Copy, PartialEq, Eq, Structural)]
pub enum SequenceError {
    /// No value is left: a scripted list has been drained, or a counter has
    /// already issued every value that a `usize` can hold.
    Exhausted,
}

/// One step of a counter that has issued `issued` values so far: what the
/// step returns, and how many values have been issued after it.
pub open spec fn counter_step(issued: nat) -> (Result<usize, SequenceError>, nat) {
    if issued < usize::MAX {
        (Ok(issued as usize), issued + 1)
    } else {
        (Err(SequenceError::Exhausted), issued)
    }
}

/// What `n` successive advances return, on a counter that has issued
/// `issued` values before the first of them.
pub open spec fn counter_outputs(issued: nat, n: nat) -> Seq<Result<usize, SequenceError>>
    decreases n,
{
    if n == 0 {
        Seq::empty()
    } else {
        seq![counter_step(issued).0] + counter_outputs(counter_step(issued).1, (n - 1) as nat)
    }
}

/// One step of a scripted sequence whose remaining values are `rest`.
pub open spec fn scripted_step(rest: Seq<usize>) -> (Result<usize, SequenceError>, Seq<usize>) {
    if rest.len() == 0 {
        (Err(SequenceError::Exhausted), rest)
    } else {
        (Ok(rest[0]), rest.drop_first())
    }
}

/// A counter that hands out 0, 1, 2, ... in order, each value once.
pub struct MonotonicCounter {
    next: usize,
}

impl MonotonicCounter {
    /// How many values this counter has issued; also the next one it issues.
    pub closed spec fn issued(&self) -> nat {
        self.next as nat
    }

    pub fn new() -> (r: Self)
        ensures
            r.issued() == 0,
    {
        MonotonicCounter { next: 0 }
    }

    /// Returns the current position and moves past it. Fails, leaving the
    /// counter as it was, once every `usize` has been issued.
    pub fn advance(&mut self) -> (r: Result<usize, SequenceError>)
        ensures
            (r, final(self).issued()) == counter_step(old(self).issued()),
    {
        if self.next < usize::MAX {
            let current = self.next;
            self.next = current + 1;
            Ok(current)
        } else {
            Err(SequenceError::Exhausted)
        }
    }
}

/// A fixed list of values handed out front to back, each once.
pub struct ScriptedSequence {
    values: Vec<usize>,
}

impl ScriptedSequence {
    /// The values not yet handed out, in the order they will come.
    pub closed spec fn remaining(&self) -> Seq<usize> {
        self.values@
    }

    pub fn new(values: Vec<usize>) -> (r: Self)
        ensures
            r.remaining() == values@,
    {
        ScriptedSequence { values }
    }

    /// Removes and returns the first remaining value; fails with
    /// `Exhausted`, changing nothing, when none is left.
    pub fn advance(&mut self) -> (r: Result<usize, SequenceError>)
        ensures
            (r, final(self).remaining()) == scripted_step(old(self).remaining()),
    {
        if self.values.len() == 0 {
            Err(SequenceError::Exhausted)
        } else {
            let head = self.values.remove(0);
            Ok(head)
        }
    }
}

/// What a counter returns over a run of advances: the `i`-th of `n` advances
/// made on a counter that had issued `issued` values returns `issued + i`,
/// as long as the run stays within `usize`.
pub proof fn lemma_counter_outputs(issued: nat, n: nat)
    requires
        issued + n <= usize::MAX,
    ensures
        counter_outputs(issued, n).len() == n,
        forall|i: int| 0 <= i < n ==> counter_outputs(issued, n)[i] == Ok::<usize, SequenceError>((issued + i) as usize),
    decreases n,
{
    if n > 0 {
        lemma_counter_outputs(issued + 1, (n - 1) as nat);
        let rest = counter_outputs(issued + 1, (n - 1) as nat);
        assert forall|i: int| 0 <= i < n implies counter_outputs(issued, n)[i] == Ok::<usize, SequenceError>((issued + i) as usize) by {
            if i > 0 {
                assert(counter_outputs(issued, n)[i] == rest[i - 1]);
            }
        }
    }
}

/// Uniqueness: no two of the first `n` advances of a fresh counter return the
/// same value.
pub proof fn lemma_counter_unique(n: nat)
    requires
        n <= usize::MAX,
    ensures
        forall|i: int, j: int|
            0 <= i < n && 0 <= j < n && i != j ==> counter_outputs(0, n)[i] != counter_outputs(0, n)[j],
{
    lemma_counter_outputs(0, n);
}

/// Contiguity: the first `n` advances of a fresh counter all succeed, and the
/// values they return are exactly `0, 1, ..., n - 1`.
pub proof fn lemma_counter_contiguous(n: nat)
    requires
        n <= usize::MAX,
    ensures
        forall|i: int| 0 <= i < n ==> counter_outputs(0, n)[i] is Ok,
        Set::new(|v: usize| exists|i: int| 0 <= i < n && counter_outputs(0, n)[i] == Ok::<usize, SequenceError>(v))
            == Set::new(|v: usize| v < n),
{
    lemma_counter_outputs(0, n);
    let got = Set::new(|v: usize| exists|i: int| 0 <= i < n && counter_outputs(0, n)[i] == Ok::<usize, SequenceError>(v));
    let want = Set::new(|v: usize| v < n);
    assert forall|v: usize| want.contains(v) implies got.contains(v) by {
        assert(counter_outputs(0, n)[v as int] == Ok::<usize, SequenceError>(v));
    }
    assert(got =~= want);
}

/// A fresh counter returns 0 on its first advance.
pub proof fn lemma_fresh_counter_first_value()
    ensures
        counter_outputs(0, 1) == seq![Ok::<usize, SequenceError>(0)],
{
    lemma_counter_outputs(0, 1);
    assert(counter_outputs(0, 1) =~= seq![Ok::<usize, SequenceError>(0)]);
}

/// What `n` successive advances return, on a scripted sequence whose
/// remaining values are `rest`.
pub open spec fn scripted_outputs(rest: Seq<usize>, n: nat) -> Seq<Result<usize, SequenceError>>
    decreases n,
{
    if n == 0 {
        Seq::empty()
    } else {
        seq![scripted_step(rest).0] + scripted_outputs(scripted_step(rest).1, (n - 1) as nat)
    }
}

/// A scripted sequence hands out its values once each, in list order, and
/// then fails with `Exhausted` on every further advance.
pub proof fn lemma_scripted_outputs(rest: Seq<usize>, n: nat)
    ensures
        scripted_outputs(rest, n).len() == n,
        forall|i: int| 0 <= i < n && i < rest.len() ==> scripted_outputs(rest, n)[i] == Ok::<usize, SequenceError>(rest[i]),
        forall|i: int| rest.len() <= i < n ==> scripted_outputs(rest, n)[i] == Err::<usize, SequenceError>(SequenceError::Exhausted),
    decreases n,
{
    if n > 0 {
        let (head, tail) = scripted_step(rest);
        lemma_scripted_outputs(tail, (n - 1) as nat);
        let out = scripted_outputs(rest, n);
        assert forall|i: int| 0 < i < n implies out[i] == scripted_outputs(tail, (n - 1) as nat)[i - 1] by {}
        if rest.len() > 0 {
            assert forall|i: int| 0 < i < rest.len() implies tail[i - 1] == rest[i] by {}
        }
    }
}

} // verus!
