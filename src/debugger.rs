use vstd::prelude::*;

verus! {

/// A debugger session: it creates targets, gives access to them and
/// manages the overall debugging experience.
///
/// `R` is the native reference type; a wrapper owns the release of its
/// reference and is neither `Clone` nor `Copy`.
pub struct SBDebugger<R> {
    /// The underlying native reference.
    pub raw_debugger: R,
}

/// What one advance of a target enumeration does, from cursor `next`
/// (`ended` once the enumeration has finished), when the native side
/// reports the parent valid or not (`valid`) and `count` targets now:
/// the new cursor, whether the enumeration has ended, and the index of
/// the target yielded, if any.
pub open spec fn step(next: nat, ended: bool, valid: bool, count: nat) -> (nat, bool, Option<nat>) {
    if !ended && valid && next < count {
        (next + 1, false, Some(next))
    } else {
        (next, true, None)
    }
}

/// The indices yielded by successive advances from cursor `next`
/// (`ended` as in `step`), when the native side answers each advance with
/// the validity and count in `answers`, in turn.
pub open spec fn drain(next: nat, ended: bool, answers: Seq<(bool, nat)>) -> Seq<Option<nat>>
    decreases answers.len(),
{
    if answers.len() == 0 {
        Seq::empty()
    } else {
        let (n, e, y) = step(next, ended, answers[0].0, answers[0].1);
        seq![y] + drain(n, e, answers.drop_first())
    }
}

/// The index of `r` as a natural number.
pub open spec fn index_of(r: Option<u32>) -> Option<nat> {
    match r {
        Some(i) => Some(i as nat),
        None => None,
    }
}

impl<R> SBDebugger<R> {
    /// A lazy enumeration of the targets known to this debugger, starting
    /// at index 0. Nothing is copied: each advance asks the native side
    /// again.
    pub fn targets(&self) -> (r: DebuggerTargetIter<'_, R>)
        ensures
            r.parent() == *self,
            r.position() == 0,
            !r.has_ended(),
    {
        DebuggerTargetIter { debugger: self, idx: 0, ended: false }
    }
}

/// A forward-only, single-pass enumeration of a debugger's targets.
///
/// It borrows its debugger, so it cannot outlive it. It holds no copy of
/// the collection, only a cursor; a fresh enumeration needs a fresh call
/// of `SBDebugger::targets`.
pub struct DebuggerTargetIter<'d, R> {
    debugger: &'d SBDebugger<R>,
    idx: usize,
    ended: bool,
}

impl<'d, R> DebuggerTargetIter<'d, R> {
    /// The debugger being enumerated.
    pub closed spec fn parent(&self) -> SBDebugger<R> {
        *self.debugger
    }

    /// The index of the next target to yield.
    pub closed spec fn position(&self) -> nat {
        self.idx as nat
    }

    /// Whether the enumeration has finished.
    pub closed spec fn has_ended(&self) -> bool {
        self.ended
    }

    /// The debugger being enumerated.
    pub fn debugger(&self) -> (r: &'d SBDebugger<R>)
        ensures
            *r == self.parent(),
    {
        self.debugger
    }

    /// Advances the enumeration, given whether the native side reports the
    /// debugger valid (`parent_valid`) and how many targets it has now
    /// (`count`). Gives the index of the target to fetch and moves past it,
    /// or ends the enumeration: at the end of the collection, when the
    /// debugger is invalid, and on every advance after that.
    pub fn advance(&mut self, parent_valid: bool, count: u32) -> (r: Option<u32>)
        ensures
            final(self).parent() == old(self).parent(),
            (final(self).position(), final(self).has_ended(), index_of(r)) == step(
                old(self).position(),
                old(self).has_ended(),
                parent_valid,
                count as nat,
            ),
    {
        if !self.ended && parent_valid && self.idx < count as usize {
            let i = self.idx as u32;
            self.idx = self.idx + 1;
            Some(i)
        } else {
            self.ended = true;
            None
        }
    }
}

/// From cursor `next`, while the native side reports the debugger valid
/// with `n` targets at every advance, the enumeration yields `next`,
/// `next + 1`, ..., `n - 1` and then nothing, unless it has already ended.
proof fn lemma_drain_steady(next: nat, ended: bool, n: nat, answers: Seq<(bool, nat)>)
    requires
        forall|i: int| 0 <= i < answers.len() ==> answers[i] == (true, n),
    ensures
        drain(next, ended, answers).len() == answers.len(),
        forall|i: int|
            0 <= i < answers.len() ==> drain(next, ended, answers)[i] == (if !ended && next + i
                < n {
                Some((next + i) as nat)
            } else {
                None
            }),
    decreases answers.len(),
{
    if answers.len() > 0 {
        let tail = answers.drop_first();
        assert forall|i: int| 0 <= i < tail.len() implies tail[i] == (true, n) by {
            assert(tail[i] == answers[i + 1]);
        }
        let (n1, e1, y) = step(next, ended, true, n);
        lemma_drain_steady(n1, e1, n, tail);
        let d = drain(next, ended, answers);
        assert(d == seq![y] + drain(n1, e1, tail));
        assert forall|i: int| 0 <= i < answers.len() implies d[i] == (if !ended && next + i < n {
            Some((next + i) as nat)
        } else {
            None
        }) by {
            if i > 0 {
                assert(d[i] == drain(n1, e1, tail)[i - 1]);
            }
        }
    }
}

/// Live size: when the native side reports the debugger valid with `n`
/// targets at every advance, an enumeration fresh from
/// `SBDebugger::targets` yields exactly the indices 0, 1, ..., n - 1, in
/// that order, and then ends for good.
pub proof fn lemma_live_size<R>(it: DebuggerTargetIter<'_, R>, n: nat, answers: Seq<(bool, nat)>)
    requires
        it.position() == 0,
        !it.has_ended(),
        forall|i: int| 0 <= i < answers.len() ==> answers[i] == (true, n),
    ensures
        drain(it.position(), it.has_ended(), answers).len() == answers.len(),
        forall|i: int|
            0 <= i < answers.len() ==> drain(it.position(), it.has_ended(), answers)[i] == (if i
                < n {
                Some(i as nat)
            } else {
                None
            }),
{
    lemma_drain_steady(0, false, n, answers);
}

/// Re-entry: two enumerations fresh from `SBDebugger::targets` on the same
/// debugger, each drained to its end while the native side reports it
/// valid with the same `n` targets, yield the same `n` indices in the same
/// order, and nothing after them.
pub proof fn lemma_reentry<R>(
    a: DebuggerTargetIter<'_, R>,
    b: DebuggerTargetIter<'_, R>,
    n: nat,
    first: Seq<(bool, nat)>,
    second: Seq<(bool, nat)>,
)
    requires
        a.parent() == b.parent(),
        a.position() == 0,
        !a.has_ended(),
        b.position() == 0,
        !b.has_ended(),
        forall|i: int| 0 <= i < first.len() ==> first[i] == (true, n),
        forall|i: int| 0 <= i < second.len() ==> second[i] == (true, n),
        first.len() > n,
        second.len() > n,
    ensures
        drain(a.position(), a.has_ended(), first).take(n as int + 1) == drain(
            b.position(),
            b.has_ended(),
            second,
        ).take(n as int + 1),
        forall|i: int| 0 <= i < n ==> drain(a.position(), a.has_ended(), first)[i] is Some,
        forall|i: int|
            n <= i < first.len() ==> drain(a.position(), a.has_ended(), first)[i] is None,
        forall|i: int|
            n <= i < second.len() ==> drain(b.position(), b.has_ended(), second)[i] is None,
{
    lemma_drain_steady(0, false, n, first);
    lemma_drain_steady(0, false, n, second);
    let x = drain(0, false, first).take(n as int + 1);
    let y = drain(0, false, second).take(n as int + 1);
    assert(x =~= y);
}

} // verus!
