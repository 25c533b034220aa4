//! Pairing up finished tasks of a reduction that runs many combinations at once.
use vstd::prelude::*;

verus! {

/// `r` holds the items of `v` in consecutive pairs; an odd last item stands alone.
pub open spec fn paired<T>(v: Seq<T>, r: Seq<(T, Option<T>)>) -> bool {
    &&& r.len() == (v.len() + 1) / 2
    &&& forall|k: int|
        0 <= k < r.len() ==> (#[trigger] r[k]).0 == v[2 * k] && if 2 * k + 1 < v.len() {
            r[k].1 == Some(v[2 * k + 1])
        } else {
            r[k].1 is None
        }
}

/// Splits the items of `v` into consecutive pairs, the first with the second, the third
/// with the fourth, and so on; an odd last item stands alone.
pub fn pair_up<T>(v: Vec<T>) -> (r: Vec<(T, Option<T>)>)
    ensures
        paired(v@, r@),
{
    let ghost s = v@;
    let n = v.len();
    let mut rest = crate::util::reversed(v);
    let mut r: Vec<(T, Option<T>)> = Vec::new();
    while rest.len() > 0
        invariant
            s.len() == n,
            2 * r@.len() + rest@.len() == n || (rest@.len() == 0 && 2 * r@.len() == n + 1),
            forall|j: int| 0 <= j < rest@.len() ==> rest@[j] == s[s.len() - 1 - j],
            forall|k: int|
                0 <= k < r@.len() ==> (#[trigger] r@[k]).0 == s[2 * k] && if 2 * k + 1 < s.len() {
                    r@[k].1 == Some(s[2 * k + 1])
                } else {
                    r@[k].1 is None
                },
        decreases rest.len(),
    {
        let k = r.len();
        let lhs = rest.pop().unwrap();
        assert(lhs == s[2 * k as int]);
        let rhs = rest.pop();
        proof {
            if rhs is Some {
                assert(rhs->0 == s[2 * k + 1]);
            }
        }
        r.push((lhs, rhs));
    }
    r
}

/// What a reduction asks of whoever runs its tasks.
#[derive(PartialEq, Eq, Structural, Clone, Copy, Debug)]
pub enum ReduceAction {
    /// Poll the task in this slot, then report with `on_poll`.
    Poll(usize),
    /// Take the values of both slots and start combining them as a new task in the second
    /// slot; the first slot is left empty. Then ask `next`.
    Combine(usize, usize),
    /// Every task has finished: the result is the value in this slot, or there is none.
    Finish(Option<usize>),
    /// Some task is still running: poll again later.
    Wait,
}

/// One pass of a reduction over its slots. A slot is live while it holds a running task
/// or a value that has not been combined yet; finished values are paired up as they are
/// found, and the pass finishes once a single value is left.
pub struct ReduceScan {
    live: Vec<bool>,
    i: usize,
    held: Option<usize>,
    ready: bool,
}

impl View for ReduceScan {
    type V = (Seq<bool>, int, Option<usize>, bool);

    closed spec fn view(&self) -> (Seq<bool>, int, Option<usize>, bool) {
        (self.live@, self.i as int, self.held, self.ready)
    }
}

impl ReduceScan {
    /// The slots before the cursor have been polled; the held slot, if any, is one of them,
    /// live and finished; and if no task polled so far was still running, the held slot
    /// is the only live one before the cursor.
    pub closed spec fn wf(&self) -> bool {
        &&& self.i <= self.live@.len()
        &&& self.held matches Some(j) ==> j < self.i && self.live@[j as int]
        &&& self.ready ==> forall|k: int| 0 <= k < self.i && self.live@[k] ==> self.held == Some(k as usize)
    }

    /// Which slots are live.
    pub closed spec fn live(&self) -> Seq<bool> {
        self.live@
    }

    /// Starts a pass over slots that are live as `live` says; `ready` says whether every
    /// task started since the last pass finished at once.
    pub fn new(live: Vec<bool>, ready: bool) -> (r: ReduceScan)
        ensures
            r.wf(),
            r.live() == live@,
            r@.1 == 0,
            r@.2 is None,
            r@.3 == ready,
    {
        ReduceScan { live, i: 0, held: None, ready }
    }

    /// Moves past the slots that are empty and says what to do next: poll the next live
    /// slot, or, when every slot has been seen, finish or wait.
    pub fn next(&mut self) -> (a: ReduceAction)
        requires
            old(self).wf(),
        ensures
            final(self).wf(),
            final(self).live() == old(self).live(),
            final(self)@.2 == old(self)@.2,
            final(self)@.3 == old(self)@.3,
            old(self)@.1 <= final(self)@.1,
            forall|k: int| old(self)@.1 <= k < final(self)@.1 ==> !old(self).live()[k],
            match a {
                ReduceAction::Poll(i) => i == final(self)@.1 && i < final(self).live().len() && final(self).live()[i as int],
                ReduceAction::Finish(h) => {
                    &&& final(self)@.1 == final(self).live().len()
                    &&& final(self)@.3
                    &&& h == final(self)@.2
                    &&& forall|k: int|
                        0 <= k < final(self).live().len() && final(self).live()[k] ==> h == Some(k as usize)
                },
                ReduceAction::Wait => final(self)@.1 == final(self).live().len() && !final(self)@.3,
                ReduceAction::Combine(_, _) => false,
            },
    {
        let len = self.live.len();
        while self.i < len && !self.live[self.i]
            invariant
                len == self.live@.len(),
                self.wf(),
                self.live@ == old(self).live@,
                self.held == old(self).held,
                self.ready == old(self).ready,
                old(self).i <= self.i,
                forall|k: int| old(self).i <= k < self.i ==> !old(self).live@[k],
            decreases len - self.i,
        {
            self.i = self.i + 1;
        }
        if self.i < len {
            ReduceAction::Poll(self.i)
        } else if self.ready {
            ReduceAction::Finish(self.held)
        } else {
            ReduceAction::Wait
        }
    }

    /// Records what polling the slot at the cursor gave: `true` when its task has finished.
    /// A finished value is held until a second one is found, and then the two are to be
    /// combined; otherwise the pass goes on to the next slot.
    pub fn on_poll(&mut self, finished: bool) -> (a: ReduceAction)
        requires
            old(self).wf(),
            old(self)@.1 < old(self).live().len(),
            old(self).live()[old(self)@.1],
        ensures
            final(self).wf(),
            match (finished, old(self)@.2) {
                (true, Some(j)) => {
                    &&& a == ReduceAction::Combine(j, old(self)@.1 as usize)
                    &&& final(self).live() == old(self).live().update(j as int, false)
                    &&& final(self)@.1 == old(self)@.1
                    &&& final(self)@.2 is None
                },
                _ => {
                    &&& final(self).live() == old(self).live()
                    &&& old(self)@.1 < final(self)@.1
                    &&& forall|k: int| old(self)@.1 < k < final(self)@.1 ==> !old(self).live()[k]
                    &&& final(self)@.2 == if finished { Some(old(self)@.1 as usize) } else { old(self)@.2 }
                    &&& final(self)@.3 == (old(self)@.3 && finished)
                    &&& match a {
                        ReduceAction::Poll(i) => i == final(self)@.1 && i < final(self).live().len()
                            && final(self).live()[i as int],
                        ReduceAction::Finish(h) => {
                            &&& final(self)@.1 == final(self).live().len()
                            &&& final(self)@.3
                            &&& h == final(self)@.2
                            &&& forall|k: int|
                                0 <= k < final(self).live().len() && final(self).live()[k] ==> h == Some(
                                    k as usize,
                                )
                        },
                        ReduceAction::Wait => final(self)@.1 == final(self).live().len() && !final(self)@.3,
                        ReduceAction::Combine(_, _) => false,
                    }
                },
            },
    {
        let i = self.i;
        assert(i < self.live.len());
        if finished {
            match self.held {
                Some(j) => {
                    self.live.set(j, false);
                    self.held = None;
                    ReduceAction::Combine(j, i)
                },
                None => {
                    self.held = Some(i);
                    self.i = i + 1;
                    self.next()
                },
            }
        } else {
            self.ready = false;
            self.i = i + 1;
            self.next()
        }
    }
}

/// Combines the outputs of two finished tasks of a fallible reduction: both values when
/// neither is an error, and otherwise the error of the first slot, or failing that of the
/// second. An error ends the whole reduction.
pub fn combine_results<T, E>(lhs: Result<T, E>, rhs: Result<T, E>) -> (r: Result<(T, T), E>)
    ensures
        match (lhs, rhs) {
            (Ok(a), Ok(b)) => r == Ok::<(T, T), E>((a, b)),
            (Err(e), _) => r == Err::<(T, T), E>(e),
            (Ok(_), Err(e)) => r == Err::<(T, T), E>(e),
        },
{
    match lhs {
        Err(e) => Err(e),
        Ok(a) => match rhs {
            Err(e) => Err(e),
            Ok(b) => Ok((a, b)),
        },
    }
}

/// The result of a fallible reduction that has finished, from the output left in its last
/// live slot, if any: no output means no items, and an error output is the error.
pub fn finish_result<T, E>(last: Option<Result<T, E>>) -> (r: Result<Option<T>, E>)
    ensures
        match last {
            None => r == Ok::<Option<T>, E>(None),
            Some(Ok(v)) => r == Ok::<Option<T>, E>(Some(v)),
            Some(Err(e)) => r == Err::<Option<T>, E>(e),
        },
{
    match last {
        None => Ok(None),
        Some(Ok(v)) => Ok(Some(v)),
        Some(Err(e)) => Err(e),
    }
}

} // verus!
