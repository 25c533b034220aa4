//! Taking every `step`-th item of a bulk.
use vstd::prelude::*;

use crate::bulk::Bulk;
use crate::util::reversed;

verus! {

/// `s` holds the items of `t` at indices `0, step, 2 * step, ...`.
pub open spec fn stepped<T>(t: Seq<T>, step: nat, s: Seq<T>) -> bool {
    &&& s.len() == (t.len() + step - 1) / step as int
    &&& forall|i: int| 0 <= i < s.len() ==> #[trigger] s[i] == t[i * step]
}

/// A bulk that yields the first item of `bulk` and then every `step`-th item after it.
pub struct StepBy<B> {
    bulk: B,
    step: usize,
}

impl<B> View for StepBy<B> {
    type V = (B, usize);

    closed spec fn view(&self) -> (B, usize) {
        (self.bulk, self.step)
    }
}

impl<B: Bulk> StepBy<B> {
    pub(crate) fn new(bulk: B, step: usize) -> (r: Self)
        requires
            step > 0,
        ensures
            r@ == (bulk, step),
    {
        StepBy { bulk, step }
    }
}

/// How the number of stepped items grows when one more item is considered.
proof fn lemma_step_count(i: int, step: int)
    requires
        step > 0,
        0 <= i,
    ensures
        i % step == 0 ==> (i + step - 1) / step == i / step && (i / step) * step == i && ((i + 1)
            + step - 1) / step == i / step + 1,
        i % step != 0 ==> ((i + 1) + step - 1) / step == (i + step - 1) / step,
{
    assert(i % step == 0 ==> (i + step - 1) / step == i / step && (i / step) * step == i && ((i
        + 1) + step - 1) / step == i / step + 1) by (nonlinear_arith)
        requires
            step > 0,
            0 <= i,
    ;
    assert(i % step != 0 ==> ((i + 1) + step - 1) / step == (i + step - 1) / step) by (nonlinear_arith)
        requires
            step > 0,
            0 <= i,
    ;
}

impl<B: Bulk> Bulk for StepBy<B> {
    type Item = B::Item;

    open spec fn wf(&self) -> bool {
        self@.0.wf() && self@.1 > 0
    }

    open spec fn spec_len(&self) -> nat {
        ((self@.0.spec_len() + self@.1 - 1) / self@.1 as int) as nat
    }

    open spec fn yields(&self, s: Seq<B::Item>) -> bool {
        exists|t: Seq<B::Item>| #[trigger] self@.0.yields(t) && stepped(t, self@.1 as nat, s)
    }

    proof fn lemma_yields_len(&self, s: Seq<B::Item>) {
        let t = choose|t: Seq<B::Item>| #[trigger] self@.0.yields(t) && stepped(t, self@.1 as nat, s);
        self@.0.lemma_yields_len(t);
    }

    fn len(&self) -> (n: usize) {
        assert(self@.0 == self.bulk && self@.1 == self.step);
        let len = self.bulk.len();
        let q = len / self.step;
        if len % self.step == 0 {
            proof {
                assert((len + self.step - 1) / self.step as int == q) by (nonlinear_arith)
                    requires self.step > 0, len % self.step == 0, q == len / self.step;
            }
            q
        } else {
            proof {
                assert((len + self.step - 1) / self.step as int == q + 1) by (nonlinear_arith)
                    requires self.step > 0, len % self.step != 0, q == len / self.step;
                assert(q < len) by (nonlinear_arith)
                    requires self.step > 0, len % self.step != 0, q == len / self.step;
            }
            q + 1
        }
    }

    fn collect_vec(self) -> (v: Vec<B::Item>) {
        let ghost b = self;
        assert(b@.0 == self.bulk && b@.1 == self.step);
        let StepBy { bulk, step } = self;
        let t = bulk.collect_vec();
        let ghost ts = t@;
        let v = step_items(t, step);
        assert(b@.0.yields(ts));
        assert(b.yields(v@));
        v
    }

    /// Walks `bulk` backwards; its closures run in that order.
    fn collect_rev_vec(self) -> (v: Vec<B::Item>) {
        let ghost b = self;
        assert(b@.0 == self.bulk && b@.1 == self.step);
        let StepBy { bulk, step } = self;
        let tr = bulk.collect_rev_vec();
        let t = reversed(tr);
        let ghost ts = t@;
        let w = step_items(t, step);
        assert(b@.0.yields(ts));
        assert(b.yields(w@));
        let r = reversed(w);
        assert(r@.reverse() =~= w@);
        r
    }
}

/// Keeps every `step`-th item of `t`, starting with the first.
fn step_items<T>(t: Vec<T>, step: usize) -> (v: Vec<T>)
    requires
        step > 0,
    ensures
        stepped(t@, step as nat, v@),
{
    let ghost ts = t@;
    let n = t.len();
    let mut rest = reversed(t);
    let mut v: Vec<T> = Vec::new();
    let mut i: usize = 0;
    assert((0 + step - 1) / (step as int) == 0) by (nonlinear_arith)
        requires
            step > 0,
    ;
    while rest.len() > 0
        invariant
            step > 0,
            ts.len() == n,
            i + rest@.len() == n,
            forall|j: int| 0 <= j < rest@.len() ==> rest@[j] == ts[ts.len() - 1 - j],
            v@.len() == (i + step - 1) / (step as int),
            forall|j: int| 0 <= j < v@.len() ==> #[trigger] v@[j] == ts[j * step],
        decreases rest.len(),
    {
        let x = rest.pop().unwrap();
        assert(x == ts[i as int]);
        proof {
            lemma_step_count(i as int, step as int);
        }
        if i % step == 0 {
            v.push(x);
        }
        i = i + 1;
    }
    v
}

} // verus!
