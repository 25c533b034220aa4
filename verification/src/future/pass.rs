//! One polling pass over a row of tasks that may end the whole operation early.
use vstd::prelude::*;

verus! {

/// What polling one task gave.
#[derive(PartialEq, Eq, Structural, Clone, Copy, Debug)]
pub enum TaskPoll {
    /// The task has not finished yet.
    Pending,
    /// The task has finished, now or on an earlier pass.
    Done,
    /// The task has finished with a result that ends the whole operation.
    Stop,
}

/// Every poll in `polls` found its task finished.
pub open spec fn all_done(polls: Seq<TaskPoll>) -> bool {
    forall|i: int| 0 <= i < polls.len() ==> polls[i] == TaskPoll::Done
}

/// No poll in `polls` ended the operation.
pub open spec fn none_stopped(polls: Seq<TaskPoll>) -> bool {
    forall|i: int| 0 <= i < polls.len() ==> polls[i] != TaskPoll::Stop
}

/// A pass that polls every task once, in order, stopping at the first task whose result
/// ends the operation.
pub struct Pass {
    ready: bool,
    polls: Ghost<Seq<TaskPoll>>,
}

impl View for Pass {
    type V = Seq<TaskPoll>;

    closed spec fn view(&self) -> Seq<TaskPoll> {
        self.polls@
    }
}

impl Pass {
    /// The pass has seen the polls in its view, none of which ended the operation.
    pub closed spec fn wf(&self) -> bool {
        &&& self.ready == all_done(self.polls@)
        &&& none_stopped(self.polls@)
    }

    /// Starts a pass that has polled nothing.
    pub fn new() -> (p: Pass)
        ensures
            p.wf(),
            p@ == Seq::<TaskPoll>::empty(),
    {
        Pass { ready: true, polls: Ghost(Seq::empty()) }
    }

    /// Records what polling the next task gave; returns `true` exactly when that result
    /// ends the operation, in which case no further task is to be polled.
    pub fn record(&mut self, p: TaskPoll) -> (stop: bool)
        requires
            old(self).wf(),
        ensures
            stop == (p == TaskPoll::Stop),
            final(self)@ == old(self)@.push(p),
            !stop ==> final(self).wf(),
    {
        let ghost before = self.polls@;
        self.polls = Ghost(before.push(p));
        match p {
            TaskPoll::Stop => true,
            TaskPoll::Pending => {
                self.ready = false;
                assert(self.polls@[before.len() as int] == TaskPoll::Pending);
                assert forall|i: int| 0 <= i < self.polls@.len() implies self.polls@[i] != TaskPoll::Stop by {
                    if i < before.len() {
                        assert(self.polls@[i] == before[i]);
                    }
                }
                false
            },
            TaskPoll::Done => {
                assert forall|i: int| 0 <= i < self.polls@.len() implies self.polls@[i] != TaskPoll::Stop by {
                    if i < before.len() {
                        assert(self.polls@[i] == before[i]);
                    }
                }
                if self.ready {
                    assert forall|i: int| 0 <= i < self.polls@.len() implies self.polls@[i] == TaskPoll::Done by {
                        if i < before.len() {
                            assert(self.polls@[i] == before[i]);
                        }
                    }
                } else {
                    proof {
                        let k = choose|k: int| 0 <= k < before.len() && before[k] != TaskPoll::Done;
                        assert(self.polls@[k] == before[k]);
                    }
                }
                false
            },
        }
    }

    /// Whether every task polled in this pass has finished, so that the operation is
    /// complete.
    pub fn finished(&self) -> (b: bool)
        requires
            self.wf(),
        ensures
            b == all_done(self@),
    {
        self.ready
    }
}

} // verus!
