//! Walking through a plan call by call.
//!
//! A cursor is a place in a plan. The caller that drives a backend asks for
//! the next call, makes it, and asks again; where a call fails it stops
//! asking. No call is written out before its turn.

use vstd::prelude::*;
use crate::plan::{lemma_repeat_nothing, phases_trace, repeat_calls, BackendCall, Phase, Plan, Trace};
use crate::OS_Input_Coord;

verus! {

/// A place in a plan: a phase, a round of it, and a call of its round.
#[derive(Copy, Clone, Debug)]
pub struct Cursor {
    phase: usize,
    round: OS_Input_Coord,
    index: usize,
}

/// What is left of a phase from the call `index` of its round `round` on.
pub open spec fn rest_of_phase(phase: Phase, round: int, index: int) -> Trace {
    if round < phase.times {
        phase.calls@.skip(index) + repeat_calls(phase.calls@, phase.times - round - 1)
    } else {
        Seq::empty()
    }
}

impl Cursor {
    /// Whether this is a place in `plan`.
    pub closed spec fn within(&self, plan: &Plan) -> bool {
        &&& self.phase <= plan.phases@.len()
        &&& self.round >= 0
        &&& self.phase < plan.phases@.len() ==> self.index <= plan.phases@[self.phase as int].calls@.len()
    }

    /// The calls of `plan` that are still to be made, in order.
    pub closed spec fn rest(&self, plan: &Plan) -> Trace {
        if self.phase < plan.phases@.len() {
            rest_of_phase(plan.phases@[self.phase as int], self.round as int, self.index as int)
                + phases_trace(plan.phases@.skip(self.phase + 1))
        } else {
            Seq::empty()
        }
    }

    /// Moves on to the next call that there is, over rounds that are done
    /// and phases that hold nothing, and leaves what is still to be made as
    /// it is.
    fn settle(&mut self, plan: &Plan)
        ensures
            old(self).within(plan) ==> final(self).within(plan) && final(self).rest(plan) == old(
                self,
            ).rest(plan),
            final(self).phase < plan.phases@.len() ==> {
                &&& final(self).round < plan.phases@[final(self).phase as int].times
                &&& final(self).index < plan.phases@[final(self).phase as int].calls@.len()
            },
            final(self).phase >= plan.phases@.len() ==> final(self).rest(plan).len() == 0,
    {
        while self.phase < plan.phases.len() && (plan.phases[self.phase].calls.len() == 0
            || self.round >= plan.phases[self.phase].times || self.index
            >= plan.phases[self.phase].calls.len())
            invariant
                old(self).within(plan) ==> self.within(plan) && self.rest(plan) == old(self).rest(
                    plan,
                ),
            decreases
                    plan.phases@.len() - self.phase,
                    if self.phase < plan.phases@.len() {
                        plan.phases@[self.phase as int].times - self.round
                    } else {
                        0
                    },
        {
            let phase = &plan.phases[self.phase];
            let ghost before = *self;
            if phase.calls.len() == 0 || self.round >= phase.times {
                proof {
                    if self.within(plan) && self.round < phase.times {
                        lemma_repeat_nothing(phase.calls@, phase.times - self.round - 1);
                        assert(phase.calls@.skip(self.index as int) =~= Seq::<BackendCall>::empty());
                    }
                    assert(self.within(plan) ==> rest_of_phase(
                        *phase,
                        self.round as int,
                        self.index as int,
                    ) =~= Seq::<BackendCall>::empty());
                    lemma_rest_from_next_phase(plan.phases@, self.phase as int);
                }
                self.phase = self.phase + 1;
                self.round = 0;
                self.index = 0;
                assert(before.within(plan) ==> self.rest(plan) =~= before.rest(plan));
            } else {
                proof {
                    if self.within(plan) {
                        assert(phase.calls@.skip(self.index as int)
                            =~= Seq::<BackendCall>::empty());
                    }
                    if self.round + 1 < phase.times {
                        lemma_repeat_front(phase.calls@, phase.times - self.round - 1);
                        assert(phase.calls@.skip(0) =~= phase.calls@);
                    }
                }
                self.round = self.round + 1;
                self.index = 0;
                assert(before.within(plan) ==> rest_of_phase(*phase, self.round as int, 0)
                    =~= rest_of_phase(*phase, before.round as int, before.index as int));
            }
        }
    }
}

impl Plan {
    /// The place before the first call of the plan.
    pub fn start(&self) -> (r: Cursor)
        ensures
            r.within(self),
            r.rest(self) == self@,
    {
        let cursor = Cursor { phase: 0, round: 0, index: 0 };
        proof {
            if self.phases@.len() > 0 {
                lemma_rest_from_next_phase(self.phases@, -1);
                assert(self.phases@.skip(0) =~= self.phases@);
            }
        }
        cursor
    }

    /// The next call of the plan, and none where every call was handed
    /// out. The cursor moves past the call that is handed out. What is said
    /// here holds of a cursor of this plan: one that `start` of this plan
    /// gave, however far it has moved since.
    pub fn next(&self, cursor: &mut Cursor) -> (r: Option<BackendCall>)
        ensures
            old(cursor).within(self) ==> {
                &&& final(cursor).within(self)
                &&& r is None <==> old(cursor).rest(self).len() == 0
                &&& r is None ==> final(cursor).rest(self) == old(cursor).rest(self)
                &&& r is Some ==> old(cursor).rest(self) == seq![r->Some_0] + final(cursor).rest(
                    self,
                )
            },
    {
        cursor.settle(self);
        if cursor.phase >= self.phases.len() {
            None
        } else {
            let phase = &self.phases[cursor.phase];
            let call = phase.calls[cursor.index];
            let ghost settled = *cursor;
            assert(cursor.index < phase.calls.len());
            cursor.index = cursor.index + 1;
            proof {
                assert(phase.calls@.skip(settled.index as int) =~= seq![call] + phase.calls@.skip(
                    settled.index + 1,
                ));
                assert(old(cursor).within(self) ==> settled.rest(self) =~= seq![call] + cursor.rest(
                    self,
                ));
            }
            Some(call)
        }
    }
}

/// Rounds of calls are one round and then the rounds that are left.
pub proof fn lemma_repeat_front(calls: Trace, times: int)
    requires
        times > 0,
    ensures
        repeat_calls(calls, times) == calls + repeat_calls(calls, times - 1),
    decreases times,
{
    if times == 1 {
        assert(repeat_calls(calls, 0) == Seq::<BackendCall>::empty());
        assert(repeat_calls(calls, 0) + calls =~= calls + repeat_calls(calls, 0));
    } else {
        lemma_repeat_front(calls, times - 1);
        assert((calls + repeat_calls(calls, times - 2)) + calls =~= calls + (repeat_calls(
            calls,
            times - 2,
        ) + calls));
    }
}

/// The calls of phases are those of the first phase and then those of the
/// phases after it.
pub proof fn lemma_phases_front(phases: Seq<Phase>)
    requires
        phases.len() > 0,
    ensures
        phases_trace(phases) == phases[0].trace() + phases_trace(phases.skip(1)),
    decreases phases.len(),
{
    if phases.len() == 1 {
        assert(phases.drop_last() =~= Seq::<Phase>::empty());
        assert(phases.skip(1) =~= Seq::<Phase>::empty());
        assert(phases_trace(phases.drop_last()) == Seq::<BackendCall>::empty());
        assert(phases_trace(phases) =~= phases[0].trace() + phases_trace(phases.skip(1)));
    } else {
        lemma_phases_front(phases.drop_last());
        assert(phases.skip(1).drop_last() =~= phases.drop_last().skip(1));
        assert(phases.skip(1).last() == phases.last());
        assert(phases.drop_last()[0] == phases[0]);
        assert(phases_trace(phases) =~= phases[0].trace() + phases_trace(phases.skip(1)));
    }
}

/// What is left after phase `at` is the whole of the phase after it and
/// what is left after that one.
proof fn lemma_rest_from_next_phase(phases: Seq<Phase>, at: int)
    requires
        -1 <= at < phases.len(),
    ensures
        at + 1 < phases.len() ==> phases_trace(phases.skip(at + 1)) == rest_of_phase(
            phases[at + 1],
            0,
            0,
        ) + phases_trace(phases.skip(at + 2)),
        at + 1 >= phases.len() ==> phases_trace(phases.skip(at + 1)) == Seq::<BackendCall>::empty(),
{
    let tail = phases.skip(at + 1);
    if at + 1 < phases.len() {
        lemma_phases_front(tail);
        assert(tail.skip(1) =~= phases.skip(at + 2));
        let phase = phases[at + 1];
        assert(tail[0] == phase);
        if phase.times > 0 {
            lemma_repeat_front(phase.calls@, phase.times as int);
            assert(phase.calls@.skip(0) =~= phase.calls@);
        }
    } else {
        assert(tail =~= Seq::<Phase>::empty());
    }
}

} // verus!
