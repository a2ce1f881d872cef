//! Primitive backend calls and plans made of them.
//!
//! A plan is what an operation of the emulator comes down to at one backend:
//! the calls to make, in order. Runs of equal calls are kept as one phase
//! with a count, so that a plan stays small however long its trace is.

use vstd::prelude::*;
use crate::backend::{Capabilities, Synchronization};
use crate::native_keys::NativeInput;
use crate::OS_Input_Coord;

verus! {

/// One logical operation on the pointer, the wheel, a key or a button.
#[derive(PartialEq, Eq, Structural, Copy, Clone, Debug, Hash)]
pub enum Operation {
    Move(OS_Input_Coord, OS_Input_Coord),
    MoveX(OS_Input_Coord),
    MoveY(OS_Input_Coord),
    ScrollX(OS_Input_Coord),
    ScrollY(OS_Input_Coord),
    Press(NativeInput),
    Release(NativeInput),
}

/// How the backend is to carry an operation out.
#[derive(PartialEq, Eq, Structural, Copy, Clone, Debug, Hash)]
pub enum Delivery {
    /// By the backend's ordinary call.
    Normal,
    /// Without synchronization, which is asked for apart.
    Raw,
    /// Not at all: the backend hands back the event records that stand for
    /// the operation, to be written later.
    Buffered,
}

/// One call that a backend is asked to make.
#[derive(PartialEq, Eq, Structural, Copy, Clone, Debug, Hash)]
pub enum BackendCall {
    Perform(Operation, Delivery),
    /// Synchronize mouse and keyboard at once.
    Synchronize,
    SynchronizeMouse,
    SynchronizeKeyboard,
}

impl Operation {
    /// Whether this moves the pointer or turns the wheel.
    pub open spec fn is_motion(self) -> bool {
        !(self is Press) && !(self is Release)
    }

    /// The displacement of the pointer that this asks for.
    pub open spec fn pointer_delta(self) -> (int, int) {
        match self {
            Operation::Move(x, y) => (x as int, y as int),
            Operation::MoveX(x) => (x as int, 0),
            Operation::MoveY(y) => (0, y as int),
            _ => (0, 0),
        }
    }

    /// The turn of the two wheels that this asks for.
    pub open spec fn scroll_delta(self) -> (int, int) {
        match self {
            Operation::ScrollX(v) => (v as int, 0),
            Operation::ScrollY(v) => (0, v as int),
            _ => (0, 0),
        }
    }
}

impl BackendCall {
    /// Whether a backend with capabilities `caps` has this call.
    pub open spec fn supported_by(self, caps: Capabilities) -> bool {
        match self {
            BackendCall::Perform(_, Delivery::Normal) => true,
            BackendCall::Perform(operation, Delivery::Raw) => caps.raw_motion
                && operation.is_motion(),
            BackendCall::Perform(_, Delivery::Buffered) => caps.batching,
            BackendCall::Synchronize => caps.synchronization == Synchronization::Combined,
            BackendCall::SynchronizeMouse => caps.synchronization == Synchronization::Separate,
            BackendCall::SynchronizeKeyboard => caps.synchronization == Synchronization::Separate,
        }
    }

    /// Whether this call hands back event records instead of acting.
    pub open spec fn is_buffered(self) -> bool {
        self matches BackendCall::Perform(_, Delivery::Buffered)
    }

    /// The displacement of the pointer that this asks for.
    pub open spec fn pointer_delta(self) -> (int, int) {
        match self {
            BackendCall::Perform(operation, _) => operation.pointer_delta(),
            _ => (0, 0),
        }
    }

    /// The turn of the two wheels that this asks for.
    pub open spec fn scroll_delta(self) -> (int, int) {
        match self {
            BackendCall::Perform(operation, _) => operation.scroll_delta(),
            _ => (0, 0),
        }
    }
}

/// A sequence of calls.
pub type Trace = Seq<BackendCall>;

/// `times` rounds of `calls`, one after the other; none where `times` is not
/// positive.
pub open spec fn repeat_calls(calls: Trace, times: int) -> Trace
    decreases times,
{
    if times <= 0 {
        Seq::empty()
    } else {
        repeat_calls(calls, times - 1) + calls
    }
}

/// The sum over a trace of what `delta` gives for each call.
pub open spec fn sum_over(trace: Trace, delta: spec_fn(BackendCall) -> (int, int)) -> (int, int)
    decreases trace.len(),
{
    if trace.len() == 0 {
        (0, 0)
    } else {
        let rest = sum_over(trace.drop_last(), delta);
        let last = delta(trace.last());
        (rest.0 + last.0, rest.1 + last.1)
    }
}

/// The displacement of the pointer that a trace adds up to.
pub open spec fn pointer_displacement(trace: Trace) -> (int, int) {
    sum_over(trace, |call: BackendCall| call.pointer_delta())
}

/// The turn of the two wheels that a trace adds up to.
pub open spec fn scroll_displacement(trace: Trace) -> (int, int) {
    sum_over(trace, |call: BackendCall| call.scroll_delta())
}

/// The operations of a trace, in order, without how they are delivered and
/// without the synchronizations.
pub open spec fn operations(trace: Trace) -> Seq<Operation>
    decreases trace.len(),
{
    if trace.len() == 0 {
        Seq::empty()
    } else {
        match trace.last() {
            BackendCall::Perform(operation, _) => operations(trace.drop_last()).push(operation),
            _ => operations(trace.drop_last()),
        }
    }
}

/// Whether a backend with capabilities `caps` has every call of a trace.
pub open spec fn within(trace: Trace, caps: Capabilities) -> bool {
    forall|i: int| 0 <= i < trace.len() ==> (#[trigger] trace[i]).supported_by(caps)
}

/// Whether some call of a trace hands back event records.
pub open spec fn collects(trace: Trace) -> bool {
    exists|i: int| 0 <= i < trace.len() && (#[trigger] trace[i]).is_buffered()
}

/// A run of calls that is made a number of times over.
#[derive(PartialEq, Eq, Clone, Debug)]
pub struct Phase {
    /// The calls of one round.
    pub calls: Vec<BackendCall>,
    /// The number of rounds.
    pub times: OS_Input_Coord,
}

impl Phase {
    /// The calls of this phase written out.
    pub open spec fn trace(&self) -> Trace {
        repeat_calls(self.calls@, self.times as int)
    }
}

/// The calls of a sequence of phases written out.
pub open spec fn phases_trace(phases: Seq<Phase>) -> Trace
    decreases phases.len(),
{
    if phases.len() == 0 {
        Seq::empty()
    } else {
        phases_trace(phases.drop_last()) + phases.last().trace()
    }
}

/// The calls that an operation of the emulator comes down to, in phases.
#[derive(PartialEq, Eq, Clone, Debug)]
pub struct Plan {
    pub phases: Vec<Phase>,
}

impl View for Plan {
    type V = Trace;

    /// The calls of the plan written out, in the order in which they are
    /// to be made.
    open spec fn view(&self) -> Trace {
        phases_trace(self.phases@)
    }
}

impl Plan {
    /// A plan without calls.
    pub fn new() -> (r: Self)
        ensures
            r@ == Seq::<BackendCall>::empty(),
            r.phases@.len() == 0,
    {
        Plan { phases: Vec::new() }
    }

    /// Adds `times` rounds of `calls` at the end of the plan. Adds nothing
    /// where there are no rounds or no calls.
    pub fn repeat(&mut self, calls: Vec<BackendCall>, times: OS_Input_Coord)
        ensures
            final(self)@ == old(self)@ + repeat_calls(calls@, times as int),
            final(self).phases@.len() <= old(self).phases@.len() + 1,
    {
        if times > 0 && calls.len() > 0 {
            let ghost before = self.phases@;
            let phase = Phase { calls, times };
            self.phases.push(phase);
            proof {
                assert(self.phases@.drop_last() =~= before);
                assert(self.phases@.last() == phase);
            }
        } else {
            proof {
                lemma_repeat_nothing(calls@, times as int);
                assert(self@ + Seq::<BackendCall>::empty() =~= self@);
            }
        }
    }

    /// Adds one call at the end of the plan.
    pub fn call(&mut self, call: BackendCall)
        ensures
            final(self)@ == old(self)@.push(call),
            final(self).phases@.len() <= old(self).phases@.len() + 1,
    {
        let mut calls: Vec<BackendCall> = Vec::new();
        calls.push(call);
        proof {
            lemma_repeat_once(calls@);
            assert(calls@ =~= seq![call]);
            assert(old(self)@ + seq![call] =~= old(self)@.push(call));
        }
        self.repeat(calls, 1);
    }

    /// The calls of the plan written out, in the order in which they are to
    /// be made.
    pub fn expand(&self) -> (r: Vec<BackendCall>)
        ensures
            r@ == self@,
    {
        let mut out: Vec<BackendCall> = Vec::new();
        let mut i: usize = 0;
        assert(self.phases@.take(0) =~= Seq::<Phase>::empty());
        while i < self.phases.len()
            invariant
                0 <= i <= self.phases@.len(),
                out@ == phases_trace(self.phases@.take(i as int)),
            decreases self.phases@.len() - i,
        {
            let phase = &self.phases[i];
            let ghost done = out@;
            let mut round: OS_Input_Coord = 0;
            assert(out@ + repeat_calls(phase.calls@, 0) =~= out@);
            while round < phase.times && phase.calls.len() > 0
                invariant
                    0 <= round,
                    round <= phase.times || round == 0,
                    out@ == done + repeat_calls(phase.calls@, round as int),
                decreases phase.times - round,
            {
                let ghost rounds = out@;
                let mut j: usize = 0;
                assert(out@ + phase.calls@.take(0) =~= out@);
                while j < phase.calls.len()
                    invariant
                        0 <= j <= phase.calls@.len(),
                        out@ == rounds + phase.calls@.take(j as int),
                    decreases phase.calls@.len() - j,
                {
                    out.push(phase.calls[j]);
                    assert(phase.calls@.take(j + 1) =~= phase.calls@.take(j as int).push(
                        phase.calls@[j as int],
                    ));
                    assert(out@ =~= rounds + phase.calls@.take(j + 1));
                    j = j + 1;
                }
                assert(phase.calls@.take(j as int) =~= phase.calls@);
                assert(out@ =~= done + (repeat_calls(phase.calls@, round as int) + phase.calls@));
                round = round + 1;
            }
            proof {
                if phase.calls@.len() == 0 {
                    lemma_repeat_nothing(phase.calls@, round as int);
                    lemma_repeat_nothing(phase.calls@, phase.times as int);
                }
            }
            assert(repeat_calls(phase.calls@, round as int) == phase.trace());
            assert(self.phases@.take(i + 1).drop_last() =~= self.phases@.take(i as int));
            assert(self.phases@.take(i + 1).last() == *phase);
            i = i + 1;
        }
        assert(self.phases@.take(i as int) =~= self.phases@);
        out
    }
}

/// No rounds, or rounds of no calls, make no calls.
pub proof fn lemma_repeat_nothing(calls: Trace, times: int)
    requires
        times <= 0 || calls.len() == 0,
    ensures
        repeat_calls(calls, times) == Seq::<BackendCall>::empty(),
    decreases times,
{
    if times > 0 {
        lemma_repeat_nothing(calls, times - 1);
        assert(repeat_calls(calls, times - 1) + calls =~= Seq::<BackendCall>::empty());
    }
}

/// One round of calls is the calls themselves.
pub proof fn lemma_repeat_once(calls: Trace)
    ensures
        repeat_calls(calls, 1) == calls,
{
    assert(repeat_calls(calls, 0) == Seq::<BackendCall>::empty());
    assert(repeat_calls(calls, 1) == repeat_calls(calls, 0) + calls);
    assert(Seq::<BackendCall>::empty() + calls =~= calls);
}

} // verus!
