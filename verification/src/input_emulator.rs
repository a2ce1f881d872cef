//! The emulator: one set of operations for every backend.

use vstd::prelude::*;
use crate::backend::{Backend, Capabilities, Synchronization};
use crate::facade::{
    buffered_transition_trace, gradual_move_trace, gradual_scroll_trace, pointer_steps,
    scroll_round, scroll_steps, single, transition_trace,
};
use crate::gradual_move::GradualMove;
use crate::key_codes::KeyCode;
use crate::plan::{BackendCall, Delivery, Operation, Plan};
use crate::translation::{native_input, UnsupportedKey};
use crate::{EventParams, OS_Input_Coord};

verus! {

/// The single entry point for synthesizing input at one backend.
///
/// An emulator decides and does not act: each operation yields the plan of
/// calls that the backend is to make, in order. A caller that holds the
/// backend makes the calls, stops at the first that fails, and puts together
/// the event records that buffered calls hand back.
#[derive(PartialEq, Eq, Structural, Copy, Clone, Debug)]
pub struct InputEmulator {
    backend: Backend,
}

/// A vector of one call.
fn one(call: BackendCall) -> (r: Vec<BackendCall>)
    ensures
        r@ == seq![call],
{
    let mut calls: Vec<BackendCall> = Vec::new();
    calls.push(call);
    assert(calls@ =~= seq![call]);
    calls
}

/// The plan of one operation with one delivery.
fn single_plan(operation: Operation, delivery: Delivery) -> (r: Plan)
    ensures
        r@ == single(operation, delivery),
        r.phases@.len() <= 1,
{
    let mut plan = Plan::new();
    plan.call(BackendCall::Perform(operation, delivery));
    assert(plan@ =~= single(operation, delivery));
    plan
}

impl Capabilities {
    /// How motion is delivered where the caller asks for raw motion.
    pub fn delivery_of_raw(&self) -> (r: Delivery)
        ensures
            r == self.raw_delivery(),
    {
        if self.raw_motion {
            Delivery::Raw
        } else {
            Delivery::Normal
        }
    }

    /// How a single operation is delivered where the caller asks for event
    /// records.
    pub fn delivery_of_buffered(&self) -> (r: Delivery)
        ensures
            r == self.buffered_delivery(),
    {
        if self.batching {
            Delivery::Buffered
        } else {
            Delivery::Normal
        }
    }

    /// Adds the calls that synchronize the mouse.
    fn synchronize_mouse(&self, plan: &mut Plan)
        ensures
            final(plan)@ == old(plan)@ + self.mouse_synchronization(),
            final(plan).phases@.len() <= old(plan).phases@.len() + 1,
    {
        match self.synchronization {
            Synchronization::Unneeded => {
                assert(plan@ + Seq::<BackendCall>::empty() =~= plan@);
            },
            Synchronization::Combined => {
                plan.call(BackendCall::Synchronize);
                assert(old(plan)@.push(BackendCall::Synchronize) =~= old(plan)@
                    + seq![BackendCall::Synchronize]);
            },
            Synchronization::Separate => {
                plan.call(BackendCall::SynchronizeMouse);
                assert(old(plan)@.push(BackendCall::SynchronizeMouse) =~= old(plan)@
                    + seq![BackendCall::SynchronizeMouse]);
            },
        }
    }

    /// Adds the calls that synchronize the keyboard.
    fn synchronize_keyboard(&self, plan: &mut Plan)
        ensures
            final(plan)@ == old(plan)@ + self.keyboard_synchronization(),
            final(plan).phases@.len() <= old(plan).phases@.len() + 1,
    {
        match self.synchronization {
            Synchronization::Unneeded => {
                assert(plan@ + Seq::<BackendCall>::empty() =~= plan@);
            },
            Synchronization::Combined => {
                plan.call(BackendCall::Synchronize);
                assert(old(plan)@.push(BackendCall::Synchronize) =~= old(plan)@
                    + seq![BackendCall::Synchronize]);
            },
            Synchronization::Separate => {
                plan.call(BackendCall::SynchronizeKeyboard);
                assert(old(plan)@.push(BackendCall::SynchronizeKeyboard) =~= old(plan)@
                    + seq![BackendCall::SynchronizeKeyboard]);
            },
        }
    }

    /// The plan of a gradual motion of the pointer by `(x, y)`: the unit
    /// steps of its decomposition, then one synchronization of the mouse
    /// unless the steps are buffered.
    pub fn plan_gradual_move(
        &self,
        x: OS_Input_Coord,
        y: OS_Input_Coord,
        delivery: Delivery,
    ) -> (r: Plan)
        ensures
            r@ == gradual_move_trace(*self, x as int, y as int, delivery),
            r.phases@.len() <= 4,
    {
        let g = GradualMove::calculate(x, y);
        let mut plan = Plan::new();
        plan.repeat(
            one(BackendCall::Perform(Operation::Move(g.x_direction, g.y_direction), delivery)),
            g.both_move,
        );
        plan.repeat(
            one(BackendCall::Perform(Operation::MoveX(g.x_direction), delivery)),
            g.move_only_x,
        );
        plan.repeat(
            one(BackendCall::Perform(Operation::MoveY(g.y_direction), delivery)),
            g.move_only_y,
        );
        assert(plan@ =~= pointer_steps(g, delivery));
        match delivery {
            Delivery::Buffered => {
                assert(plan@ + Seq::<BackendCall>::empty() =~= plan@);
            },
            _ => {
                self.synchronize_mouse(&mut plan);
            },
        }
        plan
    }

    /// The plan of a gradual scroll by `(x, y)`: the unit steps of its
    /// decomposition, then one synchronization of the mouse unless the steps
    /// are buffered.
    pub fn plan_gradual_scroll(
        &self,
        x: OS_Input_Coord,
        y: OS_Input_Coord,
        delivery: Delivery,
    ) -> (r: Plan)
        ensures
            r@ == gradual_scroll_trace(*self, x as int, y as int, delivery),
            r.phases@.len() <= 4,
    {
        let g = GradualMove::calculate(x, y);
        let mut plan = Plan::new();
        let mut round: Vec<BackendCall> = Vec::new();
        round.push(BackendCall::Perform(Operation::ScrollX(g.x_direction), delivery));
        round.push(BackendCall::Perform(Operation::ScrollY(g.y_direction), delivery));
        assert(round@ =~= scroll_round(g, delivery));
        plan.repeat(round, g.both_move);
        plan.repeat(
            one(BackendCall::Perform(Operation::ScrollX(g.x_direction), delivery)),
            g.move_only_x,
        );
        plan.repeat(
            one(BackendCall::Perform(Operation::ScrollY(g.y_direction), delivery)),
            g.move_only_y,
        );
        assert(plan@ =~= scroll_steps(g, delivery));
        match delivery {
            Delivery::Buffered => {
                assert(plan@ + Seq::<BackendCall>::empty() =~= plan@);
            },
            _ => {
                self.synchronize_mouse(&mut plan);
            },
        }
        plan
    }

    /// The plan of a key or button transition that acts at once: the
    /// transition, then the synchronizations where the backend needs them.
    pub fn plan_transition(&self, operation: Operation) -> (r: Plan)
        ensures
            r@ == transition_trace(*self, operation),
            r.phases@.len() <= 3,
    {
        let mut plan = single_plan(operation, Delivery::Normal);
        if self.keys_need_synchronization {
            self.synchronize_mouse(&mut plan);
            self.synchronize_keyboard(&mut plan);
            assert(plan@ =~= single(operation, Delivery::Normal) + (self.mouse_synchronization()
                + self.keyboard_synchronization()));
        } else {
            assert(plan@ + Seq::<BackendCall>::empty() =~= plan@);
        }
        plan
    }

    /// The plan of a key or button transition where the caller asks for
    /// event records.
    pub fn plan_buffered_transition(&self, operation: Operation) -> (r: Plan)
        ensures
            r@ == buffered_transition_trace(*self, operation),
            r.phases@.len() <= 3,
    {
        if self.batching {
            single_plan(operation, Delivery::Buffered)
        } else {
            self.plan_transition(operation)
        }
    }
}

impl InputEmulator {
    /// An emulator for `backend`.
    pub fn new(backend: Backend) -> (r: Self)
        ensures
            r.backend() == backend,
    {
        InputEmulator { backend }
    }

    /// The backend that this emulator plans for.
    pub closed spec fn backend(&self) -> Backend {
        self.backend
    }

    /// The backend that this emulator plans for.
    pub fn selected_backend(&self) -> (r: Backend)
        ensures
            r == self.backend(),
    {
        self.backend
    }

    /// What the backend of this emulator is able to do.
    pub open spec fn caps(&self) -> Capabilities {
        self.backend().spec_capabilities()
    }

    /// Brings pending mouse state to the operating system: nothing where
    /// the backend needs no synchronization.
    pub fn finish_operation_mouse(&self) -> (r: Plan)
        ensures
            r@ == self.caps().mouse_synchronization(),
            r.phases@.len() <= 1,
    {
        let mut plan = Plan::new();
        self.backend.capabilities().synchronize_mouse(&mut plan);
        assert(Seq::<BackendCall>::empty() + self.caps().mouse_synchronization()
            =~= self.caps().mouse_synchronization());
        plan
    }

    /// Brings pending keyboard state to the operating system: nothing where
    /// the backend needs no synchronization.
    pub fn finish_operation_keyboard(&self) -> (r: Plan)
        ensures
            r@ == self.caps().keyboard_synchronization(),
            r.phases@.len() <= 1,
    {
        let mut plan = Plan::new();
        self.backend.capabilities().synchronize_keyboard(&mut plan);
        assert(Seq::<BackendCall>::empty() + self.caps().keyboard_synchronization()
            =~= self.caps().keyboard_synchronization());
        plan
    }

    /// The batch that the backend is to write: `buffer` as it is where the
    /// backend has batching, and none where it has not.
    pub fn write_buffer(&self, buffer: Vec<EventParams>) -> (r: Option<Vec<EventParams>>)
        ensures
            r is Some <==> self.caps().batching,
            r is Some ==> r->Some_0 == buffer,
    {
        if self.backend.capabilities().batching {
            Some(buffer)
        } else {
            None
        }
    }

    /// Moves the pointer by `x` along X.
    pub fn move_mouse_x(&self, x: OS_Input_Coord) -> (r: Plan)
        ensures
            r@ == single(Operation::MoveX(x), Delivery::Normal),
            r.phases@.len() <= 1,
    {
        single_plan(Operation::MoveX(x), Delivery::Normal)
    }

    /// Moves the pointer by `y` along Y.
    pub fn move_mouse_y(&self, y: OS_Input_Coord) -> (r: Plan)
        ensures
            r@ == single(Operation::MoveY(y), Delivery::Normal),
            r.phases@.len() <= 1,
    {
        single_plan(Operation::MoveY(y), Delivery::Normal)
    }

    /// Moves the pointer by `(x, y)`.
    pub fn move_mouse(&self, x: OS_Input_Coord, y: OS_Input_Coord) -> (r: Plan)
        ensures
            r@ == single(Operation::Move(x, y), Delivery::Normal),
            r.phases@.len() <= 1,
    {
        single_plan(Operation::Move(x, y), Delivery::Normal)
    }

    /// Turns the horizontal wheel by `value`.
    pub fn scroll_x(&self, value: OS_Input_Coord) -> (r: Plan)
        ensures
            r@ == single(Operation::ScrollX(value), Delivery::Normal),
            r.phases@.len() <= 1,
    {
        single_plan(Operation::ScrollX(value), Delivery::Normal)
    }

    /// Turns the vertical wheel by `value`.
    pub fn scroll_y(&self, value: OS_Input_Coord) -> (r: Plan)
        ensures
            r@ == single(Operation::ScrollY(value), Delivery::Normal),
            r.phases@.len() <= 1,
    {
        single_plan(Operation::ScrollY(value), Delivery::Normal)
    }

    /// Moves the pointer by `x` along X without synchronization; where the
    /// backend has no raw motion, by the ordinary call.
    pub fn move_mouse_raw_x(&self, x: OS_Input_Coord) -> (r: Plan)
        ensures
            r@ == single(Operation::MoveX(x), self.caps().raw_delivery()),
            r.phases@.len() <= 1,
    {
        single_plan(Operation::MoveX(x), self.backend.capabilities().delivery_of_raw())
    }

    /// Moves the pointer by `y` along Y without synchronization; where the
    /// backend has no raw motion, by the ordinary call.
    pub fn move_mouse_raw_y(&self, y: OS_Input_Coord) -> (r: Plan)
        ensures
            r@ == single(Operation::MoveY(y), self.caps().raw_delivery()),
            r.phases@.len() <= 1,
    {
        single_plan(Operation::MoveY(y), self.backend.capabilities().delivery_of_raw())
    }

    /// Moves the pointer by `(x, y)` without synchronization; where the
    /// backend has no raw motion, by the ordinary call.
    pub fn move_mouse_raw(&self, x: OS_Input_Coord, y: OS_Input_Coord) -> (r: Plan)
        ensures
            r@ == single(Operation::Move(x, y), self.caps().raw_delivery()),
            r.phases@.len() <= 1,
    {
        single_plan(Operation::Move(x, y), self.backend.capabilities().delivery_of_raw())
    }

    /// Turns the horizontal wheel by `value` without synchronization; where
    /// the backend has no raw motion, by the ordinary call.
    pub fn scroll_raw_x(&self, value: OS_Input_Coord) -> (r: Plan)
        ensures
            r@ == single(Operation::ScrollX(value), self.caps().raw_delivery()),
            r.phases@.len() <= 1,
    {
        single_plan(Operation::ScrollX(value), self.backend.capabilities().delivery_of_raw())
    }

    /// Turns the vertical wheel by `value` without synchronization; where
    /// the backend has no raw motion, by the ordinary call.
    pub fn scroll_raw_y(&self, value: OS_Input_Coord) -> (r: Plan)
        ensures
            r@ == single(Operation::ScrollY(value), self.caps().raw_delivery()),
            r.phases@.len() <= 1,
    {
        single_plan(Operation::ScrollY(value), self.backend.capabilities().delivery_of_raw())
    }

    /// The event records of a move by `x` along X; where the backend has no
    /// batching, the move itself.
    pub fn buffered_move_mouse_x(&self, x: OS_Input_Coord) -> (r: Plan)
        ensures
            r@ == single(Operation::MoveX(x), self.caps().buffered_delivery()),
            r.phases@.len() <= 1,
    {
        single_plan(Operation::MoveX(x), self.backend.capabilities().delivery_of_buffered())
    }

    /// The event records of a move by `y` along Y; where the backend has no
    /// batching, the move itself.
    pub fn buffered_move_mouse_y(&self, y: OS_Input_Coord) -> (r: Plan)
        ensures
            r@ == single(Operation::MoveY(y), self.caps().buffered_delivery()),
            r.phases@.len() <= 1,
    {
        single_plan(Operation::MoveY(y), self.backend.capabilities().delivery_of_buffered())
    }

    /// The event records of a move by `(x, y)`; where the backend has no
    /// batching, the move itself.
    pub fn buffered_move_mouse(&self, x: OS_Input_Coord, y: OS_Input_Coord) -> (r: Plan)
        ensures
            r@ == single(Operation::Move(x, y), self.caps().buffered_delivery()),
            r.phases@.len() <= 1,
    {
        single_plan(Operation::Move(x, y), self.backend.capabilities().delivery_of_buffered())
    }

    /// The event records of a turn of the horizontal wheel; where the
    /// backend has no batching, the turn itself.
    pub fn buffered_scroll_x(&self, x: OS_Input_Coord) -> (r: Plan)
        ensures
            r@ == single(Operation::ScrollX(x), self.caps().buffered_delivery()),
            r.phases@.len() <= 1,
    {
        single_plan(Operation::ScrollX(x), self.backend.capabilities().delivery_of_buffered())
    }

    /// The event records of a turn of the vertical wheel; where the backend
    /// has no batching, the turn itself.
    pub fn buffered_scroll_y(&self, y: OS_Input_Coord) -> (r: Plan)
        ensures
            r@ == single(Operation::ScrollY(y), self.caps().buffered_delivery()),
            r.phases@.len() <= 1,
    {
        single_plan(Operation::ScrollY(y), self.backend.capabilities().delivery_of_buffered())
    }

    /// Moves the pointer by `(x, y)` in unit steps, raw where the backend
    /// has raw motion, and synchronizes the mouse once at the end.
    pub fn gradual_move_mouse_raw(&self, x: OS_Input_Coord, y: OS_Input_Coord) -> (r: Plan)
        ensures
            r@ == gradual_move_trace(self.caps(), x as int, y as int, self.caps().raw_delivery()),
            r.phases@.len() <= 4,
    {
        let caps = self.backend.capabilities();
        caps.plan_gradual_move(x, y, caps.delivery_of_raw())
    }

    /// Moves the pointer by `(x, y)` in unit steps, as
    /// `gradual_move_mouse_raw` does.
    pub fn gradual_move_mouse(&self, x: OS_Input_Coord, y: OS_Input_Coord) -> (r: Plan)
        ensures
            r@ == gradual_move_trace(self.caps(), x as int, y as int, self.caps().raw_delivery()),
            r.phases@.len() <= 4,
    {
        self.gradual_move_mouse_raw(x, y)
    }

    /// The event records of a gradual move by `(x, y)`; where the backend
    /// has no batching, the gradual move itself.
    pub fn buffered_gradual_move_mouse(&self, x: OS_Input_Coord, y: OS_Input_Coord) -> (r: Plan)
        ensures
            r@ == gradual_move_trace(
                self.caps(),
                x as int,
                y as int,
                self.caps().buffered_steps_delivery(),
            ),
            r.phases@.len() <= 4,
    {
        let caps = self.backend.capabilities();
        if caps.batching {
            caps.plan_gradual_move(x, y, Delivery::Buffered)
        } else {
            caps.plan_gradual_move(x, y, caps.delivery_of_raw())
        }
    }

    /// Scrolls by `(x, y)` in unit steps, raw where the backend has raw
    /// motion, and synchronizes the mouse once at the end.
    pub fn gradual_scroll_raw(&self, x: OS_Input_Coord, y: OS_Input_Coord) -> (r: Plan)
        ensures
            r@ == gradual_scroll_trace(
                self.caps(),
                x as int,
                y as int,
                self.caps().raw_delivery(),
            ),
            r.phases@.len() <= 4,
    {
        let caps = self.backend.capabilities();
        caps.plan_gradual_scroll(x, y, caps.delivery_of_raw())
    }

    /// Scrolls by `(x, y)` in unit steps, as `gradual_scroll_raw` does.
    pub fn gradual_scroll(&self, x: OS_Input_Coord, y: OS_Input_Coord) -> (r: Plan)
        ensures
            r@ == gradual_scroll_trace(
                self.caps(),
                x as int,
                y as int,
                self.caps().raw_delivery(),
            ),
            r.phases@.len() <= 4,
    {
        self.gradual_scroll_raw(x, y)
    }

    /// The event records of a gradual scroll by `(x, y)`; where the backend
    /// has no batching, the gradual scroll itself.
    pub fn buffered_gradual_scroll(&self, x: OS_Input_Coord, y: OS_Input_Coord) -> (r: Plan)
        ensures
            r@ == gradual_scroll_trace(
                self.caps(),
                x as int,
                y as int,
                self.caps().buffered_steps_delivery(),
            ),
            r.phases@.len() <= 4,
    {
        let caps = self.backend.capabilities();
        if caps.batching {
            caps.plan_gradual_scroll(x, y, Delivery::Buffered)
        } else {
            caps.plan_gradual_scroll(x, y, caps.delivery_of_raw())
        }
    }

    /// Presses `key_code`. Fails, and plans nothing, exactly where the
    /// backend has neither a button nor a key for it.
    pub fn press(&self, key_code: KeyCode) -> (r: Result<Plan, UnsupportedKey>)
        ensures
            r is Ok <==> native_input(key_code, self.backend()) is Some,
            r is Ok ==> r->Ok_0@ == transition_trace(
                self.caps(),
                Operation::Press(native_input(key_code, self.backend())->Some_0),
            ),
            r is Err ==> r->Err_0 == (UnsupportedKey { key: key_code, backend: self.backend() }),
            r is Ok ==> r->Ok_0.phases@.len() <= 3,
    {
        match key_code.target(self.backend) {
            Ok(input) => Ok(self.backend.capabilities().plan_transition(Operation::Press(input))),
            Err(e) => Err(e),
        }
    }

    /// Releases `key_code`. Fails, and plans nothing, exactly where the
    /// backend has neither a button nor a key for it.
    pub fn release(&self, key_code: KeyCode) -> (r: Result<Plan, UnsupportedKey>)
        ensures
            r is Ok <==> native_input(key_code, self.backend()) is Some,
            r is Ok ==> r->Ok_0@ == transition_trace(
                self.caps(),
                Operation::Release(native_input(key_code, self.backend())->Some_0),
            ),
            r is Err ==> r->Err_0 == (UnsupportedKey { key: key_code, backend: self.backend() }),
            r is Ok ==> r->Ok_0.phases@.len() <= 3,
    {
        match key_code.target(self.backend) {
            Ok(input) => Ok(
                self.backend.capabilities().plan_transition(Operation::Release(input)),
            ),
            Err(e) => Err(e),
        }
    }

    /// The event records of a press of `key_code`; where the backend has no
    /// batching, the press itself. Fails as `press` does.
    pub fn buffered_press(&self, key_code: KeyCode) -> (r: Result<Plan, UnsupportedKey>)
        ensures
            r is Ok <==> native_input(key_code, self.backend()) is Some,
            r is Ok ==> r->Ok_0@ == buffered_transition_trace(
                self.caps(),
                Operation::Press(native_input(key_code, self.backend())->Some_0),
            ),
            r is Err ==> r->Err_0 == (UnsupportedKey { key: key_code, backend: self.backend() }),
            r is Ok ==> r->Ok_0.phases@.len() <= 3,
    {
        match key_code.target(self.backend) {
            Ok(input) => Ok(
                self.backend.capabilities().plan_buffered_transition(Operation::Press(input)),
            ),
            Err(e) => Err(e),
        }
    }

    /// The event records of a release of `key_code`; where the backend has
    /// no batching, the release itself. Fails as `release` does.
    pub fn buffered_release(&self, key_code: KeyCode) -> (r: Result<Plan, UnsupportedKey>)
        ensures
            r is Ok <==> native_input(key_code, self.backend()) is Some,
            r is Ok ==> r->Ok_0@ == buffered_transition_trace(
                self.caps(),
                Operation::Release(native_input(key_code, self.backend())->Some_0),
            ),
            r is Err ==> r->Err_0 == (UnsupportedKey { key: key_code, backend: self.backend() }),
            r is Ok ==> r->Ok_0.phases@.len() <= 3,
    {
        match key_code.target(self.backend) {
            Ok(input) => Ok(
                self.backend.capabilities().plan_buffered_transition(Operation::Release(input)),
            ),
            Err(e) => Err(e),
        }
    }
}

} // verus!
