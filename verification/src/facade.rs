//! What each operation of the emulator comes down to at a backend.
//!
//! Every function here is the statement of one operation: the trace of calls
//! that a backend with given capabilities is asked to make. Where a backend
//! lacks a capability, the trace falls back on what every backend has.

use vstd::prelude::*;
use crate::backend::{Capabilities, Synchronization};
use crate::gradual_move::GradualMove;
use crate::plan::{repeat_calls, BackendCall, Delivery, Operation, Trace};

verus! {

impl Capabilities {
    /// How motion is delivered where the caller asks for raw motion: raw
    /// where the backend has it, else by the ordinary call.
    pub open spec fn raw_delivery(self) -> Delivery {
        if self.raw_motion {
            Delivery::Raw
        } else {
            Delivery::Normal
        }
    }

    /// How a single operation is delivered where the caller asks for event
    /// records: buffered where the backend has batching, else by the
    /// ordinary call.
    pub open spec fn buffered_delivery(self) -> Delivery {
        if self.batching {
            Delivery::Buffered
        } else {
            Delivery::Normal
        }
    }

    /// How the steps of a gradual motion are delivered where the caller asks
    /// for event records: buffered where the backend has batching, else as
    /// raw motion is.
    pub open spec fn buffered_steps_delivery(self) -> Delivery {
        if self.batching {
            Delivery::Buffered
        } else {
            self.raw_delivery()
        }
    }

    /// The calls that synchronize the mouse.
    pub open spec fn mouse_synchronization(self) -> Trace {
        match self.synchronization {
            Synchronization::Unneeded => Seq::empty(),
            Synchronization::Combined => seq![BackendCall::Synchronize],
            Synchronization::Separate => seq![BackendCall::SynchronizeMouse],
        }
    }

    /// The calls that synchronize the keyboard.
    pub open spec fn keyboard_synchronization(self) -> Trace {
        match self.synchronization {
            Synchronization::Unneeded => Seq::empty(),
            Synchronization::Combined => seq![BackendCall::Synchronize],
            Synchronization::Separate => seq![BackendCall::SynchronizeKeyboard],
        }
    }

    /// The calls that follow a key or button transition.
    pub open spec fn after_transition(self) -> Trace {
        if self.keys_need_synchronization {
            self.mouse_synchronization() + self.keyboard_synchronization()
        } else {
            Seq::empty()
        }
    }
}

/// The trace of one operation with one delivery.
pub open spec fn single(operation: Operation, delivery: Delivery) -> Trace {
    seq![BackendCall::Perform(operation, delivery)]
}

/// The unit steps of a gradual motion of the pointer: the steps along both
/// axes, then those along X alone, then those along Y alone.
pub open spec fn pointer_steps(g: GradualMove, delivery: Delivery) -> Trace {
    repeat_calls(
        single(Operation::Move(g.x_direction, g.y_direction), delivery),
        g.both_move as int,
    ) + repeat_calls(single(Operation::MoveX(g.x_direction), delivery), g.move_only_x as int)
        + repeat_calls(single(Operation::MoveY(g.y_direction), delivery), g.move_only_y as int)
}

/// One round of the steps of a gradual scroll along both axes: a step of
/// the horizontal wheel, then one of the vertical wheel.
pub open spec fn scroll_round(g: GradualMove, delivery: Delivery) -> Trace {
    seq![
        BackendCall::Perform(Operation::ScrollX(g.x_direction), delivery),
        BackendCall::Perform(Operation::ScrollY(g.y_direction), delivery),
    ]
}

/// The unit steps of a gradual scroll, in the order of `pointer_steps`.
pub open spec fn scroll_steps(g: GradualMove, delivery: Delivery) -> Trace {
    repeat_calls(scroll_round(g, delivery), g.both_move as int) + repeat_calls(
        single(Operation::ScrollX(g.x_direction), delivery),
        g.move_only_x as int,
    ) + repeat_calls(single(Operation::ScrollY(g.y_direction), delivery), g.move_only_y as int)
}

/// What follows the steps of a gradual motion: one synchronization of the
/// mouse, unless the steps were only buffered.
pub open spec fn after_steps(caps: Capabilities, delivery: Delivery) -> Trace {
    if delivery is Buffered {
        Seq::empty()
    } else {
        caps.mouse_synchronization()
    }
}

/// The trace of a gradual motion of the pointer by `(x, y)`.
pub open spec fn gradual_move_trace(caps: Capabilities, x: int, y: int, delivery: Delivery) -> Trace {
    pointer_steps(GradualMove::decomposition(x, y), delivery) + after_steps(caps, delivery)
}

/// The trace of a gradual scroll by `(x, y)`.
pub open spec fn gradual_scroll_trace(
    caps: Capabilities,
    x: int,
    y: int,
    delivery: Delivery,
) -> Trace {
    scroll_steps(GradualMove::decomposition(x, y), delivery) + after_steps(caps, delivery)
}

/// The trace of a key or button transition that acts at once.
pub open spec fn transition_trace(caps: Capabilities, operation: Operation) -> Trace {
    single(operation, Delivery::Normal) + caps.after_transition()
}

/// The trace of a key or button transition where the caller asks for event
/// records: buffered where the backend has batching, else the transition
/// itself.
pub open spec fn buffered_transition_trace(caps: Capabilities, operation: Operation) -> Trace {
    if caps.batching {
        single(operation, Delivery::Buffered)
    } else {
        transition_trace(caps, operation)
    }
}

} // verus!
