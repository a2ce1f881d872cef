//! What holds of the traces of the emulator at every backend.

use vstd::prelude::*;
use crate::backend::Capabilities;
use crate::facade::{
    after_steps, buffered_transition_trace, gradual_move_trace, gradual_scroll_trace,
    pointer_steps, scroll_round, scroll_steps, single, transition_trace,
};
use crate::gradual_move::{magnitude, sign, GradualMove};
use crate::plan::{
    collects, operations, pointer_displacement, repeat_calls, scroll_displacement, sum_over,
    within, BackendCall, Delivery, Operation, Trace,
};

verus! {

/// Whether a backend with capabilities `caps` can deliver motion in the way
/// `delivery`.
pub open spec fn offers(caps: Capabilities, delivery: Delivery) -> bool {
    match delivery {
        Delivery::Normal => true,
        Delivery::Raw => caps.raw_motion,
        Delivery::Buffered => caps.batching,
    }
}

/// Whether every call of a trace hands back event records, so that nothing
/// is acted out.
pub open spec fn only_collects(trace: Trace) -> bool {
    forall|i: int| 0 <= i < trace.len() ==> (#[trigger] trace[i]).is_buffered()
}

/// Rounds of calls keep what holds of every call of one round.
pub proof fn lemma_repeat_keeps(calls: Trace, times: int, holds: spec_fn(BackendCall) -> bool)
    requires
        forall|i: int| 0 <= i < calls.len() ==> holds(#[trigger] calls[i]),
    ensures
        forall|i: int|
            0 <= i < repeat_calls(calls, times).len() ==> holds(
                #[trigger] repeat_calls(calls, times)[i],
            ),
    decreases times,
{
    if times > 0 {
        lemma_repeat_keeps(calls, times - 1, holds);
        let before = repeat_calls(calls, times - 1);
        let all = repeat_calls(calls, times);
        assert(all == before + calls);
        assert forall|i: int| 0 <= i < all.len() implies holds(#[trigger] all[i]) by {
            if i < before.len() {
                assert(all[i] == before[i]);
            } else {
                assert(all[i] == calls[i - before.len()]);
            }
        }
    }
}

/// The sum over two traces, one after the other, is the sum of their sums.
pub proof fn lemma_sum_concat(a: Trace, b: Trace, delta: spec_fn(BackendCall) -> (int, int))
    ensures
        sum_over(a + b, delta) == (
            sum_over(a, delta).0 + sum_over(b, delta).0,
            sum_over(a, delta).1 + sum_over(b, delta).1,
        ),
    decreases b.len(),
{
    if b.len() == 0 {
        assert(a + b =~= a);
    } else {
        assert((a + b).drop_last() =~= a + b.drop_last());
        assert((a + b).last() == b.last());
        lemma_sum_concat(a, b.drop_last(), delta);
    }
}

/// The sum over a trace of one call is what the call gives.
pub proof fn lemma_sum_single(call: BackendCall, delta: spec_fn(BackendCall) -> (int, int))
    ensures
        sum_over(seq![call], delta) == delta(call),
{
    let t = seq![call];
    assert(t.drop_last() =~= Seq::<BackendCall>::empty());
    assert(sum_over(t.drop_last(), delta) == (0int, 0int));
    assert(t.last() == call);
}

/// The sum over rounds of calls is the number of rounds times the sum over
/// one round.
pub proof fn lemma_sum_repeat(calls: Trace, times: int, delta: spec_fn(BackendCall) -> (int, int))
    requires
        times >= 0,
    ensures
        sum_over(repeat_calls(calls, times), delta) == (
            times * sum_over(calls, delta).0,
            times * sum_over(calls, delta).1,
        ),
    decreases times,
{
    let s = sum_over(calls, delta);
    if times > 0 {
        lemma_sum_repeat(calls, times - 1, delta);
        lemma_sum_concat(repeat_calls(calls, times - 1), calls, delta);
        assert(times * s.0 == (times - 1) * s.0 + s.0) by (nonlinear_arith);
        assert(times * s.1 == (times - 1) * s.1 + s.1) by (nonlinear_arith);
    } else {
        assert(times * s.0 == 0 && times * s.1 == 0) by (nonlinear_arith)
            requires
                times == 0,
        ;
    }
}

/// The operations of two traces, one after the other, are the operations of
/// the first and then those of the second.
pub proof fn lemma_operations_concat(a: Trace, b: Trace)
    ensures
        operations(a + b) == operations(a) + operations(b),
    decreases b.len(),
{
    if b.len() == 0 {
        assert(a + b =~= a);
        assert(operations(a) + operations(b) =~= operations(a));
    } else {
        assert((a + b).drop_last() =~= a + b.drop_last());
        assert((a + b).last() == b.last());
        lemma_operations_concat(a, b.drop_last());
        assert(operations(a + b) =~= operations(a) + operations(b));
    }
}

/// Rounds of calls with the same operations have the same operations.
pub proof fn lemma_operations_repeat(a: Trace, b: Trace, times: int)
    requires
        operations(a) == operations(b),
    ensures
        operations(repeat_calls(a, times)) == operations(repeat_calls(b, times)),
    decreases times,
{
    if times > 0 {
        lemma_operations_repeat(a, b, times - 1);
        lemma_operations_concat(repeat_calls(a, times - 1), a);
        lemma_operations_concat(repeat_calls(b, times - 1), b);
    }
}

/// The operations of one performed call are the operation itself, however
/// it is delivered.
pub proof fn lemma_operations_single(operation: Operation, delivery: Delivery)
    ensures
        operations(single(operation, delivery)) == seq![operation],
{
    let t = single(operation, delivery);
    assert(t.drop_last() =~= Seq::<BackendCall>::empty());
    assert(operations(t.drop_last()) == Seq::<Operation>::empty());
    assert(t.last() == BackendCall::Perform(operation, delivery));
    assert(operations(t) =~= seq![operation]);
}

/// A synchronization holds no operation.
pub proof fn lemma_operations_of_synchronization(caps: Capabilities)
    ensures
        operations(caps.mouse_synchronization()) == Seq::<Operation>::empty(),
        operations(caps.keyboard_synchronization()) == Seq::<Operation>::empty(),
{
    let m = caps.mouse_synchronization();
    let k = caps.keyboard_synchronization();
    if m.len() > 0 {
        assert(m.drop_last() =~= Seq::<BackendCall>::empty());
        assert(operations(m.drop_last()) == Seq::<Operation>::empty());
    }
    if k.len() > 0 {
        assert(k.drop_last() =~= Seq::<BackendCall>::empty());
        assert(operations(k.drop_last()) == Seq::<Operation>::empty());
    }
}

/// A synchronization moves nothing.
pub proof fn lemma_synchronization_moves_nothing(
    caps: Capabilities,
    delta: spec_fn(BackendCall) -> (int, int),
)
    requires
        delta(BackendCall::Synchronize) == (0int, 0int),
        delta(BackendCall::SynchronizeMouse) == (0int, 0int),
        delta(BackendCall::SynchronizeKeyboard) == (0int, 0int),
    ensures
        sum_over(caps.mouse_synchronization(), delta) == (0int, 0int),
        sum_over(caps.keyboard_synchronization(), delta) == (0int, 0int),
{
    let m = caps.mouse_synchronization();
    let k = caps.keyboard_synchronization();
    if m.len() > 0 {
        lemma_sum_single(m[0], delta);
        assert(m =~= seq![m[0]]);
    }
    if k.len() > 0 {
        lemma_sum_single(k[0], delta);
        assert(k =~= seq![k[0]]);
    }
}

/// The emulator asks a backend for nothing that the backend lacks: a
/// gradual motion or scroll, delivered in a way that the backend offers,
/// holds only calls that the backend has.
pub proof fn law_gradual_traces_stay_within_capabilities(
    caps: Capabilities,
    x: i32,
    y: i32,
    delivery: Delivery,
)
    requires
        offers(caps, delivery),
    ensures
        within(gradual_move_trace(caps, x as int, y as int, delivery), caps),
        within(gradual_scroll_trace(caps, x as int, y as int, delivery), caps),
        offers(caps, caps.raw_delivery()),
        offers(caps, caps.buffered_steps_delivery()),
{
    let g = GradualMove::decomposition(x as int, y as int);
    let holds = |call: BackendCall| call.supported_by(caps);
    lemma_repeat_keeps(
        single(Operation::Move(g.x_direction, g.y_direction), delivery),
        g.both_move as int,
        holds,
    );
    lemma_repeat_keeps(single(Operation::MoveX(g.x_direction), delivery), g.move_only_x as int, holds);
    lemma_repeat_keeps(single(Operation::MoveY(g.y_direction), delivery), g.move_only_y as int, holds);
    lemma_repeat_keeps(scroll_round(g, delivery), g.both_move as int, holds);
    lemma_repeat_keeps(
        single(Operation::ScrollX(g.x_direction), delivery),
        g.move_only_x as int,
        holds,
    );
    lemma_repeat_keeps(
        single(Operation::ScrollY(g.y_direction), delivery),
        g.move_only_y as int,
        holds,
    );
}

/// A single operation, however the caller asks for it, and a key or button
/// transition hold only calls that the backend has.
pub proof fn law_single_traces_stay_within_capabilities(caps: Capabilities, operation: Operation)
    ensures
        within(single(operation, Delivery::Normal), caps),
        operation.is_motion() ==> within(single(operation, caps.raw_delivery()), caps),
        within(single(operation, caps.buffered_delivery()), caps),
        within(transition_trace(caps, operation), caps),
        within(buffered_transition_trace(caps, operation), caps),
        within(caps.mouse_synchronization(), caps),
        within(caps.keyboard_synchronization(), caps),
{
}

/// A gradual motion of the pointer adds up to the displacement that was
/// asked for, at every backend and however its steps are delivered, and
/// turns no wheel.
pub proof fn law_gradual_move_reaches_displacement(
    caps: Capabilities,
    x: i32,
    y: i32,
    delivery: Delivery,
)
    requires
        x > i32::MIN,
        y > i32::MIN,
    ensures
        pointer_displacement(gradual_move_trace(caps, x as int, y as int, delivery)) == (
            x as int,
            y as int,
        ),
        scroll_displacement(gradual_move_trace(caps, x as int, y as int, delivery)) == (
            0int,
            0int,
        ),
{
    let g = GradualMove::decomposition(x as int, y as int);
    let xd = g.x_direction;
    let yd = g.y_direction;
    let both = single(Operation::Move(xd, yd), delivery);
    let only_x = single(Operation::MoveX(xd), delivery);
    let only_y = single(Operation::MoveY(yd), delivery);
    let a = repeat_calls(both, g.both_move as int);
    let b = repeat_calls(only_x, g.move_only_x as int);
    let c = repeat_calls(only_y, g.move_only_y as int);
    let tail = after_steps(caps, delivery);
    let p = |call: BackendCall| call.pointer_delta();
    let s = |call: BackendCall| call.scroll_delta();
    lemma_sum_single(both[0], p);
    lemma_sum_single(only_x[0], p);
    lemma_sum_single(only_y[0], p);
    lemma_sum_repeat(both, g.both_move as int, p);
    lemma_sum_repeat(only_x, g.move_only_x as int, p);
    lemma_sum_repeat(only_y, g.move_only_y as int, p);
    lemma_sum_concat(a, b, p);
    lemma_sum_concat(a + b, c, p);
    lemma_synchronization_moves_nothing(caps, p);
    lemma_sum_concat(a + b + c, tail, p);
    lemma_sum_single(both[0], s);
    lemma_sum_single(only_x[0], s);
    lemma_sum_single(only_y[0], s);
    lemma_sum_repeat(both, g.both_move as int, s);
    lemma_sum_repeat(only_x, g.move_only_x as int, s);
    lemma_sum_repeat(only_y, g.move_only_y as int, s);
    lemma_sum_concat(a, b, s);
    lemma_sum_concat(a + b, c, s);
    lemma_synchronization_moves_nothing(caps, s);
    lemma_sum_concat(a + b + c, tail, s);
    lemma_steps_add_up(x, y);
    let nb = g.both_move as int;
    let nx = g.move_only_x as int;
    let ny = g.move_only_y as int;
    assert(nb * 0 == 0 && nx * 0 == 0 && ny * 0 == 0) by (nonlinear_arith);
}

/// A gradual scroll adds up to the turn of the wheels that was asked for,
/// at every backend and however its steps are delivered, and moves no
/// pointer.
pub proof fn law_gradual_scroll_reaches_displacement(
    caps: Capabilities,
    x: i32,
    y: i32,
    delivery: Delivery,
)
    requires
        x > i32::MIN,
        y > i32::MIN,
    ensures
        scroll_displacement(gradual_scroll_trace(caps, x as int, y as int, delivery)) == (
            x as int,
            y as int,
        ),
        pointer_displacement(gradual_scroll_trace(caps, x as int, y as int, delivery)) == (
            0int,
            0int,
        ),
{
    let g = GradualMove::decomposition(x as int, y as int);
    let xd = g.x_direction;
    let yd = g.y_direction;
    let both = scroll_round(g, delivery);
    let only_x = single(Operation::ScrollX(xd), delivery);
    let only_y = single(Operation::ScrollY(yd), delivery);
    let a = repeat_calls(both, g.both_move as int);
    let b = repeat_calls(only_x, g.move_only_x as int);
    let c = repeat_calls(only_y, g.move_only_y as int);
    let tail = after_steps(caps, delivery);
    let p = |call: BackendCall| call.pointer_delta();
    let s = |call: BackendCall| call.scroll_delta();
    assert(both =~= only_x + only_y);
    lemma_sum_single(only_x[0], s);
    lemma_sum_single(only_y[0], s);
    lemma_sum_concat(only_x, only_y, s);
    lemma_sum_repeat(both, g.both_move as int, s);
    lemma_sum_repeat(only_x, g.move_only_x as int, s);
    lemma_sum_repeat(only_y, g.move_only_y as int, s);
    lemma_sum_concat(a, b, s);
    lemma_sum_concat(a + b, c, s);
    lemma_synchronization_moves_nothing(caps, s);
    lemma_sum_concat(a + b + c, tail, s);
    lemma_sum_single(only_x[0], p);
    lemma_sum_single(only_y[0], p);
    lemma_sum_concat(only_x, only_y, p);
    lemma_sum_repeat(both, g.both_move as int, p);
    lemma_sum_repeat(only_x, g.move_only_x as int, p);
    lemma_sum_repeat(only_y, g.move_only_y as int, p);
    lemma_sum_concat(a, b, p);
    lemma_sum_concat(a + b, c, p);
    lemma_synchronization_moves_nothing(caps, p);
    lemma_sum_concat(a + b + c, tail, p);
    lemma_steps_add_up(x, y);
    let nb = g.both_move as int;
    let nx = g.move_only_x as int;
    let ny = g.move_only_y as int;
    assert(nb * 0 == 0 && nx * 0 == 0 && ny * 0 == 0) by (nonlinear_arith);
}

/// The counts of a decomposition, each times its direction, add up to the
/// displacement along each axis.
proof fn lemma_steps_add_up(x: i32, y: i32)
    requires
        x > i32::MIN,
        y > i32::MIN,
    ensures
        ({
            let g = GradualMove::decomposition(x as int, y as int);
            &&& g.both_move as int * g.x_direction as int + g.move_only_x as int
                * g.x_direction as int + g.move_only_y as int * 0 == x as int
            &&& g.both_move as int * g.y_direction as int + g.move_only_x as int * 0
                + g.move_only_y as int * g.y_direction as int == y as int
        }),
{
    let g = GradualMove::decomposition(x as int, y as int);
    let nb = g.both_move as int;
    let nx = g.move_only_x as int;
    let ny = g.move_only_y as int;
    let xd = g.x_direction as int;
    let yd = g.y_direction as int;
    assert(nb + nx == magnitude(x as int));
    assert(nb + ny == magnitude(y as int));
    assert(xd == sign(x as int));
    assert(yd == sign(y as int));
    assert(nb * xd + nx * xd + ny * 0 == x as int) by (nonlinear_arith)
        requires
            nb + nx == magnitude(x as int),
            xd == sign(x as int),
    ;
    assert(nb * yd + nx * 0 + ny * yd == y as int) by (nonlinear_arith)
        requires
            nb + ny == magnitude(y as int),
            yd == sign(y as int),
    ;
}

/// At a backend without batching, an operation asked for as event records
/// has the trace of the operation itself, and no call of it hands back
/// records: the batch that comes of it is empty.
pub proof fn law_buffered_falls_back_without_batching(
    caps: Capabilities,
    operation: Operation,
    x: i32,
    y: i32,
)
    requires
        !caps.batching,
    ensures
        single(operation, caps.buffered_delivery()) == single(operation, Delivery::Normal),
        !collects(single(operation, caps.buffered_delivery())),
        buffered_transition_trace(caps, operation) == transition_trace(caps, operation),
        !collects(buffered_transition_trace(caps, operation)),
        gradual_move_trace(caps, x as int, y as int, caps.buffered_steps_delivery())
            == gradual_move_trace(caps, x as int, y as int, caps.raw_delivery()),
        !collects(gradual_move_trace(caps, x as int, y as int, caps.buffered_steps_delivery())),
        gradual_scroll_trace(caps, x as int, y as int, caps.buffered_steps_delivery())
            == gradual_scroll_trace(caps, x as int, y as int, caps.raw_delivery()),
        !collects(gradual_scroll_trace(caps, x as int, y as int, caps.buffered_steps_delivery())),
{
    let d = caps.raw_delivery();
    let g = GradualMove::decomposition(x as int, y as int);
    let holds = |call: BackendCall| !call.is_buffered();
    lemma_repeat_keeps(
        single(Operation::Move(g.x_direction, g.y_direction), d),
        g.both_move as int,
        holds,
    );
    lemma_repeat_keeps(single(Operation::MoveX(g.x_direction), d), g.move_only_x as int, holds);
    lemma_repeat_keeps(single(Operation::MoveY(g.y_direction), d), g.move_only_y as int, holds);
    lemma_repeat_keeps(scroll_round(g, d), g.both_move as int, holds);
    lemma_repeat_keeps(single(Operation::ScrollX(g.x_direction), d), g.move_only_x as int, holds);
    lemma_repeat_keeps(single(Operation::ScrollY(g.y_direction), d), g.move_only_y as int, holds);
    let m = gradual_move_trace(caps, x as int, y as int, d);
    let s = gradual_scroll_trace(caps, x as int, y as int, d);
    assert(forall|i: int| 0 <= i < m.len() ==> !(#[trigger] m[i]).is_buffered());
    assert(forall|i: int| 0 <= i < s.len() ==> !(#[trigger] s[i]).is_buffered());
}

/// At a backend with batching, an operation asked for as event records is
/// not acted out: every call of its trace only hands back records.
pub proof fn law_buffered_only_collects_with_batching(
    caps: Capabilities,
    operation: Operation,
    x: i32,
    y: i32,
)
    requires
        caps.batching,
    ensures
        only_collects(single(operation, caps.buffered_delivery())),
        only_collects(buffered_transition_trace(caps, operation)),
        only_collects(gradual_move_trace(caps, x as int, y as int, caps.buffered_steps_delivery())),
        only_collects(
            gradual_scroll_trace(caps, x as int, y as int, caps.buffered_steps_delivery()),
        ),
{
    let d = Delivery::Buffered;
    let g = GradualMove::decomposition(x as int, y as int);
    let holds = |call: BackendCall| call.is_buffered();
    lemma_repeat_keeps(
        single(Operation::Move(g.x_direction, g.y_direction), d),
        g.both_move as int,
        holds,
    );
    lemma_repeat_keeps(single(Operation::MoveX(g.x_direction), d), g.move_only_x as int, holds);
    lemma_repeat_keeps(single(Operation::MoveY(g.y_direction), d), g.move_only_y as int, holds);
    lemma_repeat_keeps(scroll_round(g, d), g.both_move as int, holds);
    lemma_repeat_keeps(single(Operation::ScrollX(g.x_direction), d), g.move_only_x as int, holds);
    lemma_repeat_keeps(single(Operation::ScrollY(g.y_direction), d), g.move_only_y as int, holds);
}

/// Whatever two backends are able to do and however the steps are
/// delivered, a gradual motion and a gradual scroll hold the same
/// operations in the same order at both.
pub proof fn law_same_operations_at_every_backend(
    first: Capabilities,
    second: Capabilities,
    x: i32,
    y: i32,
    first_delivery: Delivery,
    second_delivery: Delivery,
)
    ensures
        operations(gradual_move_trace(first, x as int, y as int, first_delivery)) == operations(
            gradual_move_trace(second, x as int, y as int, second_delivery),
        ),
        operations(gradual_scroll_trace(first, x as int, y as int, first_delivery))
            == operations(gradual_scroll_trace(second, x as int, y as int, second_delivery)),
{
    let g = GradualMove::decomposition(x as int, y as int);
    lemma_same_operations_of_steps(g, first_delivery, second_delivery);
    lemma_operations_of_tail(first, first_delivery);
    lemma_operations_of_tail(second, second_delivery);
    lemma_operations_concat(pointer_steps(g, first_delivery), after_steps(first, first_delivery));
    lemma_operations_concat(
        pointer_steps(g, second_delivery),
        after_steps(second, second_delivery),
    );
    lemma_operations_concat(scroll_steps(g, first_delivery), after_steps(first, first_delivery));
    lemma_operations_concat(scroll_steps(g, second_delivery), after_steps(second, second_delivery));
}

/// What follows the steps of a gradual motion holds no operation.
proof fn lemma_operations_of_tail(caps: Capabilities, delivery: Delivery)
    ensures
        operations(after_steps(caps, delivery)) == Seq::<Operation>::empty(),
{
    lemma_operations_of_synchronization(caps);
}

/// The steps of a decomposition hold the same operations however they are
/// delivered.
proof fn lemma_same_operations_of_steps(g: GradualMove, d1: Delivery, d2: Delivery)
    ensures
        operations(pointer_steps(g, d1)) == operations(pointer_steps(g, d2)),
        operations(scroll_steps(g, d1)) == operations(scroll_steps(g, d2)),
{
    let xd = g.x_direction;
    let yd = g.y_direction;
    let nb = g.both_move as int;
    let nx = g.move_only_x as int;
    let ny = g.move_only_y as int;
    lemma_operations_single(Operation::Move(xd, yd), d1);
    lemma_operations_single(Operation::Move(xd, yd), d2);
    lemma_operations_single(Operation::MoveX(xd), d1);
    lemma_operations_single(Operation::MoveX(xd), d2);
    lemma_operations_single(Operation::MoveY(yd), d1);
    lemma_operations_single(Operation::MoveY(yd), d2);
    lemma_operations_single(Operation::ScrollX(xd), d1);
    lemma_operations_single(Operation::ScrollX(xd), d2);
    lemma_operations_single(Operation::ScrollY(yd), d1);
    lemma_operations_single(Operation::ScrollY(yd), d2);
    assert(scroll_round(g, d1) =~= single(Operation::ScrollX(xd), d1) + single(
        Operation::ScrollY(yd),
        d1,
    ));
    assert(scroll_round(g, d2) =~= single(Operation::ScrollX(xd), d2) + single(
        Operation::ScrollY(yd),
        d2,
    ));
    lemma_operations_concat(single(Operation::ScrollX(xd), d1), single(Operation::ScrollY(yd), d1));
    lemma_operations_concat(single(Operation::ScrollX(xd), d2), single(Operation::ScrollY(yd), d2));
    lemma_operations_repeat(
        single(Operation::Move(xd, yd), d1),
        single(Operation::Move(xd, yd), d2),
        nb,
    );
    lemma_operations_repeat(single(Operation::MoveX(xd), d1), single(Operation::MoveX(xd), d2), nx);
    lemma_operations_repeat(single(Operation::MoveY(yd), d1), single(Operation::MoveY(yd), d2), ny);
    lemma_operations_repeat(scroll_round(g, d1), scroll_round(g, d2), nb);
    lemma_operations_repeat(
        single(Operation::ScrollX(xd), d1),
        single(Operation::ScrollX(xd), d2),
        nx,
    );
    lemma_operations_repeat(
        single(Operation::ScrollY(yd), d1),
        single(Operation::ScrollY(yd), d2),
        ny,
    );
    let a1 = repeat_calls(single(Operation::Move(xd, yd), d1), nb);
    let b1 = repeat_calls(single(Operation::MoveX(xd), d1), nx);
    let c1 = repeat_calls(single(Operation::MoveY(yd), d1), ny);
    let a2 = repeat_calls(single(Operation::Move(xd, yd), d2), nb);
    let b2 = repeat_calls(single(Operation::MoveX(xd), d2), nx);
    let c2 = repeat_calls(single(Operation::MoveY(yd), d2), ny);
    lemma_operations_concat(a1, b1);
    lemma_operations_concat(a1 + b1, c1);
    lemma_operations_concat(a2, b2);
    lemma_operations_concat(a2 + b2, c2);
    let sa1 = repeat_calls(scroll_round(g, d1), nb);
    let sb1 = repeat_calls(single(Operation::ScrollX(xd), d1), nx);
    let sc1 = repeat_calls(single(Operation::ScrollY(yd), d1), ny);
    let sa2 = repeat_calls(scroll_round(g, d2), nb);
    let sb2 = repeat_calls(single(Operation::ScrollX(xd), d2), nx);
    let sc2 = repeat_calls(single(Operation::ScrollY(yd), d2), ny);
    lemma_operations_concat(sa1, sb1);
    lemma_operations_concat(sa1 + sb1, sc1);
    lemma_operations_concat(sa2, sb2);
    lemma_operations_concat(sa2 + sb2, sc2);
}

} // verus!
