use input_emulator::backend::Backend;
use input_emulator::gradual_move::GradualMove;
use input_emulator::input_emulator::InputEmulator;
use input_emulator::plan::{BackendCall, Delivery, Operation, Phase, Plan};

fn walk(plan: &Plan) -> Vec<BackendCall> {
    let mut calls = Vec::new();
    let mut cursor = plan.start();
    while let Some(call) = plan.next(&mut cursor) {
        calls.push(call);
    }
    assert_eq!(plan.next(&mut cursor), None);
    calls
}

#[test]
fn walking_an_empty_plan_hands_out_nothing() {
    let plan = Plan::new();
    let mut cursor = plan.start();
    assert_eq!(plan.next(&mut cursor), None);
    assert_eq!(plan.next(&mut cursor), None);
}

#[test]
fn walking_hands_out_the_calls_in_order() {
    let plan = InputEmulator::new(Backend::VirtualDevice).gradual_scroll(2, -3);
    let mut cursor = plan.start();
    let x = BackendCall::Perform(Operation::ScrollX(1), Delivery::Raw);
    let y = BackendCall::Perform(Operation::ScrollY(-1), Delivery::Raw);
    assert_eq!(plan.next(&mut cursor), Some(x));
    assert_eq!(plan.next(&mut cursor), Some(y));
    assert_eq!(plan.next(&mut cursor), Some(x));
    assert_eq!(plan.next(&mut cursor), Some(y));
    assert_eq!(plan.next(&mut cursor), Some(y));
    assert_eq!(plan.next(&mut cursor), Some(BackendCall::Synchronize));
    assert_eq!(plan.next(&mut cursor), None);
}

#[test]
fn walking_agrees_with_the_calls_written_out() {
    for backend in [Backend::VirtualDevice, Backend::Tfc, Backend::Hidg] {
        let emulator = InputEmulator::new(backend);
        for (x, y) in [(5, 3), (-4, 7), (0, -6), (0, 0), (-2, -2)] {
            for plan in [
                emulator.gradual_move_mouse(x, y),
                emulator.gradual_scroll(x, y),
                emulator.buffered_gradual_move_mouse(x, y),
                emulator.buffered_gradual_scroll(x, y),
                emulator.move_mouse_raw(x, y),
            ] {
                assert_eq!(walk(&plan), plan.expand());
            }
        }
    }
}

#[test]
fn walking_passes_over_phases_that_hold_nothing() {
    let step = BackendCall::Perform(Operation::MoveX(1), Delivery::Normal);
    let plan = Plan {
        phases: vec![
            Phase { calls: vec![], times: 3 },
            Phase { calls: vec![step], times: 0 },
            Phase { calls: vec![step, BackendCall::Synchronize], times: 2 },
            Phase { calls: vec![step], times: -1 },
            Phase { calls: vec![], times: i32::MAX },
            Phase { calls: vec![BackendCall::SynchronizeMouse], times: 1 },
            Phase { calls: vec![], times: 0 },
        ],
    };
    let wanted = vec![
        step,
        BackendCall::Synchronize,
        step,
        BackendCall::Synchronize,
        BackendCall::SynchronizeMouse,
    ];
    assert_eq!(walk(&plan), wanted);
    assert_eq!(plan.expand(), wanted);
}

#[test]
fn a_long_gradual_move_is_walked_without_being_written_out() {
    let plan = InputEmulator::new(Backend::Tfc).gradual_move_mouse(i32::MAX, i32::MIN);
    assert_eq!(plan.phases.len(), 1);
    assert_eq!(plan.phases[0].times, i32::MAX);
    let mut cursor = plan.start();
    let step = BackendCall::Perform(Operation::Move(1, -1), Delivery::Normal);
    for _ in 0..1000 {
        assert_eq!(plan.next(&mut cursor), Some(step));
    }
}

#[test]
fn default_decomposition_is_that_of_no_displacement() {
    assert_eq!(GradualMove::default(), GradualMove::calculate(0, 0));
    assert_eq!(GradualMove::default().both_move, 0);
}
