use input_emulator::gradual_move::GradualMove;

fn fields(g: GradualMove) -> (i32, i32, i32, i32, i32) {
    (g.x_direction, g.y_direction, g.both_move, g.move_only_x, g.move_only_y)
}

/// Replays a decomposition step by step and returns where it ends and how
/// many steps it took.
fn replay(g: GradualMove) -> (i64, i64, i64) {
    let mut x: i64 = 0;
    let mut y: i64 = 0;
    let mut steps: i64 = 0;
    for _ in 0..g.both_move {
        x += g.x_direction as i64;
        y += g.y_direction as i64;
        steps += 1;
    }
    for _ in 0..g.move_only_x {
        x += g.x_direction as i64;
        steps += 1;
    }
    for _ in 0..g.move_only_y {
        y += g.y_direction as i64;
        steps += 1;
    }
    (x, y, steps)
}

#[test]
fn decompose_longer_x() {
    assert_eq!(fields(GradualMove::calculate(5, 3)), (1, 1, 3, 2, 0));
}

#[test]
fn decompose_negative_x_longer_y() {
    assert_eq!(fields(GradualMove::calculate(-4, 7)), (-1, 1, 4, 0, 3));
}

#[test]
fn decompose_only_negative_y() {
    assert_eq!(fields(GradualMove::calculate(0, -6)), (0, -1, 0, 0, 6));
}

#[test]
fn decompose_nothing() {
    let g = GradualMove::calculate(0, 0);
    assert_eq!(fields(g), (0, 0, 0, 0, 0));
    assert_eq!(replay(g), (0, 0, 0));
}

#[test]
fn decompose_equal_magnitudes_leaves_no_single_axis_steps() {
    assert_eq!(fields(GradualMove::calculate(-9, 9)), (-1, 1, 9, 0, 0));
}

#[test]
fn counts_make_up_magnitudes() {
    for (dx, dy) in [(5, 3), (-4, 7), (0, -6), (12, -12), (-1, 0), (i32::MAX, -i32::MAX)] {
        let g = GradualMove::calculate(dx, dy);
        assert_eq!(g.both_move as i64 + g.move_only_x as i64, (dx as i64).abs());
        assert_eq!(g.both_move as i64 + g.move_only_y as i64, (dy as i64).abs());
        assert_eq!(g.both_move as i64, (dx as i64).abs().min((dy as i64).abs()));
        assert!(g.move_only_x == 0 || g.move_only_y == 0);
    }
}

#[test]
fn directions_are_signs() {
    for (dx, dy) in [(5, 3), (-4, 7), (0, -6), (0, 0), (i32::MIN, i32::MAX)] {
        let g = GradualMove::calculate(dx, dy);
        assert_eq!(g.x_direction, dx.signum());
        assert_eq!(g.y_direction, dy.signum());
    }
}

#[test]
fn replay_reaches_displacement() {
    for (dx, dy) in [(5, 3), (-4, 7), (0, -6), (-30, -30), (1, -200)] {
        let g = GradualMove::calculate(dx, dy);
        let (x, y, steps) = replay(g);
        assert_eq!((x, y), (dx as i64, dy as i64));
        assert_eq!(steps, (dx as i64).abs().max((dy as i64).abs()));
    }
}

#[test]
fn opposite_displacement_inverts_directions_only() {
    for (dx, dy) in [(5, 3), (-4, 7), (0, -6), (0, 0), (i32::MAX, 1)] {
        let g = GradualMove::calculate(dx, dy);
        let o = GradualMove::calculate(-dx, -dy);
        assert_eq!((o.both_move, o.move_only_x, o.move_only_y), (g.both_move, g.move_only_x, g.move_only_y));
        assert_eq!((o.x_direction, o.y_direction), (-g.x_direction, -g.y_direction));
    }
}

#[test]
fn least_coordinate_is_held_at_the_largest_magnitude() {
    assert_eq!(fields(GradualMove::calculate(i32::MIN, 0)), (-1, 0, 0, i32::MAX, 0));
    assert_eq!(fields(GradualMove::calculate(i32::MIN, i32::MIN)), (-1, -1, i32::MAX, 0, 0));
    assert_eq!(fields(GradualMove::calculate(1, i32::MIN)), (1, -1, 1, 0, i32::MAX - 1));
}
