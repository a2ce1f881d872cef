//! Decomposition of a displacement into unit steps.

use vstd::prelude::*;
use crate::OS_Input_Coord;

verus! {

/// The sign of `v`: -1, 0 or 1.
pub open spec fn sign(v: int) -> int {
    if v > 0 {
        1
    } else if v < 0 {
        -1
    } else {
        0
    }
}

/// The magnitude of `v`.
pub open spec fn magnitude(v: int) -> int {
    if v < 0 {
        -v
    } else {
        v
    }
}

/// The magnitude of `v`, held at the largest coordinate where it would not
/// fit: only the least coordinate is affected.
pub open spec fn bounded_magnitude(v: int) -> int {
    if magnitude(v) > i32::MAX as int {
        i32::MAX as int
    } else {
        magnitude(v)
    }
}

/// The smaller of two integers.
pub open spec fn smaller(a: int, b: int) -> int {
    if a <= b {
        a
    } else {
        b
    }
}

/// One step of a replay: the displacement along each axis.
pub type Step = (int, int);

/// `count` copies of `step`.
pub open spec fn repeated(step: Step, count: int) -> Seq<Step> {
    Seq::new(
        if count < 0 {
            0nat
        } else {
            count as nat
        },
        |i: int| step,
    )
}

/// The displacement that a sequence of steps adds up to.
pub open spec fn total(steps: Seq<Step>) -> Step
    decreases steps.len(),
{
    if steps.len() == 0 {
        (0, 0)
    } else {
        let rest = total(steps.drop_last());
        (rest.0 + steps.last().0, rest.1 + steps.last().1)
    }
}

/// A displacement broken into unit steps: steps along both axes at once,
/// then the steps that are left along the longer axis.
#[derive(PartialEq, Eq, Structural, Copy, Clone, Debug)]
pub struct GradualMove {
    pub x_direction: OS_Input_Coord,
    pub y_direction: OS_Input_Coord,
    pub both_move: OS_Input_Coord,
    pub move_only_x: OS_Input_Coord,
    pub move_only_y: OS_Input_Coord,
}

impl GradualMove {
    /// What `calculate` yields for the displacement `(x, y)`.
    pub open spec fn decomposition(x: int, y: int) -> GradualMove {
        let both = smaller(bounded_magnitude(x), bounded_magnitude(y));
        GradualMove {
            x_direction: sign(x) as i32,
            y_direction: sign(y) as i32,
            both_move: both as i32,
            move_only_x: (bounded_magnitude(x) - both) as i32,
            move_only_y: (bounded_magnitude(y) - both) as i32,
        }
    }

    /// Directions are signs, counts are not negative, and at most one axis
    /// has steps of its own.
    pub open spec fn wf(&self) -> bool {
        &&& -1 <= self.x_direction <= 1
        &&& -1 <= self.y_direction <= 1
        &&& self.both_move >= 0
        &&& self.move_only_x >= 0
        &&& self.move_only_y >= 0
        &&& (self.move_only_x == 0 || self.move_only_y == 0)
        &&& self.both_move as int + self.move_only_x as int + self.move_only_y as int <= i32::MAX as int
        &&& (self.x_direction == 0 ==> self.both_move == 0 && self.move_only_x == 0)
        &&& (self.y_direction == 0 ==> self.both_move == 0 && self.move_only_y == 0)
    }

    /// The steps of a replay, in order: the steps along both axes, then
    /// those along X alone, then those along Y alone.
    pub open spec fn steps(&self) -> Seq<Step> {
        repeated((self.x_direction as int, self.y_direction as int), self.both_move as int)
            + repeated((self.x_direction as int, 0), self.move_only_x as int)
            + repeated((0, self.y_direction as int), self.move_only_y as int)
    }

    /// Breaks the displacement `(x, y)` into unit steps.
    ///
    /// The magnitude of the least coordinate does not fit a coordinate; it is
    /// held at the largest one, so that such a displacement is replayed one
    /// step short.
    pub fn calculate(x: OS_Input_Coord, y: OS_Input_Coord) -> (r: Self)
        ensures
            r == Self::decomposition(x as int, y as int),
            r.wf(),
            r.x_direction as int == sign(x as int),
            r.y_direction as int == sign(y as int),
            r.both_move as int == smaller(bounded_magnitude(x as int), bounded_magnitude(y as int)),
            r.both_move as int + r.move_only_x as int == bounded_magnitude(x as int),
            r.both_move as int + r.move_only_y as int == bounded_magnitude(y as int),
    {
        let x_direction: i32 = direction_of(x);
        let y_direction: i32 = direction_of(y);
        let move_x: i32 = magnitude_of(x);
        let move_y: i32 = magnitude_of(y);
        let both_move: i32 = if move_x <= move_y {
            move_x
        } else {
            move_y
        };
        let move_only_x: i32 = move_x - both_move;
        let move_only_y: i32 = move_y - both_move;
        Self { x_direction, y_direction, both_move, move_only_x, move_only_y }
    }
}

impl Default for GradualMove {
    /// The decomposition of no displacement.
    fn default() -> (r: Self)
        ensures
            r == GradualMove::decomposition(0, 0),
            r == (GradualMove {
                x_direction: 0,
                y_direction: 0,
                both_move: 0,
                move_only_x: 0,
                move_only_y: 0,
            }),
    {
        GradualMove { x_direction: 0, y_direction: 0, both_move: 0, move_only_x: 0, move_only_y: 0 }
    }
}

/// The sign of a coordinate.
fn direction_of(v: OS_Input_Coord) -> (r: OS_Input_Coord)
    ensures
        r as int == sign(v as int),
{
    if v > 0 {
        1
    } else if v < 0 {
        -1
    } else {
        0
    }
}

/// The magnitude of a coordinate, held at the largest coordinate.
fn magnitude_of(v: OS_Input_Coord) -> (r: OS_Input_Coord)
    ensures
        r as int == bounded_magnitude(v as int),
        r >= 0,
{
    if v == i32::MIN {
        i32::MAX
    } else if v < 0 {
        -v
    } else {
        v
    }
}

/// The total of two sequences of steps, one after the other, is the sum of
/// their totals.
pub proof fn lemma_total_concat(a: Seq<Step>, b: Seq<Step>)
    ensures
        total(a + b) == (total(a).0 + total(b).0, total(a).1 + total(b).1),
    decreases b.len(),
{
    if b.len() == 0 {
        assert(a + b =~= a);
    } else {
        assert((a + b).drop_last() =~= a + b.drop_last());
        assert((a + b).last() == b.last());
        lemma_total_concat(a, b.drop_last());
    }
}

/// `count` copies of a step add up to `count` times the step.
pub proof fn lemma_total_repeated(step: Step, count: int)
    requires
        count >= 0,
    ensures
        total(repeated(step, count)) == (count * step.0, count * step.1),
    decreases count,
{
    if count > 0 {
        assert(repeated(step, count).drop_last() =~= repeated(step, count - 1));
        assert(repeated(step, count).last() == step);
        lemma_total_repeated(step, count - 1);
        assert(count * step.0 == (count - 1) * step.0 + step.0) by (nonlinear_arith);
        assert(count * step.1 == (count - 1) * step.1 + step.1) by (nonlinear_arith);
    } else {
        assert(count * step.0 == 0) by (nonlinear_arith)
            requires
                count == 0,
        ;
        assert(count * step.1 == 0) by (nonlinear_arith)
            requires
                count == 0,
        ;
    }
}

/// What the steps of a well-formed decomposition add up to: along each
/// axis, the direction times the number of steps that move along it.
pub proof fn lemma_steps_total(g: GradualMove)
    requires
        g.wf(),
    ensures
        total(g.steps()) == (
            g.x_direction as int * (g.both_move as int + g.move_only_x as int),
            g.y_direction as int * (g.both_move as int + g.move_only_y as int),
        ),
        g.steps().len() == g.both_move as int + g.move_only_x as int + g.move_only_y as int,
{
    let xd = g.x_direction as int;
    let yd = g.y_direction as int;
    let both = repeated((xd, yd), g.both_move as int);
    let only_x = repeated((xd, 0), g.move_only_x as int);
    let only_y = repeated((0, yd), g.move_only_y as int);
    lemma_total_repeated((xd, yd), g.both_move as int);
    lemma_total_repeated((xd, 0), g.move_only_x as int);
    lemma_total_repeated((0, yd), g.move_only_y as int);
    lemma_total_concat(both, only_x);
    lemma_total_concat(both + only_x, only_y);
    let b = g.both_move as int;
    let mx = g.move_only_x as int;
    let my = g.move_only_y as int;
    assert(b * xd + mx * xd == xd * (b + mx)) by (nonlinear_arith);
    assert(b * yd + my * yd == yd * (b + my)) by (nonlinear_arith);
    assert(mx * 0 == 0 && my * 0 == 0) by (nonlinear_arith);
}

/// The steps along both axes and the steps along one axis alone make up the
/// magnitude of the displacement along that axis.
pub proof fn law_counts_make_up_magnitudes(dx: i32, dy: i32)
    requires
        dx > i32::MIN,
        dy > i32::MIN,
    ensures
        ({
            let g = GradualMove::decomposition(dx as int, dy as int);
            &&& g.both_move as int + g.move_only_x as int == magnitude(dx as int)
            &&& g.both_move as int + g.move_only_y as int == magnitude(dy as int)
        }),
{
}

/// The number of steps along both axes is the smaller of the two
/// magnitudes, and at most one axis has steps of its own.
pub proof fn law_shared_steps_are_the_smaller_magnitude(dx: i32, dy: i32)
    requires
        dx > i32::MIN,
        dy > i32::MIN,
    ensures
        ({
            let g = GradualMove::decomposition(dx as int, dy as int);
            &&& g.both_move as int == smaller(magnitude(dx as int), magnitude(dy as int))
            &&& (g.move_only_x == 0 || g.move_only_y == 0)
            &&& (magnitude(dx as int) != magnitude(dy as int) ==> (g.move_only_x != 0
                || g.move_only_y != 0))
        }),
{
}

/// Each direction is -1, 0 or 1 and is the sign of its coordinate.
pub proof fn law_directions_are_signs(dx: i32, dy: i32)
    ensures
        ({
            let g = GradualMove::decomposition(dx as int, dy as int);
            &&& -1 <= g.x_direction <= 1
            &&& -1 <= g.y_direction <= 1
            &&& g.x_direction as int == sign(dx as int)
            &&& g.y_direction as int == sign(dy as int)
        }),
{
}

/// Every decomposition is well formed.
pub proof fn law_decomposition_is_well_formed(dx: i32, dy: i32)
    ensures
        GradualMove::decomposition(dx as int, dy as int).wf(),
{
}

/// Replaying the steps of a decomposition adds up to the displacement that
/// was decomposed.
pub proof fn law_replay_reaches_displacement(dx: i32, dy: i32)
    requires
        dx > i32::MIN,
        dy > i32::MIN,
    ensures
        total(GradualMove::decomposition(dx as int, dy as int).steps()) == (dx as int, dy as int),
{
    let g = GradualMove::decomposition(dx as int, dy as int);
    lemma_steps_total(g);
    let nx = g.both_move as int + g.move_only_x as int;
    let ny = g.both_move as int + g.move_only_y as int;
    let xd = g.x_direction as int;
    let yd = g.y_direction as int;
    assert(xd * nx == dx as int) by (nonlinear_arith)
        requires
            nx == magnitude(dx as int),
            xd == sign(dx as int),
    ;
    assert(yd * ny == dy as int) by (nonlinear_arith)
        requires
            ny == magnitude(dy as int),
            yd == sign(dy as int),
    ;
}

/// Decomposing no displacement yields zero in every field and no step.
pub proof fn law_no_displacement_no_steps()
    ensures
        GradualMove::decomposition(0, 0) == (GradualMove {
            x_direction: 0,
            y_direction: 0,
            both_move: 0,
            move_only_x: 0,
            move_only_y: 0,
        }),
        GradualMove::decomposition(0, 0).steps().len() == 0,
        GradualMove::decomposition(0, 0).steps() =~= Seq::<Step>::empty(),
{
}

/// Decomposing the opposite displacement yields the same counts and the
/// opposite directions.
pub proof fn law_opposite_displacement(dx: i32, dy: i32)
    requires
        dx > i32::MIN,
        dy > i32::MIN,
    ensures
        ({
            let g = GradualMove::decomposition(dx as int, dy as int);
            let o = GradualMove::decomposition(-(dx as int), -(dy as int));
            &&& o.both_move == g.both_move
            &&& o.move_only_x == g.move_only_x
            &&& o.move_only_y == g.move_only_y
            &&& o.x_direction as int == -(g.x_direction as int)
            &&& o.y_direction as int == -(g.y_direction as int)
        }),
{
}

} // verus!
