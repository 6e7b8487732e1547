use vstd::prelude::*;
use crate::grid::{inside, opposite_of, Bounds, Direction, Position};
use crate::snake::{dead, head_on_body, moved, turned};

verus! {

/// One change to the chain: a move along a heading, or a meal, which adds a
/// tail segment on the head's cell.
pub enum Step {
    Move(Direction),
    Eat,
}

/// The chain after one step, as `Game::tick` and `Game::try_eat` make it.
pub open spec fn after_step(cells: Seq<Position>, s: Step) -> Seq<Position> {
    match s {
        Step::Move(d) => moved(cells, d),
        Step::Eat => cells.push(cells[0]),
    }
}

/// The chain after the steps, in order.
pub open spec fn run(cells: Seq<Position>, steps: Seq<Step>) -> Seq<Position>
    decreases steps.len(),
{
    if steps.len() == 0 {
        cells
    } else {
        run(after_step(cells, steps[0]), steps.drop_first())
    }
}

/// How many of the steps are meals.
pub open spec fn meals(steps: Seq<Step>) -> nat
    decreases steps.len(),
{
    if steps.len() == 0 {
        0
    } else {
        (if steps[0] is Eat { 1nat } else { 0nat }) + meals(steps.drop_first())
    }
}

/// Whatever the headings, the chain never gets shorter: after any run of
/// moves and meals it is longer by exactly the number of meals.
pub proof fn lemma_length_grows_by_meals(cells: Seq<Position>, steps: Seq<Step>)
    ensures
        run(cells, steps).len() == cells.len() + meals(steps),
    decreases steps.len(),
{
    if steps.len() > 0 {
        lemma_length_grows_by_meals(after_step(cells, steps[0]), steps.drop_first());
    }
}

/// A request to turn straight back never changes the heading.
pub proof fn lemma_reversal_ignored(d: Direction)
    ensures
        turned(d, opposite_of(d)) == d,
{
}

/// A move keeps the length and the order of the chain: each segment after
/// the head takes the cell that its predecessor held before the move.
pub proof fn lemma_move_follows_leader(cells: Seq<Position>, d: Direction)
    ensures
        moved(cells, d).len() == cells.len(),
        forall|i: int| 1 <= i < cells.len() ==> #[trigger] moved(cells, d)[i] == cells[i - 1],
{
}

/// A snake whose head is strictly inside the walls and off its own body is
/// not dead; one whose head is on a wall or on its body is.
pub proof fn lemma_dead_iff_wall_or_self(b: Bounds, cells: Seq<Position>)
    requires
        cells.len() >= 2,
    ensures
        inside(b, cells[0]) && !head_on_body(cells) ==> !dead(b, cells),
        !inside(b, cells[0]) ==> dead(b, cells),
        (exists|i: int| 1 <= i < cells.len() && #[trigger] cells[i] == cells[0]) ==> dead(b, cells),
{
}

} // verus!
