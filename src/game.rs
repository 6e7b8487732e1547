use vstd::prelude::*;
use crate::food::{field_full, free_spot, spawn_food};
use crate::grid::{
    inside, in_inner_field, opposite_of, step_spec, Bounds, Direction, Position, GRID_HEIGHT,
    GRID_WIDTH,
};
use crate::snake::{dead, moved, steered, turned, Snake};
use rand::rngs::StdRng;

verus! {

/// The whole state of one game: the snake, the food if any, the walls, and
/// whether the game is over. Ticks move the snake and detect death; frames
/// take input, let the snake eat, and put down new food.
pub struct Game {
    pub snake: Snake,
    pub food: Option<Position>,
    pub bounds: Bounds,
    pub over: bool,
}

impl Game {
    /// The snake is well formed, the walls leave room for the origin, food
    /// lies in the inner field, and while the game runs the head is inside
    /// the walls.
    pub open spec fn wf(&self) -> bool {
        &&& self.snake.wf()
        &&& self.bounds.wf()
        &&& (self.food matches Some(f) ==> in_inner_field(self.bounds, f))
        &&& (!self.over ==> inside(self.bounds, self.snake.cells()[0]))
    }

    /// A game within `bounds`: the head at the origin heading right, one
    /// body segment to its left, and no food yet.
    pub fn new(bounds: Bounds) -> (r: Game)
        requires
            bounds.wf(),
        ensures
            r.wf(),
            r.snake.cells() == seq![Position { x: 0, y: 0 }, Position { x: -1i32, y: 0 }],
            r.snake.heading() == Direction::Right,
            r.food.is_none(),
            r.bounds == bounds,
            !r.over,
    {
        let snake = Snake::new(Position { x: 0, y: 0 }, Direction::Right);
        assert(step_spec(Position { x: 0, y: 0 }, opposite_of(Direction::Right)) == Position {
            x: -1i32,
            y: 0,
        });
        Game { snake, food: None, bounds, over: false }
    }

    /// A game on the standard field of `GRID_WIDTH` by `GRID_HEIGHT` cells.
    pub fn standard() -> (r: Game)
        ensures
            r.wf(),
            r.snake.cells() == seq![Position { x: 0, y: 0 }, Position { x: -1i32, y: 0 }],
            r.snake.heading() == Direction::Right,
            r.food.is_none(),
            r.bounds == (Bounds { half_width: (GRID_WIDTH / 2) as i32, half_height: (GRID_HEIGHT / 2) as i32 }),
            !r.over,
    {
        Game::new(Bounds::from_grid(GRID_WIDTH, GRID_HEIGHT))
    }

    /// Asks the snake to turn towards `requested`; a request that points
    /// straight back is ignored, and so is any request once the game is over.
    pub fn set_direction(&mut self, requested: Direction)
        requires
            old(self).wf(),
        ensures
            final(self).wf(),
            final(self).snake.cells() == old(self).snake.cells(),
            final(self).snake.heading() == (if old(self).over {
                old(self).snake.heading()
            } else {
                turned(old(self).snake.heading(), requested)
            }),
            final(self).food == old(self).food,
            final(self).bounds == old(self).bounds,
            final(self).over == old(self).over,
    {
        if !self.over {
            self.snake.set_direction(requested);
        }
    }

    /// Turns the snake by the keys held down, read in the order up, down,
    /// left, right; nothing changes once the game is over.
    pub fn steer(&mut self, up: bool, down: bool, left: bool, right: bool)
        requires
            old(self).wf(),
        ensures
            final(self).wf(),
            final(self).snake.cells() == old(self).snake.cells(),
            final(self).snake.heading() == (if old(self).over {
                old(self).snake.heading()
            } else {
                steered(old(self).snake.heading(), up, down, left, right)
            }),
            final(self).food == old(self).food,
            final(self).bounds == old(self).bounds,
            final(self).over == old(self).over,
    {
        if !self.over {
            self.snake.steer(up, down, left, right);
        }
    }

    /// One fixed tick: the snake moves one cell, then death is checked.
    /// Returns `true` exactly on the tick on which the snake dies; once the
    /// game is over a tick changes nothing.
    pub fn tick(&mut self) -> (died: bool)
        requires
            old(self).wf(),
        ensures
            final(self).wf(),
            final(self).food == old(self).food,
            final(self).bounds == old(self).bounds,
            final(self).snake.heading() == old(self).snake.heading(),
            old(self).over ==> !died && final(self).snake.cells() == old(self).snake.cells()
                && final(self).over,
            !old(self).over ==> final(self).snake.cells() == moved(
                old(self).snake.cells(),
                old(self).snake.heading(),
            ) && died == dead(old(self).bounds, final(self).snake.cells()) && final(self).over
                == died,
    {
        if self.over {
            return false;
        }
        self.snake.advance();
        let died = self.snake.is_dead(&self.bounds);
        self.over = died;
        died
    }

    /// Whether the head lies on the food.
    pub fn food_under_head(&self) -> (r: bool)
        requires
            self.wf(),
        ensures
            r == (self.food == Some(self.snake.cells()[0])),
    {
        match self.food {
            Some(f) => f == self.snake.head(),
            None => false,
        }
    }

    /// Lets the snake eat: where the head lies on the food, the food is
    /// consumed and a segment is added at the tail on the food's cell.
    /// Returns whether food was eaten; once the game is over nothing is.
    pub fn try_eat(&mut self) -> (eaten: bool)
        requires
            old(self).wf(),
        ensures
            final(self).wf(),
            eaten == (!old(self).over && old(self).food == Some(old(self).snake.cells()[0])),
            eaten ==> final(self).snake.cells() == old(self).snake.cells().push(
                old(self).snake.cells()[0],
            ) && final(self).food.is_none(),
            !eaten ==> final(self).snake.cells() == old(self).snake.cells() && final(self).food
                == old(self).food,
            final(self).snake.heading() == old(self).snake.heading(),
            final(self).bounds == old(self).bounds,
            final(self).over == old(self).over,
    {
        if self.over || !self.food_under_head() {
            return false;
        }
        let at = self.snake.head();
        self.food = None;
        self.snake.grow(at);
        true
    }

    /// Whether no food lies on the field.
    pub fn food_gone(&self) -> (r: bool)
        ensures
            r == self.food.is_none(),
    {
        self.food.is_none()
    }

    /// Puts down new food on a free cell of the inner field, drawn from
    /// `rng`. Stays without food only where the snake covers that whole
    /// field, or once the game is over. Returns whether food was put down.
    pub fn spawn_food(&mut self, rng: &mut StdRng) -> (placed: bool)
        requires
            old(self).wf(),
            old(self).food.is_none(),
        ensures
            final(self).wf(),
            placed == final(self).food.is_some(),
            placed <==> !old(self).over && !field_full(old(self).bounds, old(self).snake.cells()),
            final(self).food matches Some(f) ==> free_spot(
                old(self).bounds,
                old(self).snake.cells(),
                f,
            ),
            final(self).snake == old(self).snake,
            final(self).bounds == old(self).bounds,
            final(self).over == old(self).over,
    {
        if self.over {
            return false;
        }
        self.food = spawn_food(rng, &self.snake, &self.bounds);
        self.food.is_some()
    }

    /// One frame: the requested heading, if any, is taken, the snake may eat,
    /// and new food is put down where none is left. Returns whether food was
    /// eaten.
    pub fn frame(&mut self, requested: Option<Direction>, rng: &mut StdRng) -> (eaten: bool)
        requires
            old(self).wf(),
        ensures
            final(self).wf(),
            final(self).bounds == old(self).bounds,
            final(self).over == old(self).over,
            final(self).snake.heading() == (match requested {
                Some(d) if !old(self).over => turned(old(self).snake.heading(), d),
                _ => old(self).snake.heading(),
            }),
            eaten == (!old(self).over && old(self).food == Some(old(self).snake.cells()[0])),
            eaten ==> final(self).snake.cells() == old(self).snake.cells().push(
                old(self).snake.cells()[0],
            ),
            !eaten ==> final(self).snake.cells() == old(self).snake.cells(),
            old(self).food.is_some() && !eaten ==> final(self).food == old(self).food,
            !old(self).over && (eaten || old(self).food.is_none()) ==> (final(self).food.is_some()
                <==> !field_full(old(self).bounds, final(self).snake.cells())),
            (eaten || old(self).food.is_none()) ==> (final(self).food matches Some(f) ==> free_spot(
                old(self).bounds,
                final(self).snake.cells(),
                f,
            )),
    {
        if let Some(d) = requested {
            self.set_direction(d);
        }
        let eaten = self.try_eat();
        if self.food_gone() {
            self.spawn_food(rng);
        }
        eaten
    }
}

} // verus!
