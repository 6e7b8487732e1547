use vstd::prelude::*;
use crate::grid::{can_step, inside, opposite_of, step_spec, Bounds, Direction, Position};

verus! {

/// Whether the head of `cells` lies on one of its body segments.
pub open spec fn head_on_body(cells: Seq<Position>) -> bool {
    exists|i: int| 1 <= i < cells.len() && #[trigger] cells[i] == cells[0]
}

/// Whether a snake whose chain is `cells` is dead within `b`: its head has
/// reached a wall or lies on its own body.
pub open spec fn dead(b: Bounds, cells: Seq<Position>) -> bool {
    !inside(b, cells[0]) || head_on_body(cells)
}

/// The heading after asking for `requested` while heading `current`: the
/// request is taken unless it points straight back.
pub open spec fn turned(current: Direction, requested: Direction) -> Direction {
    if requested == opposite_of(current) {
        current
    } else {
        requested
    }
}

/// The heading after the keys held down are read in the order up, down,
/// left, right: the first held key that does not point straight back wins.
pub open spec fn steered(current: Direction, up: bool, down: bool, left: bool, right: bool) -> Direction {
    if up && current != Direction::Down {
        Direction::Up
    } else if down && current != Direction::Up {
        Direction::Down
    } else if left && current != Direction::Right {
        Direction::Left
    } else if right && current != Direction::Left {
        Direction::Right
    } else {
        current
    }
}

/// The chain after one move towards `d`: the head steps, and each segment
/// takes the place that the one before it has left.
pub open spec fn moved(cells: Seq<Position>, d: Direction) -> Seq<Position> {
    Seq::new(cells.len(), |i: int| if i == 0 { step_spec(cells[0], d) } else { cells[i - 1] })
}

/// The snake: its chain of cells, head first and then the body from neck to
/// tail, and its heading.
pub struct Snake {
    chain: Vec<Position>,
    direction: Direction,
}

impl Snake {
    /// The chain, head first.
    pub closed spec fn cells(&self) -> Seq<Position> {
        self.chain@
    }

    /// The current heading.
    pub closed spec fn heading(&self) -> Direction {
        self.direction
    }

    /// A snake has a head and at least one body segment.
    pub open spec fn wf(&self) -> bool {
        self.cells().len() >= 2
    }

    /// A snake with its head at `head`, heading `direction`, and one body
    /// segment right behind the head.
    pub fn new(head: Position, direction: Direction) -> (r: Snake)
        requires
            can_step(head, opposite_of(direction)),
        ensures
            r.wf(),
            r.cells() == seq![head, step_spec(head, opposite_of(direction))],
            r.heading() == direction,
    {
        let neck = head.step(direction.opposite());
        let mut chain: Vec<Position> = Vec::new();
        chain.push(head);
        chain.push(neck);
        Snake { chain, direction }
    }

    /// A snake with the given chain, head first; `None` where the chain has
    /// fewer than two cells.
    pub fn from_chain(chain: Vec<Position>, direction: Direction) -> (r: Option<Snake>)
        ensures
            chain@.len() < 2 ==> r.is_none(),
            chain@.len() >= 2 ==> (r matches Some(s) && s.wf() && s.cells() == chain@
                && s.heading() == direction),
    {
        if chain.len() < 2 {
            None
        } else {
            Some(Snake { chain, direction })
        }
    }

    /// The chain, head first.
    pub fn chain(&self) -> (r: &Vec<Position>)
        ensures
            r@ == self.cells(),
    {
        &self.chain
    }

    /// The cell of the head.
    pub fn head(&self) -> (r: Position)
        requires
            self.wf(),
        ensures
            r == self.cells()[0],
    {
        self.chain[0]
    }

    /// The current heading.
    pub fn direction(&self) -> (r: Direction)
        ensures
            r == self.heading(),
    {
        self.direction
    }

    /// The number of cells in the chain.
    pub fn len(&self) -> (r: usize)
        ensures
            r == self.cells().len(),
    {
        self.chain.len()
    }

    /// Whether `p` is one of the snake's cells.
    pub fn occupies(&self, p: Position) -> (r: bool)
        ensures
            r == self.cells().contains(p),
    {
        let mut i: usize = 0;
        while i < self.chain.len()
            invariant
                i <= self.chain@.len(),
                forall|j: int| 0 <= j < i ==> self.chain@[j] != p,
            decreases self.chain@.len() - i,
        {
            if self.chain[i] == p {
                assert(self.cells()[i as int] == p);
                return true;
            }
            i += 1;
        }
        false
    }

    /// Turns towards `requested`, unless it points straight back, in which
    /// case nothing changes.
    pub fn set_direction(&mut self, requested: Direction)
        ensures
            final(self).cells() == old(self).cells(),
            final(self).heading() == turned(old(self).heading(), requested),
    {
        if requested != self.direction.opposite() {
            self.direction = requested;
        }
    }

    /// Turns by the keys held down, read in the order up, down, left, right.
    pub fn steer(&mut self, up: bool, down: bool, left: bool, right: bool)
        ensures
            final(self).cells() == old(self).cells(),
            final(self).heading() == steered(old(self).heading(), up, down, left, right),
    {
        if up && self.direction != Direction::Down {
            self.direction = Direction::Up;
        } else if down && self.direction != Direction::Up {
            self.direction = Direction::Down;
        } else if left && self.direction != Direction::Right {
            self.direction = Direction::Left;
        } else if right && self.direction != Direction::Left {
            self.direction = Direction::Right;
        }
    }

    /// Moves one cell along the heading: the head steps, and each body
    /// segment, from neck to tail, takes the cell its predecessor has left.
    pub fn advance(&mut self)
        requires
            old(self).wf(),
            can_step(old(self).cells()[0], old(self).heading()),
        ensures
            final(self).wf(),
            final(self).heading() == old(self).heading(),
            final(self).cells() == moved(old(self).cells(), old(self).heading()),
    {
        let ghost before = self.chain@;
        let len = self.chain.len();
        let mut vacated = self.chain[0];
        let head = vacated.step(self.direction);
        self.chain.set(0, head);
        let mut i: usize = 1;
        while i < len
            invariant
                1 <= i <= len,
                len == before.len(),
                self.chain@.len() == len,
                self.direction == old(self).direction,
                before == old(self).chain@,
                self.chain@[0] == step_spec(before[0], self.direction),
                vacated == before[i - 1],
                forall|j: int| 1 <= j < i ==> self.chain@[j] == before[j - 1],
                forall|j: int| i <= j < len ==> self.chain@[j] == before[j],
            decreases len - i,
        {
            let here = self.chain[i];
            self.chain.set(i, vacated);
            vacated = here;
            i += 1;
        }
        assert(self.chain@ =~= moved(before, self.direction));
    }

    /// Adds a segment at the tail, on cell `at`.
    pub fn grow(&mut self, at: Position)
        requires
            old(self).wf(),
        ensures
            final(self).wf(),
            final(self).heading() == old(self).heading(),
            final(self).cells() == old(self).cells().push(at),
    {
        self.chain.push(at);
    }

    /// Whether the head lies on one of the body segments.
    pub fn bites_itself(&self) -> (r: bool)
        requires
            self.wf(),
        ensures
            r == head_on_body(self.cells()),
    {
        let head = self.chain[0];
        let mut i: usize = 1;
        while i < self.chain.len()
            invariant
                1 <= i <= self.chain@.len(),
                head == self.chain@[0],
                forall|j: int| 1 <= j < i ==> self.chain@[j] != head,
            decreases self.chain@.len() - i,
        {
            if self.chain[i] == head {
                assert(self.cells()[i as int] == self.cells()[0]);
                return true;
            }
            i += 1;
        }
        false
    }

    /// Whether the snake is dead within `bounds`: its head has reached a wall
    /// or lies on its own body.
    pub fn is_dead(&self, bounds: &Bounds) -> (r: bool)
        requires
            self.wf(),
        ensures
            r == dead(*bounds, self.cells()),
    {
        !bounds.contains(self.chain[0]) || self.bites_itself()
    }
}

} // verus!
