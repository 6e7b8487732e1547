use vstd::prelude::*;
use crate::grid::{in_inner_field, Bounds, Position};
use crate::snake::Snake;
use rand::rngs::StdRng;
use rand::Rng;

verus! {

#[verifier::external_type_specification]
#[verifier::external_body]
pub struct ExStdRng(StdRng);

/// How many random draws food placement makes before it walks the field in
/// order for a free cell.
pub const MAX_DRAWS: u32 = 10000;

/// Relies on rand::Rng::gen_range on the half-open range `lo..hi` of `i32`:
/// the draw lies in that range. It panics on an empty range, which the
/// `requires` rules out.
#[verifier::external_body]
fn draw(rng: &mut StdRng, lo: i32, hi: i32) -> (r: i32)
    requires
        lo < hi,
    ensures
        lo <= r < hi,
{
    rng.gen_range(lo..hi)
}

/// Whether the inner field of `b` holds at least one cell.
pub open spec fn inner_field_nonempty(b: Bounds) -> bool {
    b.half_width >= 2 && b.half_height >= 2
}

/// Whether every cell of the inner field of `b` is one of `cells`.
pub open spec fn field_full(b: Bounds, cells: Seq<Position>) -> bool {
    forall|p: Position| #[trigger] in_inner_field(b, p) ==> cells.contains(p)
}

/// Whether food may be put on `p`: in the inner field and off the snake.
pub open spec fn free_spot(b: Bounds, cells: Seq<Position>, p: Position) -> bool {
    in_inner_field(b, p) && !cells.contains(p)
}

/// A cell of the inner field of `b`, drawn at random; `None` where that
/// field is empty.
pub fn random_inner_position(rng: &mut StdRng, b: &Bounds) -> (r: Option<Position>)
    requires
        b.wf(),
    ensures
        r.is_none() <==> !inner_field_nonempty(*b),
        r matches Some(p) ==> in_inner_field(*b, p),
{
    if b.half_width < 2 || b.half_height < 2 {
        return None;
    }
    let x = draw(rng, 2 - b.half_width, b.half_width - 1);
    let y = draw(rng, 2 - b.half_height, b.half_height - 1);
    Some(Position { x, y })
}

/// Whether food may be put on `candidate`: in the inner field and off the
/// snake.
pub fn food_spot_free(snake: &Snake, b: &Bounds, candidate: Position) -> (r: bool)
    ensures
        r == free_spot(*b, snake.cells(), candidate),
{
    let (x, y) = (candidate.x as i64, candidate.y as i64);
    let (w, h) = (b.half_width as i64, b.half_height as i64);
    -w + 1 < x && x < w - 1 && -h + 1 < y && y < h - 1 && !snake.occupies(candidate)
}

/// The first free cell of the inner field, walking columns left to right and
/// each column bottom to top; `None` where the snake covers the whole field.
pub fn first_free_cell(snake: &Snake, b: &Bounds) -> (r: Option<Position>)
    requires
        b.wf(),
    ensures
        r.is_none() <==> field_full(*b, snake.cells()),
        r matches Some(p) ==> free_spot(*b, snake.cells(), p),
{
    let x_end = b.half_width - 1;
    let y_end = b.half_height - 1;
    let mut x: i32 = 2 - b.half_width;
    while x < x_end
        invariant
            b.wf(),
            x_end == b.half_width - 1,
            y_end == b.half_height - 1,
            x >= 2 - b.half_width,
            forall|p: Position| #[trigger] in_inner_field(*b, p) && p.x < x ==> snake.cells().contains(p),
        decreases x_end - x,
    {
        let mut y: i32 = 2 - b.half_height;
        while y < y_end
            invariant
                b.wf(),
                x < x_end,
                x_end == b.half_width - 1,
                x >= 2 - b.half_width,
                y_end == b.half_height - 1,
                y >= 2 - b.half_height,
                forall|p: Position| #[trigger] in_inner_field(*b, p) && (p.x < x || (p.x == x && p.y < y))
                    ==> snake.cells().contains(p),
            decreases y_end - y,
        {
            let c = Position { x, y };
            if !snake.occupies(c) {
                assert(in_inner_field(*b, c));
                return Some(c);
            }
            y += 1;
        }
        x += 1;
    }
    None
}

/// A cell for new food, in the inner field and off the snake. Cells are
/// drawn at random until one is free; after `MAX_DRAWS` misses the field is
/// walked in order instead. `None` only where the snake covers the whole
/// inner field.
pub fn spawn_food(rng: &mut StdRng, snake: &Snake, b: &Bounds) -> (r: Option<Position>)
    requires
        b.wf(),
    ensures
        r.is_none() <==> field_full(*b, snake.cells()),
        r matches Some(p) ==> free_spot(*b, snake.cells(), p),
{
    let mut tries: u32 = 0;
    while tries < MAX_DRAWS
        invariant
            b.wf(),
        decreases MAX_DRAWS - tries,
    {
        match random_inner_position(rng, b) {
            Some(p) => {
                if food_spot_free(snake, b, p) {
                    return Some(p);
                }
            },
            None => {
                return first_free_cell(snake, b);
            },
        }
        tries += 1;
    }
    first_free_cell(snake, b)
}

} // verus!
