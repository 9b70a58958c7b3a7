use vstd::prelude::*;

verus! {

/// A cell of the toroidal grid: `x` is the row, bounded by the board height,
/// and `y` is the column, bounded by the board width.
#[derive(Clone, Copy, Debug, PartialEq, Eq, Structural)]
pub struct Point {
    pub x: u32,
    pub y: u32,
}

/// The direction the snake currently moves in. There is no idle state: the
/// snake always has a direction.
#[derive(Clone, Copy, Debug, PartialEq, Eq, Structural)]
pub enum Dir {
    Up,
    Down,
    Left,
    Right,
}

/// A point lies on a board of the given bounds.
pub open spec fn in_bounds(p: Point, width: u32, height: u32) -> bool {
    p.x < height && p.y < width
}

/// One conditional subtraction maps a coordinate that overshot the bound by
/// less than the bound back into `[0, bound)`; a value already below the
/// bound passes through unchanged. This is all a single one-unit step needs,
/// not a general modulo.
pub open spec fn wrap_val(val: u32, bound: u32) -> u32 {
    if val >= bound {
        (val - bound) as u32
    } else {
        val
    }
}

/// Normalize one coordinate after a single step past the bound.
pub fn get_valid_val(val: u32, bound: &u32) -> (r: u32)
    ensures
        r == wrap_val(val, *bound),
{
    if val >= *bound {
        val - *bound
    } else {
        val
    }
}

/// Normalize both coordinates of a point: the row against the height, the
/// column against the width.
pub fn get_valid_point(inp_point: Point, width: &u32, height: &u32) -> (r: Point)
    ensures
        r.x == wrap_val(inp_point.x, *height),
        r.y == wrap_val(inp_point.y, *width),
{
    Point { x: get_valid_val(inp_point.x, height), y: get_valid_val(inp_point.y, width) }
}

/// Where one step from `head` in direction `dir` lands on a board of the
/// given bounds: moving up from row 0 wraps to row `height - 1`, moving left
/// from column 0 wraps to column `width - 1`, moving down from row
/// `height - 1` wraps to row 0, moving right from column `width - 1` wraps to
/// column 0; every other move changes exactly one coordinate by one.
pub open spec fn spec_next_head(head: Point, dir: Dir, width: u32, height: u32) -> Point
    recommends
        in_bounds(head, width, height),
{
    match dir {
        Dir::Up => Point {
            x: if head.x > 0 { (head.x - 1) as u32 } else { (height - 1) as u32 },
            y: head.y,
        },
        Dir::Down => Point {
            x: if head.x + 1 >= height { 0u32 } else { (head.x + 1) as u32 },
            y: head.y,
        },
        Dir::Left => Point {
            x: head.x,
            y: if head.y > 0 { (head.y - 1) as u32 } else { (width - 1) as u32 },
        },
        Dir::Right => Point {
            x: head.x,
            y: if head.y + 1 >= width { 0u32 } else { (head.y + 1) as u32 },
        },
    }
}

/// The wraparound law for a single step from a point on the board: moving up
/// from row 0 yields row `height - 1`, moving left from column 0 yields
/// column `width - 1`, moving down from row `height - 1` yields row 0,
/// moving right from column `width - 1` yields column 0, and every other
/// move changes the moved coordinate by exactly one while the other
/// coordinate is kept.
pub proof fn lemma_wraparound(head: Point, width: u32, height: u32)
    requires
        in_bounds(head, width, height),
    ensures
        head.x == 0 ==> spec_next_head(head, Dir::Up, width, height) == (Point {
            x: (height - 1) as u32,
            y: head.y,
        }),
        head.x > 0 ==> spec_next_head(head, Dir::Up, width, height) == (Point {
            x: (head.x - 1) as u32,
            y: head.y,
        }),
        head.x == height - 1 ==> spec_next_head(head, Dir::Down, width, height) == (Point {
            x: 0u32,
            y: head.y,
        }),
        head.x < height - 1 ==> spec_next_head(head, Dir::Down, width, height) == (Point {
            x: (head.x + 1) as u32,
            y: head.y,
        }),
        head.y == 0 ==> spec_next_head(head, Dir::Left, width, height) == (Point {
            x: head.x,
            y: (width - 1) as u32,
        }),
        head.y > 0 ==> spec_next_head(head, Dir::Left, width, height) == (Point {
            x: head.x,
            y: (head.y - 1) as u32,
        }),
        head.y == width - 1 ==> spec_next_head(head, Dir::Right, width, height) == (Point {
            x: head.x,
            y: 0u32,
        }),
        head.y < width - 1 ==> spec_next_head(head, Dir::Right, width, height) == (Point {
            x: head.x,
            y: (head.y + 1) as u32,
        }),
{
}

/// Compute the head position one step away from `head` in direction `dir`,
/// with toroidal wraparound at every edge of the board.
pub fn next_head(head: Point, dir: &Dir, width: &u32, height: &u32) -> (r: Point)
    requires
        in_bounds(head, *width, *height),
    ensures
        r == spec_next_head(head, *dir, *width, *height),
        in_bounds(r, *width, *height),
{
    match dir {
        Dir::Up => get_valid_point(
            Point { x: if head.x > 0 { head.x - 1 } else { *height - 1 }, y: head.y },
            width,
            height,
        ),
        Dir::Down => get_valid_point(Point { x: head.x + 1, y: head.y }, width, height),
        Dir::Left => get_valid_point(
            Point { x: head.x, y: if head.y > 0 { head.y - 1 } else { *width - 1 } },
            width,
            height,
        ),
        Dir::Right => get_valid_point(Point { x: head.x, y: head.y + 1 }, width, height),
    }
}

} // verus!
