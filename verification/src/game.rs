use vstd::prelude::*;

use rand::Rng;

use crate::board::{in_bounds, next_head, spec_next_head, Dir, Point};

verus! {

/// Relies on rand::Rng::gen_range over the half-open range `0..bound`, on the
/// thread-local generator from rand::thread_rng: the sample lies in
/// `[0, bound)`. Nothing more can be promised of a random draw; gen_range
/// panics on an empty range, so the bound must be positive.
#[verifier::external_body]
fn random_below(bound: u32) -> (r: u32)
    requires
        bound >= 1,
    ensures
        r < bound,
{
    rand::thread_rng().gen_range(0..bound)
}

/// Re-place the food pellet uniformly at random on the board: the row below
/// the height, the column below the width. No check against the snake body is
/// made; the pellet may land under the snake.
pub fn generate_food(food: &mut Point, width: &u32, height: &u32)
    requires
        *width >= 1,
        *height >= 1,
    ensures
        in_bounds(*final(food), *width, *height),
{
    let x = random_below(*height);
    let y = random_below(*width);
    *food = Point { x, y };
}

/// The direction the next tick uses, given which of the four arrow keys are
/// held and the previous direction: the first held key in the fixed priority
/// order up, down, left, right wins, and with none held the previous
/// direction is kept.
pub open spec fn spec_next_direction(up: bool, down: bool, left: bool, right: bool, prev: Dir) -> Dir {
    if up {
        Dir::Up
    } else if down {
        Dir::Down
    } else if left {
        Dir::Left
    } else if right {
        Dir::Right
    } else {
        prev
    }
}

/// Resolve the key snapshot of this tick into the next direction. The
/// priority order up > down > left > right is a fixed, deterministic
/// tie-break; absence of input keeps the snake moving as before.
pub fn check_for_input(up: bool, down: bool, left: bool, right: bool, dir: Dir) -> (r: Dir)
    ensures
        r == spec_next_direction(up, down, left, right, dir),
{
    if up {
        Dir::Up
    } else if down {
        Dir::Down
    } else if left {
        Dir::Left
    } else if right {
        Dir::Right
    } else {
        dir
    }
}

/// Whether some segment of the body occupies `p`.
pub fn contains_point(body: &Vec<Point>, p: &Point) -> (r: bool)
    ensures
        r == body@.contains(*p),
{
    let mut i: usize = 0;
    while i < body.len()
        invariant
            i <= body@.len(),
            forall|j: int| 0 <= j < i ==> body@[j] != *p,
        decreases body@.len() - i,
    {
        if body[i] == *p {
            return true;
        }
        i += 1;
    }
    false
}

/// One tick of the game. The head moves one step in `dir` with wraparound;
/// if it lands on the food, the food is re-placed at random and the body
/// keeps its tail (growth by one), otherwise the tail is dropped (pure
/// movement). The self-collision check runs against the body as it stands
/// after that step and before the new head is inserted; the new head is
/// inserted in front either way, so the losing frame still shows it. The
/// result says whether the game goes on: `false` exactly when the new head
/// ran into the remaining body.
pub fn progress_game(
    snake: &mut Vec<Point>,
    dir: &Dir,
    food: &mut Point,
    width: &u32,
    height: &u32,
) -> (running: bool)
    requires
        old(snake)@.len() >= 1,
        in_bounds(old(snake)@[0], *width, *height),
    ensures
        ({
            let new_head = spec_next_head(old(snake)@[0], *dir, *width, *height);
            &&& new_head == *old(food) ==> {
                &&& final(snake)@ == seq![new_head] + old(snake)@
                &&& final(snake)@.len() == old(snake)@.len() + 1
                &&& in_bounds(*final(food), *width, *height)
                &&& running == !old(snake)@.contains(new_head)
            }
            &&& new_head != *old(food) ==> {
                &&& final(snake)@ == seq![new_head] + old(snake)@.drop_last()
                &&& final(snake)@.len() == old(snake)@.len()
                &&& *final(food) == *old(food)
                &&& running == !old(snake)@.drop_last().contains(new_head)
            }
        }),
{
    let head = snake[0];
    let new_pos = next_head(head, dir, width, height);
    if new_pos == *food {
        generate_food(food, width, height);
    } else {
        let _ = snake.pop();
        proof {
            assert(snake@ =~= old(snake)@.drop_last());
        }
    }
    let running = !contains_point(snake, &new_pos);
    snake.insert(0, new_pos);
    proof {
        if new_pos == *old(food) {
            assert(snake@ =~= seq![new_pos] + old(snake)@);
        } else {
            assert(snake@ =~= seq![new_pos] + old(snake)@.drop_last());
        }
    }
    running
}

} // verus!
