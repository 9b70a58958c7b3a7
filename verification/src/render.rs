use vstd::prelude::*;

use crate::board::Point;
use crate::game::contains_point;

verus! {

/// The byte for a cell holding a snake segment: ASCII '#'.
pub const SNAKE_BYTE: u8 = 35;

/// The byte for the food cell: ASCII '*'.
pub const FOOD_BYTE: u8 = 42;

/// The byte for an empty cell: ASCII '-'.
pub const EMPTY_BYTE: u8 = 45;

/// The byte closing each row: ASCII newline.
pub const NEWLINE_BYTE: u8 = 10;

/// The byte drawn for one cell: `#` where some snake segment lies (the snake
/// is tested first and wins over the food), `*` for the food cell, `-` for
/// every other cell.
pub open spec fn cell_symbol(snake: Seq<Point>, food: Point, cell: Point) -> u8 {
    if snake.contains(cell) {
        SNAKE_BYTE
    } else if cell == food {
        FOOD_BYTE
    } else {
        EMPTY_BYTE
    }
}

/// The first `cols` cells of row `row`, left to right.
pub open spec fn spec_render_row(snake: Seq<Point>, food: Point, row: u32, cols: u32) -> Seq<u8>
    decreases cols,
{
    if cols == 0 {
        Seq::empty()
    } else {
        spec_render_row(snake, food, row, (cols - 1) as u32).push(
            cell_symbol(snake, food, Point { x: row, y: (cols - 1) as u32 }),
        )
    }
}

/// The first `rows` rows of the frame, top to bottom, each of `width` cells
/// and closed by a newline.
pub open spec fn spec_render(snake: Seq<Point>, food: Point, width: u32, rows: u32) -> Seq<u8>
    decreases rows,
{
    if rows == 0 {
        Seq::empty()
    } else {
        spec_render(snake, food, width, (rows - 1) as u32) + spec_render_row(
            snake,
            food,
            (rows - 1) as u32,
            width,
        ).push(NEWLINE_BYTE)
    }
}

/// Draw one frame of `height` lines of `width` cells, row-major, as bytes.
/// The frame is a function of the snake, the food and the bounds alone: equal
/// inputs give byte-identical output.
pub fn render_game(snake: &Vec<Point>, food: &Point, width: &u32, height: &u32) -> (frame: Vec<u8>)
    ensures
        frame@ == spec_render(snake@, *food, *width, *height),
{
    let mut frame: Vec<u8> = Vec::new();
    let mut i: u32 = 0;
    while i < *height
        invariant
            i <= *height,
            frame@ == spec_render(snake@, *food, *width, i),
        decreases *height - i,
    {
        let mut j: u32 = 0;
        while j < *width
            invariant
                j <= *width,
                frame@ == spec_render(snake@, *food, *width, i) + spec_render_row(
                    snake@,
                    *food,
                    i,
                    j,
                ),
            decreases *width - j,
        {
            let cell = Point { x: i, y: j };
            let symbol: u8 = if contains_point(snake, &cell) {
                SNAKE_BYTE
            } else if cell == *food {
                FOOD_BYTE
            } else {
                EMPTY_BYTE
            };
            frame.push(symbol);
            proof {
                assert(frame@ =~= spec_render(snake@, *food, *width, i) + spec_render_row(
                    snake@,
                    *food,
                    i,
                    (j + 1) as u32,
                ));
            }
            j += 1;
        }
        frame.push(NEWLINE_BYTE);
        proof {
            assert(frame@ =~= spec_render(snake@, *food, *width, (i + 1) as u32));
        }
        i += 1;
    }
    frame
}

} // verus!
