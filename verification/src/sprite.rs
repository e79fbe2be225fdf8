use crate::model::{VIDEO_HEIGHT, VIDEO_SIZE, VIDEO_WIDTH};
use vstd::prelude::*;

verus! {

/// Whether the bit of a sprite row in column `col` is set; column 0 is the
/// leftmost cell and the most significant bit.
pub open spec fn sprite_bit(row_byte: u8, col: u8) -> bool {
    row_byte & (0x80u8 >> col) != 0
}

/// The cell that row `row`, column `col` of a sprite lands on when the sprite's
/// top-left corner is at (`x0`, `y0`): both coordinates wrap around the screen.
pub open spec fn sprite_cell(x0: int, y0: int, row: int, col: int) -> int {
    ((y0 + row) % (VIDEO_HEIGHT as int)) * VIDEO_WIDTH + (x0 + col) % (VIDEO_WIDTH as int)
}

/// Whether the part of a sprite made of its first `rows` rows, and of the first
/// `cols` columns of the row after them, has a set bit on screen cell `cell`.
/// The sprite's rows are the bytes of `memory` from address `index` on, and
/// its top-left corner is at (`x0`, `y0`).
pub open spec fn sprite_hits(
    memory: Seq<u8>,
    index: int,
    rows: int,
    cols: int,
    x0: int,
    y0: int,
    cell: int,
) -> bool {
    let col = (cell % (VIDEO_WIDTH as int) - x0) % (VIDEO_WIDTH as int);
    let row = (cell / (VIDEO_WIDTH as int) - y0) % (VIDEO_HEIGHT as int);
    &&& col < 8
    &&& row < rows || (row == rows && col < cols)
    &&& sprite_bit(memory[index + row], col as u8)
}

/// Whether that part of the sprite has a set bit on a cell that is lit in `video`.
pub open spec fn sprite_collides(
    video: Seq<bool>,
    memory: Seq<u8>,
    index: int,
    rows: int,
    cols: int,
    x0: int,
    y0: int,
) -> bool {
    exists|cell: int|
        0 <= cell < VIDEO_SIZE && video[cell] && #[trigger] sprite_hits(
            memory,
            index,
            rows,
            cols,
            x0,
            y0,
            cell,
        )
}

/// Taking one more column of a row into the drawn part adds the cell that
/// this column lands on, if its bit is set, and no other cell; that cell was
/// not under the part before.
pub proof fn lemma_sprite_next_column(
    memory: Seq<u8>,
    index: int,
    row: int,
    col: int,
    x0: int,
    y0: int,
)
    requires
        0 <= row < VIDEO_HEIGHT,
        0 <= col < 8,
        0 <= x0,
        0 <= y0,
    ensures
        0 <= sprite_cell(x0, y0, row, col) < VIDEO_SIZE,
        !sprite_hits(memory, index, row, col, x0, y0, sprite_cell(x0, y0, row, col)),
        forall|cell: int|
            0 <= cell < VIDEO_SIZE ==> (#[trigger] sprite_hits(memory, index, row, col + 1, x0, y0, cell)
                <==> sprite_hits(memory, index, row, col, x0, y0, cell) || (cell == sprite_cell(
                x0,
                y0,
                row,
                col,
            ) && sprite_bit(memory[index + row], col as u8))),
{
}

/// A part that ends with a whole row is the part made of the rows up to and
/// with that row.
pub proof fn lemma_sprite_next_row(
    video: Seq<bool>,
    memory: Seq<u8>,
    index: int,
    row: int,
    next: int,
    x0: int,
    y0: int,
)
    requires
        next == row + 1,
    ensures
        forall|cell: int|
            #![trigger sprite_hits(memory, index, row, 8, x0, y0, cell)]
            #![trigger sprite_hits(memory, index, next, 0, x0, y0, cell)]
            sprite_hits(memory, index, row, 8, x0, y0, cell) == sprite_hits(
                memory,
                index,
                next,
                0,
                x0,
                y0,
                cell,
            ),
        sprite_collides(video, memory, index, row, 8, x0, y0) == sprite_collides(
            video,
            memory,
            index,
            next,
            0,
            x0,
            y0,
        ),
{
    if sprite_collides(video, memory, index, row, 8, x0, y0) {
        let cell = choose|cell: int|
            0 <= cell < VIDEO_SIZE && video[cell] && #[trigger] sprite_hits(
                memory,
                index,
                row,
                8,
                x0,
                y0,
                cell,
            );
        assert(sprite_hits(memory, index, next, 0, x0, y0, cell));
    }
    if sprite_collides(video, memory, index, next, 0, x0, y0) {
        let cell = choose|cell: int|
            0 <= cell < VIDEO_SIZE && video[cell] && #[trigger] sprite_hits(
                memory,
                index,
                next,
                0,
                x0,
                y0,
                cell,
            );
        assert(sprite_hits(memory, index, row, 8, x0, y0, cell));
    }
}

/// Taking one more column into the drawn part makes it collide exactly when
/// it collided before or the added cell is lit and under a set bit.
pub proof fn lemma_collides_next_column(
    video: Seq<bool>,
    memory: Seq<u8>,
    index: int,
    row: int,
    col: int,
    x0: int,
    y0: int,
)
    requires
        0 <= row < VIDEO_HEIGHT,
        0 <= col < 8,
        0 <= x0,
        0 <= y0,
    ensures
        sprite_collides(video, memory, index, row, col + 1, x0, y0) <==> sprite_collides(
            video,
            memory,
            index,
            row,
            col,
            x0,
            y0,
        ) || (video[sprite_cell(x0, y0, row, col)] && sprite_bit(memory[index + row], col as u8)),
{
    lemma_sprite_next_column(memory, index, row, col, x0, y0);
    let target = sprite_cell(x0, y0, row, col);
    if sprite_collides(video, memory, index, row, col, x0, y0) {
        let cell = choose|cell: int|
            0 <= cell < VIDEO_SIZE && video[cell] && #[trigger] sprite_hits(
                memory,
                index,
                row,
                col,
                x0,
                y0,
                cell,
            );
        assert(sprite_hits(memory, index, row, col + 1, x0, y0, cell));
    }
    if video[target] && sprite_bit(memory[index + row], col as u8) {
        assert(sprite_hits(memory, index, row, col + 1, x0, y0, target));
    }
}

/// No cell is under the empty part of a sprite.
pub proof fn lemma_sprite_nothing_drawn(
    video: Seq<bool>,
    memory: Seq<u8>,
    index: int,
    x0: int,
    y0: int,
)
    ensures
        forall|cell: int| !#[trigger] sprite_hits(memory, index, 0, 0, x0, y0, cell),
        !sprite_collides(video, memory, index, 0, 0, x0, y0),
{
}

} // verus!
