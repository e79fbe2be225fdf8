use vstd::prelude::*;

verus! {

/// The colour of a lit cell, as red, green and blue.
pub const FOREGROUND: (u8, u8, u8) = (0xAB, 0xAE, 0xCB);

/// The colour of a dark cell, as red, green and blue.
pub const BACKGROUND: (u8, u8, u8) = (0x10, 0x10, 0x20);

/// One cell of the framebuffer as the square of the window that shows it:
/// the corner's coordinates, the side, and whether the cell is lit.
#[derive(Clone, Copy, Debug, PartialEq, Eq, Structural)]
pub struct Tile {
    pub x: i32,
    pub y: i32,
    pub side: u32,
    pub lit: bool,
}

/// The square for the cell in column `x`, row `y` of a framebuffer with rows
/// of `display_width` cells, every cell being `scale` pixels wide and high.
/// The corner's coordinates are the low thirty-two bits of the products.
pub open spec fn tile_at(scale: u32, display_width: u32, buffer: Seq<u8>, x: int, y: int) -> Tile {
    Tile {
        x: (x * scale) as i32,
        y: (y * scale) as i32,
        side: scale,
        lit: buffer[y * display_width + x] > 0,
    }
}

/// The colour that a square is filled with.
pub fn tile_color(tile: &Tile) -> (color: (u8, u8, u8))
    ensures
        color == if tile.lit {
            FOREGROUND
        } else {
            BACKGROUND
        },
{
    if tile.lit {
        FOREGROUND
    } else {
        BACKGROUND
    }
}

/// The squares that show a framebuffer, in the order in which they are
/// drawn: column by column, each column from the top.
pub fn render_tiles(scale: u32, display_width: u32, display_height: u32, buffer: &Vec<u8>) -> (tiles:
    Vec<Tile>)
    requires
        display_width * display_height <= buffer@.len(),
    ensures
        tiles@.len() == display_width * display_height,
        forall|x: int, y: int|
            0 <= x < display_width && 0 <= y < display_height ==> tiles@[x * display_height + y]
                == #[trigger] tile_at(scale, display_width, buffer@, x, y),
{
    let width: usize = display_width as usize;
    let height: usize = display_height as usize;
    let mut tiles: Vec<Tile> = Vec::new();
    let mut x: usize = 0;
    while x < width
        invariant
            x <= width == display_width,
            height == display_height,
            width * height <= buffer.len(),
            tiles@.len() == x * height,
            forall|i: int, j: int|
                0 <= i < x && 0 <= j < height ==> tiles@[i * height + j] == #[trigger] tile_at(
                    scale,
                    display_width,
                    buffer@,
                    i,
                    j,
                ),
        decreases width - x,
    {
        let mut y: usize = 0;
        while y < height
            invariant
                x < width == display_width,
                y <= height == display_height,
                width * height <= buffer.len(),
                tiles@.len() == x * height + y,
                forall|i: int, j: int|
                    0 <= i < x && 0 <= j < height ==> tiles@[i * height + j] == #[trigger] tile_at(
                        scale,
                        display_width,
                        buffer@,
                        i,
                        j,
                    ),
                forall|j: int|
                    0 <= j < y ==> tiles@[x * height + j] == #[trigger] tile_at(
                        scale,
                        display_width,
                        buffer@,
                        x as int,
                        j,
                    ),
            decreases height - y,
        {
            assert(0 <= y * width && y * width + x < width * height) by (nonlinear_arith)
                requires
                    0 <= x < width,
                    0 <= y < height,
            ;
            let cell: u8 = buffer[y * width + x];
            assert(x * scale <= 0xFFFF_FFFF * 0xFFFF_FFFF && y * scale <= 0xFFFF_FFFF
                * 0xFFFF_FFFF) by (nonlinear_arith)
                requires
                    0 <= x <= 0xFFFF_FFFF,
                    0 <= y <= 0xFFFF_FFFF,
                    0 <= scale <= 0xFFFF_FFFF,
            ;
            let left: i32 = #[verifier::truncate]
            ((x as u64 * scale as u64) as i32);
            let top: i32 = #[verifier::truncate]
            ((y as u64 * scale as u64) as i32);
            tiles.push(Tile { x: left, y: top, side: scale, lit: cell > 0 });
            assert forall|i: int, j: int| 0 <= i < x && 0 <= j < height implies tiles@[i * height
                + j] == #[trigger] tile_at(scale, display_width, buffer@, i, j) by {
                assert(i * height + j < x * height) by (nonlinear_arith)
                    requires
                        0 <= i < x,
                        0 <= j < height,
                ;
            }
            y += 1;
        }
        assert((x + 1) * height == x * height + height) by (nonlinear_arith);
        x += 1;
    }
    tiles
}

} // verus!
