//! The monochrome display and the sprites drawn onto it.
//!
//! The display is a torus of 32 rows by 64 columns. Drawing XORs a sprite
//! onto it: coordinates wrap around both edges and never clip.

use vstd::prelude::*;
use crate::chip8::{DISPLAY_HEIGHT, DISPLAY_WIDTH};

verus! {

/// Largest number of rows a sprite may have.
pub const MAX_SPRITE_HEIGHT: usize = 15;

/// Number of pixel columns in one sprite row.
pub const SPRITE_WIDTH: usize = 8;

/// A grid of the display's dimensions.
pub open spec fn grid_wf(grid: Seq<Seq<bool>>) -> bool {
    &&& grid.len() == DISPLAY_HEIGHT
    &&& forall|row: int| 0 <= row < DISPLAY_HEIGHT ==> (#[trigger] grid[row]).len() == DISPLAY_WIDTH
}

/// The grid with every pixel dark.
pub open spec fn blank_grid() -> Seq<Seq<bool>> {
    Seq::new(DISPLAY_HEIGHT as nat, |row: int| Seq::new(DISPLAY_WIDTH as nat, |col: int| false))
}

/// Whether `(row, col)` names a cell of the display.
pub open spec fn on_display(row: int, col: int) -> bool {
    0 <= row < DISPLAY_HEIGHT && 0 <= col < DISPLAY_WIDTH
}

/// Sprite rows are between one and fifteen bytes.
pub open spec fn sprite_rows_ok(rows: Seq<u8>) -> bool {
    1 <= rows.len() <= MAX_SPRITE_HEIGHT
}

/// Whether `(r, c)` names a pixel position of a sprite with these rows.
pub open spec fn in_sprite(rows: Seq<u8>, r: int, c: int) -> bool {
    0 <= r < rows.len() && 0 <= c < SPRITE_WIDTH
}

/// Whether the sprite has a pixel at its own row `r`, column `c`. Column 0
/// is the most significant bit of the row's byte.
pub open spec fn sprite_bit(rows: Seq<u8>, r: int, c: int) -> bool {
    rows[r] & (0x80u8 >> (c as u8)) != 0
}

/// Whether the sprite has at least one pixel.
pub open spec fn sprite_has_pixel(rows: Seq<u8>) -> bool {
    exists|r: int, c: int| in_sprite(rows, r, c) && sprite_bit(rows, r, c)
}

/// The display row on which the sprite's row `r` lands when the sprite's
/// top edge is at `y`.
pub open spec fn target_row(y: int, r: int) -> int {
    (y + r) % (DISPLAY_HEIGHT as int)
}

/// The display column on which the sprite's column `c` lands when the
/// sprite's left edge is at `x`.
pub open spec fn target_col(x: int, c: int) -> int {
    (x + c) % (DISPLAY_WIDTH as int)
}

/// How many rows below the sprite's top edge the display row `row` lies,
/// going around the torus.
pub open spec fn row_offset(y: int, row: int) -> int {
    (row - y) % (DISPLAY_HEIGHT as int)
}

/// How many columns right of the sprite's left edge the display column
/// `col` lies, going around the torus.
pub open spec fn col_offset(x: int, col: int) -> int {
    (col - x) % (DISPLAY_WIDTH as int)
}

/// Whether a sprite placed with its top-left corner at column `x`, row `y`
/// has a pixel over the display cell in row `row`, column `col`.
pub open spec fn sprite_covers(rows: Seq<u8>, x: int, y: int, row: int, col: int) -> bool {
    &&& in_sprite(rows, row_offset(y, row), col_offset(x, col))
    &&& sprite_bit(rows, row_offset(y, row), col_offset(x, col))
}

/// The grid after the sprite has been drawn at `(x, y)`: each cell under a
/// sprite pixel is inverted, every other cell is kept.
pub open spec fn drawn(grid: Seq<Seq<bool>>, rows: Seq<u8>, x: int, y: int) -> Seq<Seq<bool>> {
    Seq::new(
        DISPLAY_HEIGHT as nat,
        |row: int|
            Seq::new(
                DISPLAY_WIDTH as nat,
                |col: int| grid[row][col] != sprite_covers(rows, x, y, row, col),
            ),
    )
}

/// Whether drawing the sprite at `(x, y)` turns some lit pixel dark.
pub open spec fn erases(grid: Seq<Seq<bool>>, rows: Seq<u8>, x: int, y: int) -> bool {
    exists|row: int, col: int|
        on_display(row, col) && grid[row][col] && sprite_covers(rows, x, y, row, col)
}

/// Drawing keeps the display's dimensions.
pub proof fn lemma_drawn_wf(grid: Seq<Seq<bool>>, rows: Seq<u8>, x: int, y: int)
    ensures
        grid_wf(drawn(grid, rows, x, y)),
{
}

/// Drawing wraps around the torus and never clips. The sprite's pixel in
/// its row `r`, column `c` lands on the display cell in row `(y + r) mod 32`,
/// column `(x + c) mod 64`: that cell is inverted if the pixel is set and
/// kept if it is not. No other pixel of the sprite lands on that cell.
pub proof fn lemma_draw_wraps(grid: Seq<Seq<bool>>, rows: Seq<u8>, x: int, y: int, r: int, c: int)
    requires
        grid_wf(grid),
        sprite_rows_ok(rows),
        in_sprite(rows, r, c),
    ensures
        on_display(target_row(y, r), target_col(x, c)),
        sprite_covers(rows, x, y, target_row(y, r), target_col(x, c)) == sprite_bit(rows, r, c),
        drawn(grid, rows, x, y)[target_row(y, r)][target_col(x, c)] == (grid[target_row(
            y,
            r,
        )][target_col(x, c)] != sprite_bit(rows, r, c)),
        forall|r2: int, c2: int|
            in_sprite(rows, r2, c2) && #[trigger] target_row(y, r2) == target_row(y, r)
                && #[trigger] target_col(x, c2) == target_col(x, c) ==> r2 == r && c2 == c,
{
    lemma_offsets_invert(x, y, r, c);
}

/// Drawing keeps every cell on which no set pixel of the sprite lands.
pub proof fn lemma_draw_keeps_the_rest(
    grid: Seq<Seq<bool>>,
    rows: Seq<u8>,
    x: int,
    y: int,
    row: int,
    col: int,
)
    requires
        grid_wf(grid),
        sprite_rows_ok(rows),
        on_display(row, col),
        forall|r: int, c: int|
            in_sprite(rows, r, c) && sprite_bit(rows, r, c) ==> !(#[trigger] target_row(y, r) == row
                && #[trigger] target_col(x, c) == col),
    ensures
        drawn(grid, rows, x, y)[row][col] == grid[row][col],
{
    let r = row_offset(y, row);
    let c = col_offset(x, col);
    if sprite_covers(rows, x, y, row, col) {
        assert(target_row(y, r) == row && target_col(x, c) == col);
    }
}

/// Drawing a sprite a second time at the same place undoes the first draw.
/// On a blank display the first draw erases nothing, and the second erases
/// a pixel exactly when the sprite has one.
pub proof fn lemma_draw_twice(grid: Seq<Seq<bool>>, rows: Seq<u8>, x: int, y: int)
    requires
        grid_wf(grid),
        sprite_rows_ok(rows),
    ensures
        drawn(drawn(grid, rows, x, y), rows, x, y) == grid,
        grid == blank_grid() ==> !erases(grid, rows, x, y),
        grid == blank_grid() ==> (erases(drawn(grid, rows, x, y), rows, x, y) <==> sprite_has_pixel(
            rows,
        )),
{
    assert(drawn(drawn(grid, rows, x, y), rows, x, y) =~~= grid);
    if grid == blank_grid() {
        let once = drawn(grid, rows, x, y);
        if sprite_has_pixel(rows) {
            let (r, c) = choose|r: int, c: int| in_sprite(rows, r, c) && sprite_bit(rows, r, c);
            let row = target_row(y, r);
            let col = target_col(x, c);
            lemma_offsets_invert(x, y, r, c);
            assert(on_display(row, col) && once[row][col] && sprite_covers(rows, x, y, row, col));
        }
        if erases(once, rows, x, y) {
            let (row, col) = choose|row: int, col: int|
                on_display(row, col) && once[row][col] && sprite_covers(rows, x, y, row, col);
            assert(in_sprite(rows, row_offset(y, row), col_offset(x, col)) && sprite_bit(
                rows,
                row_offset(y, row),
                col_offset(x, col),
            ));
        }
    }
}

/// On the torus, the cell on which a sprite position lands lies that
/// position's offsets from the sprite's corner, and no other cell does.
proof fn lemma_offsets_invert(x: int, y: int, r: int, c: int)
    requires
        0 <= r < DISPLAY_HEIGHT,
        0 <= c < DISPLAY_WIDTH,
    ensures
        on_display(target_row(y, r), target_col(x, c)),
        forall|row: int|
            0 <= row < DISPLAY_HEIGHT ==> (#[trigger] row_offset(y, row) == r <==> row
                == target_row(y, r)),
        forall|col: int|
            0 <= col < DISPLAY_WIDTH ==> (#[trigger] col_offset(x, col) == c <==> col
                == target_col(x, c)),
{
}

pub struct Display {
    pixels: Vec<Vec<u8>>,
}

pub struct Sprite {
    pixels: Vec<u8>,
    height: usize,
}

impl View for Sprite {
    type V = Seq<u8>;

    /// The sprite's rows, top to bottom, one byte each.
    closed spec fn view(&self) -> Seq<u8> {
        self.pixels@
    }
}

impl Sprite {
    /// The recorded height is the number of rows, and that number is legal.
    pub closed spec fn wf(&self) -> bool {
        &&& self.height == self.pixels@.len()
        &&& sprite_rows_ok(self.pixels@)
    }

    /// A well-formed sprite has between one and fifteen rows.
    pub proof fn lemma_view_wf(&self)
        requires
            self.wf(),
        ensures
            sprite_rows_ok(self@),
    {
    }

    /// A sprite of the given rows.
    pub fn new(sprite: Vec<u8>) -> (made: Sprite)
        requires
            sprite_rows_ok(sprite@),
        ensures
            made.wf(),
            made@ == sprite@,
    {
        let height: usize = sprite.len();
        Sprite { pixels: sprite, height }
    }
}

impl View for Display {
    type V = Seq<Seq<bool>>;

    /// The grid of pixels, row by row; `true` is lit.
    closed spec fn view(&self) -> Seq<Seq<bool>> {
        Seq::new(
            self.pixels@.len(),
            |row: int| Seq::new(self.pixels@[row]@.len(), |col: int| self.pixels@[row]@[col] != 0),
        )
    }
}

impl Display {
    /// Thirty-two rows of sixty-four cells, each cell 0 or 1.
    pub closed spec fn wf(&self) -> bool {
        &&& self.pixels@.len() == DISPLAY_HEIGHT
        &&& forall|row: int|
            0 <= row < DISPLAY_HEIGHT ==> (#[trigger] self.pixels@[row])@.len() == DISPLAY_WIDTH
        &&& forall|row: int, col: int|
            on_display(row, col) ==> #[trigger] self.pixels@[row]@[col] <= 1
    }

    /// A well-formed display's view has the display's dimensions.
    pub proof fn lemma_view_wf(&self)
        requires
            self.wf(),
        ensures
            grid_wf(self@),
    {
    }

    /// A blank display.
    pub fn new() -> (display: Display)
        ensures
            display.wf(),
            display@ == blank_grid(),
    {
        let display = Display { pixels: vec![vec![0; DISPLAY_WIDTH]; DISPLAY_HEIGHT] };
        assert(display@ =~~= blank_grid());
        display
    }

    /// Turns every pixel dark.
    pub fn clear(&mut self)
        requires
            old(self).wf(),
        ensures
            final(self).wf(),
            final(self)@ == blank_grid(),
    {
        for row in 0..DISPLAY_HEIGHT
            invariant
                self.wf(),
                forall|i: int, j: int|
                    0 <= i < row && 0 <= j < DISPLAY_WIDTH ==> #[trigger] self.pixels@[i]@[j] == 0,
        {
            for col in 0..DISPLAY_WIDTH
                invariant
                    self.wf(),
                    row < DISPLAY_HEIGHT,
                    forall|i: int, j: int|
                        0 <= i < row && 0 <= j < DISPLAY_WIDTH ==> #[trigger] self.pixels@[i]@[j]
                            == 0,
                    forall|j: int| 0 <= j < col ==> #[trigger] self.pixels@[row as int]@[j] == 0,
            {
                self.pixels[row][col] = 0;
            }
        }
        assert(self@ =~~= blank_grid());
    }

    /// The grid as rows of cells, each cell 1 where the pixel is lit and 0
    /// where it is dark.
    pub fn pixels(&self) -> (grid: &Vec<Vec<u8>>)
        requires
            self.wf(),
        ensures
            grid@.len() == DISPLAY_HEIGHT,
            forall|row: int|
                0 <= row < DISPLAY_HEIGHT ==> (#[trigger] grid@[row])@.len() == DISPLAY_WIDTH,
            forall|row: int, col: int|
                on_display(row, col) ==> #[trigger] grid@[row]@[col] == (if self@[row][col] {
                    1u8
                } else {
                    0u8
                }),
    {
        &self.pixels
    }

    /// XORs the sprite onto the display with its top-left corner at column
    /// `x`, row `y`, both taken around the torus, and reports whether any
    /// lit pixel went dark.
    pub fn draw_sprite(&mut self, sprite: &Sprite, x: usize, y: usize) -> (collision: bool)
        requires
            old(self).wf(),
            sprite.wf(),
        ensures
            final(self).wf(),
            final(self)@ == drawn(old(self)@, sprite@, x as int, y as int),
            collision == erases(old(self)@, sprite@, x as int, y as int),
    {
        let ghost before = self@;
        let ghost rows = sprite@;
        let ghost (gx, gy) = (x as int, y as int);
        let left: usize = x % DISPLAY_WIDTH;
        let top: usize = y % DISPLAY_HEIGHT;
        let mut collision = false;
        for row_index in 0..sprite.height
            invariant
                self.wf(),
                sprite.wf(),
                rows == sprite@,
                gx == x && gy == y,
                left == x % DISPLAY_WIDTH,
                top == y % DISPLAY_HEIGHT,
                collision == erases_before(before, rows, gx, gy, row_index as int, 0),
                forall|i: int, j: int|
                    on_display(i, j) ==> (#[trigger] self.pixels@[i]@[j] != 0) == (before[i][j]
                        != covers_before(rows, gx, gy, row_index as int, 0, i, j)),
        {
            let row: usize = (top + row_index) % DISPLAY_HEIGHT;
            let byte: u8 = sprite.pixels[row_index];
            for col_index in 0..8u8
                invariant
                    self.wf(),
                    sprite.wf(),
                    rows == sprite@,
                    gx == x && gy == y,
                    left == x % DISPLAY_WIDTH,
                    row_index < sprite.height,
                    row == target_row(gy, row_index as int),
                    byte == rows[row_index as int],
                    collision == erases_before(
                        before,
                        rows,
                        gx,
                        gy,
                        row_index as int,
                        col_index as int,
                    ),
                    forall|i: int, j: int|
                        on_display(i, j) ==> (#[trigger] self.pixels@[i]@[j] != 0) == (before[i][j]
                            != covers_before(
                            rows,
                            gx,
                            gy,
                            row_index as int,
                            col_index as int,
                            i,
                            j,
                        )),
            {
                let col: usize = (left + col_index as usize) % DISPLAY_WIDTH;
                let pixel: u8 = self.pixels[row][col];
                let bit: u8 = if byte & (0x80u8 >> col_index) != 0 {
                    1
                } else {
                    0
                };
                let new_pixel: u8 = pixel ^ bit;
                proof {
                    assert(pixel <= 1 && bit <= 1 ==> (pixel ^ bit) <= 1 && ((pixel ^ bit) != 0)
                        == ((pixel != 0) != (bit != 0))) by (bit_vector);
                    lemma_erase_step(
                        before,
                        rows,
                        gx,
                        gy,
                        row_index as int,
                        col_index as int,
                        row as int,
                        col as int,
                    );
                }

                if pixel == 1 && new_pixel == 0 {
                    collision = true;
                }
                self.pixels[row][col] = new_pixel;
            }
            proof {
                lemma_erase_next_row(before, rows, gx, gy, row_index as int);
            }
        }
        proof {
            lemma_erase_done(before, rows, gx, gy);
            assert(self@ =~~= drawn(before, rows, gx, gy));
        }
        collision
    }
}

/// Whether the cell at offsets `(row_off, col_off)` from the sprite's corner
/// comes before the position `(r, c)` in drawing order.
spec fn drawn_before(row_off: int, col_off: int, r: int, c: int) -> bool {
    row_off < r || (row_off == r && col_off < c)
}

/// The part of a sprite that drawing has reached when it stands at the
/// sprite's row `r`, column `c`.
spec fn covers_before(rows: Seq<u8>, x: int, y: int, r: int, c: int, row: int, col: int) -> bool {
    &&& sprite_covers(rows, x, y, row, col)
    &&& drawn_before(row_offset(y, row), col_offset(x, col), r, c)
}

/// Whether the part of the sprite drawn before `(r, c)` has erased a pixel.
spec fn erases_before(grid: Seq<Seq<bool>>, rows: Seq<u8>, x: int, y: int, r: int, c: int) -> bool {
    exists|row: int, col: int|
        on_display(row, col) && grid[row][col] && covers_before(rows, x, y, r, c, row, col)
}

/// Drawing one more sprite pixel extends what has been drawn, and what has
/// been erased, by the one cell that the pixel lands on.
proof fn lemma_erase_step(
    grid: Seq<Seq<bool>>,
    rows: Seq<u8>,
    x: int,
    y: int,
    r: int,
    c: int,
    row: int,
    col: int,
)
    requires
        in_sprite(rows, r, c),
        sprite_rows_ok(rows),
        row == target_row(y, r),
        col == target_col(x, c),
    ensures
        on_display(row, col),
        !covers_before(rows, x, y, r, c, row, col),
        erases_before(grid, rows, x, y, r, c + 1) <==> erases_before(grid, rows, x, y, r, c) || (
        grid[row][col] && sprite_bit(rows, r, c)),
        forall|i: int, j: int|
            on_display(i, j) ==> (#[trigger] covers_before(rows, x, y, r, c + 1, i, j)
                <==> covers_before(rows, x, y, r, c, i, j) || (i == row && j == col && sprite_bit(
                rows,
                r,
                c,
            ))),
{
    lemma_offsets_invert(x, y, r, c);
    if erases_before(grid, rows, x, y, r, c + 1) {
        let (i, j) = choose|i: int, j: int|
            on_display(i, j) && grid[i][j] && covers_before(rows, x, y, r, c + 1, i, j);
        if !(i == row && j == col && sprite_bit(rows, r, c)) {
            assert(covers_before(rows, x, y, r, c, i, j));
        }
    }
    if erases_before(grid, rows, x, y, r, c) {
        let (i, j) = choose|i: int, j: int|
            on_display(i, j) && grid[i][j] && covers_before(rows, x, y, r, c, i, j);
        assert(covers_before(rows, x, y, r, c + 1, i, j));
    }
    if grid[row][col] && sprite_bit(rows, r, c) {
        assert(covers_before(rows, x, y, r, c + 1, row, col));
    }
}

/// Finishing a sprite row is the same as standing at the start of the next.
proof fn lemma_erase_next_row(grid: Seq<Seq<bool>>, rows: Seq<u8>, x: int, y: int, r: int)
    ensures
        erases_before(grid, rows, x, y, r + 1, 0) <==> erases_before(
            grid,
            rows,
            x,
            y,
            r,
            SPRITE_WIDTH as int,
        ),
        forall|i: int, j: int| #[trigger]
            covers_before(rows, x, y, r + 1, 0, i, j) <==> covers_before(
                rows,
                x,
                y,
                r,
                SPRITE_WIDTH as int,
                i,
                j,
            ),
{
    if erases_before(grid, rows, x, y, r + 1, 0) {
        let (i, j) = choose|i: int, j: int|
            on_display(i, j) && grid[i][j] && covers_before(rows, x, y, r + 1, 0, i, j);
        assert(covers_before(rows, x, y, r, SPRITE_WIDTH as int, i, j));
    }
    if erases_before(grid, rows, x, y, r, SPRITE_WIDTH as int) {
        let w = SPRITE_WIDTH as int;
        let (i, j) = choose|i: int, j: int|
            on_display(i, j) && grid[i][j] && covers_before(rows, x, y, r, w, i, j);
        assert(covers_before(rows, x, y, r + 1, 0, i, j));
    }
}

/// Once every row has been drawn, the part drawn is the whole sprite.
proof fn lemma_erase_done(grid: Seq<Seq<bool>>, rows: Seq<u8>, x: int, y: int)
    ensures
        erases_before(grid, rows, x, y, rows.len() as int, 0) <==> erases(grid, rows, x, y),
        forall|i: int, j: int| #[trigger]
            covers_before(rows, x, y, rows.len() as int, 0, i, j) <==> sprite_covers(
                rows,
                x,
                y,
                i,
                j,
            ),
{
    let n = rows.len() as int;
    if erases_before(grid, rows, x, y, n, 0) {
        let (i, j) = choose|i: int, j: int|
            on_display(i, j) && grid[i][j] && covers_before(rows, x, y, n, 0, i, j);
        assert(sprite_covers(rows, x, y, i, j));
    }
    if erases(grid, rows, x, y) {
        let (i, j) = choose|i: int, j: int|
            on_display(i, j) && grid[i][j] && sprite_covers(rows, x, y, i, j);
        assert(covers_before(rows, x, y, n, 0, i, j));
    }
}

/// The glyphs of the hexadecimal digits 0 to F, five bytes each.
pub const FONT: [u8; 80] = [
    0xF0, 0x90, 0x90, 0x90, 0xF0,
    0x20, 0x60, 0x20, 0x20, 0x70,
    0xF0, 0x10, 0xF0, 0x80, 0xF0,
    0xF0, 0x10, 0xF0, 0x10, 0xF0,
    0x90, 0x90, 0xF0, 0x10, 0x10,
    0xF0, 0x80, 0xF0, 0x10, 0xF0,
    0xF0, 0x80, 0xF0, 0x90, 0xF0,
    0xF0, 0x10, 0x20, 0x40, 0x40,
    0xF0, 0x90, 0xF0, 0x90, 0xF0,
    0xF0, 0x90, 0xF0, 0x10, 0xF0,
    0xF0, 0x90, 0xF0, 0x90, 0x90,
    0xE0, 0x90, 0xE0, 0x90, 0xE0,
    0xF0, 0x80, 0x80, 0x80, 0xF0,
    0xE0, 0x90, 0x90, 0x90, 0xE0,
    0xF0, 0x80, 0xF0, 0x80, 0xF0,
    0xF0, 0x80, 0xF0, 0x80, 0x80,
];

} // verus!
