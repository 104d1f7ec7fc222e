//! The monochrome display and the drawing of sprites onto it.
//!
//! The display is 64 pixels wide and 32 high. A sprite is up to 32 rows of
//! eight pixels, one byte per row with the leftmost pixel in the most
//! significant bit. Drawing flips every display pixel that lies under a set
//! sprite pixel; sprite pixels that fall off an edge wrap to the opposite one.

use vstd::prelude::*;
use crate::state::{RAM_SIZE, SCREEN_SIZE};
use crate::{SCREEN_HEIGHT, SCREEN_WIDTH};

verus! {

/// Whether the pixel in column `col` of a sprite row is set, column 0 being
/// the leftmost pixel, held in the most significant bit.
pub open spec fn sprite_bit(row: u8, col: int) -> bool {
    0 <= col < 8 && (row >> ((7 - col) as u8)) & 1u8 == 1u8
}

/// A sprite placed on the display: its rows from top to bottom, and the
/// coordinates of its top-left pixel.
pub struct Sprite {
    /// The rows, one byte each.
    pub rows: Seq<u8>,
    /// Horizontal coordinate of the left column; taken modulo the width.
    pub x: int,
    /// Vertical coordinate of the top row; taken modulo the height.
    pub y: int,
}

impl Sprite {
    /// The sprite column that lands on display cell `cell`, wrapping around.
    pub open spec fn column_over(self, cell: int) -> int {
        (cell % 64 - self.x) % 64
    }

    /// The sprite row that lands on display cell `cell`, wrapping around.
    pub open spec fn row_over(self, cell: int) -> int {
        (cell / 64 - self.y) % 32
    }

    /// A set pixel of the sprite lies on display cell `cell`.
    pub open spec fn covers(self, cell: int) -> bool {
        &&& self.column_over(cell) < 8
        &&& self.row_over(cell) < self.rows.len()
        &&& sprite_bit(self.rows[self.row_over(cell)], self.column_over(cell))
    }

    /// The display after the sprite was drawn onto `screen`: exactly the
    /// covered cells are flipped.
    pub open spec fn drawn_onto(self, screen: Seq<bool>) -> Seq<bool> {
        Seq::new(screen.len(), |cell: int| screen[cell] != self.covers(cell))
    }

    /// Drawing the sprite onto `screen` turns some lit pixel off.
    pub open spec fn collides_with(self, screen: Seq<bool>) -> bool {
        exists|cell: int| 0 <= cell < screen.len() && screen[cell] && #[trigger] self.covers(cell)
    }

    /// The sprite pixel over `cell` comes before pixel `(row, col)` when the
    /// sprite is walked row by row, left to right.
    pub open spec fn reached(self, cell: int, row: int, col: int) -> bool {
        self.row_over(cell) < row || (self.row_over(cell) == row && self.column_over(cell) < col)
    }

    /// `screen` is `before` with the sprite drawn as far as pixel
    /// `(row, col)`: exactly the covered cells reached so far are flipped.
    pub open spec fn drawn_up_to(self, before: Seq<bool>, screen: Seq<bool>, row: int, col: int) -> bool {
        &&& screen.len() == before.len()
        &&& forall|cell: int|
            0 <= cell < before.len() ==> screen[cell] == (before[cell] != (self.covers(cell)
                && self.reached(cell, row, col)))
    }

    /// Drawing the sprite onto `before` as far as pixel `(row, col)` turns
    /// some lit pixel off.
    pub open spec fn collides_up_to(self, before: Seq<bool>, row: int, col: int) -> bool {
        exists|cell: int|
            0 <= cell < before.len() && before[cell] && #[trigger] self.covers(cell) && self.reached(
                cell,
                row,
                col,
            )
    }
}

/// The sprite of `height` rows stored in `memory` from `index` on, placed at `(x, y)`.
pub open spec fn sprite_at(memory: Seq<u8>, index: int, height: int, x: u8, y: u8) -> Sprite {
    Sprite { rows: Seq::new(height as nat, |row: int| memory[index + row]), x: x as int, y: y as int }
}

/// The display cell on which pixel `(row, col)` of a sprite at `(x, y)` lands.
pub open spec fn target_cell(x: int, y: int, row: int, col: int) -> int {
    ((y + row) % 32) * 64 + (x + col) % 64
}

/// Pixel `(row, col)` of a sprite lands on `target_cell` and on no other
/// cell: counted from the sprite's position, columns wrap modulo the width
/// and rows modulo the height. That cell is covered exactly if the pixel is
/// set.
pub proof fn lemma_target_cell(sprite: Sprite, row: int, col: int)
    requires
        0 <= row < 32,
        0 <= col < 64,
        0 <= sprite.x,
        0 <= sprite.y,
    ensures
        0 <= target_cell(sprite.x, sprite.y, row, col) < 2048,
        sprite.row_over(target_cell(sprite.x, sprite.y, row, col)) == row,
        sprite.column_over(target_cell(sprite.x, sprite.y, row, col)) == col,
        forall|cell: int|
            0 <= cell < 2048 && #[trigger] sprite.row_over(cell) == row && sprite.column_over(cell) == col
                ==> cell == target_cell(sprite.x, sprite.y, row, col),
        sprite.covers(target_cell(sprite.x, sprite.y, row, col)) <==> row < sprite.rows.len()
            && sprite_bit(sprite.rows[row], col),
{
}

impl Sprite {
    /// Handling pixel `(row, col)`, which flips its target cell if the pixel
    /// is set and notes a collision if that cell was lit, extends what is
    /// drawn by one pixel.
    proof fn lemma_pixel_drawn(
        self,
        before: Seq<bool>,
        shown: Seq<bool>,
        screen: Seq<bool>,
        hit: bool,
        collision: bool,
        row: int,
        col: int,
    )
        requires
            before.len() == 2048,
            0 <= row < 32,
            0 <= col < 8,
            0 <= self.x,
            0 <= self.y,
            self.drawn_up_to(before, shown, row, col),
            hit == self.collides_up_to(before, row, col),
            ({
                let target = target_cell(self.x, self.y, row, col);
                &&& screen == if self.covers(target) {
                    shown.update(target, !shown[target])
                } else {
                    shown
                }
                &&& collision == (hit || (self.covers(target) && shown[target]))
            }),
        ensures
            self.drawn_up_to(before, screen, row, col + 1),
            collision == self.collides_up_to(before, row, col + 1),
    {
        let target = target_cell(self.x, self.y, row, col);
        lemma_target_cell(self, row, col);
        assert forall|cell: int| 0 <= cell < 2048 && cell != target implies self.reached(
            cell,
            row,
            col + 1,
        ) == self.reached(cell, row, col) by {}
        assert(self.reached(target, row, col + 1) && !self.reached(target, row, col));
        if hit {
            let witness = choose|cell: int|
                0 <= cell < 2048 && before[cell] && #[trigger] self.covers(cell) && self.reached(
                    cell,
                    row,
                    col,
                );
            assert(self.covers(witness) && self.reached(witness, row, col + 1));
        } else if collision {
            assert(before[target] && self.covers(target) && self.reached(target, row, col + 1));
        }
    }

    /// Once the eight pixels of a row are handled, the sprite is drawn as
    /// far as the start of the next row.
    proof fn lemma_row_drawn(self, before: Seq<bool>, screen: Seq<bool>, row: int)
        requires
            self.drawn_up_to(before, screen, row, 8),
        ensures
            self.drawn_up_to(before, screen, row + 1, 0),
            self.collides_up_to(before, row, 8) == self.collides_up_to(before, row + 1, 0),
    {
        assert forall|cell: int| self.covers(cell) implies self.reached(cell, row, 8) == self.reached(
            cell,
            row + 1,
            0,
        ) by {}
        if self.collides_up_to(before, row, 8) {
            let witness = choose|cell: int|
                0 <= cell < before.len() && before[cell] && #[trigger] self.covers(cell)
                    && self.reached(cell, row, 8);
            assert(self.covers(witness) && self.reached(witness, row + 1, 0));
        }
        if self.collides_up_to(before, row + 1, 0) {
            let witness = choose|cell: int|
                0 <= cell < before.len() && before[cell] && #[trigger] self.covers(cell)
                    && self.reached(cell, row + 1, 0);
            assert(self.covers(witness) && self.reached(witness, row, 8));
        }
    }

    /// Once every row is handled, the sprite is drawn.
    proof fn lemma_all_rows_drawn(self, before: Seq<bool>, screen: Seq<bool>)
        requires
            self.drawn_up_to(before, screen, self.rows.len() as int, 0),
        ensures
            screen == self.drawn_onto(before),
            self.collides_up_to(before, self.rows.len() as int, 0) == self.collides_with(before),
    {
        let rows = self.rows.len() as int;
        assert forall|cell: int| self.covers(cell) implies self.reached(cell, rows, 0) by {}
        assert(screen =~= self.drawn_onto(before));
        if self.collides_up_to(before, rows, 0) {
            let witness = choose|cell: int|
                0 <= cell < before.len() && before[cell] && #[trigger] self.covers(cell)
                    && self.reached(cell, rows, 0);
            assert(self.covers(witness));
        }
        if self.collides_with(before) {
            let witness = choose|cell: int|
                0 <= cell < before.len() && before[cell] && #[trigger] self.covers(cell);
            assert(self.covers(witness) && self.reached(witness, rows, 0));
        }
    }
}

/// Draws the sprite of `height` rows that starts at `memory[index]` onto
/// `screen` at `(x, y)`, and tells whether a lit pixel was turned off.
///
/// The sprite is walked row by row and, within a row, from the leftmost
/// pixel to the rightmost.
pub fn draw_sprite(
    screen: &mut [bool; SCREEN_SIZE],
    memory: &[u8; RAM_SIZE],
    index: usize,
    height: u8,
    x: u8,
    y: u8,
) -> (collision: bool)
    requires
        index + height <= RAM_SIZE,
        height <= SCREEN_HEIGHT,
    ensures
        final(screen)@ == sprite_at(memory@, index as int, height as int, x, y).drawn_onto(
            old(screen)@,
        ),
        collision == sprite_at(memory@, index as int, height as int, x, y).collides_with(
            old(screen)@,
        ),
{
    let ghost sprite = sprite_at(memory@, index as int, height as int, x, y);
    let ghost before = screen@;
    let mut collision = false;
    let mut row: u8 = 0;
    while row < height
        invariant
            row <= height <= SCREEN_HEIGHT,
            index + height <= RAM_SIZE,
            sprite == sprite_at(memory@, index as int, height as int, x, y),
            before.len() == SCREEN_SIZE,
            sprite.drawn_up_to(before, screen@, row as int, 0),
            collision == sprite.collides_up_to(before, row as int, 0),
        decreases height - row,
    {
        let sprite_row = memory[index + row as usize];
        let mut col: u8 = 0;
        while col < 8
            invariant
                col <= 8,
                row < height <= SCREEN_HEIGHT,
                index + height <= RAM_SIZE,
                sprite == sprite_at(memory@, index as int, height as int, x, y),
                sprite_row == sprite.rows[row as int],
                before.len() == SCREEN_SIZE,
                sprite.drawn_up_to(before, screen@, row as int, col as int),
                collision == sprite.collides_up_to(before, row as int, col as int),
            decreases 8 - col,
        {
            let ghost shown = screen@;
            let ghost hit = collision;
            let pixel = (sprite_row >> (7 - col)) & 1;
            let screen_x = (x as usize + col as usize) % SCREEN_WIDTH;
            let screen_y = (y as usize + row as usize) % SCREEN_HEIGHT;
            let target = screen_y * SCREEN_WIDTH + screen_x;
            proof {
                lemma_target_cell(sprite, row as int, col as int);
                assert(target == target_cell(sprite.x, sprite.y, row as int, col as int));
                assert(sprite.covers(target as int) == (pixel == 1));
            }
            if pixel == 1 {
                if screen[target] {
                    collision = true;
                }
                screen[target] = !screen[target];
            }
            proof {
                sprite.lemma_pixel_drawn(before, shown, screen@, hit, collision, row as int, col as int);
            }
            col += 1;
        }
        proof {
            sprite.lemma_row_drawn(before, screen@, row as int);
        }
        row += 1;
    }
    proof {
        sprite.lemma_all_rows_drawn(before, screen@);
    }
    collision
}

} // verus!
