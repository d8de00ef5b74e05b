//! The display: a grid of pixels that are on or off, on which sprites are
//! drawn by toggling pixels. Whatever runs off one edge comes back in at the
//! opposite one.

use vstd::prelude::*;

verus! {

/// Pixels in a row.
pub const WIDTH: usize = 64;

/// Rows.
pub const HEIGHT: usize = 32;

/// Pixels in all.
pub const PIXELS: usize = 2048;

/// Where the pixel in column `x` of row `y` stands among the cells, which are
/// kept row by row; both coordinates are taken around the edges.
pub open spec fn cell_index(x: int, y: int) -> int {
    (y % 32) * 64 + x % 64
}

/// Whether the bit of `byte` that stands for column `col` of a sprite row is
/// set; column 0 is the highest bit.
pub open spec fn bit_set(byte: u8, col: int) -> bool {
    if col == 0 {
        byte / 128 % 2 == 1
    } else if col == 1 {
        byte / 64 % 2 == 1
    } else if col == 2 {
        byte / 32 % 2 == 1
    } else if col == 3 {
        byte / 16 % 2 == 1
    } else if col == 4 {
        byte / 8 % 2 == 1
    } else if col == 5 {
        byte / 4 % 2 == 1
    } else if col == 6 {
        byte / 2 % 2 == 1
    } else if col == 7 {
        byte % 2 == 1
    } else {
        false
    }
}

/// Whether cell `k` is one that the first `cols` columns of the sprite row
/// `byte`, drawn from column `x` of row `y`, toggle.
pub open spec fn row_covers(byte: u8, cols: int, x: int, y: int, k: int) -> bool {
    let col = (k % 64 - x) % 64;
    (k / 64 - y) % 32 == 0 && col < cols && bit_set(byte, col)
}

/// Whether cell `k` is one that the sprite `rows`, drawn with its top left
/// corner at column `x` of row `y`, toggles.
pub open spec fn sprite_covers(rows: Seq<u8>, x: int, y: int, k: int) -> bool {
    let row = (k / 64 - y) % 32;
    row < rows.len() && row_covers(rows[row], 8, x, y + row, k)
}

/// The cells after the sprite `rows` was drawn at column `x` of row `y`: the
/// cells that the sprite covers are toggled, the others are as they were.
pub open spec fn drawn(cells: Seq<bool>, x: int, y: int, rows: Seq<u8>) -> Seq<bool> {
    Seq::new(PIXELS as nat, |k: int| cells[k] != sprite_covers(rows, x, y, k))
}

/// Whether cell `k` is on and covered by the sprite, so that drawing the
/// sprite turns it off.
pub open spec fn hit(cells: Seq<bool>, x: int, y: int, rows: Seq<u8>, k: int) -> bool {
    0 <= k < PIXELS && cells[k] && sprite_covers(rows, x, y, k)
}

/// Whether drawing the sprite turns any pixel off.
pub open spec fn collides(cells: Seq<bool>, x: int, y: int, rows: Seq<u8>) -> bool {
    exists|k: int| #[trigger] hit(cells, x, y, rows, k)
}

/// Whether the sprite has any pixel at all.
pub open spec fn has_pixel(x: int, y: int, rows: Seq<u8>) -> bool {
    exists|k: int| 0 <= k < PIXELS && #[trigger] sprite_covers(rows, x, y, k)
}

/// Cells that are all off.
pub open spec fn blank() -> Seq<bool> {
    Seq::new(PIXELS as nat, |k: int| false)
}

/// The eight bits of `byte` as truth values, the highest bit first.
pub fn byte_to_bools(byte: u8) -> (bools: [bool; 8])
    ensures
        forall|i: int| 0 <= i < 8 ==> bools@[i] == bit_set(byte, i),
{
    let mut bools: [bool; 8] = [false; 8];
    let mut i: u8 = 0;
    while i < 8
        invariant
            i <= 8,
            forall|j: int| 0 <= j < i ==> bools@[j] == bit_set(byte, j),
        decreases 8 - i,
    {
        let shift: u8 = 7 - i;
        let value: bool = (byte & (1u8 << shift)) >> shift == 1;
        assert(value == bit_set(byte, i as int)) by {
            assert(shift <= 7 ==> (((byte & (1u8 << shift)) >> shift == 1) == (if shift == 7 {
                byte / 128 % 2 == 1
            } else if shift == 6 {
                byte / 64 % 2 == 1
            } else if shift == 5 {
                byte / 32 % 2 == 1
            } else if shift == 4 {
                byte / 16 % 2 == 1
            } else if shift == 3 {
                byte / 8 % 2 == 1
            } else if shift == 2 {
                byte / 4 % 2 == 1
            } else if shift == 1 {
                byte / 2 % 2 == 1
            } else {
                byte % 2 == 1
            }))) by (bit_vector);
        }
        bools[i as usize] = value;
        i = i + 1;
    }
    bools
}

/// The pixels of the display, row by row from the top, each row from the
/// left.
pub struct Framebuffer {
    pub cells: [bool; PIXELS],
}

impl View for Framebuffer {
    type V = Seq<bool>;

    open spec fn view(&self) -> Seq<bool> {
        self.cells@
    }
}

impl Framebuffer {
    /// A display with every pixel off.
    pub fn new() -> (display: Framebuffer)
        ensures
            display@ == blank(),
    {
        let display = Framebuffer { cells: [false; 2048] };
        assert(display@ =~= blank());
        display
    }

    /// Whether every pixel is off.
    pub fn is_blank(&self) -> (b: bool)
        ensures
            b == (self@ == blank()),
    {
        let mut k: usize = 0;
        while k < PIXELS
            invariant
                k <= PIXELS,
                forall|j: int| 0 <= j < k ==> !self@[j],
            decreases PIXELS - k,
        {
            if self.cells[k] {
                assert(blank()[k as int] != self@[k as int]);
                return false;
            }
            k = k + 1;
        }
        assert(self@ =~= blank());
        true
    }

    /// Turns every pixel off.
    pub fn clear(&mut self)
        ensures
            final(self)@ == blank(),
    {
        let mut k: usize = 0;
        while k < PIXELS
            invariant
                k <= PIXELS,
                forall|j: int| 0 <= j < k ==> !self@[j],
            decreases PIXELS - k,
        {
            let ghost before: Seq<bool> = self@;
            self.cells[k] = false;
            assert(self@ =~= before.update(k as int, false));
            k = k + 1;
        }
        assert(self@ =~= blank());
    }

    /// Whether the pixel in column `x` of row `y` is on.
    pub fn get(&self, x: usize, y: usize) -> (on: bool)
        requires
            x < WIDTH,
            y < HEIGHT,
        ensures
            on == self@[cell_index(x as int, y as int)],
    {
        self.cells[y * WIDTH + x]
    }

    /// Toggles the pixel in column `x` of row `y`, both taken around the
    /// edges, and returns what the pixel is now.
    pub fn flip(&mut self, x: usize, y: usize) -> (on: bool)
        ensures
            on == !old(self)@[cell_index(x as int, y as int)],
            final(self)@ == old(self)@.update(cell_index(x as int, y as int), on),
    {
        let k: usize = (y % HEIGHT) * WIDTH + x % WIDTH;
        let on: bool = !self.cells[k];
        self.cells[k] = on;
        on
    }

    /// Draws one sprite row of eight pixels from column `x` of row `y` to the
    /// right and tells whether a pixel went off.
    pub fn draw_row(&mut self, x: u8, y: usize, byte: u8) -> (collision: bool)
        ensures
            final(self)@ == drawn(old(self)@, x as int, y as int, seq![byte]),
            collision == collides(old(self)@, x as int, y as int, seq![byte]),
    {
        let bools: [bool; 8] = byte_to_bools(byte);
        let mut collision: bool = false;
        let mut c: usize = 0;
        while c < 8
            invariant
                c <= 8,
                forall|i: int| 0 <= i < 8 ==> bools@[i] == bit_set(byte, i),
                self@.len() == PIXELS,
                forall|k: int|
                    0 <= k < PIXELS ==> self@[k] == (old(self)@[k] != row_covers(
                        byte,
                        c as int,
                        x as int,
                        y as int,
                        k,
                    )),
                collision == (exists|k: int|
                    0 <= k < PIXELS && old(self)@[k] && #[trigger] row_covers(
                        byte,
                        c as int,
                        x as int,
                        y as int,
                        k,
                    )),
            decreases 8 - c,
        {
            let ghost here: int = cell_index(x as int + c as int, y as int);
            let ghost found: bool = collision;
            proof {
                assert forall|k: int| 0 <= k < PIXELS implies row_covers(
                    byte,
                    c as int + 1,
                    x as int,
                    y as int,
                    k,
                ) == (row_covers(byte, c as int, x as int, y as int, k) || (k == here && bit_set(
                    byte,
                    c as int,
                ))) by {
                    lemma_next_column(byte, c as int, x as int, y as int, k);
                }
            }
            if bools[c] {
                let on: bool = self.flip(x as usize + c, y);
                if !on {
                    collision = true;
                }
            }
            proof {
                if collision && !found {
                    assert(row_covers(byte, c as int + 1, x as int, y as int, here));
                }
            }
            c = c + 1;
        }
        proof {
            assert forall|k: int| 0 <= k < PIXELS implies sprite_covers(
                seq![byte],
                x as int,
                y as int,
                k,
            ) == row_covers(byte, 8, x as int, y as int, k) by {}
            assert(self@ =~= drawn(old(self)@, x as int, y as int, seq![byte]));
            if collision {
                let k = choose|k: int|
                    0 <= k < PIXELS && old(self)@[k] && #[trigger] row_covers(
                        byte,
                        8,
                        x as int,
                        y as int,
                        k,
                    );
                assert(hit(old(self)@, x as int, y as int, seq![byte], k));
            }
            if collides(old(self)@, x as int, y as int, seq![byte]) {
                let k = choose|k: int| #[trigger]
                    hit(old(self)@, x as int, y as int, seq![byte], k);
                assert(row_covers(byte, 8, x as int, y as int, k));
            }
        }
        collision
    }

    /// Draws the sprite `rows`, one byte for each row of eight pixels, with
    /// its top left corner at column `x` of row `y`, and tells whether a
    /// pixel went off.
    pub fn draw(&mut self, x: u8, y: u8, rows: &[u8]) -> (collision: bool)
        requires
            rows@.len() <= HEIGHT,
        ensures
            final(self)@ == drawn(old(self)@, x as int, y as int, rows@),
            collision == collides(old(self)@, x as int, y as int, rows@),
    {
        let mut collision: bool = false;
        let mut r: usize = 0;
        proof {
            lemma_no_rows(self@, x as int, y as int, rows@.take(0));
        }
        while r < rows.len()
            invariant
                r <= rows@.len(),
                rows@.len() <= HEIGHT,
                self@ == drawn(old(self)@, x as int, y as int, rows@.take(r as int)),
                collision == collides(old(self)@, x as int, y as int, rows@.take(r as int)),
            decreases rows@.len() - r,
        {
            proof {
                lemma_one_more_row(old(self)@, x as int, y as int, rows@.take(r as int + 1));
                assert(rows@.take(r as int + 1).drop_last() =~= rows@.take(r as int));
            }
            let went_off: bool = self.draw_row(x, y as usize + r, rows[r]);
            if went_off {
                collision = true;
            }
            r = r + 1;
        }
        assert(rows@.take(r as int) =~= rows@);
        collision
    }

    /// Hands the pixels over: `buffer` then holds them row by row, and the
    /// display is as it was.
    pub fn render_into(&self, buffer: &mut Vec<bool>)
        ensures
            final(buffer)@ == self@,
    {
        buffer.clear();
        let mut k: usize = 0;
        while k < PIXELS
            invariant
                k <= PIXELS,
                buffer@ == self@.take(k as int),
            decreases PIXELS - k,
        {
            buffer.push(self.cells[k]);
            k = k + 1;
            assert(buffer@ =~= self@.take(k as int));
        }
        assert(self@.take(PIXELS as int) =~= self@);
    }
}

/// One column more of a sprite row covers one cell more, if the bit for
/// that column is set: the cell in the column that lies so far to the right
/// of where the row starts, around the edge.
pub proof fn lemma_next_column(byte: u8, c: int, x: int, y: int, k: int)
    requires
        0 <= c < 8,
        0 <= x,
        0 <= y,
        0 <= k < PIXELS,
    ensures
        row_covers(byte, c + 1, x, y, k) == (row_covers(byte, c, x, y, k) || (k == cell_index(
            x + c,
            y,
        ) && bit_set(byte, c))),
{
    let col = (k % 64 - x) % 64;
    let level = (k / 64 - y) % 32 == 0;
    if level && col == c {
        assert(k % 64 == (x + c) % 64);
        assert(k / 64 == y % 32);
        assert(k == cell_index(x + c, y));
    }
    if k == cell_index(x + c, y) {
        assert(k % 64 == (x + c) % 64);
        assert(k / 64 == y % 32);
        assert(col == c);
        assert(level);
    }
}

/// A sprite without rows toggles nothing.
pub proof fn lemma_no_rows(cells: Seq<bool>, x: int, y: int, rows: Seq<u8>)
    requires
        cells.len() == PIXELS,
        rows.len() == 0,
    ensures
        drawn(cells, x, y, rows) == cells,
        !collides(cells, x, y, rows),
{
    assert(drawn(cells, x, y, rows) =~= cells);
}

/// A sprite is its rows but the last, and then the last row drawn below
/// them: that holds of the pixels when it is drawn, and of whether a pixel
/// goes off.
pub proof fn lemma_one_more_row(cells: Seq<bool>, x: int, y: int, rows: Seq<u8>)
    requires
        cells.len() == PIXELS,
        0 < rows.len() <= HEIGHT,
    ensures
        drawn(cells, x, y, rows) == drawn(
            drawn(cells, x, y, rows.drop_last()),
            x,
            y + rows.len() - 1,
            seq![rows.last()],
        ),
        collides(cells, x, y, rows) == (collides(cells, x, y, rows.drop_last()) || collides(
            drawn(cells, x, y, rows.drop_last()),
            x,
            y + rows.len() - 1,
            seq![rows.last()],
        )),
{
    let upper = rows.drop_last();
    let last = seq![rows.last()];
    let below = y + rows.len() - 1;
    let middle = drawn(cells, x, y, upper);
    assert forall|k: int| 0 <= k < PIXELS implies sprite_covers(rows, x, y, k) == (sprite_covers(
        upper,
        x,
        y,
        k,
    ) || sprite_covers(last, x, below, k)) && !(sprite_covers(upper, x, y, k) && sprite_covers(
        last,
        x,
        below,
        k,
    )) by {}
    assert(drawn(cells, x, y, rows) =~= drawn(middle, x, below, last));
    if collides(cells, x, y, rows) {
        let k = choose|k: int| #[trigger] hit(cells, x, y, rows, k);
        if sprite_covers(upper, x, y, k) {
            assert(hit(cells, x, y, upper, k));
        } else {
            assert(hit(middle, x, below, last, k));
        }
    }
    if collides(cells, x, y, upper) {
        let k = choose|k: int| #[trigger] hit(cells, x, y, upper, k);
        assert(hit(cells, x, y, rows, k));
    }
    if collides(middle, x, below, last) {
        let k = choose|k: int| #[trigger] hit(middle, x, below, last, k);
        assert(hit(cells, x, y, rows, k));
    }
}

/// Drawing a sprite twice at one place leaves the display as it was.
pub proof fn lemma_draw_twice(cells: Seq<bool>, x: int, y: int, rows: Seq<u8>)
    requires
        cells.len() == PIXELS,
    ensures
        drawn(drawn(cells, x, y, rows), x, y, rows) == cells,
{
    assert(drawn(drawn(cells, x, y, rows), x, y, rows) =~= cells);
}

/// On a display whose pixels under the sprite are all off, drawing the
/// sprite turns no pixel off; drawing it there again turns a pixel off if the
/// sprite has any pixel at all.
pub proof fn lemma_second_draw_collides(cells: Seq<bool>, x: int, y: int, rows: Seq<u8>)
    requires
        cells.len() == PIXELS,
        forall|k: int| 0 <= k < PIXELS && sprite_covers(rows, x, y, k) ==> !cells[k],
    ensures
        !collides(cells, x, y, rows),
        collides(drawn(cells, x, y, rows), x, y, rows) == has_pixel(x, y, rows),
{
    let once = drawn(cells, x, y, rows);
    if collides(cells, x, y, rows) {
        let k = choose|k: int| #[trigger] hit(cells, x, y, rows, k);
        assert(false);
    }
    if has_pixel(x, y, rows) {
        let k = choose|k: int| 0 <= k < PIXELS && #[trigger] sprite_covers(rows, x, y, k);
        assert(hit(once, x, y, rows, k));
    }
    if collides(once, x, y, rows) {
        let k = choose|k: int| #[trigger] hit(once, x, y, rows, k);
        assert(sprite_covers(rows, x, y, k));
    }
}

/// Whether any row of the sprite has a bit set.
pub open spec fn any_bit(rows: Seq<u8>) -> bool {
    exists|r: int| 0 <= r < rows.len() && #[trigger] rows[r] != 0
}

/// A byte that is not zero has a bit set.
pub proof fn lemma_some_bit(byte: u8)
    requires
        byte != 0,
    ensures
        exists|c: int| 0 <= c < 8 && #[trigger] bit_set(byte, c),
{
    if byte / 128 % 2 == 1 {
        assert(bit_set(byte, 0));
    } else if byte / 64 % 2 == 1 {
        assert(bit_set(byte, 1));
    } else if byte / 32 % 2 == 1 {
        assert(bit_set(byte, 2));
    } else if byte / 16 % 2 == 1 {
        assert(bit_set(byte, 3));
    } else if byte / 8 % 2 == 1 {
        assert(bit_set(byte, 4));
    } else if byte / 4 % 2 == 1 {
        assert(bit_set(byte, 5));
    } else if byte / 2 % 2 == 1 {
        assert(bit_set(byte, 6));
    } else {
        assert(bit_set(byte, 7));
    }
}

/// Drawing a sprite changes the display if and only if a bit is set in
/// one of the sprite's rows.
pub proof fn lemma_draw_changes(cells: Seq<bool>, x: int, y: int, rows: Seq<u8>)
    requires
        cells.len() == PIXELS,
        rows.len() <= HEIGHT,
        0 <= x,
        0 <= y,
    ensures
        (drawn(cells, x, y, rows) != cells) == any_bit(rows),
        has_pixel(x, y, rows) == any_bit(rows),
{
    if any_bit(rows) {
        let r = choose|r: int| 0 <= r < rows.len() && #[trigger] rows[r] != 0;
        lemma_some_bit(rows[r]);
        let c = choose|c: int| 0 <= c < 8 && #[trigger] bit_set(rows[r], c);
        let k = cell_index(x + c, y + r);
        assert(sprite_covers(rows, x, y, k));
        assert(drawn(cells, x, y, rows)[k] != cells[k]);
    } else {
        assert forall|k: int| 0 <= k < PIXELS implies !sprite_covers(rows, x, y, k) by {
            let row = (k / 64 - y) % 32;
            if row < rows.len() {
                assert(rows[row] == 0);
            }
        }
        assert(drawn(cells, x, y, rows) =~= cells);
    }
}

/// The pixels of a sprite row drawn near the right edge come back in at the
/// left: column `c` of the row lands in column `(x + c) mod 64` of the
/// display.
pub proof fn lemma_row_wraps(byte: u8, x: int, y: int, c: int)
    requires
        0 <= c < 8,
        0 <= x,
        0 <= y,
    ensures
        sprite_covers(seq![byte], x, y, cell_index(x + c, y)) == bit_set(byte, c),
{
}

} // verus!
