//! The 64x32 monochrome display and the sprite-drawing rule.
use vstd::prelude::*;
use crate::memory::{Memory, MAX_MEM};

verus! {

/// Pixels per row.
pub const DISPLAY_COLS: usize = 64;

/// Rows on the display.
pub const DISPLAY_ROWS: usize = 32;

/// Pixels on the display.
pub const DISPLAY_SIZE: usize = 2048;

/// Wraps a pair of register values onto the display: the column modulo
/// `DISPLAY_COLS`, the row modulo `DISPLAY_ROWS`.
pub fn normalize_coordinates(x: u8, y: u8) -> (p: (usize, usize))
    ensures
        p.0 == x as int % 64,
        p.1 == y as int % 32,
    no_unwind
{
    (x as usize % DISPLAY_COLS, y as usize % DISPLAY_ROWS)
}

/// Position of pixel `(x, y)` in the row-major frame buffer.
pub fn idx(x: usize, y: usize) -> (i: usize)
    requires
        y * 64 + x <= usize::MAX,
    ensures
        i == y * 64 + x,
{
    y * DISPLAY_COLS + x
}

/// Column and row of the pixel stored at position `i` of the frame buffer.
pub fn from_idx(i: usize) -> (p: (usize, usize))
    ensures
        p.0 == i % 64,
        p.1 == i / 64,
{
    (i % DISPLAY_COLS, i / DISPLAY_COLS)
}

/// `from_idx` undoes `idx` for every column on the display.
pub proof fn lemma_from_idx_of_idx(x: int, y: int)
    requires
        0 <= x < 64,
        0 <= y,
    ensures
        (y * 64 + x) % 64 == x,
        (y * 64 + x) / 64 == y,
{
}

/// The frame buffer: one flag per pixel, row by row from the top-left corner.
pub struct Screen {
    data: [bool; 2048],
}

impl View for Screen {
    type V = Seq<bool>;

    closed spec fn view(&self) -> Seq<bool> {
        self.data@
    }
}

/// A frame buffer with every pixel off.
pub open spec fn blank() -> Seq<bool> {
    Seq::new(DISPLAY_SIZE as nat, |k: int| false)
}

/// Whether pixel `(x, y)` of a frame buffer is on.
pub open spec fn lit(pixels: Seq<bool>, x: int, y: int) -> bool {
    pixels[y * 64 + x]
}

/// Whether bit `b` of a sprite row is set, bit 0 being the leftmost pixel of
/// the row and so the most significant bit of the byte.
pub open spec fn bit_set(byte: u8, b: int) -> bool {
    (byte >> ((7 - b) as u8)) & 1 == 1
}

/// Whether the sprite of `n` rows stored at address `i`, drawn with its
/// top-left corner on `(x0, y0)`, has a set bit on pixel `(x, y)`. Sprite rows
/// are read from memory modulo its size.
pub open spec fn sprite_covers(
    ram: Seq<u8>,
    i: u16,
    n: int,
    x0: int,
    y0: int,
    x: int,
    y: int,
) -> bool {
    &&& y0 <= y < y0 + n
    &&& x0 <= x < x0 + 8
    &&& bit_set(ram[(i + (y - y0)) % 4096], x - x0)
}

/// The frame buffer after the sprite has been combined with it by exclusive
/// or. Pixels of the sprite that would fall right of the last column or below
/// the last row are dropped, since no position of the buffer stands for them.
pub open spec fn drawn(pixels: Seq<bool>, ram: Seq<u8>, i: u16, n: int, x0: int, y0: int) -> Seq<
    bool,
> {
    Seq::new(
        DISPLAY_SIZE as nat,
        |k: int| pixels[k] != sprite_covers(ram, i, n, x0, y0, k % 64, k / 64),
    )
}

/// Whether some set bit of the sprite falls on a pixel that is on.
pub open spec fn collides(pixels: Seq<bool>, ram: Seq<u8>, i: u16, n: int, x0: int, y0: int) -> bool {
    exists|x: int, y: int|
        0 <= x < 64 && 0 <= y < 32 && lit(pixels, x, y) && #[trigger] sprite_covers(
            ram,
            i,
            n,
            x0,
            y0,
            x,
            y,
        )
}

/// The pixels that are on among the first `n` positions of the buffer, as
/// `(column, row)` pairs in buffer order.
pub open spec fn lit_points(pixels: Seq<bool>, n: int) -> Seq<(usize, usize)>
    decreases n,
{
    if n <= 0 {
        Seq::empty()
    } else if pixels[n - 1] {
        lit_points(pixels, n - 1).push((((n - 1) % 64) as usize, ((n - 1) / 64) as usize))
    } else {
        lit_points(pixels, n - 1)
    }
}

/// What the sprite covers once `r` whole rows and the first `b` bits of the
/// next row have been drawn.
spec fn covers_so_far(
    ram: Seq<u8>,
    i: u16,
    r: int,
    b: int,
    x0: int,
    y0: int,
    x: int,
    y: int,
) -> bool {
    sprite_covers(ram, i, r, x0, y0, x, y) || (y == y0 + r && x0 <= x < x0 + b && bit_set(
        ram[(i + r) % 4096],
        x - x0,
    ))
}

spec fn drawn_so_far(pixels: Seq<bool>, ram: Seq<u8>, i: u16, r: int, b: int, x0: int, y0: int) -> Seq<
    bool,
> {
    Seq::new(
        DISPLAY_SIZE as nat,
        |k: int| pixels[k] != covers_so_far(ram, i, r, b, x0, y0, k % 64, k / 64),
    )
}

spec fn collides_so_far(
    pixels: Seq<bool>,
    ram: Seq<u8>,
    i: u16,
    r: int,
    b: int,
    x0: int,
    y0: int,
) -> bool {
    exists|x: int, y: int|
        0 <= x < 64 && 0 <= y < 32 && lit(pixels, x, y) && #[trigger] covers_so_far(
            ram,
            i,
            r,
            b,
            x0,
            y0,
            x,
            y,
        )
}

impl Screen {
    /// Every value of the type holds exactly `DISPLAY_SIZE` pixels.
    pub proof fn lemma_len(&self)
        ensures
            self@.len() == DISPLAY_SIZE,
    {
    }

    /// Creates a display with every pixel off.
    pub fn new() -> (s: Screen)
        ensures
            s@ == blank(),
    {
        let s = Screen { data: [false; 2048] };
        assert(s@ =~= blank());
        s
    }

    /// State of the pixel in row `row` and column `col`; positions past the
    /// end of the buffer wrap round to its start.
    pub fn get_pixel(&self, row: usize, col: usize) -> (on: bool)
        ensures
            on == self@[(row * 64 + col) % 2048],
        no_unwind
    {
        let index = ((row % DISPLAY_ROWS) * DISPLAY_COLS + col % DISPLAY_SIZE) % DISPLAY_SIZE;
        assert(index == (row * 64 + col) % 2048) by {
            lemma_wrapped_index(row as int, col as int);
        }
        self.data[index]
    }

    /// Sets the pixel in row `row` and column `col`, with the same wrapping
    /// as `get_pixel`, and leaves every other pixel as it was.
    pub fn set_pixel(&mut self, row: usize, col: usize, value: bool)
        ensures
            final(self)@ == old(self)@.update((row * 64 + col) % 2048, value),
        no_unwind
    {
        let index = ((row % DISPLAY_ROWS) * DISPLAY_COLS + col % DISPLAY_SIZE) % DISPLAY_SIZE;
        assert(index == (row * 64 + col) % 2048) by {
            lemma_wrapped_index(row as int, col as int);
        }
        self.data[index] = value;
    }

    /// Turns every pixel off.
    pub fn clear_screen(&mut self)
        ensures
            final(self)@ == blank(),
        no_unwind
    {
        let mut k: usize = 0;
        while k < DISPLAY_SIZE
            invariant
                k <= DISPLAY_SIZE,
                forall|j: int| 0 <= j < k ==> !self@[j],
            decreases DISPLAY_SIZE - k,
        {
            let ghost cleared = self@;
            self.data[k] = false;
            assert(self@ == cleared.update(k as int, false));
            k += 1;
        }
        assert(self@ =~= blank());
    }

    /// Draws the sprite of `n` rows stored at address `i` of `mem` with its
    /// top-left corner on column `vx` modulo 64 and row `vy` modulo 32. Every
    /// pixel under a set bit of the sprite is flipped; the part of the sprite
    /// that would pass the right or the bottom edge is not drawn. Returns
    /// whether a pixel that was on has been turned off.
    pub fn buffer_graphics(&mut self, mem: &Memory, vx: u8, vy: u8, n: u8, i: u16) -> (collision:
        bool)
        ensures
            final(self)@ == drawn(old(self)@, mem@, i, n as int, vx as int % 64, vy as int % 32),
            collision == collides(old(self)@, mem@, i, n as int, vx as int % 64, vy as int % 32),
        no_unwind
    {
        let ghost before = self@;
        let (x0, y0) = normalize_coordinates(vx, vy);
        let rows: usize = if (n as usize) < DISPLAY_ROWS - y0 {
            n as usize
        } else {
            DISPLAY_ROWS - y0
        };
        let cols: usize = if 8 < DISPLAY_COLS - x0 {
            8
        } else {
            DISPLAY_COLS - x0
        };
        let mut collision = false;
        let mut r: usize = 0;
        proof {
            assert(self@ =~= drawn_so_far(before, mem@, i, 0, 0, x0 as int, y0 as int));
        }
        while r < rows
            invariant
                x0 < 64,
                y0 < 32,
                r <= rows,
                rows == if n < 32 - y0 { n as int } else { 32 - y0 },
                cols == if 8 < 64 - x0 { 8int } else { 64 - x0 },
                before.len() == 2048,
                self@ == drawn_so_far(before, mem@, i, r as int, 0, x0 as int, y0 as int),
                collision == collides_so_far(before, mem@, i, r as int, 0, x0 as int, y0 as int),
            decreases rows - r,
        {
            let byte = mem.read((i as usize + r) % MAX_MEM);
            let mut b: usize = 0;
            while b < cols
                invariant
                    x0 < 64,
                    y0 < 32,
                    r < rows,
                    rows <= 32 - y0,
                    b <= cols,
                    cols == if 8 < 64 - x0 { 8int } else { 64 - x0 },
                    before.len() == 2048,
                    byte == mem@[(i + r) % 4096],
                    self@ == drawn_so_far(before, mem@, i, r as int, b as int, x0 as int, y0 as int),
                    collision == collides_so_far(
                        before,
                        mem@,
                        i,
                        r as int,
                        b as int,
                        x0 as int,
                        y0 as int,
                    ),
                decreases cols - b,
            {
                let bit = (byte >> (7 - b as u8)) & 1 == 1;
                let was = self.get_pixel(y0 + r, x0 + b);
                if bit && was {
                    collision = true;
                }
                self.set_pixel(y0 + r, x0 + b, was != bit);
                proof {
                    let x = x0 as int + b as int;
                    let y = y0 as int + r as int;
                    assert(bit == bit_set(byte, b as int));
                    assert(!covers_so_far(mem@, i, r as int, b as int, x0 as int, y0 as int, x, y));
                    assert(covers_so_far(mem@, i, r as int, b + 1, x0 as int, y0 as int, x, y)
                        == bit);
                    assert(was == lit(before, x, y));
                    assert(self@ =~= drawn_so_far(
                        before,
                        mem@,
                        i,
                        r as int,
                        b + 1,
                        x0 as int,
                        y0 as int,
                    ));
                    lemma_collides_next_bit(before, mem@, i, r as int, b as int, x0 as int, y0 as int);
                }
                b += 1;
            }
            proof {
                lemma_row_done(before, mem@, i, r as int, cols as int, x0 as int, y0 as int);
            }
            r += 1;
        }
        proof {
            lemma_rows_done(before, mem@, i, rows as int, n as int, x0 as int, y0 as int);
        }
        collision
    }

    /// The pixels that are on, as `(column, row)` pairs from the top-left
    /// corner row by row: what a host has to paint on a cleared canvas.
    pub fn render(&self) -> (points: Vec<(usize, usize)>)
        ensures
            points@ == lit_points(self@, DISPLAY_SIZE as int),
    {
        let mut points: Vec<(usize, usize)> = Vec::new();
        let mut k: usize = 0;
        while k < DISPLAY_SIZE
            invariant
                k <= DISPLAY_SIZE,
                points@ == lit_points(self@, k as int),
            decreases DISPLAY_SIZE - k,
        {
            if self.data[k] {
                points.push(from_idx(k));
            }
            k += 1;
        }
        points
    }

    /// The frame buffer itself, for a host that draws it.
    pub fn pixels(&self) -> (data: &[bool; 2048])
        ensures
            data@ == self@,
    {
        &self.data
    }
}

/// Drawing one more bit of a row collides exactly when the drawing so far did
/// or the new bit is set on a pixel that was on.
proof fn lemma_collides_next_bit(
    pixels: Seq<bool>,
    ram: Seq<u8>,
    i: u16,
    r: int,
    b: int,
    x0: int,
    y0: int,
)
    requires
        0 <= x0 && x0 + b < 64,
        0 <= y0 && y0 + r < 32,
        0 <= r,
        0 <= b,
    ensures
        collides_so_far(pixels, ram, i, r, b + 1, x0, y0) == (collides_so_far(
            pixels,
            ram,
            i,
            r,
            b,
            x0,
            y0,
        ) || (lit(pixels, x0 + b, y0 + r) && bit_set(ram[(i + r) % 4096], b))),
{
    if collides_so_far(pixels, ram, i, r, b, x0, y0) {
        let (x, y) = choose|x: int, y: int|
            0 <= x < 64 && 0 <= y < 32 && lit(pixels, x, y) && #[trigger] covers_so_far(
                ram,
                i,
                r,
                b,
                x0,
                y0,
                x,
                y,
            );
        assert(covers_so_far(ram, i, r, b + 1, x0, y0, x, y));
    }
    if lit(pixels, x0 + b, y0 + r) && bit_set(ram[(i + r) % 4096], b) {
        assert(covers_so_far(ram, i, r, b + 1, x0, y0, x0 + b, y0 + r));
    }
    if collides_so_far(pixels, ram, i, r, b + 1, x0, y0) {
        let (x, y) = choose|x: int, y: int|
            0 <= x < 64 && 0 <= y < 32 && lit(pixels, x, y) && #[trigger] covers_so_far(
                ram,
                i,
                r,
                b + 1,
                x0,
                y0,
                x,
                y,
            );
        if !(x == x0 + b && y == y0 + r) {
            assert(covers_so_far(ram, i, r, b, x0, y0, x, y));
        }
    }
}

/// A row of which every bit on the display has been drawn is a whole row.
proof fn lemma_row_done(pixels: Seq<bool>, ram: Seq<u8>, i: u16, r: int, cols: int, x0: int, y0: int)
    requires
        0 <= x0 < 64,
        0 <= r,
        cols == if 8 < 64 - x0 { 8int } else { 64 - x0 },
    ensures
        drawn_so_far(pixels, ram, i, r, cols, x0, y0) == drawn_so_far(pixels, ram, i, r + 1, 0, x0, y0),
        collides_so_far(pixels, ram, i, r, cols, x0, y0) == collides_so_far(
            pixels,
            ram,
            i,
            r + 1,
            0,
            x0,
            y0,
        ),
{
    assert forall|x: int, y: int| 0 <= x < 64 implies #[trigger] covers_so_far(
        ram,
        i,
        r,
        cols,
        x0,
        y0,
        x,
        y,
    ) == covers_so_far(ram, i, r + 1, 0, x0, y0, x, y) by {}
    assert forall|x: int, y: int| 0 <= x < 64 implies covers_so_far(ram, i, r, cols, x0, y0, x, y)
        == #[trigger] covers_so_far(ram, i, r + 1, 0, x0, y0, x, y) by {}
    assert(drawn_so_far(pixels, ram, i, r, cols, x0, y0) =~= drawn_so_far(
        pixels,
        ram,
        i,
        r + 1,
        0,
        x0,
        y0,
    ));
}

/// Once every row on the display has been drawn, the whole sprite has.
proof fn lemma_rows_done(pixels: Seq<bool>, ram: Seq<u8>, i: u16, rows: int, n: int, x0: int, y0: int)
    requires
        0 <= y0 < 32,
        0 <= n,
        rows == if n < 32 - y0 { n } else { 32 - y0 },
    ensures
        drawn_so_far(pixels, ram, i, rows, 0, x0, y0) == drawn(pixels, ram, i, n, x0, y0),
        collides_so_far(pixels, ram, i, rows, 0, x0, y0) == collides(pixels, ram, i, n, x0, y0),
{
    assert forall|x: int, y: int| 0 <= y < 32 implies #[trigger] covers_so_far(
        ram,
        i,
        rows,
        0,
        x0,
        y0,
        x,
        y,
    ) == sprite_covers(ram, i, n, x0, y0, x, y) by {}
    assert forall|x: int, y: int| 0 <= y < 32 implies covers_so_far(ram, i, rows, 0, x0, y0, x, y)
        == #[trigger] sprite_covers(ram, i, n, x0, y0, x, y) by {}
    assert(drawn_so_far(pixels, ram, i, rows, 0, x0, y0) =~= drawn(pixels, ram, i, n, x0, y0));
}

/// The index that `get_pixel` and `set_pixel` compute without overflow is the
/// row-major index modulo the buffer size.
proof fn lemma_wrapped_index(row: int, col: int)
    requires
        0 <= row,
        0 <= col,
    ensures
        ((row % 32) * 64 + col % 2048) % 2048 == (row * 64 + col) % 2048,
{
}

} // verus!
