//! The 64x32 monochrome framebuffer and its XOR sprite drawing.

use vstd::prelude::*;

verus! {

/// Columns of the grid.
pub const WIDTH_PIXEL_COUNT: u8 = 64;

/// Rows of the grid.
pub const HEIGHT_PIXEL_COUNT: u8 = 32;

/// Cells of the grid.
pub const PIXEL_COUNT: usize = 2048;

/// The largest pixel size for which the whole grid still has `i32`
/// coordinates on the host's surface.
pub const MAX_PIXEL_SIZE: u32 = 0x1FF_FFFF;

/// Whether bit `bit` of `byte` is set, counting from the most significant
/// bit: bit 0 is the leftmost pixel of a sprite row.
pub open spec fn sprite_row_bit(byte: u8, bit: int) -> bool {
    0 <= bit < 8 && (byte >> ((7 - bit) as u8)) & 1 == 1
}

/// Whether the sprite `bytes`, with its top left corner at column `x` and
/// row `y`, has a set bit over the cell at (`column`, `row`).
pub open spec fn sprite_covers(x: int, y: int, bytes: Seq<u8>, column: int, row: int) -> bool {
    &&& x <= column < x + 8
    &&& y <= row < y + bytes.len()
    &&& sprite_row_bit(bytes[row - y], column - x)
}

/// Whether drawing `bytes` at (`x`, `y`) toggles the cell at row-major
/// position `position`. The corner is reduced to the grid first; a sprite
/// that reaches past the right or the bottom edge is cut off there.
pub open spec fn toggles(x: int, y: int, bytes: Seq<u8>, position: int) -> bool {
    sprite_covers(x % 64, y % 32, bytes, position % 64, position / 64)
}

/// The grid after `bytes` is drawn at (`x`, `y`): each toggled cell is
/// inverted, every other cell stays.
pub open spec fn drawn(pixels: Seq<bool>, x: int, y: int, bytes: Seq<u8>) -> Seq<bool> {
    Seq::new(2048, |position: int| pixels[position] != toggles(x, y, bytes, position))
}

/// Whether drawing `bytes` at (`x`, `y`) turns off a cell that was lit.
pub open spec fn collides(pixels: Seq<bool>, x: int, y: int, bytes: Seq<u8>) -> bool {
    exists|position: int|
        0 <= position < 2048 && pixels[position] && #[trigger] toggles(x, y, bytes, position)
}

/// Reducing the corner to the grid before drawing changes nothing.
pub proof fn lemma_draw_reduced(pixels: Seq<bool>, x: int, y: int, bytes: Seq<u8>)
    ensures
        drawn(pixels, x % 64, y % 32, bytes) == drawn(pixels, x, y, bytes),
        collides(pixels, x % 64, y % 32, bytes) == collides(pixels, x, y, bytes),
{
    assert forall|position: int| #[trigger]
        toggles(x % 64, y % 32, bytes, position) == toggles(x, y, bytes, position) by {}
    assert(drawn(pixels, x % 64, y % 32, bytes) =~= drawn(pixels, x, y, bytes));
    if collides(pixels, x % 64, y % 32, bytes) {
        let witness = choose|position: int|
            0 <= position < 2048 && pixels[position] && #[trigger] toggles(
                x % 64,
                y % 32,
                bytes,
                position,
            );
        assert(toggles(x, y, bytes, witness));
    }
    if collides(pixels, x, y, bytes) {
        let witness = choose|position: int|
            0 <= position < 2048 && pixels[position] && #[trigger] toggles(x, y, bytes, position);
        assert(toggles(x % 64, y % 32, bytes, witness));
    }
}

/// The grid with no cell lit.
pub open spec fn blank() -> Seq<bool> {
    Seq::new(2048, |position: int| false)
}

/// A rectangle on the host's surface.
#[derive(Clone, Copy, Debug, PartialEq, Eq, Structural)]
pub struct PixelRect {
    pub x: i32,
    pub y: i32,
    pub width: u32,
    pub height: u32,
}

/// The square that the cell at `position` occupies on the host's surface
/// when every cell is `pixel_size` wide and high.
pub open spec fn cell_rect(position: int, pixel_size: u32) -> PixelRect {
    PixelRect {
        x: ((position % 64) * pixel_size) as i32,
        y: ((position / 64) * pixel_size) as i32,
        width: pixel_size,
        height: pixel_size,
    }
}

/// The squares of the lit cells among the first `count` cells, in
/// row-major order.
pub open spec fn lit_rects(pixels: Seq<bool>, pixel_size: u32, count: int) -> Seq<PixelRect>
    decreases count,
{
    if count <= 0 {
        Seq::empty()
    } else if pixels[count - 1] {
        lit_rects(pixels, pixel_size, count - 1).push(cell_rect(count - 1, pixel_size))
    } else {
        lit_rects(pixels, pixel_size, count - 1)
    }
}

/// Whether the cell at `position` is toggled by the part of the sprite that
/// precedes bit `bits` of row `rows`.
spec fn toggled_before(x: int, y: int, bytes: Seq<u8>, position: int, rows: int, bits: int) -> bool {
    let row = position / 64 - y % 32;
    let bit = position % 64 - x % 64;
    toggles(x, y, bytes, position) && (row < rows || (row == rows && bit < bits))
}

/// Whether the part of the sprite that precedes bit `bits` of row `rows`
/// turns off a cell that was lit.
spec fn collides_before(
    pixels: Seq<bool>,
    x: int,
    y: int,
    bytes: Seq<u8>,
    rows: int,
    bits: int,
) -> bool {
    exists|position: int|
        0 <= position < 2048 && pixels[position] && #[trigger] toggled_before(
            x,
            y,
            bytes,
            position,
            rows,
            bits,
        )
}

/// The display as a mathematical value.
pub struct DisplayView {
    /// Side of one cell on the host's surface.
    pub pixel_size: u32,
    /// The cells in row-major order, `true` for lit.
    pub pixels: Seq<bool>,
    /// Whether the grid was written since it was last shown.
    pub dirty: bool,
}

impl DisplayView {
    /// The grid has 2048 cells.
    pub open spec fn wf(self) -> bool {
        self.pixels.len() == 2048
    }

    /// The display with every cell off, waiting to be shown.
    pub open spec fn cleared(self) -> DisplayView {
        DisplayView { pixels: blank(), dirty: true, ..self }
    }

    /// The display after the sprite `bytes` is drawn at (`x`, `y`).
    pub open spec fn draw(self, x: int, y: int, bytes: Seq<u8>) -> DisplayView {
        DisplayView { pixels: drawn(self.pixels, x, y, bytes), dirty: true, ..self }
    }
}

/// The framebuffer of one machine.
pub struct DisplayChip8 {
    pixel_size: u32,
    pixels: [bool; 2048],
    dirty: bool,
}

impl View for DisplayChip8 {
    type V = DisplayView;

    closed spec fn view(&self) -> DisplayView {
        DisplayView { pixel_size: self.pixel_size, pixels: self.pixels@, dirty: self.dirty }
    }
}

impl DisplayChip8 {
    #[verifier::type_invariant]
    spec fn inv(&self) -> bool {
        self.pixel_size <= MAX_PIXEL_SIZE
    }

    /// Every display has a grid of 2048 cells.
    pub proof fn lemma_wf(&self)
        ensures
            self@.wf(),
    {
    }

    /// A blank display whose cells are `pixel_size` wide and high on the
    /// host's surface. It waits to be shown. The size is limited so that
    /// the whole grid has `i32` coordinates there.
    pub fn new(pixel_size: u32) -> (r: Self)
        requires
            pixel_size <= MAX_PIXEL_SIZE,
        ensures
            r@ == (DisplayView { pixel_size, pixels: blank(), dirty: true }),
    {
        let r = Self { pixel_size, pixels: [false;2048], dirty: true };
        assert(r.pixels@ =~= blank());
        r
    }

    /// Turns every cell off and marks the grid as changed.
    pub fn clear(&mut self)
        ensures
            final(self)@ == old(self)@.cleared(),
    {
        proof {
            use_type_invariant(&*self);
        }
        self.pixels = [false;2048];
        self.dirty = true;
        assert(self.pixels@ =~= blank());
    }

    /// Draws the sprite `bytes` with its top left corner at column
    /// `x_position` and row `y_position`, both reduced to the grid: each
    /// byte is a row of eight pixels, the highest bit leftmost, and every
    /// set bit inverts its cell. Bits that fall right of column 63 or
    /// below row 31 are dropped. Tells whether a lit cell went off, and
    /// marks the grid as changed.
    pub fn draw(&mut self, x_position: u8, y_position: u8, bytes: &[u8]) -> (r: bool)
        ensures
            final(self)@ == old(self)@.draw(x_position as int, y_position as int, bytes@),
            r == collides(old(self)@.pixels, x_position as int, y_position as int, bytes@),
    {
        let ghost x = x_position as int;
        let ghost y = y_position as int;
        let ghost before = self.pixels@;
        proof {
            use_type_invariant(&*self);
        }
        assert(x_position & 63 == x_position % 64) by (bit_vector);
        assert(y_position & 31 == y_position % 32) by (bit_vector);
        let x_position = x_position & (WIDTH_PIXEL_COUNT - 1);
        let y_position = y_position & (HEIGHT_PIXEL_COUNT - 1);
        let visible_rows = (HEIGHT_PIXEL_COUNT - y_position) as usize;
        let mut did_turn_off_pixel = false;
        let mut byte_number: usize = 0;
        while byte_number < bytes.len() && byte_number < visible_rows
            invariant
                x_position == x % 64,
                y_position == y % 32,
                visible_rows == 32 - y_position,
                byte_number <= bytes@.len(),
                byte_number <= visible_rows,
                before.len() == 2048,
                self.pixel_size == old(self).pixel_size,
                self.pixel_size <= MAX_PIXEL_SIZE,
                self.dirty == old(self).dirty,
                forall|position: int|
                    0 <= position < 2048 ==> self.pixels@[position] == (before[position]
                        != #[trigger] toggled_before(x, y, bytes@, position, byte_number as int, 0)),
                did_turn_off_pixel == collides_before(before, x, y, bytes@, byte_number as int, 0),
            decreases bytes@.len() - byte_number,
        {
            let byte = bytes[byte_number];
            let row = y_position + byte_number as u8;
            let mut bit: u8 = 0;
            while bit < 8
                invariant
                    x_position == x % 64,
                    y_position == y % 32,
                    byte_number < bytes@.len(),
                    byte == bytes@[byte_number as int],
                    row == y_position + byte_number,
                    row < 32,
                    bit <= 8,
                    before.len() == 2048,
                    self.pixel_size == old(self).pixel_size,
                    self.pixel_size <= MAX_PIXEL_SIZE,
                    self.dirty == old(self).dirty,
                    forall|position: int|
                        0 <= position < 2048 ==> self.pixels@[position] == (before[position]
                            != #[trigger] toggled_before(
                            x,
                            y,
                            bytes@,
                            position,
                            byte_number as int,
                            bit as int,
                        )),
                    did_turn_off_pixel == collides_before(
                        before,
                        x,
                        y,
                        bytes@,
                        byte_number as int,
                        bit as int,
                    ),
                decreases 8 - bit,
            {
                let ghost cell = (x_position + bit) + 64 * row;
                let ghost pixels_before = self.pixels@;
                let ghost did_before = did_turn_off_pixel;
                let is_flipped = (byte >> (7 - bit)) & 1 == 1;
                if is_flipped {
                    let turned_off = self.flip_pixel(x_position + bit, row);
                    did_turn_off_pixel = turned_off || did_turn_off_pixel;
                }
                proof {
                    let rows = byte_number as int;
                    let bits = bit as int;
                    assert(is_flipped == sprite_row_bit(byte, bits));
                    assert forall|position: int| 0 <= position < 2048 implies #[trigger] toggled_before(
                        x,
                        y,
                        bytes@,
                        position,
                        rows,
                        bits + 1,
                    ) == (toggled_before(x, y, bytes@, position, rows, bits) || (is_flipped
                        && x_position + bit < 64 && position == cell)) by {}
                    if is_flipped && x_position + bit < 64 {
                        assert(!toggled_before(x, y, bytes@, cell, rows, bits));
                        assert(toggled_before(x, y, bytes@, cell, rows, bits + 1));
                        assert(pixels_before[cell] == before[cell]);
                    }
                    if did_turn_off_pixel {
                        if did_before {
                            let witness = choose|position: int|
                                0 <= position < 2048 && before[position]
                                    && #[trigger] toggled_before(
                                    x,
                                    y,
                                    bytes@,
                                    position,
                                    rows,
                                    bits,
                                );
                            assert(toggled_before(x, y, bytes@, witness, rows, bits + 1));
                        } else {
                            assert(toggled_before(x, y, bytes@, cell, rows, bits + 1));
                        }
                    } else if collides_before(before, x, y, bytes@, rows, bits + 1) {
                        let witness = choose|position: int|
                            0 <= position < 2048 && before[position]
                                && #[trigger] toggled_before(
                                x,
                                y,
                                bytes@,
                                position,
                                rows,
                                bits + 1,
                            );
                        assert(toggled_before(x, y, bytes@, witness, rows, bits) || witness
                            == cell);
                    }
                }
                bit += 1;
            }
            proof {
                let rows = byte_number as int;
                assert forall|position: int| 0 <= position < 2048 implies toggled_before(
                    x,
                    y,
                    bytes@,
                    position,
                    rows,
                    8,
                ) == #[trigger] toggled_before(x, y, bytes@, position, rows + 1, 0) by {}
                if did_turn_off_pixel {
                    let witness = choose|position: int|
                        0 <= position < 2048 && before[position] && #[trigger] toggled_before(
                            x,
                            y,
                            bytes@,
                            position,
                            rows,
                            8,
                        );
                    assert(toggled_before(x, y, bytes@, witness, rows + 1, 0));
                } else if collides_before(before, x, y, bytes@, rows + 1, 0) {
                    let witness = choose|position: int|
                        0 <= position < 2048 && before[position] && #[trigger] toggled_before(
                            x,
                            y,
                            bytes@,
                            position,
                            rows + 1,
                            0,
                        );
                    assert(toggled_before(x, y, bytes@, witness, rows, 8));
                }
            }
            byte_number += 1;
        }
        self.dirty = true;
        proof {
            let rows = byte_number as int;
            assert forall|position: int| 0 <= position < 2048 implies toggled_before(
                x,
                y,
                bytes@,
                position,
                rows,
                0,
            ) == toggles(x, y, bytes@, position) by {}
            assert(self.pixels@ =~= drawn(before, x, y, bytes@));
            if did_turn_off_pixel {
                let witness = choose|position: int|
                    0 <= position < 2048 && before[position] && #[trigger] toggled_before(
                        x,
                        y,
                        bytes@,
                        position,
                        rows,
                        0,
                    );
                assert(toggles(x, y, bytes@, witness));
            } else if collides(before, x, y, bytes@) {
                let witness = choose|position: int|
                    0 <= position < 2048 && before[position] && #[trigger] toggles(
                        x,
                        y,
                        bytes@,
                        position,
                    );
                assert(toggled_before(x, y, bytes@, witness, rows, 0));
            }
        }
        did_turn_off_pixel
    }

    /// The squares to fill on the host's surface: one per lit cell, in
    /// row-major order.
    pub fn render(&self) -> (r: Vec<PixelRect>)
        ensures
            r@ == lit_rects(self@.pixels, self@.pixel_size, 2048),
            self@.pixel_size <= MAX_PIXEL_SIZE,
    {
        proof {
            use_type_invariant(self);
        }
        let mut pixels_drawn: Vec<PixelRect> = Vec::new();
        let mut position: usize = 0;
        while position < PIXEL_COUNT
            invariant
                position <= PIXEL_COUNT,
                self.pixel_size <= MAX_PIXEL_SIZE,
                pixels_drawn@ == lit_rects(self.pixels@, self.pixel_size, position as int),
            decreases PIXEL_COUNT - position,
        {
            if self.pixels[position] {
                let x = (position as u32) % (WIDTH_PIXEL_COUNT as u32);
                let y = (position as u32) / (WIDTH_PIXEL_COUNT as u32);
                assert(x * self.pixel_size <= i32::MAX && y * self.pixel_size <= i32::MAX)
                    by (nonlinear_arith)
                    requires
                        x < 64,
                        y < 64,
                        self.pixel_size <= 0x1FF_FFFF,
                ;
                pixels_drawn.push(
                    PixelRect {
                        x: (x * self.pixel_size) as i32,
                        y: (y * self.pixel_size) as i32,
                        width: self.pixel_size,
                        height: self.pixel_size,
                    },
                );
            }
            position += 1;
        }
        pixels_drawn
    }

    /// Records that the grid was handed to the host.
    pub fn show(&mut self)
        ensures
            final(self)@ == (DisplayView { dirty: false, ..old(self)@ }),
    {
        proof {
            use_type_invariant(&*self);
        }
        self.dirty = false;
    }

    /// Whether the grid was written since it was last shown.
    pub fn is_dirty(&self) -> (r: bool)
        ensures
            r == self@.dirty,
    {
        self.dirty
    }

    /// The cells in row-major order, `true` for lit.
    pub fn pixels(&self) -> (r: &[bool; 2048])
        ensures
            r@ == self@.pixels,
    {
        &self.pixels
    }

    /// Side of one cell on the host's surface.
    pub fn pixel_size(&self) -> (r: u32)
        ensures
            r == self@.pixel_size,
            r <= MAX_PIXEL_SIZE,
    {
        proof {
            use_type_invariant(self);
        }
        self.pixel_size
    }

    /// Inverts the cell at (`x_position`, `y_position`) and reports whether
    /// that turned it off; a position outside the grid is left alone.
    fn flip_pixel(&mut self, x_position: u8, y_position: u8) -> (r: bool)
        ensures
            final(self).pixel_size == old(self).pixel_size,
            final(self).dirty == old(self).dirty,
            x_position < 64 && y_position < 32 ==> final(self).pixels@ == old(self).pixels@.update(
                x_position + 64 * y_position,
                !old(self).pixels@[x_position + 64 * y_position],
            ) && r == old(self).pixels@[x_position + 64 * y_position],
            !(x_position < 64 && y_position < 32) ==> final(self).pixels@ == old(self).pixels@
                && !r,
    {
        proof {
            use_type_invariant(&*self);
        }
        if x_position < WIDTH_PIXEL_COUNT && y_position < HEIGHT_PIXEL_COUNT {
            let position = (x_position as usize) + (y_position as usize) * (
            WIDTH_PIXEL_COUNT as usize);
            self.pixels[position] = !self.pixels[position];
            !self.pixels[position]
        } else {
            false
        }
    }
}

} // verus!
