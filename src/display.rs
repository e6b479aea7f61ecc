use vstd::prelude::*;

use grid::Grid;

verus! {

/// `grid::Grid`, the two-dimensional container that holds the screen; Verus
/// sees it only through the names and wrappers below.
#[verifier::external_type_specification]
#[verifier::external_body]
#[verifier::reject_recursive_types(T)]
pub struct ExGrid<T>(Grid<T>);

/// The cells of a grid of pixels, row after row (cell `r * cols + c` is the one
/// at row `r`, column `c`), whatever the grid's memory layout.
pub uninterp spec fn grid_cells(g: Grid<Pixel>) -> Seq<Pixel>;

/// The number of rows of a grid of pixels.
pub uninterp spec fn grid_rows(g: Grid<Pixel>) -> nat;

/// The number of columns of a grid of pixels.
pub uninterp spec fn grid_cols(g: Grid<Pixel>) -> nat;

/// Relies on `grid::Grid::init`: a row-major grid of `rows` by `cols` cells that
/// all hold `data`, or an empty 0 by 0 grid where either dimension is zero.
/// It panics only where `rows * cols` overflows.
#[verifier::external_body]
fn grid_init(rows: usize, cols: usize, data: Pixel) -> (g: Grid<Pixel>)
    requires
        rows * cols <= usize::MAX,
    ensures
        rows == 0 || cols == 0 ==> grid_rows(g) == 0 && grid_cols(g) == 0,
        rows > 0 && cols > 0 ==> grid_rows(g) == rows && grid_cols(g) == cols,
        grid_cells(g) == Seq::new(grid_rows(g) * grid_cols(g), |k: int| data),
{
    Grid::init(rows, cols, data)
}

/// Relies on `grid::Grid::from_vec`: the cells of `vec` taken as rows of `cols`
/// cells each; an empty vector gives an empty 0 by 0 grid. It panics where the
/// length of `vec` is not a multiple of `cols`.
#[verifier::external_body]
fn grid_from_vec(vec: Vec<Pixel>, cols: usize) -> (g: Grid<Pixel>)
    requires
        cols == 0 ==> vec@.len() == 0,
        cols > 0 ==> vec@.len() % (cols as nat) == 0,
    ensures
        grid_cells(g) == vec@,
        vec@.len() == 0 ==> grid_rows(g) == 0 && grid_cols(g) == 0,
        vec@.len() > 0 ==> grid_cols(g) == cols && grid_rows(g) == vec@.len() / (cols as nat),
{
    Grid::from_vec(vec, cols)
}

/// Relies on `grid::Grid::fill`: every cell takes the value `value`; the shape stays.
#[verifier::external_body]
fn grid_fill(g: &mut Grid<Pixel>, value: Pixel)
    ensures
        grid_rows(*final(g)) == grid_rows(*old(g)),
        grid_cols(*final(g)) == grid_cols(*old(g)),
        grid_cells(*final(g)) == Seq::new(grid_cells(*old(g)).len(), |k: int| value),
{
    g.fill(value)
}

/// Relies on `grid::Grid::rows`: the number of rows.
#[verifier::external_body]
fn grid_row_count(g: &Grid<Pixel>) -> (r: usize)
    ensures
        r == grid_rows(*g),
{
    g.rows()
}

/// Relies on `grid::Grid::cols`: the number of columns.
#[verifier::external_body]
fn grid_col_count(g: &Grid<Pixel>) -> (r: usize)
    ensures
        r == grid_cols(*g),
{
    g.cols()
}

/// Relies on `grid::Grid::get`: the cell at `row`, `col` of a row-major grid,
/// or `None` outside the grid.
#[verifier::external_body]
fn grid_get(g: &Grid<Pixel>, row: usize, col: usize) -> (r: Option<Pixel>)
    ensures
        row < grid_rows(*g) && col < grid_cols(*g) ==> r == Some(
            grid_cells(*g)[row * grid_cols(*g) + col],
        ),
        !(row < grid_rows(*g) && col < grid_cols(*g)) ==> r is None,
{
    g.get(row, col).copied()
}

/// Relies on `grid::Grid::get_mut`: writes `value` into the cell at `row`, `col`
/// of a row-major grid; outside the grid nothing changes.
#[verifier::external_body]
fn grid_set(g: &mut Grid<Pixel>, row: usize, col: usize, value: Pixel)
    ensures
        grid_rows(*final(g)) == grid_rows(*old(g)),
        grid_cols(*final(g)) == grid_cols(*old(g)),
        row < grid_rows(*old(g)) && col < grid_cols(*old(g)) ==> grid_cells(*final(g))
            == grid_cells(*old(g)).update(row * grid_cols(*old(g)) + col, value),
        !(row < grid_rows(*old(g)) && col < grid_cols(*old(g))) ==> grid_cells(*final(g))
            == grid_cells(*old(g)),
{
    if let Some(cell) = g.get_mut(row, col) {
        *cell = value;
    }
}

/// One pixel of the monochrome screen.
#[derive(Debug, Clone, Copy, PartialEq, Eq, Structural)]
pub enum Pixel {
    Off,
    On,
}

impl Pixel {
    /// The other state.
    pub open spec fn flipped(self) -> Pixel {
        match self {
            Pixel::Off => Pixel::On,
            Pixel::On => Pixel::Off,
        }
    }

    /// Toggles the pixel; tells whether it was on (and is now off).
    pub fn flip(&mut self) -> (r: bool)
        ensures
            *final(self) == old(self).flipped(),
            r == (*old(self) == Pixel::On),
    {
        match self {
            Pixel::Off => {
                *self = Pixel::On;
                false
            },
            Pixel::On => {
                *self = Pixel::Off;
                true
            },
        }
    }
}

/// How a front end shows the screen: its shape and the RGBA colours of the
/// two pixel states.
pub struct FrontendConfig {
    pub width: usize,
    pub height: usize,
    pub off_colour: [u8; 4],
    pub on_colour: [u8; 4],
}

/// Whether a draw turned any pixel off.
#[derive(Debug, Clone, Copy, PartialEq, Eq, Structural)]
pub enum PixelsDisabled {
    NoPixels,
    SomePixels,
}

/// Whether bit `k` (0 is the leftmost) of `byte` is set.
pub open spec fn bit_set(byte: u8, k: int) -> bool {
    0 <= k < 8 && (byte >> ((7 - k) as u8)) & 1u8 == 1u8
}

/// Whether the sprite `data`, placed with its top-left corner at column `x0` and
/// row `y0`, has a set bit over the cell at row `r`, column `c`.
pub open spec fn sprite_hits(data: Seq<u8>, x0: int, y0: int, r: int, c: int) -> bool {
    y0 <= r < y0 + data.len() && x0 <= c < x0 + 8 && bit_set(data[r - y0], c - x0)
}

/// The framebuffer: a row-major grid of pixels and a flag that records whether
/// it changed since the last snapshot.
#[derive(Debug, PartialEq, Eq)]
pub struct Display {
    pub display_buffer: Grid<Pixel>,
    pub dirty: bool,
}

/// The cell index of row `r`, column `c` on a grid `w` cells wide.
proof fn lemma_cell_index(w: int, h: int, r1: int, c1: int, r2: int, c2: int)
    requires
        0 <= r1 < h,
        0 <= c1 < w,
        0 <= r2 < h,
        0 <= c2 < w,
    ensures
        0 <= r1 * w + c1 < h * w,
        r1 * w + c1 < w * h,
        r1 * w + c1 == r2 * w + c2 ==> r1 == r2 && c1 == c2,
{
    assert(0 <= r1 * w + c1 < h * w) by (nonlinear_arith)
        requires
            0 <= r1 < h,
            0 <= c1 < w,
    ;
    assert(h * w == w * h) by (nonlinear_arith);
    assert(r1 * w + c1 == r2 * w + c2 ==> r1 == r2 && c1 == c2) by (nonlinear_arith)
        requires
            0 <= r1 < h,
            0 <= c1 < w,
            0 <= r2 < h,
            0 <= c2 < w,
    ;
}

impl Display {
    /// The number of columns.
    pub open spec fn width(&self) -> int {
        grid_cols(self.display_buffer) as int
    }

    /// The number of rows.
    pub open spec fn height(&self) -> int {
        grid_rows(self.display_buffer) as int
    }

    /// The pixel at row `r`, column `c`.
    pub open spec fn pixel(&self, r: int, c: int) -> Pixel {
        grid_cells(self.display_buffer)[r * self.width() + c]
    }

    /// The grid holds exactly one cell for each row and column.
    pub open spec fn wf(&self) -> bool {
        grid_cells(self.display_buffer).len() == self.width() * self.height()
    }

    /// Whether `r`, `c` lies on the screen.
    pub open spec fn on_screen(&self, r: int, c: int) -> bool {
        0 <= r < self.height() && 0 <= c < self.width()
    }

    /// What clearing does: same shape, every pixel off, marked changed.
    pub open spec fn clears(self, after: Display) -> bool {
        &&& after.wf()
        &&& after.dirty
        &&& after.width() == self.width()
        &&& after.height() == self.height()
        &&& forall|r: int, c: int| #[trigger] after.on_screen(r, c) ==> after.pixel(r, c) == Pixel::Off
    }

    /// What taking a snapshot does: the pixels stay, the change mark is
    /// cleared, and the screen is handed out only where it was marked.
    pub open spec fn snapshot(self, after: Display, r: Option<Grid<Pixel>>) -> bool {
        &&& after.display_buffer == self.display_buffer
        &&& !after.dirty
        &&& self.dirty ==> r == Some(self.display_buffer)
        &&& !self.dirty ==> r is None
    }

    /// What drawing `data` at `x`, `y` does: the pixels under set bits of the
    /// sprite flip, the first row and column wrap around the edges, the rest
    /// of the sprite is clipped, and `result` tells whether a pixel that was
    /// on went off.
    pub open spec fn draws(
        self,
        after: Display,
        x: int,
        y: int,
        data: Seq<u8>,
        result: PixelsDisabled,
    ) -> bool {
        let x0 = x % self.width();
        let y0 = y % self.height();
        &&& after.wf()
        &&& after.dirty
        &&& after.width() == self.width()
        &&& after.height() == self.height()
        &&& forall|r: int, c: int| #[trigger]
            self.on_screen(r, c) ==> after.pixel(r, c) == if sprite_hits(data, x0, y0, r, c) {
                self.pixel(r, c).flipped()
            } else {
                self.pixel(r, c)
            }
        &&& (result == PixelsDisabled::SomePixels) == exists|r: int, c: int|
            #[trigger] self.on_screen(r, c) && sprite_hits(data, x0, y0, r, c) && self.pixel(r, c)
                == Pixel::On
    }

    /// A `width` by `height` screen with every pixel off, marked changed.
    /// Where either dimension is zero the screen is empty.
    pub fn new(width: usize, height: usize) -> (r: Display)
        requires
            width * height <= usize::MAX,
        ensures
            r.wf(),
            r.dirty,
            width > 0 && height > 0 ==> r.width() == width && r.height() == height,
            width == 0 || height == 0 ==> r.width() == 0 && r.height() == 0,
            forall|row: int, col: int| #[trigger] r.on_screen(row, col) ==> r.pixel(row, col) == Pixel::Off,
    {
        let g = grid_init(height, width, Pixel::Off);
        let r = Display { display_buffer: g, dirty: true };
        proof {
            assert forall|row: int, col: int| #[trigger] r.on_screen(row, col) implies r.pixel(row, col) == Pixel::Off by {
                lemma_cell_index(r.width(), r.height(), row, col, row, col);
                assert(r.width() * r.height() == r.height() * r.width()) by (nonlinear_arith);
            }
        }
        r
    }

    /// A screen whose rows are the successive runs of `cols` pixels of `vec`,
    /// marked changed.
    pub fn from_vec(vec: Vec<Pixel>, cols: usize) -> (r: Display)
        requires
            cols == 0 ==> vec@.len() == 0,
            cols > 0 ==> vec@.len() % (cols as nat) == 0,
        ensures
            r.wf(),
            r.dirty,
            grid_cells(r.display_buffer) == vec@,
            vec@.len() > 0 ==> r.width() == cols && r.height() == vec@.len() / (cols as nat),
            vec@.len() == 0 ==> r.width() == 0 && r.height() == 0,
    {
        let ghost v = vec@;
        let g = grid_from_vec(vec, cols);
        proof {
            if v.len() > 0 {
                let n = v.len() as int;
                let c = cols as int;
                vstd::arithmetic::div_mod::lemma_fundamental_div_mod(n, c);
                assert(n == c * (n / c)) by (nonlinear_arith)
                    requires
                        n == c * (n / c) + n % c,
                        n % c == 0,
                ;
                assert(grid_rows(g) as int == n / c);
                assert(grid_cols(g) as int == c);
                assert(grid_cells(g).len() == (grid_cols(g) as int) * (grid_rows(g) as int));
            } else {
                assert(grid_cols(g) == 0);
                assert(grid_cells(g).len() == 0);
            }
        }
        Display { display_buffer: g, dirty: true }
    }

    /// Turns every pixel off and marks the screen changed.
    pub fn clear(&mut self)
        requires
            old(self).wf(),
        ensures
            old(self).clears(*final(self)),
    {
        grid_fill(&mut self.display_buffer, Pixel::Off);
        self.dirty = true;
        proof {
            let s = *final(self);
            assert forall|r: int, c: int| #[trigger] s.on_screen(r, c) implies s.pixel(r, c) == Pixel::Off by {
                lemma_cell_index(s.width(), s.height(), r, c, r, c);
                assert(s.width() * s.height() == s.height() * s.width()) by (nonlinear_arith);
            }
        }
    }
}

impl Display {
    /// The screen, handed out once per change: where the screen changed since
    /// the last snapshot, returns it and clears the change mark; otherwise
    /// returns `None`. The pixels never change here.
    pub fn get_display_buffer(&mut self) -> (r: Option<&Grid<Pixel>>)
        ensures
            old(self).snapshot(
                *final(self),
                (match r {
                    Some(g) => Some(*g),
                    None => None,
                }),
            ),
    {
        if self.dirty {
            self.dirty = false;
            Some(&self.display_buffer)
        } else {
            None
        }
    }

    /// XORs the sprite `data` onto the screen, one byte per row, starting at
    /// column `x` and row `y` taken modulo the screen's size. Rows past the
    /// bottom edge and columns past the right edge are dropped. Tells whether
    /// any pixel that was on went off, and marks the screen changed.
    pub fn draw_sprite(&mut self, x: usize, y: usize, data: &[u8]) -> (r: PixelsDisabled)
        requires
            old(self).wf(),
            old(self).width() > 0,
            old(self).height() > 0,
        ensures
            old(self).draws(*final(self), x as int, y as int, data@, r),
    {
        let ghost start = *self;
        let cols = grid_col_count(&self.display_buffer);
        let rows = grid_row_count(&self.display_buffer);
        let leftmost_column = x % cols;
        let mut row = y % rows;
        let ghost x0 = leftmost_column as int;
        let ghost y0 = row as int;
        proof {
            vstd::arithmetic::div_mod::lemma_mod_bound(x as int, cols as int);
            vstd::arithmetic::div_mod::lemma_mod_bound(y as int, rows as int);
        }
        let mut pixels_disabled = PixelsDisabled::NoPixels;
        let mut j: usize = 0;
        while j < data.len() && row < rows
            invariant
                self.wf(),
                start.wf(),
                self.width() == start.width(),
                self.height() == start.height(),
                cols == start.width(),
                rows == start.height(),
                leftmost_column == x0,
                x0 < start.width(),
                0 <= x0,
                y0 == y as int % start.height(),
                x0 == x as int % start.width(),
                0 <= y0,
                j <= data@.len(),
                row == y0 + j,
                forall|r: int, c: int| #[trigger]
                    start.on_screen(r, c) ==> self.pixel(r, c) == if sprite_hits(data@.take(j as int), x0, y0, r, c) {
                        start.pixel(r, c).flipped()
                    } else {
                        start.pixel(r, c)
                    },
                (pixels_disabled == PixelsDisabled::SomePixels) == exists|r: int, c: int|
                    start.on_screen(r, c) && sprite_hits(data@.take(j as int), x0, y0, r, c)
                        && #[trigger] start.pixel(r, c) == Pixel::On,
            decreases data@.len() - j,
        {
            let ghost before = *self;
            let ghost prev = pixels_disabled;
            let datum = data[j];
            let drawn = self.draw_byte(leftmost_column, row, datum);
            if drawn == PixelsDisabled::SomePixels {
                pixels_disabled = PixelsDisabled::SomePixels;
            }
            proof {
                let d = data@;
                let ja = j as int;
                assert forall|r: int, c: int| #[trigger]
                    sprite_hits(d.take(ja + 1), x0, y0, r, c) == (sprite_hits(d.take(ja), x0, y0, r, c) || (r == row
                        && x0 <= c < x0 + 8 && bit_set(datum, c - x0))) by {
                    if y0 <= r < y0 + ja + 1 {
                        assert(d.take(ja + 1)[r - y0] == d[r - y0]);
                        if r < y0 + ja {
                            assert(d.take(ja)[r - y0] == d[r - y0]);
                        }
                    }
                }
                assert forall|r: int, c: int| #[trigger] start.on_screen(r, c) implies self.pixel(r, c)
                    == if sprite_hits(d.take(ja + 1), x0, y0, r, c) {
                    start.pixel(r, c).flipped()
                } else {
                    start.pixel(r, c)
                } by {
                    assert(before.on_screen(r, c));
                }
                assert(forall|c: int| 0 <= c < start.width() ==> #[trigger] before.pixel(row as int, c) == start.pixel(row as int, c)) by {
                    assert forall|c: int| 0 <= c < start.width() implies #[trigger] before.pixel(row as int, c) == start.pixel(row as int, c) by {
                        assert(start.on_screen(row as int, c));
                    }
                }
                let now = exists|r: int, c: int|
                    start.on_screen(r, c) && sprite_hits(d.take(ja + 1), x0, y0, r, c)
                        && #[trigger] start.pixel(r, c) == Pixel::On;
                if now {
                    let (r, c) = choose|r: int, c: int|
                        start.on_screen(r, c) && sprite_hits(d.take(ja + 1), x0, y0, r, c)
                            && #[trigger] start.pixel(r, c) == Pixel::On;
                    if r == row {
                        if !sprite_hits(d.take(ja), x0, y0, r, c) {
                            assert(before.pixel(row as int, c) == Pixel::On);
                            assert(drawn == PixelsDisabled::SomePixels);
                        }
                    }
                    assert(pixels_disabled == PixelsDisabled::SomePixels);
                }
                if pixels_disabled == PixelsDisabled::SomePixels {
                    if prev == PixelsDisabled::SomePixels {
                        let (r, c) = choose|r: int, c: int|
                            start.on_screen(r, c) && sprite_hits(d.take(ja), x0, y0, r, c)
                                && #[trigger] start.pixel(r, c) == Pixel::On;
                        assert(sprite_hits(d.take(ja + 1), x0, y0, r, c));
                    } else {
                        let c = choose|c: int|
                            leftmost_column <= c < leftmost_column + 8 && c < start.width() && bit_set(datum, c - leftmost_column)
                                && #[trigger] before.pixel(row as int, c) == Pixel::On;
                        assert(start.on_screen(row as int, c));
                        assert(sprite_hits(d.take(ja + 1), x0, y0, row as int, c));
                        assert(start.pixel(row as int, c) == Pixel::On);
                    }
                    assert(now);
                }
            }
            row += 1;
            j += 1;
        }
        self.dirty = true;
        proof {
            let d = data@;
            let ja = j as int;
            assert forall|r: int, c: int| start.on_screen(r, c) implies #[trigger] sprite_hits(d, x0, y0, r, c)
                == sprite_hits(d.take(ja), x0, y0, r, c) by {
                if y0 <= r < y0 + ja {
                    assert(d.take(ja)[r - y0] == d[r - y0]);
                }
            }
            let after = *self;
            assert forall|r: int, c: int| #[trigger] start.on_screen(r, c) implies after.pixel(r, c)
                == if sprite_hits(d, x0, y0, r, c) {
                start.pixel(r, c).flipped()
            } else {
                start.pixel(r, c)
            } by {
                assert(sprite_hits(d, x0, y0, r, c) == sprite_hits(d.take(ja), x0, y0, r, c));
            }
            let full = exists|r: int, c: int|
                #[trigger] start.on_screen(r, c) && sprite_hits(d, x0, y0, r, c) && start.pixel(r, c) == Pixel::On;
            if full {
                let (r, c) = choose|r: int, c: int|
                    #[trigger] start.on_screen(r, c) && sprite_hits(d, x0, y0, r, c) && start.pixel(r, c) == Pixel::On;
                assert(sprite_hits(d.take(ja), x0, y0, r, c));
            }
            if pixels_disabled == PixelsDisabled::SomePixels {
                let (r, c) = choose|r: int, c: int|
                    start.on_screen(r, c) && sprite_hits(d.take(ja), x0, y0, r, c)
                        && #[trigger] start.pixel(r, c) == Pixel::On;
                assert(sprite_hits(d, x0, y0, r, c));
                assert(full);
            }
        }
        pixels_disabled
    }

    /// XORs the eight bits of `value` onto row `row` from column `col`
    /// rightwards; columns past the right edge are dropped.
    fn draw_byte(&mut self, col: usize, row: usize, value: u8) -> (r: PixelsDisabled)
        requires
            old(self).wf(),
            (row as int) < old(self).height(),
            (col as int) < old(self).width(),
        ensures
            final(self).wf(),
            final(self).dirty == old(self).dirty,
            final(self).width() == old(self).width(),
            final(self).height() == old(self).height(),
            forall|r: int, c: int| #[trigger]
                old(self).on_screen(r, c) ==> final(self).pixel(r, c) == if r == row && col <= c
                    < col + 8 && bit_set(value, c - col) {
                    old(self).pixel(r, c).flipped()
                } else {
                    old(self).pixel(r, c)
                },
            (r == PixelsDisabled::SomePixels) == exists|c: int|
                col <= c < col + 8 && c < old(self).width() && bit_set(value, c - col)
                    && #[trigger] old(self).pixel(row as int, c) == Pixel::On,
    {
        let ghost start = *self;
        let cols = grid_col_count(&self.display_buffer);
        let mut draw_column: usize = col;
        let mut turned_any_off = false;
        let mut shift: usize = 0;
        while shift < 8 && draw_column < cols
            invariant
                self.wf(),
                self.dirty == start.dirty,
                self.width() == start.width(),
                self.height() == start.height(),
                start.wf(),
                cols == start.width(),
                (row as int) < start.height(),
                shift <= 8,
                draw_column == col + shift,
                forall|r: int, c: int| #[trigger]
                    start.on_screen(r, c) ==> self.pixel(r, c) == if r == row && col <= c < col + shift
                        && bit_set(value, c - col) {
                        start.pixel(r, c).flipped()
                    } else {
                        start.pixel(r, c)
                    },
                turned_any_off == exists|c: int|
                    col <= c < col + shift && c < start.width() && bit_set(value, c - col)
                        && #[trigger] start.pixel(row as int, c) == Pixel::On,
            decreases 8 - shift,
        {
            let ghost before = *self;
            let ghost prev_turned = turned_any_off;
            let hit = (value >> (7 - shift) as u8) & 1u8 == 1u8;
            assert(hit == bit_set(value, shift as int));
            if let Some(current) = grid_get(&self.display_buffer, row, draw_column) {
                if hit {
                    let mut pixel = current;
                    let was_on = pixel.flip();
                    grid_set(&mut self.display_buffer, row, draw_column, pixel);
                    turned_any_off = turned_any_off || was_on;
                    proof {
                        let w = start.width();
                        let h = start.height();
                        lemma_cell_index(w, h, row as int, draw_column as int, row as int, draw_column as int);
                        assert forall|r: int, c: int| #[trigger] start.on_screen(r, c) implies self.pixel(r, c)
                            == if r == row && col <= c < col + shift + 1 && bit_set(value, c - col) {
                            start.pixel(r, c).flipped()
                        } else {
                            start.pixel(r, c)
                        } by {
                            lemma_cell_index(w, h, r, c, row as int, draw_column as int);
                            lemma_cell_index(w, h, row as int, draw_column as int, r, c);
                            assert(before.pixel(r, c) == if r == row && col <= c < col + shift
                                && bit_set(value, c - col) {
                                start.pixel(r, c).flipped()
                            } else {
                                start.pixel(r, c)
                            });
                        }
                        assert(before.pixel(row as int, draw_column as int) == start.pixel(row as int, draw_column as int)) by {
                            assert(start.on_screen(row as int, draw_column as int));
                        }
                        if was_on {
                            assert(start.pixel(row as int, draw_column as int) == Pixel::On);
                        }
                        if turned_any_off && !prev_turned {
                            assert(start.pixel(row as int, draw_column as int) == Pixel::On);
                        }
                        assert(turned_any_off == exists|c: int|
                            col <= c < col + shift + 1 && c < start.width() && bit_set(value, c - col)
                                && #[trigger] start.pixel(row as int, c) == Pixel::On);
                    }
                } else {
                    proof {
                        assert(turned_any_off == exists|c: int|
                            col <= c < col + shift + 1 && c < start.width() && bit_set(value, c - col)
                                && #[trigger] start.pixel(row as int, c) == Pixel::On);
                    }
                }
            }
            draw_column += 1;
            shift += 1;
        }
        if turned_any_off {
            PixelsDisabled::SomePixels
        } else {
            PixelsDisabled::NoPixels
        }
    }
}

/// Drawing the same sprite twice at the same place puts every pixel back as
/// it was, and the second draw reports that pixels went off exactly when the
/// sprite has a set bit over a pixel that was off before the first draw (on a
/// blank screen: exactly when the sprite shows at all).
pub proof fn lemma_draw_twice_restores(
    d0: Display,
    d1: Display,
    d2: Display,
    x: int,
    y: int,
    data: Seq<u8>,
    first: PixelsDisabled,
    second: PixelsDisabled,
)
    requires
        d0.wf(),
        d0.width() > 0,
        d0.height() > 0,
        d0.draws(d1, x, y, data, first),
        d1.draws(d2, x, y, data, second),
    ensures
        d2.width() == d0.width(),
        d2.height() == d0.height(),
        forall|r: int, c: int| #[trigger] d0.on_screen(r, c) ==> d2.pixel(r, c) == d0.pixel(r, c),
        (second == PixelsDisabled::SomePixels) == exists|r: int, c: int|
            #[trigger] d0.on_screen(r, c) && sprite_hits(data, x % d0.width(), y % d0.height(), r, c)
                && d0.pixel(r, c) == Pixel::Off,
{
    let x0 = x % d0.width();
    let y0 = y % d0.height();
    assert forall|r: int, c: int| #[trigger] d0.on_screen(r, c) implies d2.pixel(r, c) == d0.pixel(r, c) by {
        assert(d1.on_screen(r, c));
    }
    let hit = exists|r: int, c: int|
        #[trigger] d0.on_screen(r, c) && sprite_hits(data, x0, y0, r, c) && d0.pixel(r, c) == Pixel::Off;
    if hit {
        let (r, c) = choose|r: int, c: int|
            #[trigger] d0.on_screen(r, c) && sprite_hits(data, x0, y0, r, c) && d0.pixel(r, c) == Pixel::Off;
        assert(d1.on_screen(r, c));
        assert(d1.pixel(r, c) == Pixel::On);
    }
    if second == PixelsDisabled::SomePixels {
        let (r, c) = choose|r: int, c: int|
            #[trigger] d1.on_screen(r, c) && sprite_hits(data, x0, y0, r, c) && d1.pixel(r, c) == Pixel::On;
        assert(d0.on_screen(r, c));
        assert(d0.pixel(r, c) == Pixel::Off);
    }
}

} // verus!
