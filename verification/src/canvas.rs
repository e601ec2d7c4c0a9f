//! Rendering support for the universe: pixel geometry for a raster
//! surface, theme palettes, animation bookkeeping and the catalog of
//! named seed patterns. Everything here only computes plain values —
//! the host paints them.

use vstd::prelude::*;

use crate::game::GridView;
use crate::game::Universe;
use crate::game::blinker_offsets;
use crate::game::beacon_offsets;
use crate::game::glider_offsets;
use crate::game::pulsar_offsets;
use crate::game::toad_offsets;
use crate::game::with_pattern;
use crate::game::count_alive;
use crate::text::str_eq;

verus! {

/// How the grid is mapped to pixels: square cells of `cell_size`
/// pixels, an optional inner gap, and the three colors of the theme.
#[derive(Clone, Debug)]
pub struct CanvasConfig {
    pub cell_size: u32,
    pub gap_size: u32,
    pub alive_color: String,
    pub dead_color: String,
    pub grid_color: String,
    pub show_grid: bool,
}

impl Default for CanvasConfig {
    /// 12-pixel cells with no gap, light palette, no grid overlay.
    fn default() -> (r: Self)
        ensures
            r.cell_size == 12,
            r.gap_size == 0,
            r.alive_color@ == "#374151"@,
            r.dead_color@ == "#f9fafb"@,
            r.grid_color@ == "#e5e7eb"@,
            !r.show_grid,
    {
        Self {
            cell_size: 12,
            gap_size: 0,
            alive_color: "#374151".to_owned(),
            dead_color: "#f9fafb".to_owned(),
            grid_color: "#e5e7eb".to_owned(),
            show_grid: false,
        }
    }
}

impl CanvasConfig {
    /// The default configuration at a chosen cell size.
    pub fn new(cell_size: u32) -> (r: Self)
        ensures
            r.cell_size == cell_size,
            r.gap_size == 0,
            r.alive_color@ == "#374151"@,
            r.dead_color@ == "#f9fafb"@,
            r.grid_color@ == "#e5e7eb"@,
            !r.show_grid,
    {
        let mut r = Self::default();
        r.cell_size = cell_size;
        r
    }

    /// The default configuration at a chosen cell size and colors.
    pub fn with_colors(cell_size: u32, alive_color: &str, dead_color: &str) -> (r: Self)
        ensures
            r.cell_size == cell_size,
            r.gap_size == 0,
            r.alive_color@ == alive_color@,
            r.dead_color@ == dead_color@,
            r.grid_color@ == "#e5e7eb"@,
            !r.show_grid,
    {
        let mut r = Self::new(cell_size);
        r.alive_color = alive_color.to_owned();
        r.dead_color = dead_color.to_owned();
        r
    }

    /// The fixed dark palette at the default cell size.
    pub fn dark_theme() -> (r: Self)
        ensures
            r.cell_size == 12,
            r.gap_size == 0,
            r.alive_color@ == "#ffffff"@,
            r.dead_color@ == "#000000"@,
            r.grid_color@ == "#333333"@,
            !r.show_grid,
    {
        let mut r = Self::default();
        r.alive_color = "#ffffff".to_owned();
        r.dead_color = "#000000".to_owned();
        r.grid_color = "#333333".to_owned();
        r
    }

    /// The fixed light palette at the default cell size.
    pub fn light_theme() -> (r: Self)
        ensures
            r.cell_size == 12,
            r.gap_size == 0,
            r.alive_color@ == "#374151"@,
            r.dead_color@ == "#f9fafb"@,
            r.grid_color@ == "#e5e7eb"@,
            !r.show_grid,
    {
        Self::default()
    }

    /// Width in pixels of the surface for a grid `universe_width` cells
    /// wide.
    pub fn canvas_width(&self, universe_width: usize) -> (r: u64)
        requires
            universe_width * self.cell_size <= u64::MAX,
        ensures
            r == universe_width * self.cell_size,
    {
        (universe_width as u64) * (self.cell_size as u64)
    }

    /// Height in pixels of the surface for a grid `universe_height`
    /// cells tall.
    pub fn canvas_height(&self, universe_height: usize) -> (r: u64)
        requires
            universe_height * self.cell_size <= u64::MAX,
        ensures
            r == universe_height * self.cell_size,
    {
        (universe_height as u64) * (self.cell_size as u64)
    }
}

/// The filled square for the live cell at flat index `i`: inset by the
/// gap on each side of the cell's `cell_size`-pixel span.
pub open spec fn cell_rect(g: GridView, cell_size: int, gap: int, i: int) -> (u64, u64, u64) {
    (
        ((i % g.width as int) * cell_size + gap) as u64,
        ((i / g.width as int) * cell_size + gap) as u64,
        (cell_size - 2 * gap) as u64,
    )
}

/// The filled squares for all live cells among the first `n` cells, in
/// row-major order; nothing is emitted when the gaps leave no visible
/// square.
pub open spec fn cell_rects_upto(g: GridView, cell_size: int, gap: int, n: int) -> Seq<
    (u64, u64, u64),
>
    decreases n,
{
    if n <= 0 {
        Seq::empty()
    } else {
        cell_rects_upto(g, cell_size, gap, n - 1) + (if g.cells[n - 1] && cell_size > 2 * gap {
            seq![cell_rect(g, cell_size, gap, n - 1)]
        } else {
            Seq::empty()
        })
    }
}

/// Everything one repaint needs, as plain values: the surface size,
/// the palette, the grid-line offsets and one square per live cell.
/// The host fills the background with `dead_color`, strokes the lines
/// in `grid_color` when `show_grid` is set, and fills each square in
/// `alive_color`.
pub struct DrawPlan {
    pub width_px: u64,
    pub height_px: u64,
    pub alive_color: String,
    pub dead_color: String,
    pub grid_color: String,
    pub show_grid: bool,
    pub vertical_lines: Vec<u64>,
    pub horizontal_lines: Vec<u64>,
    pub cell_squares: Vec<(u64, u64, u64)>,
}

/// Maps grid state to pixel geometry and pixel coordinates back to
/// grid coordinates.
#[derive(Clone, Debug)]
pub struct CanvasRenderer {
    pub config: CanvasConfig,
}

impl CanvasRenderer {
    pub fn new(config: CanvasConfig) -> (r: Self)
        ensures
            r.config == config,
    {
        Self { config }
    }

    pub fn config(&self) -> (r: &CanvasConfig)
        ensures
            r == self.config,
    {
        &self.config
    }

    /// Replaces the whole configuration.
    pub fn set_config(&mut self, config: CanvasConfig)
        ensures
            final(self).config == config,
    {
        self.config = config;
    }

    /// Switches the palette for a dark or light theme. `probe` carries
    /// what the host read from its live style context — the foreground
    /// and border colors — or `None` when that read failed; an empty
    /// foreground likewise falls back to the fixed palette pair, so a
    /// missing theme signal can never stop the animation.
    pub fn update_theme(&mut self, is_dark: bool, probe: Option<(String, String)>)
        ensures
            final(self).config.cell_size == old(self).config.cell_size,
            final(self).config.gap_size == old(self).config.gap_size,
            final(self).config.show_grid == old(self).config.show_grid,
            ({
                match probe {
                    Some(p) => if p.0@.len() > 0 {
                        &&& final(self).config.alive_color@ == p.0@
                        &&& final(self).config.dead_color@ == (if is_dark {
                            "hsl(0 0% 0%)"@
                        } else {
                            "hsl(0 0% 100%)"@
                        })
                        &&& final(self).config.grid_color@ == (if p.1@.len() > 0 {
                            p.1@
                        } else {
                            old(self).config.grid_color@
                        })
                    } else {
                        final(self).has_fallback_palette(is_dark)
                    },
                    None => final(self).has_fallback_palette(is_dark),
                }
            }),
    {
        match probe {
            Some((fg_color, border_color)) => {
                if !fg_color.as_str().is_empty() {
                    self.config.alive_color = fg_color;
                    if is_dark {
                        self.config.dead_color = "hsl(0 0% 0%)".to_owned();
                    } else {
                        self.config.dead_color = "hsl(0 0% 100%)".to_owned();
                    }
                    if !border_color.as_str().is_empty() {
                        self.config.grid_color = border_color;
                    }
                    return ;
                }
                self.fallback_palette(is_dark);
            },
            None => {
                self.fallback_palette(is_dark);
            },
        }
    }

    /// Whether this renderer carries the fixed fallback palette for
    /// the given theme.
    pub open spec fn has_fallback_palette(&self, is_dark: bool) -> bool {
        &&& self.config.alive_color@ == (if is_dark {
            "hsl(0 0% 98%)"@
        } else {
            "hsl(0 0% 3.9%)"@
        })
        &&& self.config.dead_color@ == (if is_dark {
            "hsl(0 0% 0%)"@
        } else {
            "hsl(0 0% 100%)"@
        })
        &&& self.config.grid_color@ == (if is_dark {
            "hsl(0 0% 14.9%)"@
        } else {
            "hsl(0 0% 89.8%)"@
        })
    }

    /// The fixed palette pair used whenever the live style context
    /// cannot be read.
    fn fallback_palette(&mut self, is_dark: bool)
        ensures
            final(self).config.cell_size == old(self).config.cell_size,
            final(self).config.gap_size == old(self).config.gap_size,
            final(self).config.show_grid == old(self).config.show_grid,
            final(self).has_fallback_palette(is_dark),
    {
        if is_dark {
            self.config.alive_color = "hsl(0 0% 98%)".to_owned();
            self.config.dead_color = "hsl(0 0% 0%)".to_owned();
            self.config.grid_color = "hsl(0 0% 14.9%)".to_owned();
        } else {
            self.config.alive_color = "hsl(0 0% 3.9%)".to_owned();
            self.config.dead_color = "hsl(0 0% 100%)".to_owned();
            self.config.grid_color = "hsl(0 0% 89.8%)".to_owned();
        }
    }

    /// The grid-line offsets along one axis: a line every `cell_size`
    /// pixels, including both outer edges.
    fn line_positions(&self, count: usize) -> (r: Vec<u64>)
        requires
            count * self.config.cell_size <= u64::MAX,
            count < usize::MAX,
        ensures
            r@.len() == count + 1,
            forall|i: int| 0 <= i <= count ==> r@[i] == i * self.config.cell_size,
    {
        let cs = self.config.cell_size as u64;
        let mut r: Vec<u64> = Vec::new();
        let mut i: usize = 0;
        while i <= count
            invariant
                i <= count + 1,
                count * self.config.cell_size <= u64::MAX,
                count < usize::MAX,
                cs == self.config.cell_size,
                r@.len() == i,
                forall|j: int| 0 <= j < i ==> r@[j] == j * self.config.cell_size,
            decreases count + 1 - i,
        {
            proof {
                assert(i * cs <= count * cs) by (nonlinear_arith)
                    requires
                        0 <= i <= count,
                        cs >= 0,
                ;
            }
            r.push((i as u64) * cs);
            i = i + 1;
        }
        r
    }

    /// One inset square per live cell, in row-major order.
    fn alive_cell_squares(&self, universe: &Universe) -> (r: Vec<(u64, u64, u64)>)
        requires
            universe.inv(),
            universe@.width * self.config.cell_size + self.config.gap_size <= u64::MAX,
            universe@.height * self.config.cell_size + self.config.gap_size <= u64::MAX,
        ensures
            r@ == cell_rects_upto(
                universe@,
                self.config.cell_size as int,
                self.config.gap_size as int,
                universe@.cells.len() as int,
            ),
    {
        let ghost g = universe@;
        let ghost cs_spec = self.config.cell_size as int;
        let ghost gap_spec = self.config.gap_size as int;
        let cs = self.config.cell_size as u64;
        let gap = self.config.gap_size as u64;
        let width = universe.width();
        let height = universe.height();
        let visible = gap * 2 < cs;
        let mut r: Vec<(u64, u64, u64)> = Vec::new();
        let mut row: usize = 0;
        proof {
            universe.lemma_inv_wf();
        }
        while row < height
            invariant
                row <= height,
                g == universe@,
                universe.inv(),
                g.wf(),
                width == g.width,
                height == g.height,
                cs == cs_spec,
                gap == gap_spec,
                cs_spec == self.config.cell_size,
                gap_spec == self.config.gap_size,
                visible == (2 * gap_spec < cs_spec),
                g.width * cs_spec + gap_spec <= u64::MAX,
                g.height * cs_spec + gap_spec <= u64::MAX,
                g.total() <= usize::MAX,
                row * width <= g.cells.len(),
                r@ == cell_rects_upto(g, cs_spec, gap_spec, (row * width) as int),
            decreases height - row,
        {
            let mut col: usize = 0;
            while col < width
                invariant
                    row < height,
                    col <= width,
                    g == universe@,
                    universe.inv(),
                    g.wf(),
                    width == g.width,
                    height == g.height,
                    cs == cs_spec,
                    gap == gap_spec,
                    cs_spec == self.config.cell_size,
                    gap_spec == self.config.gap_size,
                    visible == (2 * gap_spec < cs_spec),
                    g.width * cs_spec + gap_spec <= u64::MAX,
                    g.height * cs_spec + gap_spec <= u64::MAX,
                    g.total() <= usize::MAX,
                    row * width + col <= g.cells.len(),
                    r@ == cell_rects_upto(g, cs_spec, gap_spec, (row * width + col) as int),
                decreases width - col,
            {
                proof {
                    crate::game::lemma_index_bound(
                        row as int,
                        col as int,
                        width as int,
                        height as int,
                    );
                    crate::game::lemma_index_decompose(row as int, col as int, width as int);
                    assert(col * cs_spec + gap_spec <= width * cs_spec + gap_spec)
                        by (nonlinear_arith)
                        requires
                            0 <= col < width,
                            0 <= cs_spec,
                    ;
                    assert(row * cs_spec + gap_spec <= height * cs_spec + gap_spec)
                        by (nonlinear_arith)
                        requires
                            0 <= row < height,
                            0 <= cs_spec,
                    ;
                }
                let idx = row * width + col;
                if universe.cells()[idx].is_alive() && visible {
                    let x = (col as u64) * cs + gap;
                    let y = (row as u64) * cs + gap;
                    let side = cs - gap * 2;
                    r.push((x, y, side));
                }
                col = col + 1;
            }
            proof {
                assert((row + 1) * width == row * width + width) by (nonlinear_arith);
                assert((row + 1) * width <= width * height) by (nonlinear_arith)
                    requires
                        row + 1 <= height,
                ;
            }
            row = row + 1;
        }
        proof {
            assert(height * width == g.cells.len()) by (nonlinear_arith)
                requires
                    g.cells.len() == g.width * g.height,
                    width == g.width,
                    height == g.height,
            ;
        }
        r
    }

    /// Lays out one full repaint of the universe: surface size, colors,
    /// optional grid lines and the square for every live cell.
    pub fn draw(&self, universe: &Universe) -> (r: DrawPlan)
        requires
            universe.inv(),
            universe@.width * self.config.cell_size + self.config.gap_size <= u64::MAX,
            universe@.height * self.config.cell_size + self.config.gap_size <= u64::MAX,
            universe@.width < usize::MAX,
            universe@.height < usize::MAX,
        ensures
            r.width_px == universe@.width * self.config.cell_size,
            r.height_px == universe@.height * self.config.cell_size,
            r.alive_color@ == self.config.alive_color@,
            r.dead_color@ == self.config.dead_color@,
            r.grid_color@ == self.config.grid_color@,
            r.show_grid == self.config.show_grid,
            r.vertical_lines@.len() == universe@.width + 1,
            forall|i: int|
                0 <= i <= universe@.width ==> r.vertical_lines@[i] == i * self.config.cell_size,
            r.horizontal_lines@.len() == universe@.height + 1,
            forall|i: int|
                0 <= i <= universe@.height ==> r.horizontal_lines@[i] == i
                    * self.config.cell_size,
            r.cell_squares@ == cell_rects_upto(
                universe@,
                self.config.cell_size as int,
                self.config.gap_size as int,
                universe@.cells.len() as int,
            ),
    {
        let width_px = self.config.canvas_width(universe.width());
        let height_px = self.config.canvas_height(universe.height());
        DrawPlan {
            width_px,
            height_px,
            alive_color: self.config.alive_color.clone(),
            dead_color: self.config.dead_color.clone(),
            grid_color: self.config.grid_color.clone(),
            show_grid: self.config.show_grid,
            vertical_lines: self.line_positions(universe.width()),
            horizontal_lines: self.line_positions(universe.height()),
            cell_squares: self.alive_cell_squares(universe),
        }
    }

    /// Converts pixel coordinates on the surface to `(row, col)` grid
    /// coordinates by integer division — the exact inverse of the
    /// cell-size scaling used to lay the cells out. No bounds clamping:
    /// callers validate against the grid before mutating.
    pub fn canvas_to_grid_coords(&self, canvas_x: u64, canvas_y: u64) -> (r: (u64, u64))
        requires
            self.config.cell_size > 0,
        ensures
            r.0 == canvas_y / self.config.cell_size as u64,
            r.1 == canvas_x / self.config.cell_size as u64,
    {
        let col = canvas_x / (self.config.cell_size as u64);
        let row = canvas_y / (self.config.cell_size as u64);
        (row, col)
    }

    /// The pixel dimensions the raster surface must take so that the
    /// whole grid fits exactly (the host applies them and disables any
    /// smoothing so cell edges stay crisp).
    pub fn setup_canvas(&self, universe: &Universe) -> (r: (u64, u64))
        requires
            universe@.width * self.config.cell_size <= u64::MAX,
            universe@.height * self.config.cell_size <= u64::MAX,
        ensures
            r.0 == universe@.width * self.config.cell_size,
            r.1 == universe@.height * self.config.cell_size,
    {
        (self.config.canvas_width(universe.width()), self.config.canvas_height(universe.height()))
    }
}

/// A pixel inside a cell's span maps back to that cell: integer
/// division by the cell size is the exact inverse of the cell-size
/// scaling that lays cells out.
pub proof fn lemma_canvas_coords_inverse(cell_size: int, row: int, col: int, x: int, y: int)
    requires
        cell_size > 0,
        0 <= row,
        0 <= col,
        col * cell_size <= x < (col + 1) * cell_size,
        row * cell_size <= y < (row + 1) * cell_size,
    ensures
        x / cell_size == col,
        y / cell_size == row,
{
    assert(x / cell_size == col && y / cell_size == row) by (nonlinear_arith)
        requires
            cell_size > 0,
            0 <= row,
            0 <= col,
            col * cell_size <= x < (col + 1) * cell_size,
            row * cell_size <= y < (row + 1) * cell_size,
    ;
}

/// Hit-testing agrees with the layout of `draw`: any pixel inside the
/// square painted for the live cell at flat index `i` maps back, by
/// the integer division of `canvas_to_grid_coords`, to exactly that
/// cell's row and column.
pub proof fn lemma_square_hit_test(
    g: GridView,
    cell_size: int,
    gap: int,
    i: int,
    x: int,
    y: int,
)
    requires
        g.wf(),
        g.width > 0,
        0 <= gap,
        cell_size > 2 * gap,
        g.width * cell_size + gap <= u64::MAX,
        g.height * cell_size + gap <= u64::MAX,
        0 <= i < g.cells.len(),
        cell_rect(g, cell_size, gap, i).0 <= x < cell_rect(g, cell_size, gap, i).0 + cell_rect(
            g,
            cell_size,
            gap,
            i,
        ).2,
        cell_rect(g, cell_size, gap, i).1 <= y < cell_rect(g, cell_size, gap, i).1 + cell_rect(
            g,
            cell_size,
            gap,
            i,
        ).2,
    ensures
        y / cell_size == i / g.width as int,
        x / cell_size == i % g.width as int,
{
    let w = g.width as int;
    let h = g.height as int;
    let row = i / w;
    let col = i % w;
    vstd::arithmetic::div_mod::lemma_fundamental_div_mod(i, w);
    vstd::arithmetic::div_mod::lemma_mod_bound(i, w);
    vstd::arithmetic::div_mod::lemma_div_pos_is_pos(i, w);
    assert(row < h) by (nonlinear_arith)
        requires
            w > 0,
            0 <= i < w * h,
            i == w * row + col,
            0 <= col < w,
            0 <= row,
    ;
    assert(col * cell_size + gap <= w * cell_size + gap && row * cell_size + gap <= h * cell_size
        + gap && cell_size <= w * cell_size) by (nonlinear_arith)
        requires
            0 <= col < w,
            0 <= row < h,
            cell_size > 0,
    ;
    assert(cell_rect(g, cell_size, gap, i).0 == col * cell_size + gap);
    assert(cell_rect(g, cell_size, gap, i).1 == row * cell_size + gap);
    assert(cell_rect(g, cell_size, gap, i).2 == cell_size - 2 * gap);
    assert((col + 1) * cell_size == col * cell_size + cell_size) by (nonlinear_arith);
    assert((row + 1) * cell_size == row * cell_size + cell_size) by (nonlinear_arith);
    lemma_canvas_coords_inverse(cell_size, row, col, x, y);
}

/// Default theme colors (background, foreground) used when no live
/// style context is available.
pub fn get_theme_colors() -> (r: (String, String))
    ensures
        r.0@ == "hsl(0 0% 100%)"@,
        r.1@ == "hsl(0 0% 3.9%)"@,
{
    ("hsl(0 0% 100%)".to_owned(), "hsl(0 0% 3.9%)".to_owned())
}

/// Picks the (background, foreground) pair for the page theme. `probe`
/// carries the background and foreground the host read from its live
/// style context, or `None` when that read failed; the background is
/// forced to pure black or white so the animation stays legible, and
/// a failed or empty probe falls back to the fixed palette pair.
pub fn select_theme_colors(is_dark: bool, probe: Option<(String, String)>) -> (r: (
    String,
    String,
))
    ensures
        r.0@ == (if is_dark {
            "hsl(0 0% 0%)"@
        } else {
            "hsl(0 0% 100%)"@
        }),
        ({
            match probe {
                Some(p) => if p.0@.len() > 0 && p.1@.len() > 0 {
                    r.1@ == p.1@
                } else {
                    r.1@ == (if is_dark {
                        "hsl(0 0% 98%)"@
                    } else {
                        "hsl(0 0% 3.9%)"@
                    })
                },
                None => r.1@ == (if is_dark {
                    "hsl(0 0% 98%)"@
                } else {
                    "hsl(0 0% 3.9%)"@
                }),
            }
        }),
{
    match probe {
        Some((bg_color, fg_color)) => {
            if !bg_color.as_str().is_empty() && !fg_color.as_str().is_empty() {
                if is_dark {
                    ("hsl(0 0% 0%)".to_owned(), fg_color)
                } else {
                    ("hsl(0 0% 100%)".to_owned(), fg_color)
                }
            } else {
                fallback_theme_colors(is_dark)
            }
        },
        None => fallback_theme_colors(is_dark),
    }
}

/// The fixed (background, foreground) pair for each theme.
fn fallback_theme_colors(is_dark: bool) -> (r: (String, String))
    ensures
        r.0@ == (if is_dark {
            "hsl(0 0% 0%)"@
        } else {
            "hsl(0 0% 100%)"@
        }),
        r.1@ == (if is_dark {
            "hsl(0 0% 98%)"@
        } else {
            "hsl(0 0% 3.9%)"@
        }),
{
    if is_dark {
        ("hsl(0 0% 0%)".to_owned(), "hsl(0 0% 98%)".to_owned())
    } else {
        ("hsl(0 0% 100%)".to_owned(), "hsl(0 0% 3.9%)".to_owned())
    }
}

/// Bookkeeping for the animation loop: generation counter, interval,
/// and a frame-rate estimate. Times are milliseconds; the frame rate
/// is kept in thousandths of a frame per second.
pub struct AnimationState {
    pub is_playing: bool,
    pub speed_ms: u32,
    pub generation: usize,
    pub fps: u64,
    pub last_frame_time: u64,
    pub frame_count: usize,
}

impl AnimationState {
    pub fn new(speed_ms: u32) -> (r: Self)
        ensures
            !r.is_playing,
            r.speed_ms == speed_ms,
            r.generation == 0,
            r.fps == 0,
            r.last_frame_time == 0,
            r.frame_count == 0,
    {
        Self {
            is_playing: false,
            speed_ms,
            generation: 0,
            fps: 0,
            last_frame_time: 0,
            frame_count: 0,
        }
    }

    /// Feeds one frame timestamp (in milliseconds) into the frame-rate
    /// estimate: the rate is a thousand over the time between the last
    /// two frames, in thousandths of a frame per second.
    pub fn update_fps(&mut self, current_time: u64)
        ensures
            final(self).is_playing == old(self).is_playing,
            final(self).speed_ms == old(self).speed_ms,
            final(self).generation == old(self).generation,
            final(self).last_frame_time == current_time,
            ({
                let prev = old(self).last_frame_time;
                let frames = old(self).frame_count;
                let ticked = prev > 0 && current_time > prev;
                &&& ticked ==> final(self).fps == 1_000_000int / (current_time - prev)
                &&& (ticked && frames < usize::MAX) ==> final(self).frame_count == frames
                    + 1
                &&& (ticked && frames == usize::MAX) ==> final(self).frame_count == frames
                &&& !ticked ==> final(self).fps == old(self).fps
                    && final(self).frame_count == frames
            }),
    {
        if self.last_frame_time > 0 && current_time > self.last_frame_time {
            let delta = current_time - self.last_frame_time;
            self.fps = 1_000_000 / delta;
            if self.frame_count < usize::MAX {
                self.frame_count = self.frame_count + 1;
            }
        }
        self.last_frame_time = current_time;
    }

    /// Forgets all statistics, back to the state of a fresh counter.
    pub fn reset_stats(&mut self)
        ensures
            final(self).is_playing == old(self).is_playing,
            final(self).speed_ms == old(self).speed_ms,
            final(self).generation == 0,
            final(self).fps == 0,
            final(self).last_frame_time == 0,
            final(self).frame_count == 0,
    {
        self.generation = 0;
        self.fps = 0;
        self.frame_count = 0;
        self.last_frame_time = 0;
    }

    /// Advances the generation counter by one.
    pub fn next_generation(&mut self)
        requires
            old(self).generation < usize::MAX,
        ensures
            final(self).generation == old(self).generation + 1,
            final(self).is_playing == old(self).is_playing,
            final(self).speed_ms == old(self).speed_ms,
            final(self).fps == old(self).fps,
            final(self).last_frame_time == old(self).last_frame_time,
            final(self).frame_count == old(self).frame_count,
    {
        self.generation = self.generation + 1;
    }
}

/// The catalog of named seed patterns.
pub struct PatternManager;

impl PatternManager {
    /// The seven catalog names, in their fixed order.
    pub fn get_pattern_names() -> (r: Vec<&'static str>)
        ensures
            r@.len() == 7,
            r@[0]@ == "Empty"@,
            r@[1]@ == "Random"@,
            r@[2]@ == "Glider"@,
            r@[3]@ == "Blinker"@,
            r@[4]@ == "Toad"@,
            r@[5]@ == "Beacon"@,
            r@[6]@ == "Pulsar"@,
    {
        let mut r: Vec<&'static str> = Vec::new();
        r.push("Empty");
        r.push("Random");
        r.push("Glider");
        r.push("Blinker");
        r.push("Toad");
        r.push("Beacon");
        r.push("Pulsar");
        r
    }

    /// Clears the universe, then seeds it for the named catalog entry:
    /// fixed placements for the shaped patterns, a quarter-density
    /// random fill for `Random` and for any unrecognized name.
    pub fn apply_pattern(universe: &mut Universe, pattern_name: &str)
        requires
            old(universe).inv(),
        ensures
            final(universe).inv(),
            final(universe)@.width == old(universe)@.width,
            final(universe)@.height == old(universe)@.height,
            ({
                let base = old(universe)@.cleared();
                if pattern_name@ == "Empty"@ {
                    final(universe)@ == base
                } else if pattern_name@ == "Glider"@ {
                    final(universe)@ == with_pattern(
                        with_pattern(
                            with_pattern(base, 5, 5, glider_offsets()),
                            15,
                            25,
                            glider_offsets(),
                        ),
                        25,
                        15,
                        glider_offsets(),
                    )
                } else if pattern_name@ == "Blinker"@ {
                    final(universe)@ == with_pattern(
                        with_pattern(
                            with_pattern(base, 10, 10, blinker_offsets()),
                            20,
                            20,
                            blinker_offsets(),
                        ),
                        30,
                        30,
                        blinker_offsets(),
                    )
                } else if pattern_name@ == "Toad"@ {
                    final(universe)@ == with_pattern(
                        with_pattern(base, 10, 10, toad_offsets()),
                        20,
                        20,
                        toad_offsets(),
                    )
                } else if pattern_name@ == "Beacon"@ {
                    final(universe)@ == with_pattern(
                        with_pattern(base, 10, 10, beacon_offsets()),
                        20,
                        20,
                        beacon_offsets(),
                    )
                } else if pattern_name@ == "Pulsar"@ {
                    final(universe)@ == with_pattern(base, 5, 5, pulsar_offsets())
                } else {
                    old(universe)@.total() > 10 ==> count_alive(final(universe)@.cells) >= 3
                }
            }),
    {
        universe.clear();
        if str_eq(pattern_name, "Empty") {
        } else if str_eq(pattern_name, "Glider") {
            universe.add_glider(5, 5);
            universe.add_glider(15, 25);
            universe.add_glider(25, 15);
        } else if str_eq(pattern_name, "Blinker") {
            universe.add_blinker(10, 10);
            universe.add_blinker(20, 20);
            universe.add_blinker(30, 30);
        } else if str_eq(pattern_name, "Toad") {
            universe.add_toad(10, 10);
            universe.add_toad(20, 20);
        } else if str_eq(pattern_name, "Beacon") {
            universe.add_beacon(10, 10);
            universe.add_beacon(20, 20);
        } else if str_eq(pattern_name, "Pulsar") {
            universe.add_pulsar(5, 5);
        } else {
            universe.randomize(250);
        }
    }
}

} // verus!
