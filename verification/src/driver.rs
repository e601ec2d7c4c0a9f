//! The driver behind the background animation: one owner of the
//! universe that reacts to the host's events — timer ticks, viewport
//! resizes, density and theme changes, pointer movement — and decides
//! what happens to the grid. The host runs the actual timer and event
//! loop and repaints from the draw plan after every change.

use vstd::prelude::*;

use crate::canvas::CanvasConfig;
use crate::canvas::CanvasRenderer;
use crate::cell::Cell;
use crate::game::GridView;
use crate::game::Universe;
use crate::game::blinker_offsets;
use crate::game::count_alive;
use crate::game::glider_offsets;
use crate::game::lemma_with_pattern_alive;
use crate::game::lemma_with_pattern_count;
use crate::game::with_pattern;

verus! {

/// Cells needed to cover `pixels` at `cell_size` pixels per cell,
/// rounding up so the grid covers the whole viewport.
pub open spec fn cells_to_cover(pixels: u32, cell_size: u32) -> int {
    (pixels + cell_size - 1) / (cell_size as int)
}

/// Division rounding up: the number of `b`-sized cells needed to cover
/// `a` pixels.
pub fn ceil_div(a: u32, b: u32) -> (r: u32)
    requires
        b > 0,
    ensures
        r == cells_to_cover(a, b),
{
    proof {
        assert((a + b - 1) / (b as int) <= a || a == 0) by (nonlinear_arith)
            requires
                b >= 1,
                a >= 0,
        ;
    }
    (((a as u64) + (b as u64) - 1) / (b as u64)) as u32
}

/// The cell at `(row, col)` is alive whenever it fits the grid at all.
pub open spec fn seed_cell_alive(g: GridView, row: int, col: int) -> bool {
    row < g.height && col < g.width ==> g.alive(row, col)
}

/// The two guaranteed-visibility seeds the driver plants: the five
/// glider cells anchored at `(5, 5)` and the three blinker cells
/// anchored at `(10, 8)`, each alive wherever it fits the grid.
pub open spec fn has_visibility_seeds(g: GridView) -> bool {
    &&& seed_cell_alive(g, 5, 6)
    &&& seed_cell_alive(g, 6, 7)
    &&& seed_cell_alive(g, 7, 5)
    &&& seed_cell_alive(g, 7, 6)
    &&& seed_cell_alive(g, 7, 7)
    &&& seed_cell_alive(g, 10, 8)
    &&& seed_cell_alive(g, 10, 9)
    &&& seed_cell_alive(g, 10, 10)
}

/// Planting a glider at `(5, 5)` and then a blinker at `(10, 8)` puts
/// every seed cell that fits the grid alive, keeps the dimensions and
/// never lowers the live count.
proof fn lemma_visibility_seeds(seeded: GridView, with_glider: GridView, done: GridView)
    requires
        seeded.wf(),
        with_glider == with_pattern(seeded, 5, 5, glider_offsets()),
        done == with_pattern(with_glider, 10, 8, blinker_offsets()),
    ensures
        done.wf(),
        done.width == seeded.width,
        done.height == seeded.height,
        count_alive(done.cells) >= count_alive(seeded.cells),
        has_visibility_seeds(done),
{
    lemma_with_pattern_alive(seeded, 5, 5, glider_offsets());
    lemma_with_pattern_count(seeded, 5, 5, glider_offsets());
    lemma_with_pattern_alive(with_glider, 10, 8, blinker_offsets());
    lemma_with_pattern_count(with_glider, 10, 8, blinker_offsets());
    assert(5int == 5 + glider_offsets()[0].0 && 6int == 5 + glider_offsets()[0].1);
    assert(6int == 5 + glider_offsets()[1].0 && 7int == 5 + glider_offsets()[1].1);
    assert(7int == 5 + glider_offsets()[2].0 && 5int == 5 + glider_offsets()[2].1);
    assert(7int == 5 + glider_offsets()[3].0 && 6int == 5 + glider_offsets()[3].1);
    assert(7int == 5 + glider_offsets()[4].0 && 7int == 5 + glider_offsets()[4].1);
    assert(10int == 10 + blinker_offsets()[0].0 && 8int == 8 + blinker_offsets()[0].1);
    assert(10int == 10 + blinker_offsets()[1].0 && 9int == 8 + blinker_offsets()[1].1);
    assert(10int == 10 + blinker_offsets()[2].0 && 10int == 8 + blinker_offsets()[2].1);
}

/// Drives the simulation: owns the universe, the renderer and the
/// current settings, and turns each host event into grid operations.
pub struct LifeDriver {
    pub universe: Universe,
    pub renderer: CanvasRenderer,
    pub speed_ms: u64,
    pub density: u32,
    pub is_dark: bool,
}

impl LifeDriver {
    /// The universe buffer is consistent and the cell size positive.
    pub open spec fn inv(&self) -> bool {
        &&& self.universe.inv()
        &&& self.renderer.config.cell_size > 0
    }

    /// Builds the driver for a viewport of `viewport_w × viewport_h`
    /// pixels: sizes the grid to cover it, seeds at the given density
    /// (in thousandths) and places a glider and a blinker so something
    /// is visible from the first frame.
    pub fn new(
        config: CanvasConfig,
        viewport_w: u32,
        viewport_h: u32,
        density: u32,
        speed_ms: u64,
        is_dark: bool,
    ) -> (r: Self)
        requires
            config.cell_size > 0,
            cells_to_cover(viewport_w, config.cell_size) * cells_to_cover(
                viewport_h,
                config.cell_size,
            ) <= usize::MAX,
        ensures
            r.inv(),
            r.universe@.width == cells_to_cover(viewport_w, config.cell_size),
            r.universe@.height == cells_to_cover(viewport_h, config.cell_size),
            r.speed_ms == speed_ms,
            r.density == density,
            r.is_dark == is_dark,
            r.renderer.config == config,
            r.universe@.total() > 10 ==> count_alive(r.universe@.cells) >= 3,
            has_visibility_seeds(r.universe@),
    {
        let grid_w = ceil_div(viewport_w, config.cell_size) as usize;
        let grid_h = ceil_div(viewport_h, config.cell_size) as usize;
        let mut universe = Universe::new(grid_w, grid_h);
        universe.randomize(density);
        proof {
            universe.lemma_inv_wf();
        }
        let ghost seeded = universe@;
        universe.add_glider(5, 5);
        let ghost with_glider = universe@;
        universe.add_blinker(10, 8);
        proof {
            lemma_visibility_seeds(seeded, with_glider, universe@);
        }
        Self { universe, renderer: CanvasRenderer::new(config), speed_ms, density, is_dark }
    }

    /// One timer tick: the universe advances one generation; the host
    /// repaints afterwards.
    pub fn on_tick(&mut self)
        requires
            old(self).inv(),
        ensures
            final(self).inv(),
            final(self).universe@ == old(self).universe@.step(),
            final(self).renderer == old(self).renderer,
            final(self).speed_ms == old(self).speed_ms,
            final(self).density == old(self).density,
            final(self).is_dark == old(self).is_dark,
    {
        self.universe.tick();
    }

    /// The viewport changed: the grid is resized to cover it and
    /// reseeded at the current density. A resize that lands on the
    /// current dimensions leaves the grid untouched.
    pub fn on_resize(&mut self, viewport_w: u32, viewport_h: u32)
        requires
            old(self).inv(),
            cells_to_cover(viewport_w, old(self).renderer.config.cell_size) * cells_to_cover(
                viewport_h,
                old(self).renderer.config.cell_size,
            ) <= usize::MAX,
        ensures
            final(self).inv(),
            final(self).universe@.width == cells_to_cover(
                viewport_w,
                old(self).renderer.config.cell_size,
            ),
            final(self).universe@.height == cells_to_cover(
                viewport_h,
                old(self).renderer.config.cell_size,
            ),
            old(self).universe@.width == cells_to_cover(
                viewport_w,
                old(self).renderer.config.cell_size,
            ) && old(self).universe@.height == cells_to_cover(
                viewport_h,
                old(self).renderer.config.cell_size,
            ) ==> final(self).universe@ == old(self).universe@,
            final(self).renderer == old(self).renderer,
            final(self).speed_ms == old(self).speed_ms,
            final(self).density == old(self).density,
            final(self).is_dark == old(self).is_dark,
            ({
                let new_w = cells_to_cover(viewport_w, old(self).renderer.config.cell_size);
                let new_h = cells_to_cover(viewport_h, old(self).renderer.config.cell_size);
                let changed = !(old(self).universe@.width == new_w && old(self).universe@.height
                    == new_h);
                &&& changed && new_w * new_h > 10 ==> count_alive(final(self).universe@.cells)
                    >= 3
                &&& changed && new_w > 15 && new_h > 15 ==> forall|k: int|
                    0 <= k < glider_offsets().len() ==> final(self).universe@.alive(
                        5 + glider_offsets()[k].0,
                        5 + glider_offsets()[k].1,
                    )
                &&& changed && new_h > 15 && new_w > 30 ==> forall|k: int|
                    0 <= k < blinker_offsets().len() && new_w - 10 + blinker_offsets()[k].0
                        < new_h ==> final(self).universe@.alive(
                        new_w - 10 + blinker_offsets()[k].0,
                        8 + blinker_offsets()[k].1,
                    )
            }),
    {
        let grid_w = ceil_div(viewport_w, self.renderer.config.cell_size) as usize;
        let grid_h = ceil_div(viewport_h, self.renderer.config.cell_size) as usize;
        self.universe.resize_and_redistribute(grid_w, grid_h, self.density);
    }

    /// The density setting changed: the grid is wiped and reseeded at
    /// the new density immediately, with the two guaranteed-visibility
    /// patterns placed back at their fixed anchors. No change if the
    /// setting kept its value.
    pub fn on_density_change(&mut self, density: u32)
        requires
            old(self).inv(),
        ensures
            final(self).inv(),
            final(self).density == density,
            final(self).universe@.width == old(self).universe@.width,
            final(self).universe@.height == old(self).universe@.height,
            density == old(self).density ==> final(self).universe@ == old(self).universe@,
            density != old(self).density && old(self).universe@.total() > 10 ==> count_alive(
                final(self).universe@.cells,
            ) >= 3,
            density != old(self).density ==> has_visibility_seeds(final(self).universe@),
            final(self).renderer == old(self).renderer,
            final(self).speed_ms == old(self).speed_ms,
            final(self).is_dark == old(self).is_dark,
    {
        if density != self.density {
            self.density = density;
            self.universe.clear();
            self.universe.randomize(density);
            proof {
                self.universe.lemma_inv_wf();
            }
            let ghost seeded = self.universe@;
            self.universe.add_glider(5, 5);
            let ghost with_glider = self.universe@;
            self.universe.add_blinker(10, 8);
            proof {
                lemma_visibility_seeds(seeded, with_glider, self.universe@);
            }
        }
    }

    /// The pointer moved over the surface: the cell under it comes
    /// alive (a one-way activation, not a toggle); nothing happens
    /// outside the grid.
    pub fn on_pointer_move(&mut self, x: u64, y: u64)
        requires
            old(self).inv(),
        ensures
            final(self).inv(),
            final(self).universe@ == old(self).universe@.written(
                y as int / old(self).renderer.config.cell_size as int,
                x as int / old(self).renderer.config.cell_size as int,
                true,
            ),
            final(self).renderer == old(self).renderer,
            final(self).speed_ms == old(self).speed_ms,
            final(self).density == old(self).density,
            final(self).is_dark == old(self).is_dark,
    {
        let (row, col) = self.renderer.canvas_to_grid_coords(x, y);
        let height = self.universe.height();
        let width = self.universe.width();
        if row < height as u64 && col < width as u64 {
            self.universe.set_cell(row as usize, col as usize, Cell::alive());
        }
    }

    /// The page theme flipped: the renderer takes the new palette
    /// (from the host's probe of its style context, with the built-in
    /// fallback) and the flag is remembered.
    pub fn on_theme_change(&mut self, is_dark: bool, probe: Option<(String, String)>)
        requires
            old(self).inv(),
        ensures
            final(self).inv(),
            final(self).is_dark == is_dark,
            final(self).universe@ == old(self).universe@,
            final(self).speed_ms == old(self).speed_ms,
            final(self).density == old(self).density,
            final(self).renderer.config.cell_size == old(self).renderer.config.cell_size,
            final(self).renderer.config.gap_size == old(self).renderer.config.gap_size,
            final(self).renderer.config.show_grid == old(self).renderer.config.show_grid,
            ({
                match probe {
                    Some(p) => if p.0@.len() > 0 {
                        &&& final(self).renderer.config.alive_color@ == p.0@
                        &&& final(self).renderer.config.dead_color@ == (if is_dark {
                            "hsl(0 0% 0%)"@
                        } else {
                            "hsl(0 0% 100%)"@
                        })
                        &&& final(self).renderer.config.grid_color@ == (if p.1@.len() > 0 {
                            p.1@
                        } else {
                            old(self).renderer.config.grid_color@
                        })
                    } else {
                        final(self).renderer.has_fallback_palette(is_dark)
                    },
                    None => final(self).renderer.has_fallback_palette(is_dark),
                }
            }),
    {
        self.is_dark = is_dark;
        self.renderer.update_theme(is_dark, probe);
    }

    /// The speed setting changed: the new interval is remembered; the
    /// host cancels its running timer and restarts it at this interval,
    /// with no carry-over of partial elapsed time.
    pub fn set_speed(&mut self, speed_ms: u64)
        requires
            old(self).inv(),
        ensures
            final(self).inv(),
            final(self).speed_ms == speed_ms,
            final(self).universe@ == old(self).universe@,
            final(self).renderer == old(self).renderer,
            final(self).density == old(self).density,
            final(self).is_dark == old(self).is_dark,
    {
        self.speed_ms = speed_ms;
    }
}

} // verus!
