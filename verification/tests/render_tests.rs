use life_engine::AnimationState;
use life_engine::CanvasConfig;
use life_engine::CanvasRenderer;
use life_engine::Cell;
use life_engine::PatternManager;
use life_engine::Universe;
use life_engine::canvas::get_theme_colors as renderer_theme_colors;
use life_engine::canvas::select_theme_colors;

#[test]
fn config_constructors_and_palettes() {
    let d = CanvasConfig::default();
    assert_eq!(d.cell_size, 12);
    assert_eq!(d.gap_size, 0);
    assert_eq!(d.alive_color, "#374151");
    assert_eq!(d.dead_color, "#f9fafb");
    assert_eq!(d.grid_color, "#e5e7eb");
    assert!(!d.show_grid);

    let n = CanvasConfig::new(20);
    assert_eq!(n.cell_size, 20);
    assert_eq!(n.alive_color, "#374151");

    let w = CanvasConfig::with_colors(8, "#111111", "#222222");
    assert_eq!(w.cell_size, 8);
    assert_eq!(w.alive_color, "#111111");
    assert_eq!(w.dead_color, "#222222");

    let dark = CanvasConfig::dark_theme();
    assert_eq!(dark.alive_color, "#ffffff");
    assert_eq!(dark.dead_color, "#000000");
    assert_eq!(dark.grid_color, "#333333");

    let light = CanvasConfig::light_theme();
    assert_eq!(light.alive_color, "#374151");
}

#[test]
fn canvas_dimensions_scale_with_cell_size() {
    let c = CanvasConfig::new(12);
    assert_eq!(c.canvas_width(100), 1200);
    assert_eq!(c.canvas_height(60), 720);
    assert_eq!(c.canvas_width(0), 0);
}

#[test]
fn draw_plan_lists_one_square_per_live_cell_in_row_major_order() {
    let mut u = Universe::new(2, 2);
    u.set_cell(0, 1, Cell::alive());
    u.set_cell(1, 0, Cell::alive());
    let r = CanvasRenderer::new(CanvasConfig::new(12));
    let plan = r.draw(&u);
    assert_eq!(plan.width_px, 24);
    assert_eq!(plan.height_px, 24);
    assert_eq!(plan.alive_color, "#374151");
    assert_eq!(plan.dead_color, "#f9fafb");
    assert!(!plan.show_grid);
    assert_eq!(plan.vertical_lines, vec![0, 12, 24]);
    assert_eq!(plan.horizontal_lines, vec![0, 12, 24]);
    assert_eq!(plan.cell_squares, vec![(12, 0, 12), (0, 12, 12)]);
}

#[test]
fn draw_plan_respects_the_gap() {
    let mut u = Universe::new(1, 1);
    u.set_cell(0, 0, Cell::alive());
    let mut config = CanvasConfig::new(10);
    config.gap_size = 2;
    let r = CanvasRenderer::new(config);
    let plan = r.draw(&u);
    assert_eq!(plan.cell_squares, vec![(2, 2, 6)]);

    // a gap that swallows the whole cell leaves nothing to paint
    let mut swallowed = CanvasConfig::new(4);
    swallowed.gap_size = 2;
    let r2 = CanvasRenderer::new(swallowed);
    let plan2 = r2.draw(&u);
    assert!(plan2.cell_squares.is_empty());
}

#[test]
fn pixel_to_grid_is_the_inverse_of_the_cell_scaling() {
    let r = CanvasRenderer::new(CanvasConfig::new(12));
    assert_eq!(r.canvas_to_grid_coords(0, 0), (0, 0));
    assert_eq!(r.canvas_to_grid_coords(11, 11), (0, 0));
    assert_eq!(r.canvas_to_grid_coords(12, 0), (0, 1));
    assert_eq!(r.canvas_to_grid_coords(30, 25), (2, 2));

    // every pixel of the square drawn for cell (1, 2) maps back to it
    let mut u = Universe::new(4, 4);
    u.set_cell(1, 2, Cell::alive());
    let plan = r.draw(&u);
    assert_eq!(plan.cell_squares.len(), 1);
    let (x, y, side) = plan.cell_squares[0];
    for dx in 0..side {
        for dy in 0..side {
            assert_eq!(r.canvas_to_grid_coords(x + dx, y + dy), (1, 2));
        }
    }
}

#[test]
fn setup_canvas_reports_the_exact_pixel_size() {
    let u = Universe::new(100, 60);
    let r = CanvasRenderer::new(CanvasConfig::new(12));
    assert_eq!(r.setup_canvas(&u), (1200, 720));
}

#[test]
fn update_theme_prefers_the_probed_colors() {
    let mut r = CanvasRenderer::new(CanvasConfig::new(12));
    r.update_theme(false, Some(("#123456".to_string(), "#654321".to_string())));
    assert_eq!(r.config.alive_color, "#123456");
    assert_eq!(r.config.dead_color, "hsl(0 0% 100%)");
    assert_eq!(r.config.grid_color, "#654321");

    let mut dark = CanvasRenderer::new(CanvasConfig::new(12));
    dark.update_theme(true, Some(("#abcdef".to_string(), String::new())));
    assert_eq!(dark.config.alive_color, "#abcdef");
    assert_eq!(dark.config.dead_color, "hsl(0 0% 0%)");
    // an empty border color keeps the previous grid color
    assert_eq!(dark.config.grid_color, "#e5e7eb");
}

#[test]
fn update_theme_falls_back_when_the_probe_fails() {
    let mut r = CanvasRenderer::new(CanvasConfig::new(12));
    r.update_theme(true, None);
    assert_eq!(r.config.alive_color, "hsl(0 0% 98%)");
    assert_eq!(r.config.dead_color, "hsl(0 0% 0%)");
    assert_eq!(r.config.grid_color, "hsl(0 0% 14.9%)");

    // an empty foreground counts as a failed probe
    let mut l = CanvasRenderer::new(CanvasConfig::new(12));
    l.update_theme(false, Some((String::new(), "#fff".to_string())));
    assert_eq!(l.config.alive_color, "hsl(0 0% 3.9%)");
    assert_eq!(l.config.dead_color, "hsl(0 0% 100%)");
    assert_eq!(l.config.grid_color, "hsl(0 0% 89.8%)");
}

#[test]
fn renderer_config_access() {
    let mut r = CanvasRenderer::new(CanvasConfig::new(9));
    assert_eq!(r.config().cell_size, 9);
    r.set_config(CanvasConfig::new(15));
    assert_eq!(r.config().cell_size, 15);
}

#[test]
fn theme_color_defaults() {
    let (bg, fg) = life_engine::get_theme_colors();
    assert_eq!(bg, "#f9fafb");
    assert_eq!(fg, "#374151");

    let (rbg, rfg) = renderer_theme_colors();
    assert_eq!(rbg, "hsl(0 0% 100%)");
    assert_eq!(rfg, "hsl(0 0% 3.9%)");
}

#[test]
fn select_theme_colors_uses_probe_or_fallback() {
    let (bg, fg) = select_theme_colors(
        true,
        Some(("#000001".to_string(), "#fffffe".to_string())),
    );
    assert_eq!(bg, "hsl(0 0% 0%)");
    assert_eq!(fg, "#fffffe");

    let (bg2, fg2) = select_theme_colors(false, None);
    assert_eq!(bg2, "hsl(0 0% 100%)");
    assert_eq!(fg2, "hsl(0 0% 3.9%)");

    let (bg3, fg3) = select_theme_colors(true, Some((String::new(), "#fff".to_string())));
    assert_eq!(bg3, "hsl(0 0% 0%)");
    assert_eq!(fg3, "hsl(0 0% 98%)");
}

#[test]
fn animation_state_tracks_frames_and_rate() {
    let mut a = AnimationState::new(100);
    assert!(!a.is_playing);
    assert_eq!(a.speed_ms, 100);
    assert_eq!(a.generation, 0);
    assert_eq!(a.fps, 0);

    // the first sample only records the time
    a.update_fps(1000);
    assert_eq!(a.fps, 0);
    assert_eq!(a.frame_count, 0);

    // 250 ms between frames: 4 frames per second, in thousandths
    a.update_fps(1250);
    assert_eq!(a.fps, 4000);
    assert_eq!(a.frame_count, 1);

    a.next_generation();
    a.next_generation();
    assert_eq!(a.generation, 2);

    a.reset_stats();
    assert_eq!(a.generation, 0);
    assert_eq!(a.fps, 0);
    assert_eq!(a.frame_count, 0);
    assert_eq!(a.last_frame_time, 0);
}

#[test]
fn pattern_names_catalog() {
    let names = PatternManager::get_pattern_names();
    assert_eq!(
        names,
        vec!["Empty", "Random", "Glider", "Blinker", "Toad", "Beacon", "Pulsar"]
    );
}

#[test]
fn apply_pattern_seeds_each_catalog_entry() {
    let mut u = Universe::new(40, 40);
    u.randomize(1000);

    PatternManager::apply_pattern(&mut u, "Empty");
    assert_eq!(u.count_living_cells(), 0);

    PatternManager::apply_pattern(&mut u, "Glider");
    assert_eq!(u.count_living_cells(), 15);

    PatternManager::apply_pattern(&mut u, "Blinker");
    assert_eq!(u.count_living_cells(), 9);

    PatternManager::apply_pattern(&mut u, "Toad");
    assert_eq!(u.count_living_cells(), 12);

    PatternManager::apply_pattern(&mut u, "Beacon");
    assert_eq!(u.count_living_cells(), 16);

    PatternManager::apply_pattern(&mut u, "Pulsar");
    assert_eq!(u.count_living_cells(), 48);
}

#[test]
fn apply_pattern_random_and_unknown_names_reseed() {
    let mut u = Universe::new(20, 20);
    PatternManager::apply_pattern(&mut u, "Random");
    assert!(u.count_living_cells() >= 3);

    let mut v = Universe::new(20, 20);
    PatternManager::apply_pattern(&mut v, "NoSuchPattern");
    assert!(v.count_living_cells() >= 3);
}
