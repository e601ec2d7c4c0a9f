use life_engine::CodeExecutor;
use life_engine::CodeLanguage;
use life_engine::ExecutionResult;
use life_engine::LifeDriver;
use life_engine::MetricsStore;
use life_engine::PostMetrics;
use life_engine::CanvasConfig;
use life_engine::ceil_div;

#[test]
fn language_tags_are_recognized_case_insensitively() {
    assert_eq!(CodeLanguage::from_str("javascript"), Some(CodeLanguage::JavaScript));
    assert_eq!(CodeLanguage::from_str("JS"), Some(CodeLanguage::JavaScript));
    assert_eq!(CodeLanguage::from_str("TypeScript"), Some(CodeLanguage::TypeScript));
    assert_eq!(CodeLanguage::from_str("ts"), Some(CodeLanguage::TypeScript));
    assert_eq!(CodeLanguage::from_str("PY"), Some(CodeLanguage::Python));
    assert_eq!(CodeLanguage::from_str("Rust"), Some(CodeLanguage::Rust));
    assert_eq!(CodeLanguage::from_str("rs"), Some(CodeLanguage::Rust));
    assert_eq!(CodeLanguage::from_str("c"), Some(CodeLanguage::C));
    assert_eq!(CodeLanguage::from_str("C++"), Some(CodeLanguage::Cpp));
    assert_eq!(CodeLanguage::from_str("cxx"), Some(CodeLanguage::Cpp));
    assert_eq!(CodeLanguage::from_str("cc"), Some(CodeLanguage::Cpp));
    assert_eq!(CodeLanguage::from_str("golang"), Some(CodeLanguage::Go));
    assert_eq!(CodeLanguage::from_str("Java"), Some(CodeLanguage::Java));
    assert_eq!(CodeLanguage::from_str("rb"), Some(CodeLanguage::Ruby));
    assert_eq!(CodeLanguage::from_str("PHP"), Some(CodeLanguage::PHP));
    assert_eq!(CodeLanguage::from_str("pl"), Some(CodeLanguage::Perl));
    assert_eq!(CodeLanguage::from_str("Lua"), Some(CodeLanguage::Lua));
    assert_eq!(CodeLanguage::from_str("hs"), Some(CodeLanguage::Haskell));
    assert_eq!(CodeLanguage::from_str("ex"), Some(CodeLanguage::Elixir));
    assert_eq!(CodeLanguage::from_str("kt"), Some(CodeLanguage::Kotlin));
    assert_eq!(CodeLanguage::from_str("Scala"), Some(CodeLanguage::Scala));
    assert_eq!(CodeLanguage::from_str("shell"), Some(CodeLanguage::Bash));
    assert_eq!(CodeLanguage::from_str("sh"), Some(CodeLanguage::Bash));
}

#[test]
fn unknown_language_tags_are_carried_through() {
    assert_eq!(
        CodeLanguage::from_str("brainfuck"),
        Some(CodeLanguage::Other("brainfuck".to_string()))
    );
    // case is preserved on the verbatim tag
    assert_eq!(
        CodeLanguage::from_str("Zig"),
        Some(CodeLanguage::Other("Zig".to_string()))
    );
}

#[test]
fn language_names_round_trip() {
    assert_eq!(CodeLanguage::JavaScript.as_str(), "javascript");
    assert_eq!(CodeLanguage::Cpp.as_str(), "cpp");
    assert_eq!(CodeLanguage::Bash.as_str(), "bash");
    assert_eq!(CodeLanguage::Other("fancy".to_string()).as_str(), "fancy");
    for tag in ["python", "rust", "go", "java", "ruby", "php", "perl", "lua", "haskell",
        "elixir", "kotlin", "scala", "typescript"] {
        let lang = CodeLanguage::from_str(tag).unwrap();
        assert_eq!(lang.as_str(), tag);
    }
}

#[test]
fn every_language_is_executable() {
    assert!(CodeLanguage::Rust.is_web_executable());
    assert!(CodeLanguage::Other("x".to_string()).is_web_executable());
}

#[test]
fn executor_settings() {
    let e = CodeExecutor::new(5000);
    assert_eq!(e.timeout_ms, 5000);
    let d = CodeExecutor::default();
    assert_eq!(d.timeout_ms, 30000);
    let r = ExecutionResult {
        success: true,
        output: "ok".to_string(),
        error: None,
        execution_time: Some(12),
    };
    assert!(r.success);
    assert_eq!(r.output, "ok");
}

#[test]
fn metrics_unknown_slug_reads_zero() {
    let store = MetricsStore::new();
    let m = store.get_post_metrics("nothing-here");
    assert_eq!(m, PostMetrics { views: 0, likes: 0, dislikes: 0 });
}

#[test]
fn metrics_views_accumulate_per_slug() {
    let mut store = MetricsStore::new();
    store.increment_view("first-post");
    store.increment_view("first-post");
    store.increment_view("second-post");
    assert_eq!(store.get_post_metrics("first-post").views, 2);
    assert_eq!(store.get_post_metrics("second-post").views, 1);
    assert_eq!(store.get_post_metrics("third-post").views, 0);
}

#[test]
fn metrics_votes_split_into_likes_and_dislikes() {
    let mut store = MetricsStore::new();
    store.update_vote("post", true);
    store.update_vote("post", true);
    store.update_vote("post", false);
    let m = store.get_post_metrics("post");
    assert_eq!(m.likes, 2);
    assert_eq!(m.dislikes, 1);
    assert_eq!(m.views, 0);
    store.increment_view("post");
    let m2 = store.get_post_metrics("post");
    assert_eq!(m2.likes, 2);
    assert_eq!(m2.views, 1);
}

#[test]
fn ceil_div_covers_partial_cells() {
    assert_eq!(ceil_div(120, 12), 10);
    assert_eq!(ceil_div(121, 12), 11);
    assert_eq!(ceil_div(1, 12), 1);
    assert_eq!(ceil_div(0, 12), 0);
}

#[test]
fn driver_sizes_the_grid_to_cover_the_viewport() {
    let d = LifeDriver::new(CanvasConfig::new(12), 121, 60, 0, 100, false);
    assert_eq!(d.universe.width(), 11);
    assert_eq!(d.universe.height(), 5);
    assert_eq!(d.speed_ms, 100);
    assert_eq!(d.density, 0);
    assert!(!d.is_dark);
}

#[test]
fn driver_tick_advances_one_generation() {
    let mut d = LifeDriver::new(CanvasConfig::new(12), 60, 60, 0, 50, false);
    d.universe.clear();
    d.universe.add_blinker(1, 1);
    d.on_tick();
    assert!(d.universe.get_cell(0, 2).is_alive());
    assert!(d.universe.get_cell(1, 2).is_alive());
    assert!(d.universe.get_cell(2, 2).is_alive());
    assert_eq!(d.universe.count_living_cells(), 3);
}

#[test]
fn driver_resize_reseeds_only_on_a_real_change() {
    let mut d = LifeDriver::new(CanvasConfig::new(12), 120, 60, 0, 50, false);
    let before = d.universe.clone();
    d.on_resize(120, 60);
    assert!(d.universe.is_stable(&before));
    d.on_resize(240, 120);
    assert_eq!(d.universe.width(), 20);
    assert_eq!(d.universe.height(), 10);
}

#[test]
fn driver_density_change_wipes_and_reseeds() {
    let mut d = LifeDriver::new(CanvasConfig::new(12), 240, 240, 0, 50, false);
    let before = d.universe.clone();
    d.on_density_change(0);
    assert!(d.universe.is_stable(&before), "same density leaves the grid alone");
    d.on_density_change(1000);
    assert_eq!(d.density, 1000);
    // full density plus the guaranteed patterns fills the grid
    assert_eq!(d.universe.count_living_cells(), 20 * 20);
}

#[test]
fn driver_pointer_move_activates_the_cell_under_it() {
    let mut d = LifeDriver::new(CanvasConfig::new(12), 120, 60, 0, 50, false);
    d.universe.clear();
    d.on_pointer_move(25, 13);
    assert!(d.universe.get_cell(1, 2).is_alive());
    assert_eq!(d.universe.count_living_cells(), 1);
    // far outside the grid: nothing happens
    d.on_pointer_move(100000, 100000);
    assert_eq!(d.universe.count_living_cells(), 1);
}

#[test]
fn driver_theme_and_speed_settings() {
    let mut d = LifeDriver::new(CanvasConfig::new(12), 120, 60, 0, 50, false);
    d.on_theme_change(true, None);
    assert!(d.is_dark);
    assert_eq!(d.renderer.config.alive_color, "hsl(0 0% 98%)");
    d.set_speed(250);
    assert_eq!(d.speed_ms, 250);
}

#[test]
fn driver_new_plants_the_visibility_seeds() {
    let d = LifeDriver::new(CanvasConfig::new(12), 480, 480, 0, 100, false);
    assert_eq!(d.universe.width(), 40);
    assert_eq!(d.universe.height(), 40);
    // glider anchored at (5, 5)
    for (r, c) in [(5, 6), (6, 7), (7, 5), (7, 6), (7, 7)] {
        assert!(d.universe.get_cell(r, c).is_alive(), "glider cell ({r}, {c})");
    }
    // blinker anchored at (10, 8)
    for (r, c) in [(10, 8), (10, 9), (10, 10)] {
        assert!(d.universe.get_cell(r, c).is_alive(), "blinker cell ({r}, {c})");
    }
    assert!(d.universe.count_living_cells() >= 3);
}

#[test]
fn driver_density_change_replants_the_visibility_seeds() {
    let mut d = LifeDriver::new(CanvasConfig::new(12), 480, 480, 500, 100, false);
    d.on_density_change(0);
    for (r, c) in [(5, 6), (6, 7), (7, 5), (7, 6), (7, 7), (10, 8), (10, 9), (10, 10)] {
        assert!(d.universe.get_cell(r, c).is_alive(), "seed cell ({r}, {c})");
    }
    assert!(d.universe.count_living_cells() >= 3);
}

#[test]
fn driver_theme_change_applies_the_probed_palette() {
    let mut d = LifeDriver::new(CanvasConfig::new(12), 120, 60, 0, 50, false);
    d.on_theme_change(false, Some(("#0a0b0c".to_string(), "#d0e0f0".to_string())));
    assert!(!d.is_dark);
    assert_eq!(d.renderer.config.alive_color, "#0a0b0c");
    assert_eq!(d.renderer.config.dead_color, "hsl(0 0% 100%)");
    assert_eq!(d.renderer.config.grid_color, "#d0e0f0");
}
