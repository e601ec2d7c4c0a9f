use vstd::prelude::*;

pub mod canvas;
pub mod cell;
pub mod driver;
pub mod executor;
pub mod game;
pub mod metrics;
mod rng;
pub mod text;

pub use driver::LifeDriver;
pub use driver::ceil_div;
pub use driver::cells_to_cover;

pub use executor::CodeExecutor;
pub use executor::CodeLanguage;
pub use executor::ExecutionResult;
pub use metrics::MetricsStore;
pub use metrics::PostMetrics;

pub use canvas::AnimationState;
pub use canvas::CanvasConfig;
pub use canvas::CanvasRenderer;
pub use canvas::DrawPlan;
pub use canvas::PatternManager;

pub use cell::Cell;
pub use cell::CellState;
pub use game::GridView;
pub use game::Universe;
pub use game::count_alive;

verus! {

/// Default theme colors (background, foreground) for a surface that
/// has no live style context at all, such as a page rendered ahead of
/// time.
pub fn get_theme_colors() -> (r: (String, String))
    ensures
        r.0@ == "#f9fafb"@,
        r.1@ == "#374151"@,
{
    ("#f9fafb".to_owned(), "#374151".to_owned())
}

} // verus!
