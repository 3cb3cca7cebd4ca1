//! Verified core of a lap simulator: index logic over closed center lines,
//! the time-stepping plan of a run, resettable snapshots, and the text and
//! path logic behind the rendered frames, video list and HTML preview.
pub mod center_line;
pub mod output;
pub mod paths;
pub mod preview;
pub mod resettable;
pub mod run_plan;
pub mod text;
pub mod video;
