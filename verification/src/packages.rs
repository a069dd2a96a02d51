//! Per-frame packages: the fixed render pipeline and the time tracker.

pub mod test_render_pipeline;
pub mod time_package;
