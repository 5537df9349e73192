pub mod dispatch;
pub mod laws;
pub mod phase;
pub mod render;
pub mod schedule;
pub mod timer;
