//! The messages exchanged with the marketplace adapter and the task queue.

pub mod lambda;
pub mod sns;
