//! A priority task scheduler: a queue that serves the most urgent task first,
//! an in-memory record of each task's status, and the URL layout of the
//! HTTP interface that fronts them.

pub mod api;
pub mod ids;
pub mod task;
pub mod queue;
pub mod storage;
pub mod scheduler;
pub mod mandelbrot;
pub mod config;
