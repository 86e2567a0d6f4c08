//! Starting and ending reviews.

pub mod commands;
pub mod comp_tasks;
