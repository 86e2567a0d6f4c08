//! The review of pull requests on Discord.

pub mod component_events;
pub mod consts;
pub mod data;
pub mod github_events;
pub mod notices;
pub mod raised_issues;
pub mod timers;
pub mod triage;
pub mod util;
