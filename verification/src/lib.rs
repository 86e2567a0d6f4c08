//! A Discord bot that accompanies the review of pull requests.

pub mod clock;
pub mod discord;
pub mod github;
pub mod text;
pub mod util;
