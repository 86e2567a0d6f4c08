//! Issues that are raised in a discussion, and votes to override them.
//!
//! A team member raises an issue by pointing out a message of their own, and votes to override the
//! issues of a discussion in the same way. A new issue makes all votes void.

pub mod comp_tasks;
pub mod embeds;
pub mod overview;
pub mod own;
pub mod targeted;
pub mod votes;

pub use embeds::create_message_embed;
pub use overview::{
    cr_issue_overview, cr_issue_overview_context, cr_issue_overview_impl,
    create_issue_overview_embeds,
};
pub use own::{
    cr_issue_dismiss, cr_issue_dismiss_context, cr_issue_dismiss_override,
    cr_issue_dismiss_override_context, cr_issue_view_context, dismiss_own_impl,
};
pub use targeted::{cr_issue_override, cr_issue_raise, cr_issue_view};
pub use votes::{cr_issue_override_context, cr_issue_raise_context};
