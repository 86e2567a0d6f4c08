//! The identifiers of the buttons and menus of the content review.

use vstd::prelude::*;
use vstd::string::*;

use crate::text::decimal::{decimal, push_u64};

verus! {

/// What the identifier of every button and menu of the content review begins with.
pub const INTERACTION_ID_PREFIX: &'static str = "cr";

/// The button that starts a public review.
pub const BUTTON_ID_ACTION_START_PUBLIC: &'static str = "startPublic";

/// The button that starts a private review.
pub const BUTTON_ID_ACTION_START_PRIVATE: &'static str = "startPrivate";

/// The button that declares a review unnecessary.
pub const BUTTON_ID_ACTION_NOT_NEEDED: &'static str = "notNeeded";

/// The button that stops reminders.
pub const BUTTON_ID_ACTION_MUTE_REMINDERS: &'static str = "muteReminders";

/// The button that shows the issues of a discussion.
pub const BUTTON_ID_ACTION_VIEW_ISSUES: &'static str = "viewIssues";

/// The menu from which the author of an issue is chosen.
pub const SELECT_ID_ISSUE_OVERRIDE: &'static str = "overrideIssue";

/// The identifier of a button or menu for a pull request.
pub open spec fn component_id(action: Seq<char>, pr_id: u64) -> Seq<char> {
    INTERACTION_ID_PREFIX@ + "_"@ + action + "_"@ + decimal(pr_id as nat)
}

/// The identifier of a button or menu for a pull request.
pub fn make_component_id(action: &str, pr_id: u64) -> (r: String)
    ensures
        r@ == component_id(action@, pr_id),
{
    let mut out = INTERACTION_ID_PREFIX.to_owned();
    out.append("_");
    out.append(action);
    out.append("_");
    push_u64(&mut out, pr_id);
    out
}

} // verus!
