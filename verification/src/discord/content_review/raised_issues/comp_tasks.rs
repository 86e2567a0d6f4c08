//! The button that shows the issues of a discussion.

use vstd::prelude::*;

use crate::discord::action::{Action, Answer, Flow, Run};
use crate::discord::content_review::data::discussions::{by_pr_result, DiscussionRecord};
use crate::discord::content_review::raised_issues::overview::{
    create_issue_overview_embeds, GatherStage, Gathered, Gathering,
};
use crate::discord::error::{DbError, HandledError};
use crate::discord::ids::column_of;
use crate::discord::store::{DiscussionRow, Statement};
use crate::discord::texts::Text;

verus! {

/// The press on the button that shows the issues of a discussion.
#[derive(Debug)]
pub enum ViewIssues {
    New { pr_id: u64 },
    Lookup,
    Acknowledging { discussion: DiscussionRecord },
    Gathering(Gathering),
    /// The last action is under way; whether it succeeds makes no difference.
    Closing,
    Over,
}

/// What a user is told where there is nothing to show.
pub const NO_ISSUES: &'static str =
    "There are no issues or overrides associated with this discussion.";

impl ViewIssues {
    /// Tells what went wrong, and ends.
    pub open spec fn fail(error: HandledError) -> (ViewIssues, Action) {
        (
            ViewIssues::Closing,
            Action::Followup(Text::Error { before: "Error: ", error, after: "" }),
        )
    }

    /// Does a step of the gathering, and shows the overview once it is gathered.
    pub open spec fn gather(gathering: Gathering, answer: Answer) -> (ViewIssues, Action) {
        match gathering.next(answer) {
            Gathered::Ask(later, action) => (ViewIssues::Gathering(later), action),
            Gathered::Ready(overview) => if overview.entries is Empty {
                (ViewIssues::Closing, Action::Followup(Text::Plain(NO_ISSUES)))
            } else {
                (ViewIssues::Closing, Action::FollowupOverview(overview))
            },
            Gathered::Failed(error) => Self::fail(error),
        }
    }

    fn failed(error: HandledError) -> (r: (ViewIssues, Action))
        ensures
            r == Self::fail(error),
    {
        (
            ViewIssues::Closing,
            Action::Followup(Text::Error { before: "Error: ", error, after: "" }),
        )
    }

    fn gather_more(gathering: Gathering, answer: Answer) -> (r: (ViewIssues, Action))
        ensures
            r == Self::gather(gathering, answer),
    {
        match create_issue_overview_embeds(gathering, answer) {
            Gathered::Ask(later, action) => (ViewIssues::Gathering(later), action),
            Gathered::Ready(overview) => {
                if overview.is_empty() {
                    return (ViewIssues::Closing, Action::Followup(Text::Plain(NO_ISSUES)));
                }
                (ViewIssues::Closing, Action::FollowupOverview(overview))
            },
            Gathered::Failed(error) => Self::failed(error),
        }
    }
}

impl Flow for ViewIssues {
    open spec fn next(self, answer: Answer) -> (Self, Action) {
        match (self, answer) {
            (ViewIssues::New { pr_id }, Answer::Start) => (
                ViewIssues::Lookup,
                Action::Database(Statement::SelectDiscussionByPr { pr_id: column_of(pr_id) }),
            ),
            (ViewIssues::Lookup, Answer::Discussion(row)) => match by_pr_result(row) {
                Some(discussion) => (
                    ViewIssues::Acknowledging { discussion },
                    Action::Acknowledge,
                ),
                None => Self::fail(HandledError::InternalError),
            },
            (ViewIssues::Acknowledging { discussion }, _) => Self::gather(
                Gathering { discussion, stage: GatherStage::New },
                Answer::Start,
            ),
            (ViewIssues::Gathering(gathering), _) => Self::gather(gathering, answer),
            _ => (ViewIssues::Over, Action::Finish),
        }
    }
}

impl Run for ViewIssues {
    fn step(self, answer: Answer) -> (r: (Self, Action)) {
        match (self, answer) {
            (ViewIssues::New { pr_id }, Answer::Start) => (
                ViewIssues::Lookup,
                Action::Database(DiscussionRecord::get_by_pr_statement(pr_id)),
            ),
            (ViewIssues::Lookup, Answer::Discussion(row)) => {
                match DiscussionRecord::get_by_pr(row) {
                    Some(discussion) => (
                        ViewIssues::Acknowledging { discussion },
                        Action::Acknowledge,
                    ),
                    None => Self::failed(HandledError::InternalError),
                }
            },
            (ViewIssues::Acknowledging { discussion }, _) => Self::gather_more(
                Gathering { discussion, stage: GatherStage::New },
                Answer::Start,
            ),
            (ViewIssues::Gathering(gathering), answer) => Self::gather_more(gathering, answer),
            _ => (ViewIssues::Over, Action::Finish),
        }
    }
}

/// A step of showing the issues of a discussion.
pub fn button_click_view_issues_task(run: ViewIssues, answer: Answer) -> (r: (ViewIssues, Action))
    ensures
        r == run.next(answer),
{
    run.step(answer)
}

/// The button for the issues acknowledges the press, gathers the overview of the discussion of its
/// pull request and shows it; that there is nothing to show, or that something failed, is told.
pub proof fn law_issues_are_shown_on_a_press(
    pr_id: u64,
    row: DiscussionRow,
    gathering: Gathering,
    answer: Answer,
    any: Answer,
)
    ensures
        ({
            let (r1, a1) = (ViewIssues::New { pr_id }).next(Answer::Start);
            let (r2, a2) = r1.next(Answer::Discussion(Ok(row)));
            let (r3, a3) = r2.next(any);
            let step = (ViewIssues::Gathering(gathering)).next(answer);
            &&& a1 == Action::Database(Statement::SelectDiscussionByPr { pr_id: column_of(pr_id) })
            &&& a2 == Action::Acknowledge
            &&& a3 == Action::FetchChannel(row.thread_id)
            &&& forall|error: DbError|
                (#[trigger] r1.next(Answer::Discussion(Err(error)))).1 == Action::Followup(
                    Text::Error {
                        before: "Error: ",
                        error: HandledError::InternalError,
                        after: "",
                    },
                )
            &&& match gathering.next(answer) {
                Gathered::Ask(later, action) => step == (ViewIssues::Gathering(later), action),
                Gathered::Ready(overview) => {
                    &&& overview.entries is Empty ==> step.1 == Action::Followup(
                        Text::Plain(
                            "There are no issues or overrides associated with this discussion.",
                        ),
                    )
                    &&& !(overview.entries is Empty) ==> step.1 == Action::FollowupOverview(
                        overview,
                    )
                    &&& step.0.next(any).1 == Action::Finish
                },
                Gathered::Failed(error) => {
                    &&& step.1 == Action::Followup(
                        Text::Error { before: "Error: ", error, after: "" },
                    )
                    &&& step.0.next(any).1 == Action::Finish
                },
            }
        }),
{
}

} // verus!
