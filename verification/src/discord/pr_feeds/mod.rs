//! Pull request feeds, and the commands that show and change them.

pub mod data;

use vstd::prelude::*;

use crate::discord::action::{
    action_on, after, closes_with, closes_with_error, Action, Answer, Flow, Run,
};
use crate::discord::error::HandledError;
use crate::discord::ids::{ChannelId, RoleId, UserId};
use crate::discord::permissions::check::{Body, Command};
use crate::discord::permissions::data::Permission;
use crate::discord::pr_feeds::data::PrFeed;
use crate::discord::texts::Text;
use crate::text::chars::same_text;
use crate::text::decimal::{i64_from, parse_i64};

verus! {

/// How far a command has got.
#[derive(Clone, Copy, Debug, PartialEq, Eq, Structural)]
pub enum FeedStage {
    New,
    Labels,
    Working,
    /// The last reply is under way.
    Closing,
    Over,
}

/// The addition of a feed.
#[derive(Debug)]
pub struct AddFeed {
    pub channel: ChannelId,
    pub github_label: String,
    pub ping_role: Option<RoleId>,
    pub stage: FeedStage,
}

/// Whether a text is among those of a list.
pub open spec fn lists(labels: Seq<String>, label: Seq<char>) -> bool {
    exists|i: int| 0 <= i < labels.len() && (#[trigger] labels[i])@ == label
}

fn has_label(labels: &Vec<String>, label: &str) -> (r: bool)
    ensures
        r == lists(labels@, label@),
{
    let mut i: usize = 0;
    while i < labels.len()
        invariant
            i <= labels.len(),
            forall|k: int| 0 <= k < i ==> (#[trigger] labels@[k])@ != label@,
        decreases labels.len() - i,
    {
        if same_text(labels[i].as_str(), label) {
            return true;
        }
        i = i + 1;
    }
    false
}

impl AddFeed {
    /// The run at another stage.
    pub open spec fn at(self, stage: FeedStage) -> AddFeed {
        AddFeed { stage, ..self }
    }

    /// Ends with a reply.
    pub open spec fn close(self, text: Text) -> (AddFeed, Action) {
        (self.at(FeedStage::Closing), Action::Reply(text))
    }

    fn with(self, stage: FeedStage) -> (r: AddFeed)
        ensures
            r == self.at(stage),
    {
        AddFeed {
            channel: self.channel,
            github_label: self.github_label,
            ping_role: self.ping_role,
            stage,
        }
    }

    fn closed(self, text: Text) -> (r: (AddFeed, Action))
        ensures
            r == self.close(text),
    {
        (self.with(FeedStage::Closing), Action::Reply(text))
    }
}

impl Flow for AddFeed {
    open spec fn next(self, answer: Answer) -> (Self, Action) {
        match (self.stage, answer) {
            (FeedStage::New, Answer::Start) => (
                self.at(FeedStage::Labels),
                Action::ListRepoLabels,
            ),
            (FeedStage::Labels, Answer::Labels(None)) => self.close(
                Text::Plain("Failed to fetch repo labels."),
            ),
            (FeedStage::Labels, Answer::Labels(Some(labels))) => if lists(
                labels@,
                self.github_label@,
            ) {
                (
                    self.at(FeedStage::Working),
                    Action::AddFeed {
                        gh_label: self.github_label,
                        channel: self.channel,
                        ping_role: self.ping_role,
                    },
                )
            } else {
                self.close(Text::Plain("The specified label does not exist."))
            },
            (FeedStage::Working, Answer::Updated(Ok(_))) => self.close(
                Text::Plain("Successfully added feed."),
            ),
            (FeedStage::Working, Answer::Updated(Err(error))) => self.close(
                Text::Error { before: "", error, after: "" },
            ),
            (FeedStage::Closing, Answer::Done) => (self.at(FeedStage::Over), Action::Finish),
            _ => (self.at(FeedStage::Over), Action::Abort(None)),
        }
    }
}

impl Run for AddFeed {
    fn step(self, answer: Answer) -> (r: (Self, Action)) {
        match (self.stage, answer) {
            (FeedStage::New, Answer::Start) => (
                self.with(FeedStage::Labels),
                Action::ListRepoLabels,
            ),
            (FeedStage::Labels, Answer::Labels(labels)) => match labels {
                Some(labels) => {
                    if !has_label(&labels, self.github_label.as_str()) {
                        return self.closed(Text::Plain("The specified label does not exist."));
                    }
                    let gh_label = self.github_label.clone();
                    let channel = self.channel;
                    let ping_role = self.ping_role;
                    (
                        self.with(FeedStage::Working),
                        Action::AddFeed { gh_label, channel, ping_role },
                    )
                },
                None => self.closed(Text::Plain("Failed to fetch repo labels.")),
            },
            (FeedStage::Working, Answer::Updated(updated)) => match updated {
                Ok(_) => self.closed(Text::Plain("Successfully added feed.")),
                Err(error) => self.closed(Text::Error { before: "", error, after: "" }),
            },
            (FeedStage::Closing, Answer::Done) => (self.with(FeedStage::Over), Action::Finish),
            _ => (self.with(FeedStage::Over), Action::Abort(None)),
        }
    }
}

impl Body for AddFeed {
    open spec fn needs() -> Permission {
        Permission::PrFeedsEdit
    }

    fn needed() -> (r: Permission) {
        Permission::PrFeedsEdit
    }
}

/// A step of the command that adds a feed.
pub fn pr_feeds_add(run: Command<AddFeed>, answer: Answer) -> (r: (Command<AddFeed>, Action))
    ensures
        r == run.next(answer),
{
    run.step(answer)
}

proof fn lemma_feed_args_stay(run: AddFeed, answers: Seq<Answer>)
    ensures
        after(run, answers) == run.at(after(run, answers).stage),
    decreases answers.len(),
{
    if answers.len() > 0 {
        lemma_feed_args_stay(run, answers.drop_last());
    }
}

/// A feed is added only for a label that the repository has, and as it was asked for.
pub proof fn law_feeds_have_existing_labels(run: AddFeed, answers: Seq<Answer>)
    requires
        answers.len() > 0,
    ensures
        match action_on(run, answers) {
            Action::AddFeed { gh_label, channel, ping_role } => {
                &&& gh_label == run.github_label
                &&& channel == run.channel
                &&& ping_role == run.ping_role
                &&& answers.last() matches Answer::Labels(Some(labels)) && lists(
                    labels@,
                    run.github_label@,
                )
            },
            _ => true,
        },
{
    lemma_feed_args_stay(run, answers.drop_last());
}

/// The listing of the feeds.
#[derive(Debug)]
pub struct ListFeeds {
    pub stage: FeedStage,
}

impl Flow for ListFeeds {
    open spec fn next(self, answer: Answer) -> (Self, Action) {
        match (self.stage, answer) {
            (FeedStage::New, Answer::Start) => (
                ListFeeds { stage: FeedStage::Working },
                Action::ListFeeds,
            ),
            (FeedStage::Working, Answer::Feeds(feeds)) => (
                ListFeeds { stage: FeedStage::Closing },
                Action::Reply(Text::Feeds(feeds)),
            ),
            (FeedStage::Closing, Answer::Done) => (
                ListFeeds { stage: FeedStage::Over },
                Action::Finish,
            ),
            _ => (ListFeeds { stage: FeedStage::Over }, Action::Abort(None)),
        }
    }
}

impl Run for ListFeeds {
    fn step(self, answer: Answer) -> (r: (Self, Action)) {
        match (self.stage, answer) {
            (FeedStage::New, Answer::Start) => (
                ListFeeds { stage: FeedStage::Working },
                Action::ListFeeds,
            ),
            (FeedStage::Working, Answer::Feeds(feeds)) => (
                ListFeeds { stage: FeedStage::Closing },
                Action::Reply(Text::Feeds(feeds)),
            ),
            (FeedStage::Closing, Answer::Done) => (
                ListFeeds { stage: FeedStage::Over },
                Action::Finish,
            ),
            _ => (ListFeeds { stage: FeedStage::Over }, Action::Abort(None)),
        }
    }
}

impl Body for ListFeeds {
    open spec fn needs() -> Permission {
        Permission::PrFeedsEdit
    }

    fn needed() -> (r: Permission) {
        Permission::PrFeedsEdit
    }
}

/// A step of the command that lists the feeds.
pub fn pr_feeds_list(run: Command<ListFeeds>, answer: Answer) -> (r: (Command<ListFeeds>, Action))
    ensures
        r == run.next(answer),
{
    run.step(answer)
}

/// The removal of a feed.
#[derive(Debug)]
pub struct RemoveFeed {
    /// The number of the feed, as the user wrote it.
    pub feed_id: String,
    pub stage: FeedStage,
}

impl Flow for RemoveFeed {
    open spec fn next(self, answer: Answer) -> (Self, Action) {
        match (self.stage, answer) {
            (FeedStage::New, Answer::Start) => match i64_from(self.feed_id@) {
                Some(id) => (
                    RemoveFeed { stage: FeedStage::Working, ..self },
                    Action::RemoveFeed(id),
                ),
                None => (
                    RemoveFeed { stage: FeedStage::Closing, ..self },
                    Action::Reply(Text::Plain("Invalid feed ID. Must be a number.")),
                ),
            },
            (FeedStage::Working, Answer::Updated(Ok(_))) => (
                RemoveFeed { stage: FeedStage::Closing, ..self },
                Action::Reply(Text::Plain("Successfully removed feed.")),
            ),
            (FeedStage::Working, Answer::Updated(Err(error))) => (
                RemoveFeed { stage: FeedStage::Closing, ..self },
                Action::Reply(Text::Error { before: "", error, after: "" }),
            ),
            (FeedStage::Closing, Answer::Done) => (
                RemoveFeed { stage: FeedStage::Over, ..self },
                Action::Finish,
            ),
            _ => (RemoveFeed { stage: FeedStage::Over, ..self }, Action::Abort(None)),
        }
    }
}

impl Run for RemoveFeed {
    fn step(self, answer: Answer) -> (r: (Self, Action)) {
        let feed_id = self.feed_id;
        match (self.stage, answer) {
            (FeedStage::New, Answer::Start) => match parse_i64(feed_id.as_str()) {
                Some(id) => (
                    RemoveFeed { feed_id, stage: FeedStage::Working },
                    Action::RemoveFeed(id),
                ),
                None => (
                    RemoveFeed { feed_id, stage: FeedStage::Closing },
                    Action::Reply(Text::Plain("Invalid feed ID. Must be a number.")),
                ),
            },
            (FeedStage::Working, Answer::Updated(updated)) => match updated {
                Ok(_) => (
                    RemoveFeed { feed_id, stage: FeedStage::Closing },
                    Action::Reply(Text::Plain("Successfully removed feed.")),
                ),
                Err(error) => (
                    RemoveFeed { feed_id, stage: FeedStage::Closing },
                    Action::Reply(Text::Error { before: "", error, after: "" }),
                ),
            },
            (FeedStage::Closing, Answer::Done) => (
                RemoveFeed { feed_id, stage: FeedStage::Over },
                Action::Finish,
            ),
            _ => (RemoveFeed { feed_id, stage: FeedStage::Over }, Action::Abort(None)),
        }
    }
}

impl Body for RemoveFeed {
    open spec fn needs() -> Permission {
        Permission::PrFeedsEdit
    }

    fn needed() -> (r: Permission) {
        Permission::PrFeedsEdit
    }
}

/// A step of the command that removes a feed.
pub fn pr_feeds_remove(run: Command<RemoveFeed>, answer: Answer) -> (r: (Command<RemoveFeed>, Action))
    ensures
        r == run.next(answer),
{
    run.step(answer)
}

/// Feeds are added, listed and removed as asked, and the user is told what came of it. A feed is added
/// only for a label that the repository has.
pub proof fn law_feeds_change_as_asked(
    add: AddFeed,
    list: ListFeeds,
    remove: RemoveFeed,
    labels: Vec<String>,
    feeds: Vec<PrFeed>,
    error: HandledError,
    id: i64,
)
    requires
        add.stage is New,
        list.stage is New,
        remove.stage is New,
    ensures
        ({
            let known = exists|i: int|
                0 <= i < labels@.len() && (#[trigger] labels@[i])@ == add.github_label@;
            let (a1, asked) = add.next(Answer::Start);
            let (a2, adding) = a1.next(Answer::Labels(Some(labels)));
            let (l, listing) = list.next(Answer::Start);
            let (r, removing) = remove.next(Answer::Start);
            &&& asked == Action::ListRepoLabels
            &&& closes_with(
                a1.next(Answer::Labels(None)),
                Text::Plain("Failed to fetch repo labels."),
            )
            &&& !known ==> closes_with(
                (a2, adding),
                Text::Plain("The specified label does not exist."),
            )
            &&& known ==> {
                &&& adding == (Action::AddFeed {
                    gh_label: add.github_label,
                    channel: add.channel,
                    ping_role: add.ping_role,
                })
                &&& closes_with(
                    a2.next(Answer::Updated(Ok(()))),
                    Text::Plain("Successfully added feed."),
                )
                &&& closes_with_error(a2.next(Answer::Updated(Err(error))), "", error)
            }
            &&& listing == Action::ListFeeds
            &&& closes_with(l.next(Answer::Feeds(feeds)), Text::Feeds(feeds))
            &&& i64_from(remove.feed_id@) is None ==> closes_with(
                (r, removing),
                Text::Plain("Invalid feed ID. Must be a number."),
            )
            &&& i64_from(remove.feed_id@) == Some(id) ==> {
                &&& removing == Action::RemoveFeed(id)
                &&& closes_with(
                    r.next(Answer::Updated(Ok(()))),
                    Text::Plain("Successfully removed feed."),
                )
                &&& closes_with_error(r.next(Answer::Updated(Err(error))), "", error)
            }
        }),
{
}

/// Every command about feeds takes the permission to change them.
pub proof fn law_feeds_take_a_permission(
    author: UserId,
    add: AddFeed,
    list: ListFeeds,
    remove: RemoveFeed,
)
    ensures
        ({
            let asked = Action::HasFlags(author@, Permission::PrFeedsEdit);
            &&& (Command::New { author, body: add }).next(Answer::Start).1 == asked
            &&& (Command::New { author, body: list }).next(Answer::Start).1 == asked
            &&& (Command::New { author, body: remove }).next(Answer::Start).1 == asked
        }),
{
}

} // verus!
