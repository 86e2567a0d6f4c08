//! The overview of all issues and votes of a discussion.

use vstd::prelude::*;

use crate::discord::action::{
    closes_with, closes_with_error, Action, Answer, FetchedMessage, Flow, GuildChannel, Run,
    TargetMessage,
};
use crate::discord::content_review::data::discussions::{
    by_thread_result, votes_result, DiscussionRecord,
};
use crate::discord::content_review::raised_issues::embeds::{create_message_embed, message_embed};
use crate::discord::error::{DbError, HandledError};
use crate::discord::ids::{column_of, ChannelId, GuildId, MessageId, UserId};
use crate::discord::message::{embeds_view, pieces, split_embeds, Embed, EmbedView, MAX_EMBEDS};
use crate::discord::permissions::check::{Body, Command};
use crate::discord::permissions::data::Permission;
use crate::discord::store::{DiscussionRow, Statement, Vote};
use crate::discord::texts::Text;

verus! {

/// The thread that a discussion is held in.
#[derive(Clone, Copy, Debug, PartialEq, Eq, Structural)]
pub struct Place {
    pub channel: ChannelId,
    pub guild: GuildId,
}

/// A message in an overview.
#[derive(Debug)]
pub struct Entry {
    pub message: MessageId,
    /// Whether it states a vote; if not, it states an issue.
    pub is_override: bool,
    /// The message, if it could be fetched.
    pub fetched: Option<FetchedMessage>,
}

/// The messages of an overview, one behind the other.
#[derive(Debug)]
pub enum Entries {
    Empty,
    Behind { before: Box<Entries>, last: Entry },
}

impl Entry {
    /// How the message is shown.
    pub open spec fn embed(self, place: Place) -> EmbedView {
        message_embed(
            self.message,
            place.channel,
            place.guild,
            self.fetched,
            Some(
                if self.is_override {
                    "override"@
                } else {
                    "issue"@
                },
            ),
        )
    }
}

impl Entries {
    /// How the messages are shown, in order.
    pub open spec fn embeds(self, place: Place) -> Seq<EmbedView>
        decreases self,
    {
        match self {
            Entries::Empty => Seq::empty(),
            Entries::Behind { before, last } => before.embeds(place).push(last.embed(place)),
        }
    }

    fn push_embeds(&self, place: Place, out: &mut Vec<Embed>)
        ensures
            embeds_view(final(out)@) == embeds_view(old(out)@) + self.embeds(place),
        decreases self,
    {
        match self {
            Entries::Empty => {
                assert(embeds_view(out@) + self.embeds(place) =~= embeds_view(out@));
            },
            Entries::Behind { before, last } => {
                before.push_embeds(place, out);
                let ghost so_far = out@;
                let label = if last.is_override {
                    "override"
                } else {
                    "issue"
                };
                out.push(
                    create_message_embed(
                        last.message,
                        place.channel,
                        place.guild,
                        &last.fetched,
                        Some(label),
                    ),
                );
                assert(embeds_view(out@) =~= embeds_view(so_far).push(last.embed(place)));
                assert(embeds_view(out@) =~= embeds_view(old(out)@) + self.embeds(place));
            },
        }
    }
}

/// An overview: messages in a thread.
#[derive(Debug)]
pub struct Overview {
    pub place: Place,
    pub entries: Entries,
}

proof fn lemma_pieces_of_views(s: Seq<Embed>)
    ensures
        pieces(s).map_values(|piece: Seq<Embed>| embeds_view(piece)) == pieces(embeds_view(s)),
    decreases s.len(),
{
    let shown = |piece: Seq<Embed>| embeds_view(piece);
    let v = embeds_view(s);
    if s.len() == 0 {
        assert(pieces(s).map_values(shown) =~= pieces(v));
    } else if s.len() <= MAX_EMBEDS {
        assert(pieces(s).map_values(shown) =~= pieces(v));
    } else {
        let n = MAX_EMBEDS as int;
        lemma_pieces_of_views(s.skip(n));
        assert(embeds_view(s.skip(n)) =~= v.skip(n));
        assert(embeds_view(s.take(n)) =~= v.take(n));
        assert(pieces(s).map_values(shown) =~= seq![v.take(n)] + pieces(s.skip(n)).map_values(
            shown,
        ));
    }
}

impl Overview {
    /// Whether there is nothing to show.
    pub fn is_empty(&self) -> (r: bool)
        ensures
            r == (self.entries is Empty),
    {
        match self.entries {
            Entries::Empty => true,
            _ => false,
        }
    }

    /// The messages that the overview fills, each with as many embeds as it has room for.
    pub fn messages(&self) -> (r: Vec<Vec<Embed>>)
        ensures
            r@.map_values(|piece: Vec<Embed>| embeds_view(piece@)) == pieces(
                self.entries.embeds(self.place),
            ),
    {
        let mut embeds: Vec<Embed> = Vec::new();
        self.entries.push_embeds(self.place, &mut embeds);
        let ghost all = embeds@;
        assert(embeds_view(Seq::<Embed>::empty()) =~= Seq::<EmbedView>::empty());
        assert(embeds_view(all) =~= self.entries.embeds(self.place));
        let out = split_embeds(embeds);
        proof {
            lemma_pieces_of_views(all);
            assert(out@.map_values(|piece: Vec<Embed>| embeds_view(piece@)) =~= out@.map_values(
                |piece: Vec<Embed>| piece@,
            ).map_values(|piece: Seq<Embed>| embeds_view(piece)));
        }
        out
    }
}

/// The gathering of an overview.
#[derive(Debug)]
pub struct Gathering {
    pub discussion: DiscussionRecord,
    pub stage: GatherStage,
}

/// How far the gathering has got.
#[derive(Debug)]
pub enum GatherStage {
    New,
    Channel,
    Issues { place: Place },
    Overrides { place: Place, issues: Vec<Vote> },
    FetchingIssue {
        place: Place,
        issues: Vec<Vote>,
        overrides: Vec<Vote>,
        at: usize,
        entries: Entries,
    },
    FetchingOverride { place: Place, overrides: Vec<Vote>, at: usize, entries: Entries },
}

/// What a step of the gathering comes to.
#[derive(Debug)]
pub enum Gathered {
    Ask(Gathering, Action),
    Ready(Overview),
    Failed(HandledError),
}

/// The entries with one more behind them.
pub open spec fn extended(
    entries: Entries,
    message: MessageId,
    is_override: bool,
    fetched: Option<FetchedMessage>,
) -> Entries {
    Entries::Behind {
        before: Box::new(entries),
        last: Entry { message, is_override, fetched },
    }
}

impl Gathering {
    /// The gathering at another stage.
    pub open spec fn at(self, stage: GatherStage) -> Gathering {
        Gathering { stage, ..self }
    }

    /// Goes on with the votes from a place on.
    pub open spec fn take_overrides(
        self,
        place: Place,
        overrides: Vec<Vote>,
        at: int,
        entries: Entries,
    ) -> Gathered {
        if at < overrides@.len() {
            Gathered::Ask(
                self.at(
                    GatherStage::FetchingOverride { place, overrides, at: at as usize, entries },
                ),
                Action::FetchMessage(place.channel, overrides@[at].1),
            )
        } else {
            Gathered::Ready(Overview { place, entries })
        }
    }

    /// Goes on with the issues from a place on; the votes come behind them.
    pub open spec fn take_issues(
        self,
        place: Place,
        issues: Vec<Vote>,
        overrides: Vec<Vote>,
        at: int,
        entries: Entries,
    ) -> Gathered {
        if at < issues@.len() {
            Gathered::Ask(
                self.at(
                    GatherStage::FetchingIssue {
                        place,
                        issues,
                        overrides,
                        at: at as usize,
                        entries,
                    },
                ),
                Action::FetchMessage(place.channel, issues@[at].1),
            )
        } else {
            self.take_overrides(place, overrides, 0, entries)
        }
    }

    /// What a step comes to.
    pub open spec fn next(self, answer: Answer) -> Gathered {
        match (self.stage, answer) {
            (GatherStage::New, Answer::Start) => Gathered::Ask(
                self.at(GatherStage::Channel),
                Action::FetchChannel(self.discussion.thread_id),
            ),
            (GatherStage::Channel, Answer::Channel(Some(channel))) => Gathered::Ask(
                self.at(
                    GatherStage::Issues {
                        place: Place { channel: channel.id, guild: channel.guild },
                    },
                ),
                Action::Database(self.discussion.get_raised_issues_query()),
            ),
            (GatherStage::Issues { place }, Answer::Votes(found)) => match votes_result(found) {
                Ok(issues) => Gathered::Ask(
                    self.at(GatherStage::Overrides { place, issues }),
                    Action::Database(self.discussion.get_issue_overrides_query()),
                ),
                Err(error) => Gathered::Failed(error),
            },
            (GatherStage::Overrides { place, issues }, Answer::Votes(found)) => match votes_result(
                found,
            ) {
                Ok(overrides) => self.take_issues(place, issues, overrides, 0, Entries::Empty),
                Err(error) => Gathered::Failed(error),
            },
            (
                GatherStage::FetchingIssue { place, issues, overrides, at, entries },
                Answer::Fetched(fetched),
            ) => if at < issues@.len() {
                self.take_issues(
                    place,
                    issues,
                    overrides,
                    at + 1,
                    extended(entries, issues@[at as int].1, false, fetched),
                )
            } else {
                Gathered::Failed(HandledError::InternalError)
            },
            (
                GatherStage::FetchingOverride { place, overrides, at, entries },
                Answer::Fetched(fetched),
            ) => if at < overrides@.len() {
                self.take_overrides(
                    place,
                    overrides,
                    at + 1,
                    extended(entries, overrides@[at as int].1, true, fetched),
                )
            } else {
                Gathered::Failed(HandledError::InternalError)
            },
            _ => Gathered::Failed(HandledError::InternalError),
        }
    }

    fn taken_overrides(self, place: Place, overrides: Vec<Vote>, at: usize, entries: Entries) -> (r:
        Gathered)
        ensures
            r == self.take_overrides(place, overrides, at as int, entries),
    {
        if at < overrides.len() {
            let message = overrides[at].1;
            Gathered::Ask(
                Gathering {
                    discussion: self.discussion,
                    stage: GatherStage::FetchingOverride { place, overrides, at, entries },
                },
                Action::FetchMessage(place.channel, message),
            )
        } else {
            Gathered::Ready(Overview { place, entries })
        }
    }

    fn taken_issues(
        self,
        place: Place,
        issues: Vec<Vote>,
        overrides: Vec<Vote>,
        at: usize,
        entries: Entries,
    ) -> (r: Gathered)
        ensures
            r == self.take_issues(place, issues, overrides, at as int, entries),
    {
        if at < issues.len() {
            let message = issues[at].1;
            Gathered::Ask(
                Gathering {
                    discussion: self.discussion,
                    stage: GatherStage::FetchingIssue { place, issues, overrides, at, entries },
                },
                Action::FetchMessage(place.channel, message),
            )
        } else {
            self.taken_overrides(place, overrides, 0, entries)
        }
    }
}

/// A step of the gathering of an overview.
pub fn create_issue_overview_embeds(run: Gathering, answer: Answer) -> (r: Gathered)
    ensures
        r == run.next(answer),
{
    let discussion = run.discussion;
    match (run.stage, answer) {
        (GatherStage::New, Answer::Start) => {
            let thread = discussion.thread_id;
            Gathered::Ask(
                Gathering { discussion, stage: GatherStage::Channel },
                Action::FetchChannel(thread),
            )
        },
        (GatherStage::Channel, Answer::Channel(Some(channel))) => {
            let statement = discussion.get_raised_issues_statement();
            let place = Place { channel: channel.id, guild: channel.guild };
            Gathered::Ask(
                Gathering { discussion, stage: GatherStage::Issues { place } },
                Action::Database(statement),
            )
        },
        (GatherStage::Issues { place }, Answer::Votes(found)) => {
            match DiscussionRecord::get_raised_issues(found) {
                Ok(issues) => {
                    let statement = discussion.get_issue_overrides_statement();
                    Gathered::Ask(
                        Gathering { discussion, stage: GatherStage::Overrides { place, issues } },
                        Action::Database(statement),
                    )
                },
                Err(error) => Gathered::Failed(error),
            }
        },
        (GatherStage::Overrides { place, issues }, Answer::Votes(found)) => {
            match DiscussionRecord::get_issue_overrides(found) {
                Ok(overrides) => (Gathering { discussion, stage: GatherStage::New }).taken_issues(
                    place,
                    issues,
                    overrides,
                    0,
                    Entries::Empty,
                ),
                Err(error) => Gathered::Failed(error),
            }
        },
        (
            GatherStage::FetchingIssue { place, issues, overrides, at, entries },
            Answer::Fetched(fetched),
        ) => {
            if at >= issues.len() {
                return Gathered::Failed(HandledError::InternalError);
            }
            let message = issues[at].1;
            let entries = Entries::Behind {
                before: Box::new(entries),
                last: Entry { message, is_override: false, fetched },
            };
            (Gathering { discussion, stage: GatherStage::New }).taken_issues(
                place,
                issues,
                overrides,
                at + 1,
                entries,
            )
        },
        (
            GatherStage::FetchingOverride { place, overrides, at, entries },
            Answer::Fetched(fetched),
        ) => {
            if at >= overrides.len() {
                return Gathered::Failed(HandledError::InternalError);
            }
            let message = overrides[at].1;
            let entries = Entries::Behind {
                before: Box::new(entries),
                last: Entry { message, is_override: true, fetched },
            };
            (Gathering { discussion, stage: GatherStage::New }).taken_overrides(
                place,
                overrides,
                at + 1,
                entries,
            )
        },
        _ => Gathered::Failed(HandledError::InternalError),
    }
}

/// What a gathering comes to within a number of steps, when each message that it asks for turns
/// out as given.
pub open spec fn gathered(
    step: Gathered,
    fetched: spec_fn(MessageId) -> Option<FetchedMessage>,
    steps: nat,
) -> Gathered
    decreases steps,
{
    match step {
        Gathered::Ask(later, Action::FetchMessage(_, message)) => if steps == 0 {
            step
        } else {
            gathered(later.next(Answer::Fetched(fetched(message))), fetched, (steps - 1) as nat)
        },
        _ => step,
    }
}

/// How the messages of some issues, or of some votes, are shown.
pub open spec fn shown(
    votes: Seq<Vote>,
    is_override: bool,
    fetched: spec_fn(MessageId) -> Option<FetchedMessage>,
    place: Place,
) -> Seq<EmbedView> {
    votes.map_values(
        |vote: Vote| (Entry { message: vote.1, is_override, fetched: fetched(vote.1) }).embed(place),
    )
}

proof fn lemma_overrides_gathered(
    run: Gathering,
    place: Place,
    overrides: Vec<Vote>,
    at: int,
    entries: Entries,
    fetched: spec_fn(MessageId) -> Option<FetchedMessage>,
    steps: nat,
)
    requires
        0 <= at <= overrides@.len(),
        steps >= overrides@.len() - at,
    ensures
        match gathered(run.take_overrides(place, overrides, at, entries), fetched, steps) {
            Gathered::Ready(overview) => {
                &&& overview.place == place
                &&& overview.entries.embeds(place) == entries.embeds(place) + shown(
                    overrides@.skip(at),
                    true,
                    fetched,
                    place,
                )
            },
            _ => false,
        },
    decreases overrides@.len() - at,
{
    assert(overrides@.len() == overrides.len());
    let rest = overrides@.skip(at);
    if at < overrides@.len() {
        let message = overrides@[at].1;
        let more = extended(entries, message, true, fetched(message));
        lemma_overrides_gathered(
            run,
            place,
            overrides,
            at + 1,
            more,
            fetched,
            (steps - 1) as nat,
        );
        let asked = run.at(
            GatherStage::FetchingOverride { place, overrides, at: at as usize, entries },
        );
        assert(asked.take_overrides(place, overrides, at + 1, more) == run.take_overrides(
            place,
            overrides,
            at + 1,
            more,
        ));
        let one = (Entry { message, is_override: true, fetched: fetched(message) }).embed(place);
        assert(more.embeds(place) == entries.embeds(place).push(one));
        assert(shown(rest, true, fetched, place) =~= seq![one] + shown(
            overrides@.skip(at + 1),
            true,
            fetched,
            place,
        ));
        assert(entries.embeds(place).push(one) + shown(overrides@.skip(at + 1), true, fetched, place)
            =~= entries.embeds(place) + shown(rest, true, fetched, place));
    } else {
        assert(shown(rest, true, fetched, place) =~= Seq::<EmbedView>::empty());
        assert(entries.embeds(place) + Seq::<EmbedView>::empty() =~= entries.embeds(place));
    }
}

proof fn lemma_issues_gathered(
    run: Gathering,
    place: Place,
    issues: Vec<Vote>,
    overrides: Vec<Vote>,
    at: int,
    entries: Entries,
    fetched: spec_fn(MessageId) -> Option<FetchedMessage>,
    steps: nat,
)
    requires
        0 <= at <= issues@.len(),
        steps >= issues@.len() - at + overrides@.len(),
    ensures
        match gathered(run.take_issues(place, issues, overrides, at, entries), fetched, steps) {
            Gathered::Ready(overview) => {
                &&& overview.place == place
                &&& overview.entries.embeds(place) == entries.embeds(place) + shown(
                    issues@.skip(at),
                    false,
                    fetched,
                    place,
                ) + shown(overrides@, true, fetched, place)
            },
            _ => false,
        },
    decreases issues@.len() - at,
{
    assert(issues@.len() == issues.len());
    let rest = issues@.skip(at);
    if at < issues@.len() {
        let message = issues@[at].1;
        let more = extended(entries, message, false, fetched(message));
        lemma_issues_gathered(
            run,
            place,
            issues,
            overrides,
            at + 1,
            more,
            fetched,
            (steps - 1) as nat,
        );
        let asked = run.at(
            GatherStage::FetchingIssue { place, issues, overrides, at: at as usize, entries },
        );
        assert(asked.take_issues(place, issues, overrides, at + 1, more) == run.take_issues(
            place,
            issues,
            overrides,
            at + 1,
            more,
        ));
        let one = (Entry { message, is_override: false, fetched: fetched(message) }).embed(place);
        assert(more.embeds(place) == entries.embeds(place).push(one));
        assert(shown(rest, false, fetched, place) =~= seq![one] + shown(
            issues@.skip(at + 1),
            false,
            fetched,
            place,
        ));
        assert(entries.embeds(place).push(one) + shown(issues@.skip(at + 1), false, fetched, place)
            =~= entries.embeds(place) + shown(rest, false, fetched, place));
    } else {
        lemma_overrides_gathered(run, place, overrides, 0, entries, fetched, steps);
        assert(overrides@.skip(0) =~= overrides@);
        assert(shown(rest, false, fetched, place) =~= Seq::<EmbedView>::empty());
        assert(entries.embeds(place) + Seq::<EmbedView>::empty() =~= entries.embeds(place));
    }
}

/// The overview is complete and in order: it shows every issue of the discussion and behind them
/// every vote, each once, whether or not its message can be fetched.
pub proof fn law_overview_is_complete(
    run: Gathering,
    place: Place,
    issues: Vec<Vote>,
    overrides: Vec<Vote>,
    fetched: spec_fn(MessageId) -> Option<FetchedMessage>,
    steps: nat,
)
    requires
        run.stage == (GatherStage::Overrides { place, issues }),
        steps >= issues@.len() + overrides@.len(),
    ensures
        match gathered(run.next(Answer::Votes(Ok(overrides))), fetched, steps) {
            Gathered::Ready(overview) => overview.entries.embeds(overview.place) == shown(
                issues@,
                false,
                fetched,
                place,
            ) + shown(overrides@, true, fetched, place),
            _ => false,
        },
{
    lemma_issues_gathered(run, place, issues, overrides, 0, Entries::Empty, fetched, steps);
    assert(issues@.skip(0) =~= issues@);
    assert(Entries::Empty.embeds(place) + shown(issues@, false, fetched, place) =~= shown(
        issues@,
        false,
        fetched,
        place,
    ));
}

/// The command that shows the overview.
#[derive(Debug)]
pub struct ShowOverview {
    /// The channel that the command was given in.
    pub channel: ChannelId,
    pub stage: ShowStage,
}

/// How far that has got.
#[derive(Debug)]
pub enum ShowStage {
    New,
    Lookup,
    Gathering(Gathering),
    /// Showing the overview; whether that succeeds makes no difference.
    Showing,
    /// The last reply is under way.
    Closing,
    Over,
}

impl ShowOverview {
    /// The run at another stage.
    pub open spec fn at(self, stage: ShowStage) -> ShowOverview {
        ShowOverview { stage, ..self }
    }

    /// Does a step of the gathering, and shows the overview once it is gathered.
    pub open spec fn gather(self, gathering: Gathering, answer: Answer) -> (ShowOverview, Action) {
        match gathering.next(answer) {
            Gathered::Ask(later, action) => (self.at(ShowStage::Gathering(later)), action),
            Gathered::Ready(overview) => (
                self.at(ShowStage::Showing),
                Action::ReplyOverview(overview),
            ),
            Gathered::Failed(error) => (
                self.at(ShowStage::Closing),
                Action::Reply(
                    Text::Error { before: "Failed to create overview: ", error, after: "" },
                ),
            ),
        }
    }

    fn gather_more(self, gathering: Gathering, answer: Answer) -> (r: (ShowOverview, Action))
        ensures
            r == self.gather(gathering, answer),
    {
        let channel = self.channel;
        match create_issue_overview_embeds(gathering, answer) {
            Gathered::Ask(later, action) => (
                ShowOverview { channel, stage: ShowStage::Gathering(later) },
                action,
            ),
            Gathered::Ready(overview) => (
                ShowOverview { channel, stage: ShowStage::Showing },
                Action::ReplyOverview(overview),
            ),
            Gathered::Failed(error) => (
                ShowOverview { channel, stage: ShowStage::Closing },
                Action::Reply(
                    Text::Error { before: "Failed to create overview: ", error, after: "" },
                ),
            ),
        }
    }
}

/// What a user is told who asks for an overview outside of a review thread.
pub const NOTHING_TO_VIEW: &'static str =
    "Issues can only be raised in review threads, there is nothing to view here.";

impl Flow for ShowOverview {
    open spec fn next(self, answer: Answer) -> (Self, Action) {
        match (self.stage, answer) {
            (ShowStage::New, Answer::Start) => (
                self.at(ShowStage::Lookup),
                Action::Database(
                    Statement::SelectDiscussionByThread { thread_id: column_of(self.channel@) },
                ),
            ),
            (ShowStage::Lookup, Answer::Discussion(row)) => match by_thread_result(row) {
                Some(discussion) => self.gather(
                    Gathering { discussion, stage: GatherStage::New },
                    Answer::Start,
                ),
                None => (
                    self.at(ShowStage::Closing),
                    Action::Reply(Text::Plain(NOTHING_TO_VIEW)),
                ),
            },
            (ShowStage::Gathering(gathering), _) => self.gather(gathering, answer),
            (ShowStage::Showing, _) => (self.at(ShowStage::Over), Action::Finish),
            (ShowStage::Closing, Answer::Done) => (self.at(ShowStage::Over), Action::Finish),
            _ => (self.at(ShowStage::Over), Action::Abort(None)),
        }
    }
}

impl Run for ShowOverview {
    fn step(self, answer: Answer) -> (r: (Self, Action)) {
        let channel = self.channel;
        let run = ShowOverview { channel, stage: ShowStage::Over };
        match (self.stage, answer) {
            (ShowStage::New, Answer::Start) => {
                let statement = DiscussionRecord::get_by_thread_statement(channel);
                (ShowOverview { channel, stage: ShowStage::Lookup }, Action::Database(statement))
            },
            (ShowStage::Lookup, Answer::Discussion(row)) => {
                match DiscussionRecord::get_by_thread(row) {
                    Some(discussion) => run.gather_more(
                        Gathering { discussion, stage: GatherStage::New },
                        Answer::Start,
                    ),
                    None => (
                        ShowOverview { channel, stage: ShowStage::Closing },
                        Action::Reply(Text::Plain(NOTHING_TO_VIEW)),
                    ),
                }
            },
            (ShowStage::Gathering(gathering), answer) => run.gather_more(gathering, answer),
            (ShowStage::Showing, _) => (run, Action::Finish),
            (ShowStage::Closing, Answer::Done) => (run, Action::Finish),
            _ => (run, Action::Abort(None)),
        }
    }
}

impl Body for ShowOverview {
    open spec fn needs() -> Permission {
        Permission::ContentReviewer
    }

    fn needed() -> (r: Permission) {
        Permission::ContentReviewer
    }
}

/// A step of the command that shows the overview.
pub fn cr_issue_overview_impl(run: Command<ShowOverview>, answer: Answer) -> (r: (
    Command<ShowOverview>,
    Action,
))
    ensures
        r == run.next(answer),
{
    run.step(answer)
}

/// Begins to show all issues and votes.
pub fn cr_issue_overview(author: UserId, channel: ChannelId) -> (r: Command<ShowOverview>)
    ensures
        r == (Command::New { author, body: ShowOverview { channel, stage: ShowStage::New } }),
{
    Command::New { author, body: ShowOverview { channel, stage: ShowStage::New } }
}

/// Begins to show all issues and votes, from the menu of any message.
pub fn cr_issue_overview_context(author: UserId, channel: ChannelId, _message: TargetMessage) -> (r:
    Command<ShowOverview>)
    ensures
        r == (Command::New { author, body: ShowOverview { channel, stage: ShowStage::New } }),
{
    cr_issue_overview(author, channel)
}

/// An overview is gathered from the thread of its discussion: its channel is fetched, and all issues
/// and then all votes of the pull request are asked for. What fails ends it.
pub proof fn law_overview_asks_for_everything(
    discussion: DiscussionRecord,
    channel: GuildChannel,
    issues: Vec<Vote>,
    overrides: Vec<Vote>,
    error: DbError,
)
    ensures
        ({
            let first = Gathering { discussion, stage: GatherStage::New };
            let place = Place { channel: channel.id, guild: channel.guild };
            match first.next(Answer::Start) {
                Gathered::Ask(g1, a1) => {
                    &&& a1 == Action::FetchChannel(discussion.thread_id)
                    &&& g1.next(Answer::Channel(None)) == Gathered::Failed(
                        HandledError::InternalError,
                    )
                    &&& match g1.next(Answer::Channel(Some(channel))) {
                        Gathered::Ask(g2, a2) => {
                            &&& a2 == Action::Database(
                                Statement::SelectIssues { pr_id: column_of(discussion.pr_id) },
                            )
                            &&& g2.next(Answer::Votes(Err(error))) == Gathered::Failed(
                                HandledError::InternalError,
                            )
                            &&& match g2.next(Answer::Votes(Ok(issues))) {
                                Gathered::Ask(g3, a3) => {
                                    &&& a3 == Action::Database(
                                        Statement::SelectOverrides {
                                            pr_id: column_of(discussion.pr_id),
                                        },
                                    )
                                    &&& g3.stage == (GatherStage::Overrides { place, issues })
                                    &&& g3.next(Answer::Votes(Err(error))) == Gathered::Failed(
                                        HandledError::InternalError,
                                    )
                                    &&& issues@.len() > 0 ==> (g3.next(
                                        Answer::Votes(Ok(overrides)),
                                    ) matches Gathered::Ask(_, a4) && a4 == Action::FetchMessage(
                                        channel.id,
                                        issues@[0].1,
                                    ))
                                    &&& issues@.len() == 0 && overrides@.len() > 0 ==> (g3.next(
                                        Answer::Votes(Ok(overrides)),
                                    ) matches Gathered::Ask(_, a4) && a4 == Action::FetchMessage(
                                        channel.id,
                                        overrides@[0].1,
                                    ))
                                    &&& issues@.len() == 0 && overrides@.len() == 0 ==> g3.next(
                                        Answer::Votes(Ok(overrides)),
                                    ) == Gathered::Ready(
                                        Overview { place, entries: Entries::Empty },
                                    )
                                },
                                _ => false,
                            }
                        },
                        _ => false,
                    }
                },
                _ => false,
            }
        }),
{
}

/// The command for an overview looks for the discussion of its channel, gathers the overview of that
/// discussion and shows it; what fails is told.
pub proof fn law_overview_is_shown_as_asked(
    run: ShowOverview,
    row: DiscussionRow,
    gathering: Gathering,
    answer: Answer,
    any: Answer,
)
    requires
        run.stage is New,
    ensures
        ({
            let (r1, a1) = run.next(Answer::Start);
            let (r2, a2) = r1.next(Answer::Discussion(Ok(row)));
            let middle = ShowOverview { stage: ShowStage::Gathering(gathering), ..run };
            let step = middle.next(answer);
            &&& a1 == Action::Database(
                Statement::SelectDiscussionByThread { thread_id: column_of(run.channel@) },
            )
            &&& a2 == Action::FetchChannel(row.thread_id)
            &&& forall|error: DbError|
                closes_with(
                    #[trigger] r1.next(Answer::Discussion(Err(error))),
                    Text::Plain(
                        "Issues can only be raised in review threads, there is nothing to view here.",
                    ),
                )
            &&& match gathering.next(answer) {
                Gathered::Ask(later, action) => step.1 == action && step.0.stage
                    == ShowStage::Gathering(later),
                Gathered::Ready(overview) => step.1 == Action::ReplyOverview(overview)
                    && step.0.next(any).1 == Action::Finish,
                Gathered::Failed(error) => closes_with_error(
                    step,
                    "Failed to create overview: ",
                    error,
                ),
            }
        }),
{
}

/// Overviews take the permission of the content review.
pub proof fn law_overviews_take_a_permission(author: UserId, body: ShowOverview)
    ensures
        (Command::New { author, body }).next(Answer::Start).1 == Action::HasFlags(
            author@,
            Permission::ContentReviewer,
        ),
{
}

/// In an overview, an issue is called an issue and a vote is called an override, and each is shown
/// where it stands.
pub proof fn law_entries_are_called_what_they_are(
    message: MessageId,
    fetched: Option<FetchedMessage>,
    place: Place,
)
    ensures
        (Entry { message, is_override: true, fetched }).embed(place) == message_embed(
            message,
            place.channel,
            place.guild,
            fetched,
            Some("override"@),
        ),
        (Entry { message, is_override: false, fetched }).embed(place) == message_embed(
            message,
            place.channel,
            place.guild,
            fetched,
            Some("issue"@),
        ),
{
}

} // verus!
